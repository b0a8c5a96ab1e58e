//! Names of the files that the bot sends back.

use vstd::prelude::*;

verus! {

/// What precedes the last dot of `name`; all of `name` where it has none.
pub open spec fn stem_of(name: Seq<char>) -> Seq<char> {
    match name.index_of_last('.') {
        Some(dot) => name.take(dot),
        None => name,
    }
}

/// The name under which the crop of a file called `input` goes back.
pub open spec fn output_name(input: Seq<char>, ext: Seq<char>) -> Seq<char> {
    if stem_of(input).len() == 0 {
        "crop."@ + ext
    } else {
        stem_of(input) + "_crop."@ + ext
    }
}

/// A name's only stem: what precedes a dot that no other dot follows.
pub proof fn lemma_stem_before(name: Seq<char>, dot: int)
    requires
        0 <= dot < name.len(),
        name[dot] == '.',
        forall|j: int| dot < j < name.len() ==> name[j] != '.',
    ensures
        stem_of(name) == name.take(dot),
{
    name.index_of_last_ensures('.');
    assert(name.contains('.'));
    let last = name.index_of_last('.').unwrap();
    assert(last == dot) by {
        if last < dot {
            assert(name[dot] != '.');
        }
        if dot < last {
            assert(name[last] != '.');
        }
    }
}

/// A name without a dot is all stem.
pub proof fn lemma_stem_whole(name: Seq<char>)
    requires
        !name.contains('.'),
    ensures
        stem_of(name) == name,
{
    name.index_of_last_ensures('.');
}

fn stem(name: &str) -> (r: &str)
    ensures
        r@ == stem_of(name@),
{
    let len: usize = name.unicode_len();
    let mut end: usize = len;
    while end > 0
        invariant
            end <= len,
            len == name@.len(),
            forall|j: int| end <= j < len ==> name@[j] != '.',
        decreases end,
    {
        if name.get_char(end - 1) == '.' {
            proof {
                lemma_stem_before(name@, end - 1);
            }
            return name.substring_char(0, end - 1);
        }
        end -= 1;
    }
    proof {
        lemma_stem_whole(name@);
    }
    name
}

/// `shot.png` becomes `shot_crop.<ext>`; no name becomes `crop.<ext>`.
pub fn out_name(input: &str, ext: &str) -> (r: String)
    ensures
        r@ == output_name(input@, ext@),
{
    let stem = stem(input);
    if stem.is_empty() {
        "crop.".to_string().concat(ext)
    } else {
        stem.to_string().concat("_crop.").concat(ext)
    }
}

/// The extension is replaced, whatever it was, and the rest of the name kept.
pub proof fn lemma_extension_replaced(stem: Seq<char>, old_ext: Seq<char>, ext: Seq<char>)
    requires
        stem.len() > 0,
        !old_ext.contains('.'),
    ensures
        output_name(stem + "."@ + old_ext, ext) == stem + "_crop."@ + ext,
{
    reveal_strlit(".");
    let name = stem + "."@ + old_ext;
    assert forall|j: int| stem.len() < j < name.len() implies name[j] != '.' by {
        assert(name[j] == old_ext[j - stem.len() - 1]);
    }
    lemma_stem_before(name, stem.len() as int);
    assert(name.take(stem.len() as int) =~= stem);
}

/// A name that starts with its only dot counts as none.
pub proof fn lemma_extension_alone(old_ext: Seq<char>, ext: Seq<char>)
    requires
        !old_ext.contains('.'),
    ensures
        output_name("."@ + old_ext, ext) == "crop."@ + ext,
{
    reveal_strlit(".");
    let name = "."@ + old_ext;
    assert forall|j: int| 0 < j < name.len() implies name[j] != '.' by {
        assert(name[j] == old_ext[j - 1]);
    }
    lemma_stem_before(name, 0);
    assert(name.take(0).len() == 0);
}

/// A name without an extension is kept whole.
pub proof fn lemma_plain_name_kept(name: Seq<char>, ext: Seq<char>)
    requires
        name.len() > 0,
        !name.contains('.'),
    ensures
        output_name(name, ext) == name + "_crop."@ + ext,
{
    lemma_stem_whole(name);
}

/// Where the sender gave no name, the result is called `crop`.
pub proof fn lemma_no_name(ext: Seq<char>)
    ensures
        output_name(Seq::empty(), ext) == "crop."@ + ext,
{
    lemma_stem_whole(Seq::empty());
}

} // verus!
