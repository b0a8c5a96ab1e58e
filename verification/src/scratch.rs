//! The directory in which one file is worked on.

use vstd::prelude::*;

use crate::reading::{fields, is_numeral, lemma_last_field, lemma_one_field, number};

use crate::text::{
    append_decimal, decimal, is_digit, lemma_decimal_digits, lemma_decimal_injective,
    lemma_decimal_reads_back,
};

verus! {

/// Name of the downloaded file in the scratch directory.
pub const INPUT_FILE: &'static str = "in";

/// Name of the probe frame in the scratch directory.
pub const FRAME_FILE: &'static str = "frame.jpg";

/// Name of the cropped clip in the scratch directory.
pub const OUTPUT_FILE: &'static str = "out.mp4";

/// Paths of the files in the scratch directory.
#[derive(Debug)]
pub struct Scratch {
    pub input: String,
    pub frame: String,
    pub output: String,
}

/// Paths of the files in the scratch directory.
pub struct ScratchView {
    pub input: Seq<char>,
    pub frame: Seq<char>,
    pub output: Seq<char>,
}

impl View for Scratch {
    type V = ScratchView;

    open spec fn view(&self) -> ScratchView {
        ScratchView { input: self.input@, frame: self.frame@, output: self.output@ }
    }
}

/// Name of the scratch directory that process `pid` makes `nanos` nanoseconds
/// after the epoch.
pub open spec fn dir_name(pid: nat, nanos: nat) -> Seq<char> {
    "autocrop-"@ + decimal(pid) + "-"@ + decimal(nanos)
}

/// Names the scratch directory after the process and the time since the epoch
/// in nanoseconds; a clock before the epoch counts as the epoch.
pub fn scratch_dir_name(pid: u32, since_epoch: Option<u128>) -> (r: String)
    ensures
        r@ == dir_name(
            pid as nat,
            match since_epoch {
                Some(nanos) => nanos as nat,
                None => 0,
            },
        ),
        fields(r@, '-').len() == 3,
        number(fields(r@, '-')[1]) == pid,
        since_epoch matches Some(nanos) ==> number(fields(r@, '-')[2]) == nanos,
        since_epoch is None ==> number(fields(r@, '-')[2]) == 0,
{
    let nanos: u128 = match since_epoch {
        Some(nanos) => nanos,
        None => 0,
    };
    proof {
        lemma_dir_name_reads_back(pid as nat, nanos as nat);
    }
    let mut name = "autocrop-".to_string();
    append_decimal(&mut name, pid as u128);
    name.append("-");
    append_decimal(&mut name, nanos);
    name
}

/// The name of a scratch directory tells the process and the time.
pub proof fn lemma_dir_name_reads_back(pid: nat, nanos: nat)
    ensures
        ({
            let parts = fields(dir_name(pid, nanos), '-');
            &&& parts.len() == 3
            &&& parts[0] == "autocrop"@
            &&& is_numeral(parts[1]) && number(parts[1]) == pid
            &&& is_numeral(parts[2]) && number(parts[2]) == nanos
        }),
{
    reveal_strlit("autocrop-");
    reveal_strlit("autocrop");
    reveal_strlit("-");
    lemma_decimal_reads_back(pid);
    lemma_decimal_reads_back(nanos);
    let one = "autocrop"@;
    let two = one.push('-') + decimal(pid);
    assert(dir_name(pid, nanos) =~= two.push('-') + decimal(nanos));
    lemma_one_field(one, '-');
    lemma_last_field(one, '-', decimal(pid));
    lemma_last_field(two, '-', decimal(nanos));
}

/// Two scratch directories made by different processes, or by one process at
/// different times, have different names.
pub proof fn lemma_dir_names_differ(pid1: nat, nanos1: nat, pid2: nat, nanos2: nat)
    requires
        dir_name(pid1, nanos1) == dir_name(pid2, nanos2),
    ensures
        pid1 == pid2,
        nanos1 == nanos2,
{
    reveal_strlit("-");
    let start = "autocrop-"@.len();
    let (p1, p2) = (decimal(pid1), decimal(pid2));
    let (n1, n2) = (decimal(nanos1), decimal(nanos2));
    let (d1, d2) = (dir_name(pid1, nanos1), dir_name(pid2, nanos2));
    lemma_decimal_digits(pid1);
    lemma_decimal_digits(pid2);
    assert(d1[start + p1.len() as int] == '-');
    assert(d2[start + p2.len() as int] == '-');
    if p1.len() < p2.len() {
        assert(d2[start + p1.len() as int] == p2[p1.len() as int]);
        assert(is_digit('-'));
    }
    if p2.len() < p1.len() {
        assert(d1[start + p2.len() as int] == p1[p2.len() as int]);
        assert(is_digit('-'));
    }
    assert(p1 =~= d1.subrange(start as int, start + p1.len() as int));
    assert(p2 =~= d2.subrange(start as int, start + p2.len() as int));
    assert(n1 =~= d1.skip(start + p1.len() as int + 1));
    assert(n2 =~= d2.skip(start + p2.len() as int + 1));
    lemma_decimal_injective(pid1, pid2);
    lemma_decimal_injective(nanos1, nanos2);
}

} // verus!
