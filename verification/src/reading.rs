//! Reading back what is written: numbers, lists of fields, crop filters, pixels.
//!
//! Nothing here is used to write anything. It says what a reader such as ffmpeg
//! takes a text for, whatever wrote it.

use vstd::prelude::*;

verus! {

/// The number that a reader takes digits for, the most significant one first.
pub open spec fn number(text: Seq<char>) -> int
    decreases text.len(),
{
    if text.len() == 0 {
        0
    } else {
        10 * number(text.drop_last()) + (text.last() as int - '0' as int)
    }
}

/// One or more digits, without a leading zero unless it is the only one.
pub open spec fn is_numeral(text: Seq<char>) -> bool {
    &&& text.len() > 0
    &&& forall|i: int| 0 <= i < text.len() ==> '0' <= #[trigger] text[i] <= '9'
    &&& text.len() > 1 ==> text[0] != '0'
}

/// What stands between the separators of `text`.
pub open spec fn fields(text: Seq<char>, separator: char) -> Seq<Seq<char>>
    decreases text.len(),
{
    if text.len() == 0 {
        seq![Seq::empty()]
    } else {
        let before = fields(text.drop_last(), separator);
        if text.last() == separator {
            before.push(Seq::empty())
        } else {
            before.drop_last().push(before.last().push(text.last()))
        }
    }
}

/// Width, height, left edge and top edge of the region that ffmpeg cuts out for
/// a crop filter; `None` where `filter` is no crop filter with four numbers.
pub open spec fn read_crop(filter: Seq<char>) -> Option<(int, int, int, int)> {
    let numbers = fields(filter.skip(5), ':');
    if filter.len() >= 5 && filter.take(5) == seq!['c', 'r', 'o', 'p', '='] && numbers.len() == 4
        && is_numeral(numbers[0]) && is_numeral(numbers[1]) && is_numeral(numbers[2])
        && is_numeral(numbers[3]) {
        Some((number(numbers[0]), number(numbers[1]), number(numbers[2]), number(numbers[3])))
    } else {
        None
    }
}

/// The pixel in column `x` of row `y`, where rows are `width` pixels long.
pub open spec fn pixel(pixels: Seq<[u8; 3]>, width: int, x: int, y: int) -> [u8; 3] {
    pixels[y * width + x]
}

/// `part` shows, row by row and the right way round, what stands in `whole` from
/// column `left` of row `top` on.
pub open spec fn shows(
    part: Seq<[u8; 3]>,
    width: int,
    height: int,
    whole: Seq<[u8; 3]>,
    row: int,
    left: int,
    top: int,
) -> bool {
    &&& part.len() == width * height
    &&& forall|x: int, y: int|
        0 <= x < width && 0 <= y < height ==> #[trigger] pixel(part, width, x, y) == pixel(
            whole,
            row,
            left + x,
            top + y,
        )
}

/// There is always a last field.
proof fn lemma_fields_not_empty(text: Seq<char>, separator: char)
    ensures
        fields(text, separator).len() > 0,
    decreases text.len(),
{
    if text.len() > 0 {
        lemma_fields_not_empty(text.drop_last(), separator);
    }
}

/// A text without separators is one field.
pub proof fn lemma_one_field(text: Seq<char>, separator: char)
    requires
        forall|i: int| 0 <= i < text.len() ==> #[trigger] text[i] != separator,
    ensures
        fields(text, separator) == seq![text],
    decreases text.len(),
{
    if text.len() == 0 {
        assert(text =~= Seq::empty());
    } else {
        let front = text.drop_last();
        assert forall|i: int| 0 <= i < front.len() implies #[trigger] front[i] != separator by {
            assert(front[i] == text[i]);
        }
        lemma_one_field(front, separator);
        assert(text.last() != separator);
        assert(front.push(text.last()) =~= text);
        assert(fields(text, separator) =~= seq![text]);
    }
}

/// What follows the last separator of a text is its last field.
pub proof fn lemma_last_field(before: Seq<char>, separator: char, last: Seq<char>)
    requires
        forall|i: int| 0 <= i < last.len() ==> #[trigger] last[i] != separator,
    ensures
        fields(before.push(separator) + last, separator) == fields(before, separator).push(last),
    decreases last.len(),
{
    let text = before.push(separator) + last;
    if last.len() == 0 {
        assert(last =~= Seq::empty());
        assert(text =~= before.push(separator));
        assert(text.drop_last() =~= before);
    } else {
        let front = last.drop_last();
        assert forall|i: int| 0 <= i < front.len() implies #[trigger] front[i] != separator by {
            assert(front[i] == last[i]);
        }
        lemma_last_field(before, separator, front);
        assert(text.drop_last() =~= before.push(separator) + front);
        assert(text.last() == last.last());
        assert(last.last() != separator);
        assert(front.push(last.last()) =~= last);
        let known = fields(before, separator).push(front);
        assert(known.drop_last() =~= fields(before, separator));
    }
}

} // verus!
