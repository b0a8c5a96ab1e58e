//! Command lines for ffmpeg.

use vstd::prelude::*;

use crate::picture::Rect;
use crate::reading::{fields, lemma_last_field, lemma_one_field, read_crop};
use crate::scratch::{Scratch, ScratchView};
use crate::text::{append_decimal, decimal, lemma_decimal_reads_back, push_arg};

verus! {

/// How many probe frames are looked at: the first frame, the one three seconds
/// in, and the last one.
pub const PROBES: usize = 3;

/// What every command line starts with.
pub open spec fn base_args() -> Seq<Seq<char>> {
    seq!["-hide_banner"@, "-loglevel"@, "error"@, "-y"@]
}

/// What moves ffmpeg to the frame of an attempt; for the last frame, close
/// enough to the end that little has to be decoded.
pub open spec fn seek_args(attempt: nat) -> Seq<Seq<char>> {
    if attempt == 0 {
        seq![]
    } else if attempt == 1 {
        seq!["-ss"@, "3"@]
    } else {
        seq!["-sseof"@, "-0.5"@]
    }
}

/// What makes ffmpeg leave one frame behind: it stops after the first one it
/// comes to or, for the last frame, overwrites each frame with the next.
pub open spec fn keep_args(attempt: nat) -> Seq<Seq<char>> {
    if attempt < 2 {
        seq!["-frames:v"@, "1"@]
    } else {
        seq!["-update"@, "1"@]
    }
}

/// The command line that writes the frame of an attempt.
pub open spec fn probe_line(attempt: nat, scratch: ScratchView) -> Seq<Seq<char>> {
    base_args() + seek_args(attempt) + seq!["-i"@, scratch.input] + keep_args(attempt) + seq![
        "-q:v"@,
        "2"@,
        scratch.frame,
    ]
}

/// The largest even number up to `n`.
pub open spec fn even(n: int) -> int {
    n - n % 2
}

/// The filter that cuts out `rect`, with its sides made even, as yuv420p needs.
pub open spec fn crop_filter_of(rect: Rect) -> Seq<char> {
    "crop="@ + decimal(even(rect.x1 - rect.x0) as nat) + ":"@ + decimal(
        even(rect.y1 - rect.y0) as nat,
    ) + ":"@ + decimal(rect.x0 as nat) + ":"@ + decimal(rect.y0 as nat)
}

/// The command line that cuts `rect` out of the whole clip, keeping its sound.
pub open spec fn crop_line(rect: Rect, scratch: ScratchView) -> Seq<Seq<char>> {
    base_args() + seq![
        "-i"@,
        scratch.input,
        "-vf"@,
        crop_filter_of(rect),
        "-c:a"@,
        "copy"@,
        "-movflags"@,
        "+faststart"@,
        "-pix_fmt"@,
        "yuv420p"@,
        scratch.output,
    ]
}

fn base() -> (r: Vec<String>)
    ensures
        r.deep_view() == base_args(),
{
    let mut args: Vec<String> = Vec::new();
    assert(args.deep_view() =~= Seq::empty());
    push_arg(&mut args, "-hide_banner");
    push_arg(&mut args, "-loglevel");
    push_arg(&mut args, "error");
    push_arg(&mut args, "-y");
    assert(args.deep_view() =~= base_args());
    args
}

/// The command line that writes the frame of an attempt.
pub fn probe_args(attempt: usize, scratch: &Scratch) -> (r: Vec<String>)
    requires
        attempt < PROBES,
    ensures
        r.deep_view() == probe_line(attempt as nat, scratch@),
{
    let mut args = base();
    if attempt == 1 {
        push_arg(&mut args, "-ss");
        push_arg(&mut args, "3");
    } else if attempt == 2 {
        push_arg(&mut args, "-sseof");
        push_arg(&mut args, "-0.5");
    }
    assert(args.deep_view() =~= base_args() + seek_args(attempt as nat));
    push_arg(&mut args, "-i");
    push_arg(&mut args, &scratch.input);
    if attempt < 2 {
        push_arg(&mut args, "-frames:v");
    } else {
        push_arg(&mut args, "-update");
    }
    push_arg(&mut args, "1");
    push_arg(&mut args, "-q:v");
    push_arg(&mut args, "2");
    push_arg(&mut args, &scratch.frame);
    assert(args.deep_view() =~= probe_line(attempt as nat, scratch@));
    args
}

/// The largest even number up to `n`.
pub fn even_floor(n: usize) -> (r: usize)
    ensures
        r == even(n as int),
        r % 2 == 0,
        r <= n <= r + 1,
{
    assert(n & !1usize == n - n % 2) by (bit_vector);
    n & !1
}

/// A crop filter is read as a region with even sides that starts at the left
/// and top edges of the rectangle, lies inside it, and leaves out at most one
/// column and one row of it.
pub proof fn lemma_crop_filter_reads_back(rect: Rect)
    requires
        rect.x0 <= rect.x1,
        rect.y0 <= rect.y1,
    ensures
        read_crop(crop_filter_of(rect)) matches Some((width, height, left, top)) && {
            &&& left == rect.x0
            &&& top == rect.y0
            &&& 0 <= width && 0 <= height
            &&& width % 2 == 0
            &&& height % 2 == 0
            &&& rect.x1 - 1 <= left + width <= rect.x1
            &&& rect.y1 - 1 <= top + height <= rect.y1
        },
{
    reveal_strlit("crop=");
    reveal_strlit(":");
    let (width, height) = (even(rect.x1 - rect.x0) as nat, even(rect.y1 - rect.y0) as nat);
    let (left, top) = (rect.x0 as nat, rect.y0 as nat);
    lemma_decimal_reads_back(width);
    lemma_decimal_reads_back(height);
    lemma_decimal_reads_back(left);
    lemma_decimal_reads_back(top);
    let one = decimal(width);
    let two = one.push(':') + decimal(height);
    let three = two.push(':') + decimal(left);
    let four = three.push(':') + decimal(top);
    let filter = crop_filter_of(rect);
    assert(filter.take(5) =~= seq!['c', 'r', 'o', 'p', '=']);
    assert(filter.skip(5) =~= four);
    lemma_one_field(one, ':');
    lemma_last_field(one, ':', decimal(height));
    lemma_last_field(two, ':', decimal(left));
    lemma_last_field(three, ':', decimal(top));
    assert(fields(four, ':') =~= seq![
        decimal(width),
        decimal(height),
        decimal(left),
        decimal(top),
    ]);
}

/// The filter that cuts out `rect`, with its sides made even.
pub fn crop_filter(rect: &Rect) -> (r: String)
    requires
        rect.x0 <= rect.x1,
        rect.y0 <= rect.y1,
    ensures
        r@ == crop_filter_of(*rect),
        read_crop(r@) matches Some((width, height, left, top)) && {
            &&& left == rect.x0
            &&& top == rect.y0
            &&& width % 2 == 0
            &&& height % 2 == 0
            &&& rect.x1 - 1 <= left + width <= rect.x1
            &&& rect.y1 - 1 <= top + height <= rect.y1
        },
{
    proof {
        lemma_crop_filter_reads_back(*rect);
    }
    let mut filter = "crop=".to_string();
    append_decimal(&mut filter, even_floor(rect.width()) as u128);
    filter.append(":");
    append_decimal(&mut filter, even_floor(rect.height()) as u128);
    filter.append(":");
    append_decimal(&mut filter, rect.x0 as u128);
    filter.append(":");
    append_decimal(&mut filter, rect.y0 as u128);
    filter
}

/// The command line that cuts `rect` out of the whole clip, keeping its sound.
pub fn crop_args(rect: &Rect, scratch: &Scratch) -> (r: Vec<String>)
    requires
        rect.x0 <= rect.x1,
        rect.y0 <= rect.y1,
    ensures
        r.deep_view() == crop_line(*rect, scratch@),
{
    let filter = crop_filter(rect);
    let mut args = base();
    push_arg(&mut args, "-i");
    push_arg(&mut args, &scratch.input);
    push_arg(&mut args, "-vf");
    push_arg(&mut args, &filter);
    push_arg(&mut args, "-c:a");
    push_arg(&mut args, "copy");
    push_arg(&mut args, "-movflags");
    push_arg(&mut args, "+faststart");
    push_arg(&mut args, "-pix_fmt");
    push_arg(&mut args, "yuv420p");
    push_arg(&mut args, &scratch.output);
    assert(args.deep_view() =~= crop_line(*rect, scratch@));
    args
}

/// The command line of the first probe reads the input and stops after one
/// frame; the second does so three seconds in; the third starts near the end
/// and keeps the frame that comes last. All of them write that frame, at high
/// quality and without asking, where it is looked for.
pub proof fn lemma_probe_lines(scratch: ScratchView)
    ensures
        probe_line(0, scratch) == seq![
            "-hide_banner"@,
            "-loglevel"@,
            "error"@,
            "-y"@,
            "-i"@,
            scratch.input,
            "-frames:v"@,
            "1"@,
            "-q:v"@,
            "2"@,
            scratch.frame,
        ],
        probe_line(1, scratch) == seq![
            "-hide_banner"@,
            "-loglevel"@,
            "error"@,
            "-y"@,
            "-ss"@,
            "3"@,
            "-i"@,
            scratch.input,
            "-frames:v"@,
            "1"@,
            "-q:v"@,
            "2"@,
            scratch.frame,
        ],
        probe_line(2, scratch) == seq![
            "-hide_banner"@,
            "-loglevel"@,
            "error"@,
            "-y"@,
            "-sseof"@,
            "-0.5"@,
            "-i"@,
            scratch.input,
            "-update"@,
            "1"@,
            "-q:v"@,
            "2"@,
            scratch.frame,
        ],
{
    assert(probe_line(0, scratch).len() == 11);
    assert(probe_line(1, scratch).len() == 13);
    assert(probe_line(2, scratch).len() == 13);
}

/// The whole clip is read, cut by a filter that is read as the rectangle, and
/// written out with its sound copied.
pub proof fn lemma_crop_line(rect: Rect, scratch: ScratchView)
    requires
        rect.x0 <= rect.x1,
        rect.y0 <= rect.y1,
    ensures
        ({
            let line = crop_line(rect, scratch);
            &&& line.len() == 15
            &&& line.take(4) == seq!["-hide_banner"@, "-loglevel"@, "error"@, "-y"@]
            &&& line.subrange(4, 7) == seq!["-i"@, scratch.input, "-vf"@]
            &&& read_crop(line[7]) matches Some((width, height, left, top)) && {
                &&& left == rect.x0
                &&& top == rect.y0
                &&& width % 2 == 0
                &&& height % 2 == 0
                &&& rect.x1 - 1 <= left + width <= rect.x1
                &&& rect.y1 - 1 <= top + height <= rect.y1
            }
            &&& line.skip(8) == seq![
                "-c:a"@,
                "copy"@,
                "-movflags"@,
                "+faststart"@,
                "-pix_fmt"@,
                "yuv420p"@,
                scratch.output,
            ]
        }),
{
    let line = crop_line(rect, scratch);
    lemma_crop_filter_reads_back(rect);
    assert(line[7] == crop_filter_of(rect));
    assert(line.take(4) =~= seq!["-hide_banner"@, "-loglevel"@, "error"@, "-y"@]);
    assert(line.subrange(4, 7) =~= seq!["-i"@, scratch.input, "-vf"@]);
    assert(line.skip(8) =~= seq![
        "-c:a"@,
        "copy"@,
        "-movflags"@,
        "+faststart"@,
        "-pix_fmt"@,
        "yuv420p"@,
        scratch.output,
    ]);
}

/// What ffmpeg is told to cut out has even sides, lies inside the rectangle
/// that was found and leaves out at most one column and one row of it.
pub proof fn lemma_clip_inside(rect: Rect, width: nat, height: nat)
    requires
        rect.within(width, height),
    ensures
        even(rect.x1 - rect.x0) % 2 == 0,
        even(rect.y1 - rect.y0) % 2 == 0,
        rect.x1 - 1 <= rect.x0 + even(rect.x1 - rect.x0) <= rect.x1 <= width,
        rect.y1 - 1 <= rect.y0 + even(rect.y1 - rect.y0) <= rect.y1 <= height,
{
}

} // verus!
