//! Which frame of a clip decides, and what becomes of the cropped clip.

use vstd::prelude::*;

use crate::delivery::{deliver_clip, delivery_of_clip, Delivery};
use crate::ffmpeg::PROBES;
use crate::media::Source;
use crate::picture::{find_crop, Detection, DetectionView, Picture};

verus! {

/// What follows an attempt to find a crop in a frame.
#[derive(Debug)]
pub enum Verdict {
    /// Look at the frame of this attempt.
    Look(usize),
    /// Crop the clip to this.
    Found(Detection),
    /// No frame is left to look at.
    Nothing,
}

/// What follows an attempt to find a crop in a frame.
pub enum VerdictView {
    Look(nat),
    Found(DetectionView),
    Nothing,
}

impl View for Verdict {
    type V = VerdictView;

    open spec fn view(&self) -> VerdictView {
        match self {
            Verdict::Look(attempt) => VerdictView::Look(*attempt as nat),
            Verdict::Found(detection) => VerdictView::Found(detection@),
            Verdict::Nothing => VerdictView::Nothing,
        }
    }
}

/// What follows an attempt that found nothing.
pub open spec fn after_miss(attempt: nat) -> VerdictView {
    if attempt + 1 < PROBES {
        VerdictView::Look(attempt + 1)
    } else {
        VerdictView::Nothing
    }
}

/// What follows an attempt that brought a frame of which the detector says
/// `detection`.
pub open spec fn after_detection(attempt: nat, detection: DetectionView) -> VerdictView {
    if detection.rect is Some {
        VerdictView::Found(detection)
    } else {
        after_miss(attempt)
    }
}

/// What follows an attempt that brought a frame; a black one is passed over,
/// whatever the detector says of it.
pub open spec fn after_frame(attempt: nat, black: bool, detection: DetectionView) -> VerdictView {
    if black {
        after_miss(attempt)
    } else {
        after_detection(attempt, detection)
    }
}

/// What follows an attempt that found nothing: the next one, if one is left.
pub fn probe_missed(attempt: usize) -> (r: Verdict)
    requires
        attempt < PROBES,
    ensures
        r@ == after_miss(attempt as nat),
{
    if attempt + 1 < PROBES {
        Verdict::Look(attempt + 1)
    } else {
        Verdict::Nothing
    }
}

/// What follows an attempt that brought a frame of which the detector says
/// `detection`.
pub fn probe_detected(attempt: usize, detection: Detection) -> (r: Verdict)
    requires
        attempt < PROBES,
    ensures
        r@ == after_detection(attempt as nat, detection@),
{
    if detection.rect.is_some() {
        Verdict::Found(detection)
    } else {
        probe_missed(attempt)
    }
}

/// Runs the detector on a probe frame that is not black.
pub fn probe_frame(attempt: usize, black: bool, frame: &Picture) -> (r: Verdict)
    requires
        attempt < PROBES,
    ensures
        r@ == after_frame(attempt as nat, black, frame@.detection()),
        r@ matches VerdictView::Found(detection) ==> detection.rect matches Some(rect)
            && rect.within(frame@.width, frame@.height),
{
    if black {
        return probe_missed(attempt);
    }
    proof {
        use_type_invariant(frame);
    }
    probe_detected(attempt, find_crop(frame))
}

/// A frame decides exactly where it is not black and the detector finds a
/// rectangle in it, and then with just what the detector says. Otherwise the
/// next of the three attempts follows, or nothing after the last.
pub proof fn lemma_frame_decides(attempt: nat, black: bool, detection: DetectionView)
    requires
        attempt < 3,
    ensures
        ({
            let verdict = after_frame(attempt, black, detection);
            &&& !black && detection.rect is Some <==> verdict == VerdictView::Found(detection)
            &&& verdict is Found ==> verdict == VerdictView::Found(detection)
            &&& verdict !is Found ==> verdict == after_miss(attempt)
            &&& !black ==> verdict == after_detection(attempt, detection)
        }),
        attempt < 2 <==> after_miss(attempt) == VerdictView::Look(attempt + 1),
        attempt == 2 <==> after_miss(attempt) is Nothing,
{
}

/// The delivery of a cropped clip; `None` where ffmpeg failed or wrote nothing.
pub fn settle_clip(success: bool, written: bool, name: &str, source: Source) -> (r: Option<
    Delivery,
>)
    ensures
        match r {
            Some(delivery) => success && written && delivery@ == delivery_of_clip(name@, source),
            None => !success || !written,
        },
{
    if !success || !written {
        None
    } else {
        Some(deliver_clip(name, source))
    }
}

} // verus!
