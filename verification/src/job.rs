//! Working on one file, from the download to the answer.
//!
//! A job asks for one action at a time. The caller performs it and hands back
//! what happened as an event; the job then says what to do next.

use vstd::prelude::*;

use crate::clip::{
    after_frame, after_miss, probe_frame, probe_missed, settle_clip, Verdict, VerdictView,
};
use crate::delivery::{delivery_of_clip, Delivery, DeliveryView, Payload};
use crate::ffmpeg::{crop_args, crop_line, probe_args, probe_line, PROBES};
use crate::format::{kind_of, sniff, ImageFormat, Kind, HEAD_LEN};
use crate::media::{Incoming, IncomingView};
use crate::picture::{Detection, DetectionView, Picture};
use crate::scratch::{Scratch, ScratchView};
use crate::still::{crop_still, cropped_still};

verus! {

/// What the job waits for.
enum Stage {
    Scratch,
    LookUp,
    CreateInput,
    Download,
    Head,
    Still(ImageFormat),
    Probe(usize),
    Clip(Detection),
    Send(Detection),
    Cleanup(Option<Detection>),
    Done,
}

/// What the job waits for: the scratch directory, the file's path at Telegram,
/// the input file, its contents, its first bytes, the decoded still, a probe
/// frame, the cropped clip, the delivery, the removal of the scratch
/// directory, or nothing more.
pub enum StageView {
    Scratch,
    LookUp,
    CreateInput,
    Download,
    Head,
    Still(ImageFormat),
    Probe(nat),
    Clip(DetectionView),
    Send(DetectionView),
    Cleanup(Option<DetectionView>),
    Done,
}

impl View for Stage {
    type V = StageView;

    closed spec fn view(&self) -> StageView {
        match self {
            Stage::Scratch => StageView::Scratch,
            Stage::LookUp => StageView::LookUp,
            Stage::CreateInput => StageView::CreateInput,
            Stage::Download => StageView::Download,
            Stage::Head => StageView::Head,
            Stage::Still(fmt) => StageView::Still(*fmt),
            Stage::Probe(attempt) => StageView::Probe(*attempt as nat),
            Stage::Clip(detection) => StageView::Clip(detection@),
            Stage::Send(detection) => StageView::Send(detection@),
            Stage::Cleanup(Some(detection)) => StageView::Cleanup(Some(detection@)),
            Stage::Cleanup(None) => StageView::Cleanup(None),
            Stage::Done => StageView::Done,
        }
    }
}

impl StageView {
    /// Only the probes that there are are made, and a clip is cropped, or a
    /// result sent, only for a rectangle.
    pub open spec fn sound(self) -> bool {
        match self {
            StageView::Probe(attempt) => attempt < PROBES,
            StageView::Clip(detection) => detection.rect is Some,
            StageView::Send(detection) => detection.rect is Some,
            StageView::Cleanup(Some(detection)) => detection.rect is Some,
            _ => true,
        }
    }
}

/// What happened.
pub enum Event {
    /// The action is done.
    Done,
    /// The action could not be performed, for this reason.
    Failed(String),
    /// The first bytes of the file.
    Head(Vec<u8>),
    /// The decoded still.
    Still(Picture),
    /// The still or the probe frame could not be decoded.
    Undecodable,
    /// ffmpeg failed, or wrote no probe frame.
    NoFrame,
    /// The probe frame, and whether it is black.
    Frame { black: bool, picture: Picture },
    /// ffmpeg ran over the whole clip: whether it succeeded, and whether it
    /// wrote the clip.
    Clip { success: bool, written: bool },
}

/// How a job ends.
#[derive(Debug)]
pub enum Answer {
    /// The crop was sent.
    Cropped(Detection),
    /// The detector found nothing.
    NothingToCrop,
    /// Something went wrong.
    Failed(String),
}

/// How a job ends.
pub enum AnswerView {
    Cropped(DetectionView),
    NothingToCrop,
    Failed(Seq<char>),
}

impl View for Answer {
    type V = AnswerView;

    open spec fn view(&self) -> AnswerView {
        match self {
            Answer::Cropped(detection) => AnswerView::Cropped(detection@),
            Answer::NothingToCrop => AnswerView::NothingToCrop,
            Answer::Failed(text) => AnswerView::Failed(text@),
        }
    }
}

/// What is said where the detector found nothing.
pub const NOTHING_TO_CROP: &'static str = "Nothing to crop — that doesn't look like a screenshot.";

/// What is said, before the reason, where something went wrong.
pub const COULD_NOT: &'static str = "Couldn't process that one: ";

impl AnswerView {
    /// What the sender is told; a crop speaks for itself.
    pub open spec fn reply(self) -> Option<Seq<char>> {
        match self {
            AnswerView::Cropped(_) => None,
            AnswerView::NothingToCrop => Some(NOTHING_TO_CROP@),
            AnswerView::Failed(text) => Some(COULD_NOT@ + text),
        }
    }
}

impl Answer {
    /// What the sender is told; a crop speaks for itself.
    pub fn reply(&self) -> (r: Option<String>)
        ensures
            match r {
                Some(text) => self@.reply() == Some(text@),
                None => self@.reply() is None,
            },
    {
        match self {
            Answer::Cropped(_) => None,
            Answer::NothingToCrop => Some(NOTHING_TO_CROP.to_string()),
            Answer::Failed(text) => Some(COULD_NOT.to_string().concat(text)),
        }
    }
}

/// What to do next.
#[derive(Debug)]
pub enum Action {
    /// Make the scratch directory.
    CreateScratch,
    /// Ask Telegram for the path of the file with this id.
    LookUp(String),
    /// Create the input file.
    CreateInput,
    /// Download into the input file.
    Download,
    /// Read up to this many bytes from the start of the input file.
    ReadHead(usize),
    /// Decode the input file as a still.
    DecodeStill,
    /// Remove the probe frame, run ffmpeg with these arguments, and decode the
    /// frame if it wrote one.
    Probe(Vec<String>),
    /// Run ffmpeg with these arguments and see whether it wrote the clip.
    CropClip(Vec<String>),
    /// Send this.
    Send(Delivery),
    /// Remove the scratch directory.
    RemoveScratch,
    /// Nothing: this is the answer.
    Finish(Answer),
    /// Nothing: the event does not belong to what the job waits for.
    Wait,
}

/// What to do next.
pub enum ActionView {
    CreateScratch,
    LookUp(Seq<char>),
    CreateInput,
    Download,
    ReadHead(nat),
    DecodeStill,
    Probe(Seq<Seq<char>>),
    CropClip(Seq<Seq<char>>),
    Send(DeliveryView),
    RemoveScratch,
    Finish(AnswerView),
    Wait,
}

impl View for Action {
    type V = ActionView;

    open spec fn view(&self) -> ActionView {
        match self {
            Action::CreateScratch => ActionView::CreateScratch,
            Action::LookUp(id) => ActionView::LookUp(id@),
            Action::CreateInput => ActionView::CreateInput,
            Action::Download => ActionView::Download,
            Action::ReadHead(limit) => ActionView::ReadHead(*limit as nat),
            Action::DecodeStill => ActionView::DecodeStill,
            Action::Probe(args) => ActionView::Probe(args.deep_view()),
            Action::CropClip(args) => ActionView::CropClip(args.deep_view()),
            Action::Send(delivery) => ActionView::Send(delivery@),
            Action::RemoveScratch => ActionView::RemoveScratch,
            Action::Finish(answer) => ActionView::Finish(answer@),
            Action::Wait => ActionView::Wait,
        }
    }
}

/// Work on one file.
pub struct JobView {
    pub incoming: IncomingView,
    pub scratch: ScratchView,
    pub stage: StageView,
}

/// Work on one file.
pub struct Job {
    incoming: Incoming,
    scratch: Scratch,
    stage: Stage,
}

impl View for Job {
    type V = JobView;

    closed spec fn view(&self) -> JobView {
        JobView { incoming: self.incoming@, scratch: self.scratch@, stage: self.stage@ }
    }
}

/// What is said of an action that could not be performed for the reason `raw`.
pub open spec fn failure_of(stage: StageView, raw: Seq<char>) -> Seq<char> {
    match stage {
        StageView::Scratch => "create scratch dir"@,
        StageView::LookUp => "get_file"@,
        StageView::Download => "download_file"@,
        StageView::Probe(_) => "spawn ffmpeg"@,
        StageView::Clip(_) => "spawn ffmpeg"@,
        _ => raw,
    }
}

impl JobView {
    /// The job at another stage.
    pub open spec fn at(self, stage: StageView) -> JobView {
        JobView { stage, ..self }
    }

    /// The end of the job with `answer`.
    pub open spec fn finish(self, answer: AnswerView) -> (JobView, ActionView) {
        (self.at(StageView::Done), ActionView::Finish(answer))
    }

    /// The end of the job because something went wrong.
    pub open spec fn fail(self, text: Seq<char>) -> (JobView, ActionView) {
        self.finish(AnswerView::Failed(text))
    }

    /// The scratch directory goes once the work is done.
    pub open spec fn clean_up(self, found: Option<DetectionView>) -> (JobView, ActionView) {
        (self.at(StageView::Cleanup(found)), ActionView::RemoveScratch)
    }

    /// What follows the first bytes of the file.
    pub open spec fn after_head(self, head: Seq<u8>) -> (JobView, ActionView) {
        match kind_of(head) {
            None => self.fail("unsupported file type"@),
            Some(Kind::Image(fmt)) => (self.at(StageView::Still(fmt)), ActionView::DecodeStill),
            Some(Kind::Video) => self.after_verdict(VerdictView::Look(0)),
        }
    }

    /// What follows the decoded still.
    pub open spec fn after_still(self, fmt: ImageFormat, picture: Picture) -> (
        JobView,
        ActionView,
    ) {
        match cropped_still(picture@, fmt, self.incoming.name, self.incoming.source) {
            None => self.fail("encode crop"@),
            Some(None) => self.clean_up(None),
            Some(Some(still)) => (
                self.at(StageView::Send(still.detection)),
                ActionView::Send(still.delivery),
            ),
        }
    }

    /// What follows an attempt to find a crop in a frame.
    pub open spec fn after_verdict(self, verdict: VerdictView) -> (JobView, ActionView) {
        match verdict {
            VerdictView::Look(attempt) => (
                self.at(StageView::Probe(attempt)),
                ActionView::Probe(probe_line(attempt, self.scratch)),
            ),
            VerdictView::Found(detection) => (
                self.at(StageView::Clip(detection)),
                ActionView::CropClip(crop_line(detection.rect->0, self.scratch)),
            ),
            VerdictView::Nothing => self.clean_up(None),
        }
    }

    /// What follows the run of ffmpeg over the whole clip.
    pub open spec fn after_clip(self, detection: DetectionView, success: bool, written: bool) -> (
        JobView,
        ActionView,
    ) {
        if success && written {
            (
                self.at(StageView::Send(detection)),
                ActionView::Send(delivery_of_clip(self.incoming.name, self.incoming.source)),
            )
        } else {
            self.fail("ffmpeg crop failed"@)
        }
    }

    /// What follows `event`. The scratch directory stays where something went
    /// wrong, and whether it could be removed makes no difference.
    pub open spec fn next(self, event: Event) -> (JobView, ActionView) {
        match (self.stage, event) {
            (StageView::Done, _) => (self, ActionView::Wait),
            (StageView::Cleanup(Some(detection)), Event::Done) => self.finish(
                AnswerView::Cropped(detection),
            ),
            (StageView::Cleanup(Some(detection)), Event::Failed(_)) => self.finish(
                AnswerView::Cropped(detection),
            ),
            (StageView::Cleanup(None), Event::Done) => self.finish(AnswerView::NothingToCrop),
            (StageView::Cleanup(None), Event::Failed(_)) => self.finish(AnswerView::NothingToCrop),
            (stage, Event::Failed(raw)) => self.fail(failure_of(stage, raw@)),
            (StageView::Scratch, Event::Done) => (
                self.at(StageView::LookUp),
                ActionView::LookUp(self.incoming.file_id),
            ),
            (StageView::LookUp, Event::Done) => (
                self.at(StageView::CreateInput),
                ActionView::CreateInput,
            ),
            (StageView::CreateInput, Event::Done) => (
                self.at(StageView::Download),
                ActionView::Download,
            ),
            (StageView::Download, Event::Done) => (
                self.at(StageView::Head),
                ActionView::ReadHead(HEAD_LEN as nat),
            ),
            (StageView::Head, Event::Head(head)) => self.after_head(head@),
            (StageView::Still(_), Event::Undecodable) => self.fail("decode image"@),
            (StageView::Still(fmt), Event::Still(picture)) => self.after_still(fmt, picture),
            (StageView::Probe(_), Event::Undecodable) => self.fail("decode probe frame"@),
            (StageView::Probe(attempt), Event::NoFrame) => self.after_verdict(after_miss(attempt)),
            (StageView::Probe(attempt), Event::Frame { black, picture }) => self.after_verdict(
                after_frame(attempt, black, picture@.detection()),
            ),
            (StageView::Clip(detection), Event::Clip { success, written }) => self.after_clip(
                detection,
                success,
                written,
            ),
            (StageView::Send(detection), Event::Done) => self.clean_up(Some(detection)),
            _ => (self, ActionView::Wait),
        }
    }
}

fn failed(text: &str) -> (r: (Stage, Action))
    ensures
        r.0@ == StageView::Done,
        r.1@ == ActionView::Finish(AnswerView::Failed(text@)),
{
    (Stage::Done, Action::Finish(Answer::Failed(text.to_string())))
}

/// Carries a verdict out.
fn follow(scratch: &Scratch, verdict: Verdict, Ghost(job): Ghost<JobView>) -> (r: (Stage, Action))
    requires
        job.scratch == scratch@,
        verdict@ matches VerdictView::Look(attempt) ==> attempt < PROBES,
        verdict@ matches VerdictView::Found(detection) ==> detection.rect matches Some(rect)
            && rect.x0 <= rect.x1 && rect.y0 <= rect.y1,
    ensures
        r.0@.sound(),
        (job.at(r.0@), r.1@) == job.after_verdict(verdict@),
{
    match verdict {
        Verdict::Look(attempt) => {
            let args = probe_args(attempt, scratch);
            (Stage::Probe(attempt), Action::Probe(args))
        },
        Verdict::Found(detection) => {
            let rect = detection.rect.unwrap();
            let args = crop_args(&rect, scratch);
            (Stage::Clip(detection), Action::CropClip(args))
        },
        Verdict::Nothing => (Stage::Cleanup(None), Action::RemoveScratch),
    }
}

impl Job {
    /// Every job is at a sound stage.
    #[verifier::type_invariant]
    pub open spec fn inv(self) -> bool {
        self@.stage.sound()
    }

    /// Starts work on a file, in a scratch directory that does not exist yet.
    pub fn start(incoming: Incoming, scratch: Scratch) -> (r: (Job, Action))
        ensures
            r.0@ == (JobView {
                incoming: incoming@,
                scratch: scratch@,
                stage: StageView::Scratch,
            }),
            r.1@ == ActionView::CreateScratch,
    {
        (Job { incoming, scratch, stage: Stage::Scratch }, Action::CreateScratch)
    }

    /// Takes in what happened and says what to do next. An event that does not
    /// belong to what the job waits for changes nothing.
    pub fn step(self, event: Event) -> (r: (Job, Action))
        ensures
            (r.0@, r.1@) == self@.next(event),
            r.1 matches Action::Send(delivery) ==> self@.stage matches StageView::Still(fmt) ==>
                delivery.payload matches Payload::Memory(bytes) && kind_of(bytes@) == Some(
                Kind::Image(fmt),
            ),
    {
        proof {
            use_type_invariant(&self);
        }
        let ghost job = self@;
        let Job { incoming, scratch, stage } = self;
        let (stage, action) = match (stage, event) {
            (Stage::Done, _) => (Stage::Done, Action::Wait),
            (Stage::Cleanup(Some(detection)), Event::Done) => (
                Stage::Done,
                Action::Finish(Answer::Cropped(detection)),
            ),
            (Stage::Cleanup(Some(detection)), Event::Failed(_)) => (
                Stage::Done,
                Action::Finish(Answer::Cropped(detection)),
            ),
            (Stage::Cleanup(None), Event::Done) => (
                Stage::Done,
                Action::Finish(Answer::NothingToCrop),
            ),
            (Stage::Cleanup(None), Event::Failed(_)) => (
                Stage::Done,
                Action::Finish(Answer::NothingToCrop),
            ),
            (Stage::Scratch, Event::Failed(_)) => failed("create scratch dir"),
            (Stage::LookUp, Event::Failed(_)) => failed("get_file"),
            (Stage::Download, Event::Failed(_)) => failed("download_file"),
            (Stage::Probe(_), Event::Failed(_)) => failed("spawn ffmpeg"),
            (Stage::Clip(_), Event::Failed(_)) => failed("spawn ffmpeg"),
            (_, Event::Failed(raw)) => (Stage::Done, Action::Finish(Answer::Failed(raw))),
            (Stage::Scratch, Event::Done) => (
                Stage::LookUp,
                Action::LookUp(incoming.file_id.clone()),
            ),
            (Stage::LookUp, Event::Done) => (Stage::CreateInput, Action::CreateInput),
            (Stage::CreateInput, Event::Done) => (Stage::Download, Action::Download),
            (Stage::Download, Event::Done) => (Stage::Head, Action::ReadHead(HEAD_LEN)),
            (Stage::Head, Event::Head(head)) => match sniff(&head) {
                None => failed("unsupported file type"),
                Some(Kind::Image(fmt)) => (Stage::Still(fmt), Action::DecodeStill),
                Some(Kind::Video) => follow(&scratch, Verdict::Look(0), Ghost(job)),
            },
            (Stage::Still(_), Event::Undecodable) => failed("decode image"),
            (Stage::Still(fmt), Event::Still(picture)) => {
                match crop_still(picture, fmt, &incoming.name, incoming.source) {
                    Err(_) => failed("encode crop"),
                    Ok(None) => (Stage::Cleanup(None), Action::RemoveScratch),
                    Ok(Some(still)) => (
                        Stage::Send(still.detection),
                        Action::Send(still.delivery),
                    ),
                }
            },
            (Stage::Probe(_), Event::Undecodable) => failed("decode probe frame"),
            (Stage::Probe(attempt), Event::NoFrame) => follow(
                &scratch,
                probe_missed(attempt),
                Ghost(job),
            ),
            (Stage::Probe(attempt), Event::Frame { black, picture }) => follow(
                &scratch,
                probe_frame(attempt, black, &picture),
                Ghost(job),
            ),
            (Stage::Clip(detection), Event::Clip { success, written }) => {
                match settle_clip(success, written, &incoming.name, incoming.source) {
                    Some(delivery) => (Stage::Send(detection), Action::Send(delivery)),
                    None => failed("ffmpeg crop failed"),
                }
            },
            (Stage::Send(detection), Event::Done) => (
                Stage::Cleanup(Some(detection)),
                Action::RemoveScratch,
            ),
            (stage, _) => (stage, Action::Wait),
        };
        (Job { incoming, scratch, stage }, action)
    }
}

} // verus!
