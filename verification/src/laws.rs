//! What holds of every job.

use vstd::prelude::*;

use crate::delivery::{
    arrived_as, delivery_of_clip, delivery_of_still, DeliveryView, Method, PayloadView,
};
use crate::ffmpeg::{crop_line, lemma_crop_line, probe_line, PROBES};
use crate::format::{kind_of, Encoding, ImageFormat, Kind};
use crate::job::{ActionView, AnswerView, Event, JobView, StageView, NOTHING_TO_CROP};
use crate::media::{IncomingView, Source};
use crate::naming::output_name;
use crate::picture::{detection_of, encoded, DetectionView, Picture};
use crate::reading::{read_crop, shows};
use crate::scratch::ScratchView;
use crate::still::{fits, lemma_still_shows_the_rectangle};

verus! {

impl StageView {
    /// At most how many more events end a job at this stage.
    pub open spec fn rank(self) -> int {
        match self {
            StageView::Scratch => 11,
            StageView::LookUp => 10,
            StageView::CreateInput => 9,
            StageView::Download => 8,
            StageView::Head => 7,
            StageView::Probe(attempt) => 3 + PROBES - attempt,
            StageView::Still(_) => 3,
            StageView::Clip(_) => 3,
            StageView::Send(_) => 2,
            StageView::Cleanup(_) => 1,
            StageView::Done => 0,
        }
    }
}

impl JobView {
    /// The job after `events`.
    pub open spec fn run(self, events: Seq<Event>) -> JobView
        decreases events.len(),
    {
        if events.len() == 0 {
            self
        } else {
            self.run(events.drop_last()).next(events.last()).0
        }
    }

    /// What the job says to the event at `i`.
    pub open spec fn said(self, events: Seq<Event>, i: int) -> ActionView {
        self.run(events.take(i)).next(events[i]).1
    }
}

/// Stages stay sound.
pub proof fn lemma_stays_sound(job: JobView, event: Event)
    requires
        job.stage.sound(),
    ensures
        job.next(event).0.stage.sound(),
{
}

/// An event either belongs to what the job waits for and brings the job closer
/// to its end, or changes nothing.
pub proof fn lemma_progress(job: JobView, event: Event)
    requires
        job.stage.sound(),
    ensures
        job.next(event).1 is Wait ==> job.next(event).0 == job,
        job.next(event).1 !is Wait ==> job.next(event).0.stage.rank() < job.stage.rank(),
        job.next(event).0.stage.rank() >= 0,
{
}

/// A job is over after at most as many events as its rank says, which is
/// eleven for a new job, not counting events that do not belong to it.
pub proof fn lemma_job_ends(job: JobView, events: Seq<Event>)
    requires
        job.stage.sound(),
        forall|i: int| 0 <= i < events.len() ==> #[trigger] job.said(events, i) !is Wait,
    ensures
        job.run(events).stage.sound(),
        events.len() + job.run(events).stage.rank() <= job.stage.rank(),
    decreases events.len(),
{
    if events.len() > 0 {
        let front = events.drop_last();
        let last = events.len() - 1;
        assert forall|i: int| 0 <= i < front.len() implies #[trigger] job.said(
            front,
            i,
        ) !is Wait by {
            assert(front.take(i) =~= events.take(i));
            assert(job.said(events, i) !is Wait);
        }
        lemma_job_ends(job, front);
        assert(events.take(last) =~= front);
        assert(job.said(events, last) !is Wait);
        lemma_stays_sound(job.run(front), events.last());
        lemma_progress(job.run(front), events.last());
    }
}

/// A job ends by giving its answer, and gives no other.
pub proof fn lemma_one_answer(job: JobView, event: Event)
    ensures
        job.next(event).1 is Finish <==> job.next(event).0.stage is Done && job.stage !is Done,
        job.stage is Done ==> job.next(event) == (job, ActionView::Wait),
{
}

/// A crop is said to be sent only once it was sent, which is done only for a
/// rectangle, and the scratch directory is removed before a job ends well.
pub proof fn lemma_cropped_means_sent(job: JobView, event: Event)
    requires
        job.stage.sound(),
    ensures
        ({
            let (after, action) = job.next(event);
            &&& action matches ActionView::Finish(AnswerView::Cropped(detection)) ==> job.stage
                == StageView::Cleanup(Some(detection)) && detection.rect is Some
            &&& action == ActionView::Finish(AnswerView::NothingToCrop) ==> job.stage
                == StageView::Cleanup(None)
            &&& after.stage is Cleanup && job.stage !is Cleanup ==> action is RemoveScratch
            &&& after.stage matches StageView::Cleanup(Some(detection)) ==> job.stage !is Cleanup
                ==> job.stage == StageView::Send(detection) && event is Done
            &&& after.stage matches StageView::Send(detection) ==> job.stage !is Send ==> action
                is Send && detection.rect is Some
            &&& action is Send ==> after.stage is Send
        }),
{
}

/// Photos come back as photos, everything else as the type it arrived in,
/// whatever the file turned out to be.
pub proof fn lemma_comes_back_as_it_arrived(job: JobView, event: Event)
    ensures
        job.next(event).1 matches ActionView::Send(delivery) ==> delivery.method == arrived_as(
            job.incoming.source,
        ),
{
}

/// Jobs never move back.
proof fn lemma_never_back(job: JobView, events: Seq<Event>, i: int, j: int)
    requires
        job.stage.sound(),
        0 <= i <= j <= events.len(),
    ensures
        job.run(events.take(j)).stage.sound(),
        job.run(events.take(j)).stage.rank() <= job.run(events.take(i)).stage.rank(),
    decreases j,
{
    if j > 0 {
        let before = job.run(events.take(j - 1));
        assert(events.take(j).drop_last() =~= events.take(j - 1));
        lemma_never_back(job, events, if i < j { i } else { j - 1 }, j - 1);
        lemma_stays_sound(before, events[j - 1]);
        lemma_progress(before, events[j - 1]);
    }
}

/// A job delivers at most once.
pub proof fn lemma_delivers_once(job: JobView, events: Seq<Event>, i: int, j: int)
    requires
        job.stage.sound(),
        0 <= i < j < events.len(),
        job.said(events, i) is Send,
    ensures
        job.said(events, j) !is Send,
{
    let before = job.run(events.take(i));
    assert(events.take(i + 1).drop_last() =~= events.take(i));
    assert(job.run(events.take(i + 1)) == before.next(events[i]).0);
    lemma_never_back(job, events, i + 1, j);
}

/// A job that is past its delivery has made it.
proof fn lemma_past_delivery(job: JobView, events: Seq<Event>, n: int)
    requires
        job.stage is Scratch,
        0 <= n <= events.len(),
        job.run(events.take(n)).stage is Send || job.run(events.take(n)).stage matches
            StageView::Cleanup(Some(_)),
    ensures
        exists|i: int| 0 <= i < n && #[trigger] job.said(events, i) is Send,
    decreases n,
{
    if n > 0 {
        let before = job.run(events.take(n - 1));
        assert(events.take(n).drop_last() =~= events.take(n - 1));
        assert(job.run(events.take(n)) == before.next(events[n - 1]).0);
        if job.said(events, n - 1) !is Send {
            lemma_past_delivery(job, events, n - 1);
        }
    }
}

/// A job that says that the crop was sent has sent it.
pub proof fn lemma_cropped_was_delivered(job: JobView, events: Seq<Event>, n: int)
    requires
        job.stage is Scratch,
        0 <= n < events.len(),
        job.said(events, n) matches ActionView::Finish(AnswerView::Cropped(_)),
    ensures
        exists|i: int| 0 <= i < n && #[trigger] job.said(events, i) is Send,
{
    lemma_past_delivery(job, events, n);
}

/// A job that is neither at nor past its delivery has made none.
proof fn lemma_before_delivery(job: JobView, events: Seq<Event>, n: int)
    requires
        job.stage is Scratch,
        0 <= n <= events.len(),
        match job.run(events.take(n)).stage {
            StageView::Send(_) | StageView::Cleanup(Some(_)) | StageView::Done => false,
            _ => true,
        },
    ensures
        forall|i: int| 0 <= i < n ==> #[trigger] job.said(events, i) !is Send,
    decreases n,
{
    if n > 0 {
        let before = job.run(events.take(n - 1));
        assert(events.take(n).drop_last() =~= events.take(n - 1));
        assert(job.run(events.take(n)) == before.next(events[n - 1]).0);
        lemma_before_delivery(job, events, n - 1);
    }
}

/// A job that is answered with the note has sent nothing.
pub proof fn lemma_note_means_nothing_sent(job: JobView, events: Seq<Event>, n: int)
    requires
        job.stage is Scratch,
        0 <= n < events.len(),
        job.said(events, n) == ActionView::Finish(AnswerView::NothingToCrop),
    ensures
        forall|i: int| 0 <= i < n ==> #[trigger] job.said(events, i) !is Send,
{
    lemma_before_delivery(job, events, n);
}

/// What a file is taken for depends on its first bytes, not on its name or on
/// how it arrived.
pub proof fn lemma_kind_ignores_name(job1: JobView, job2: JobView, head: Vec<u8>)
    requires
        job1.stage is Head,
        job2.stage is Head,
    ensures
        job1.next(Event::Head(head)).0.stage == job2.next(Event::Head(head)).0.stage,
{
}

/// Where the detector finds nothing in a still, the scratch directory goes and
/// nothing is sent.
pub proof fn lemma_still_without_crop(job: JobView, picture: Picture)
    requires
        job.stage is Still,
        picture@.detection().rect is None,
    ensures
        job.next(Event::Still(picture)) == job.clean_up(None),
{
}

/// What does not look like a screenshot is answered with a note instead of a
/// crop, whether or not the scratch directory could be removed.
pub proof fn lemma_note_instead_of_crop(job: JobView, event: Event)
    requires
        job.stage == StageView::Cleanup(None),
        event is Done || event is Failed,
    ensures
        job.next(event).1 == ActionView::Finish(AnswerView::NothingToCrop),
        AnswerView::NothingToCrop.reply() == Some(NOTHING_TO_CROP@),
{
}

/// The event belongs to an attempt to find a crop in a frame.
pub open spec fn is_look(event: Event) -> bool {
    event is NoFrame || event is Frame
}

/// The attempt brought a frame that is not black and in which the detector
/// finds a crop.
pub open spec fn is_hit(event: Event) -> bool {
    event matches Event::Frame { black, picture } && !black && picture@.detection().rect is Some
}

/// Attempts that bring no crop lead on to the next one.
proof fn lemma_misses(job: JobView, events: Seq<Event>)
    requires
        job.stage == StageView::Probe(0),
        events.len() <= PROBES,
        forall|i: int| 0 <= i < events.len() ==> is_look(#[trigger] events[i]) && !is_hit(
            events[i],
        ),
    ensures
        job.run(events) == job.at(
            if events.len() < PROBES {
                StageView::Probe(events.len())
            } else {
                StageView::Cleanup(None)
            },
        ),
    decreases events.len(),
{
    if events.len() > 0 {
        lemma_misses(job, events.drop_last());
        assert(is_look(events.last()) && !is_hit(events.last()));
    }
}

/// The first frame that is not black and in which the detector finds a crop
/// decides, and no frame after it is looked at.
pub proof fn lemma_first_hit_decides(job: JobView, events: Seq<Event>)
    requires
        job.stage == StageView::Probe(0),
        0 < events.len() <= PROBES,
        forall|i: int| 0 <= i < events.len() - 1 ==> is_look(#[trigger] events[i]) && !is_hit(
            events[i],
        ),
        is_hit(events.last()),
    ensures
        ({
            let detection = events.last()->picture@.detection();
            &&& job.run(events) == job.at(StageView::Clip(detection))
            &&& job.said(events, events.len() - 1) == ActionView::CropClip(
                crop_line(detection.rect->0, job.scratch),
            )
        }),
{
    lemma_misses(job, events.drop_last());
    assert(events.take(events.len() - 1) =~= events.drop_last());
}

/// A clip is left alone only where no attempt brings a crop, and then after
/// all of them were made.
pub proof fn lemma_all_missed(job: JobView, events: Seq<Event>)
    requires
        job.stage == StageView::Probe(0),
        events.len() == PROBES,
        forall|i: int| 0 <= i < events.len() ==> is_look(#[trigger] events[i]) && !is_hit(
            events[i],
        ),
    ensures
        job.run(events) == job.at(StageView::Cleanup(None)),
        forall|n: nat| 0 < n < PROBES ==> #[trigger] job.run(events.take(n as int)) == job.at(
            StageView::Probe(n),
        ),
{
    lemma_misses(job, events);
    assert forall|n: nat| 0 < n < PROBES implies #[trigger] job.run(events.take(n as int))
        == job.at(StageView::Probe(n)) by {
        lemma_misses(job, events.take(n as int));
    }
}

/// Events can be taken in one part after the other.
proof fn lemma_run_concat(job: JobView, first: Seq<Event>, second: Seq<Event>)
    ensures
        job.run(first + second) == job.run(first).run(second),
    decreases second.len(),
{
    if second.len() == 0 {
        assert(first + second =~= first);
    } else {
        lemma_run_concat(job, first, second.drop_last());
        assert((first + second).drop_last() =~= first + second.drop_last());
        assert((first + second).last() == second.last());
    }
}

/// A run of one event more.
proof fn lemma_run_push(job: JobView, events: Seq<Event>, event: Event)
    ensures
        job.run(events.push(event)) == job.run(events).next(event).0,
{
    assert(events.push(event).drop_last() =~= events);
}

impl IncomingView {
    /// A new job on this file.
    pub open spec fn job(self, scratch: ScratchView) -> JobView {
        JobView { incoming: self, scratch, stage: StageView::Scratch }
    }
}

/// The events of a file that was downloaded and starts with `head`.
pub open spec fn fetched(head: Vec<u8>) -> Seq<Event> {
    seq![Event::Done, Event::Done, Event::Done, Event::Done, Event::Head(head)]
}

/// A downloaded file is treated as what its first bytes say.
proof fn lemma_fetched(job: JobView, head: Vec<u8>)
    requires
        job.stage is Scratch,
    ensures
        job.run(fetched(head)) == job.at(StageView::Head).next(Event::Head(head)).0,
{
    let none = Seq::<Event>::empty();
    let one = none.push(Event::Done);
    let two = one.push(Event::Done);
    let three = two.push(Event::Done);
    let four = three.push(Event::Done);
    lemma_run_push(job, none, Event::Done);
    lemma_run_push(job, one, Event::Done);
    lemma_run_push(job, two, Event::Done);
    lemma_run_push(job, three, Event::Done);
    lemma_run_push(job, four, Event::Head(head));
    assert(fetched(head) =~= four.push(Event::Head(head)));
}

/// Whoever sends a still in which the detector finds a crop gets just that:
/// what is inside the rectangle, written out in the format of the still.
pub proof fn lemma_still_is_answered_with_its_crop(
    incoming: IncomingView,
    scratch: ScratchView,
    head: Vec<u8>,
    fmt: ImageFormat,
    picture: Picture,
)
    requires
        kind_of(head@) == Some(Kind::Image(fmt)),
        picture@.detection().rect matches Some(rect) && fmt.encoding_of().admits(
            picture@.cut(rect).width,
            picture@.cut(rect).height,
        ),
    ensures
        ({
            let job = incoming.job(scratch);
            let detection = picture@.detection();
            let crop = picture@.cut(detection.rect->0);
            let before = fetched(head);
            let decoded = before.push(Event::Still(picture));
            let sent = decoded.push(Event::Done);
            &&& job.run(before).next(Event::Still(picture)).1 == ActionView::Send(
                delivery_of_still(
                    crop.written(fmt.encoding_of()),
                    fmt,
                    incoming.name,
                    incoming.source,
                ),
            )
            &&& job.run(decoded).next(Event::Done).1 == ActionView::RemoveScratch
            &&& job.run(sent).next(Event::Done).1 == ActionView::Finish(
                AnswerView::Cropped(detection),
            )
        }),
{
    let job = incoming.job(scratch);
    let decoded = fetched(head).push(Event::Still(picture));
    lemma_fetched(job, head);
    lemma_run_push(job, fetched(head), Event::Still(picture));
    lemma_run_push(job, decoded, Event::Done);
}

/// Whoever sends a clip in which an attempt brings a crop gets the clip cut
/// down to what the first such attempt brought.
pub proof fn lemma_clip_is_answered_with_its_crop(
    incoming: IncomingView,
    scratch: ScratchView,
    head: Vec<u8>,
    looks: Seq<Event>,
)
    requires
        kind_of(head@) == Some(Kind::Video),
        0 < looks.len() <= PROBES,
        forall|i: int| 0 <= i < looks.len() - 1 ==> is_look(#[trigger] looks[i]) && !is_hit(
            looks[i],
        ),
        is_hit(looks.last()),
    ensures
        ({
            let job = incoming.job(scratch);
            let detection = looks.last()->picture@.detection();
            let written = Event::Clip { success: true, written: true };
            let found = fetched(head) + looks;
            let cropped = found.push(written);
            let sent = cropped.push(Event::Done);
            &&& job.said(found, found.len() - 1) == ActionView::CropClip(
                crop_line(detection.rect->0, scratch),
            )
            &&& job.run(found).next(written).1 == ActionView::Send(
                delivery_of_clip(incoming.name, incoming.source),
            )
            &&& job.run(cropped).next(Event::Done).1 == ActionView::RemoveScratch
            &&& job.run(sent).next(Event::Done).1 == ActionView::Finish(
                AnswerView::Cropped(detection),
            )
        }),
{
    let job = incoming.job(scratch);
    let written = Event::Clip { success: true, written: true };
    let found = fetched(head) + looks;
    let probing = job.run(fetched(head));
    lemma_fetched(job, head);
    lemma_first_hit_decides(probing, looks);
    lemma_run_concat(job, fetched(head), looks);
    lemma_run_concat(job, fetched(head), looks.drop_last());
    assert(found.take(found.len() - 1) =~= fetched(head) + looks.drop_last());
    assert(looks.take(looks.len() - 1) =~= looks.drop_last());
    assert(found.last() == looks.last());
    lemma_run_push(job, found, written);
    lemma_run_push(job, found.push(written), Event::Done);
}

/// A job keeps to its file and to its scratch directory.
pub proof fn lemma_same_file_throughout(job: JobView, event: Event)
    ensures
        job.next(event).0.incoming == job.incoming,
        job.next(event).0.scratch == job.scratch,
{
}

/// The file is asked for by its own id, then created, downloaded, and its first
/// sixteen bytes read, in this order.
pub proof fn lemma_fetching(job: JobView)
    ensures
        ({
            let (after, action) = job.next(Event::Done);
            &&& job.stage is Scratch ==> after.stage is LookUp && action == ActionView::LookUp(
                job.incoming.file_id,
            )
            &&& job.stage is LookUp ==> after.stage is CreateInput && action is CreateInput
            &&& job.stage is CreateInput ==> after.stage is Download && action is Download
            &&& job.stage is Download ==> after.stage is Head && action == ActionView::ReadHead(16)
        }),
{
}

/// A still is decoded, of a clip the first frame is looked at, and of anything
/// else it is said that it is not supported.
pub proof fn lemma_first_bytes(job: JobView, head: Vec<u8>)
    requires
        job.stage is Head,
    ensures
        ({
            let (after, action) = job.next(Event::Head(head));
            &&& kind_of(head@) matches Some(Kind::Image(fmt)) ==> after.stage == StageView::Still(
                fmt,
            ) && action is DecodeStill
            &&& kind_of(head@) matches Some(Kind::Video) ==> after.stage == StageView::Probe(0)
                && action == ActionView::Probe(probe_line(0, job.scratch))
            &&& kind_of(head@) is None ==> after.stage is Done && action == ActionView::Finish(
                AnswerView::Failed("unsupported file type"@),
            )
        }),
{
}

/// What is sent for a still: the rectangle that the detector finds in it, pixel
/// by pixel, written out in the format that its first bytes tell. Where the
/// detector finds nothing the scratch directory goes, and where the crop does not
/// fit into the format it is said that it could not be written.
pub proof fn lemma_decoded_still(
    job: JobView,
    fmt: ImageFormat,
    picture: Picture,
    pixels: Seq<[u8; 3]>,
)
    requires
        job.stage == StageView::Still(fmt),
        picture@.width <= u32::MAX,
        picture@.height <= u32::MAX,
        ({
            let found = detection_of(picture@.width, picture@.height, picture@.pixels);
            found.rect matches Some(rect) ==> rect.x0 < rect.x1 <= picture@.width && rect.y0
                < rect.y1 <= picture@.height && shows(
                pixels,
                rect.x1 - rect.x0,
                rect.y1 - rect.y0,
                picture@.pixels,
                picture@.width as int,
                rect.x0 as int,
                rect.y0 as int,
            )
        }),
    ensures
        ({
            let (after, action) = job.next(Event::Still(picture));
            let found = detection_of(picture@.width, picture@.height, picture@.pixels);
            let (encoding, ext) = match fmt {
                ImageFormat::Jpeg => (Encoding::Jpeg { quality: 90 }, "jpg"@),
                ImageFormat::Png => (Encoding::Png, "png"@),
                ImageFormat::Webp => (Encoding::WebPLossless, "webp"@),
            };
            &&& found.rect is None ==> after.stage == StageView::Cleanup(None) && action
                is RemoveScratch
            &&& found.rect matches Some(rect) ==> {
                let width = (rect.x1 - rect.x0) as nat;
                let height = (rect.y1 - rect.y0) as nat;
                &&& !fits(width, height, fmt) ==> after.stage is Done && action
                    == ActionView::Finish(AnswerView::Failed("encode crop"@))
                &&& fits(width, height, fmt) ==> after.stage == StageView::Send(found) && action
                    == ActionView::Send(
                    DeliveryView {
                        payload: PayloadView::Memory(encoded(width, height, pixels, encoding)),
                        file_name: output_name(job.incoming.name, ext),
                        method: match job.incoming.source {
                            Source::Photo => Method::Photo,
                            Source::Document => Method::Document,
                            Source::Animation => Method::Animation,
                            Source::Video => Method::Video { supports_streaming: true },
                        },
                    },
                )
            }
        }),
{
    lemma_still_shows_the_rectangle(
        picture@,
        pixels,
        fmt,
        job.incoming.name,
        job.incoming.source,
    );
}

/// The next attempt is made where one of the three is left; otherwise the
/// scratch directory goes.
pub open spec fn goes_on(job: JobView, attempt: nat, outcome: (JobView, ActionView)) -> bool {
    if attempt < 2 {
        outcome.0.stage == StageView::Probe(attempt + 1) && outcome.1 == ActionView::Probe(
            probe_line(attempt + 1, job.scratch),
        )
    } else {
        outcome.0.stage == StageView::Cleanup(None) && outcome.1 is RemoveScratch
    }
}

/// A frame that is not black and in which the detector finds a rectangle, asked
/// about the frame as it is, has the clip cut to just that rectangle; any other
/// frame, and a missing one, leads on.
pub proof fn lemma_probed_frame(job: JobView, attempt: nat, black: bool, picture: Picture)
    requires
        job.stage == StageView::Probe(attempt),
        attempt < 3,
    ensures
        goes_on(job, attempt, job.next(Event::NoFrame)),
        ({
            let frame = Event::Frame { black, picture };
            let (after, action) = job.next(frame);
            let found = detection_of(picture@.width, picture@.height, picture@.pixels);
            &&& black || found.rect is None ==> goes_on(job, attempt, job.next(frame))
            &&& !black && found.rect is Some ==> after.stage == StageView::Clip(found) && action
                is CropClip
            &&& !black ==> (found.rect matches Some(rect) ==> rect.x0 <= rect.x1 && rect.y0
                <= rect.y1 ==> cuts_out(action, job.scratch, rect.x0, rect.y0, rect.x1, rect.y1))
        }),
{
    let found = detection_of(picture@.width, picture@.height, picture@.pixels);
    if let Some(rect) = found.rect {
        if rect.x0 <= rect.x1 && rect.y0 <= rect.y1 {
            lemma_crop_line(rect, job.scratch);
        }
    }
}

/// ffmpeg is told to read the input, to cut out the region between these edges,
/// up to an odd column and an odd row, and to write the output.
pub open spec fn cuts_out(
    action: ActionView,
    scratch: ScratchView,
    left: usize,
    top: usize,
    right: usize,
    bottom: usize,
) -> bool {
    &&& action matches ActionView::CropClip(line)
    &&& line.len() == 15
    &&& line[5] == scratch.input
    &&& line[14] == scratch.output
    &&& read_crop(line[7]) matches Some((width, height, x, y))
    &&& x == left
    &&& y == top
    &&& right - 1 <= x + width <= right
    &&& bottom - 1 <= y + height <= bottom
}

/// The clip goes back exactly where ffmpeg succeeded and wrote it.
pub proof fn lemma_cropped_clip(
    job: JobView,
    detection: DetectionView,
    success: bool,
    written: bool,
)
    requires
        job.stage == StageView::Clip(detection),
    ensures
        ({
            let (after, action) = job.next(Event::Clip { success, written });
            &&& success && written ==> after.stage == StageView::Send(detection) && action
                == ActionView::Send(
                DeliveryView {
                    payload: PayloadView::Clip,
                    file_name: output_name(job.incoming.name, "mp4"@),
                    method: match job.incoming.source {
                        Source::Photo => Method::Photo,
                        Source::Document => Method::Document,
                        Source::Animation => Method::Animation,
                        Source::Video => Method::Video { supports_streaming: true },
                    },
                },
            )
            &&& !success || !written ==> after.stage is Done && action == ActionView::Finish(
                AnswerView::Failed("ffmpeg crop failed"@),
            )
        }),
{
}

/// What was sent is tidied up after and reported with what the detector said,
/// whether or not tidying up worked.
pub proof fn lemma_sent_and_tidied_up(job: JobView, event: Event)
    ensures
        job.stage matches StageView::Send(detection) ==> event is Done ==> job.next(event).0.stage
            == StageView::Cleanup(Some(detection)) && job.next(event).1 is RemoveScratch,
        job.stage matches StageView::Cleanup(found) ==> event is Done || event is Failed ==> {
            &&& job.next(event).0.stage is Done
            &&& found matches Some(detection) ==> job.next(event).1 == ActionView::Finish(
                AnswerView::Cropped(detection),
            )
            &&& found is None ==> job.next(event).1 == ActionView::Finish(
                AnswerView::NothingToCrop,
            )
        },
{
}

/// Whatever cannot be done ends the job, except for tidying up. The sender is
/// told what it was where that is known, and the reason as it came otherwise.
pub proof fn lemma_failures_are_told(job: JobView, reason: String)
    requires
        job.stage !is Done,
        job.stage !is Cleanup,
    ensures
        ({
            let (after, action) = job.next(Event::Failed(reason));
            &&& after.stage is Done
            &&& action matches ActionView::Finish(AnswerView::Failed(text))
            &&& job.stage is Scratch ==> text == "create scratch dir"@
            &&& job.stage is LookUp ==> text == "get_file"@
            &&& job.stage is Download ==> text == "download_file"@
            &&& job.stage is Probe || job.stage is Clip ==> text == "spawn ffmpeg"@
            &&& job.stage is CreateInput || job.stage is Head || job.stage is Still || job.stage
                is Send ==> text == reason@
        }),
{
}

/// What cannot be decoded ends the job.
pub proof fn lemma_undecodable_is_told(job: JobView)
    requires
        job.stage is Still || job.stage is Probe,
    ensures
        ({
            let (after, action) = job.next(Event::Undecodable);
            &&& after.stage is Done
            &&& action matches ActionView::Finish(AnswerView::Failed(text))
            &&& job.stage is Still ==> text == "decode image"@
            &&& job.stage is Probe ==> text == "decode probe frame"@
        }),
{
}

/// The event is one that the stage waits for.
pub open spec fn is_awaited(stage: StageView, event: Event) -> bool {
    match event {
        Event::Done => stage is Scratch || stage is LookUp || stage is CreateInput || stage
            is Download || stage is Send || stage is Cleanup,
        Event::Failed(_) => stage !is Done,
        Event::Head(_) => stage is Head,
        Event::Still(_) => stage is Still,
        Event::Undecodable => stage is Still || stage is Probe,
        Event::NoFrame | Event::Frame { .. } => stage is Probe,
        Event::Clip { .. } => stage is Clip,
    }
}

/// An event is passed over, and changes nothing, exactly where the job does not
/// wait for it.
pub proof fn lemma_strays_change_nothing(job: JobView, event: Event)
    ensures
        job.next(event).1 is Wait <==> !is_awaited(job.stage, event),
        !is_awaited(job.stage, event) ==> job.next(event).0 == job,
{
}

/// A crop speaks for itself; otherwise the sender is told that there is nothing
/// to crop, or what went wrong, to the letter.
pub proof fn lemma_replies(detection: DetectionView, text: Seq<char>)
    ensures
        AnswerView::Cropped(detection).reply() is None,
        AnswerView::NothingToCrop.reply() == Some(
            "Nothing to crop — that doesn't look like a screenshot."@,
        ),
        AnswerView::Failed(text).reply() == Some("Couldn't process that one: "@ + text),
{
}

} // verus!
