use autocrop_bot::delivery::{Method, Payload};
use autocrop_bot::job::{Action, Answer, Event, Job};
use autocrop_bot::media::{Incoming, Source};
use autocrop_bot::picture::{Picture, Rect};
use autocrop_bot::scratch::Scratch;

const BOX: Rect = Rect { x0: 0, y0: 120, x1: 300, y1: 380 };

fn start(source: Source) -> Job {
    let incoming = Incoming {
        file_id: "file-1".to_string(),
        size: Some(1000),
        name: "shot.png".to_string(),
        source,
    };
    let scratch = Scratch {
        input: "d/in".to_string(),
        frame: "d/frame.jpg".to_string(),
        output: "d/out.mp4".to_string(),
    };
    let (job, action) = Job::start(incoming, scratch);
    assert!(matches!(action, Action::CreateScratch));
    job
}

/// A job that waits for the first bytes.
fn downloaded(source: Source) -> Job {
    let (job, action) = start(source).step(Event::Done);
    match action {
        Action::LookUp(id) => assert_eq!(id, "file-1"),
        other => panic!("{other:?}"),
    }
    let (job, action) = job.step(Event::Done);
    assert!(matches!(action, Action::CreateInput));
    let (job, action) = job.step(Event::Done);
    assert!(matches!(action, Action::Download));
    let (job, action) = job.step(Event::Done);
    assert!(matches!(action, Action::ReadHead(16)));
    job
}

fn still(source: Source) -> Job {
    let (job, action) = downloaded(source).step(Event::Head(b"\xff\xd8\xff\xe0".to_vec()));
    assert!(matches!(action, Action::DecodeStill));
    job
}

fn clip(source: Source) -> Job {
    let (job, action) = downloaded(source).step(Event::Head(b"\0\0\0\x18ftypisom".to_vec()));
    assert!(probes(&action, &[]));
    job
}

fn probes(action: &Action, seek: &[&str]) -> bool {
    match action {
        Action::Probe(args) => args[4..4 + seek.len()] == *seek && args[4 + seek.len()] == "-i",
        _ => false,
    }
}

/// Stripes of many colours between black bars.
fn framed() -> Picture {
    let mut pixels = vec![[0u8; 3]; 300 * 500];
    for y in 120..380 {
        for x in 0..300 {
            pixels[y * 300 + x] = [(x * 7 + y * 13) as u8 | 64, (x * 29) as u8 | 32, (y * 31) as u8];
        }
    }
    Picture::new(300, 500, pixels).unwrap()
}

fn plain() -> Picture {
    Picture::new(40, 30, vec![[90; 3]; 1200]).unwrap()
}

fn failure(action: Action) -> String {
    match action {
        Action::Finish(Answer::Failed(text)) => text,
        other => panic!("{other:?}"),
    }
}

fn reason() -> Event {
    Event::Failed("disk on fire".to_string())
}

#[test]
fn a_photo_is_cropped_and_sent() {
    let (job, action) = still(Source::Photo).step(Event::Still(framed()));
    match action {
        Action::Send(delivery) => {
            assert_eq!(delivery.method, Method::Photo);
            assert_eq!(delivery.file_name, "shot_crop.jpg");
            assert!(matches!(delivery.payload, Payload::Memory(_)));
        }
        other => panic!("{other:?}"),
    }
    let (job, action) = job.step(Event::Done);
    assert!(matches!(action, Action::RemoveScratch));
    let (job, action) = job.step(Event::Done);
    match action {
        Action::Finish(answer) => {
            assert!(answer.reply().is_none());
            match answer {
                Answer::Cropped(detection) => assert_eq!(detection.rect, Some(BOX)),
                other => panic!("{other:?}"),
            }
        }
        other => panic!("{other:?}"),
    }
    let (_, action) = job.step(Event::Done);
    assert!(matches!(action, Action::Wait));
}

#[test]
fn a_note_instead_of_a_crop() {
    let (job, action) = still(Source::Document).step(Event::Still(plain()));
    assert!(matches!(action, Action::RemoveScratch));
    let (_, action) = job.step(reason());
    match action {
        Action::Finish(answer) => assert_eq!(
            answer.reply().unwrap(),
            "Nothing to crop — that doesn't look like a screenshot."
        ),
        other => panic!("{other:?}"),
    }
}

#[test]
fn the_probe_skips_black_and_crops() {
    let (job, action) = clip(Source::Video).step(Event::Frame { black: true, picture: plain() });
    assert!(probes(&action, &["-ss", "3"]));
    let (job, action) = job.step(Event::Frame { black: false, picture: framed() });
    match action {
        Action::CropClip(args) => assert!(args.contains(&"crop=300:260:0:120".to_string())),
        other => panic!("{other:?}"),
    }
    let (job, action) = job.step(Event::Clip { success: true, written: true });
    match action {
        Action::Send(delivery) => {
            assert_eq!(delivery.method, Method::Video { supports_streaming: true });
            assert_eq!(delivery.file_name, "shot_crop.mp4");
            assert!(matches!(delivery.payload, Payload::Clip));
        }
        other => panic!("{other:?}"),
    }
    let (job, action) = job.step(Event::Done);
    assert!(matches!(action, Action::RemoveScratch));
    let (_, action) = job.step(Event::Done);
    assert!(matches!(action, Action::Finish(Answer::Cropped(_))));
}

#[test]
fn three_probes_and_no_more() {
    let (job, action) = clip(Source::Animation).step(Event::Frame { black: false, picture: plain() });
    assert!(probes(&action, &["-ss", "3"]));
    let (job, action) = job.step(Event::NoFrame);
    assert!(probes(&action, &["-sseof", "-0.5"]));
    let (job, action) = job.step(Event::Frame { black: true, picture: framed() });
    assert!(matches!(action, Action::RemoveScratch));
    let (_, action) = job.step(Event::Done);
    assert!(matches!(action, Action::Finish(Answer::NothingToCrop)));
}

#[test]
fn the_last_frame_of_a_short_clip() {
    let (job, action) = clip(Source::Animation).step(Event::NoFrame);
    assert!(probes(&action, &["-ss", "3"]));
    let (job, action) = job.step(Event::NoFrame);
    assert!(probes(&action, &["-sseof", "-0.5"]));
    match action {
        Action::Probe(args) => assert_eq!(
            args[6..],
            ["-i", "d/in", "-update", "1", "-q:v", "2", "d/frame.jpg"]
        ),
        other => panic!("{other:?}"),
    }
    let (_, action) = job.step(Event::Frame { black: false, picture: framed() });
    match action {
        Action::CropClip(args) => assert!(args.contains(&"crop=300:260:0:120".to_string())),
        other => panic!("{other:?}"),
    }
}

#[test]
fn results_come_back_as_they_arrived() {
    for (source, method) in [
        (Source::Photo, Method::Photo),
        (Source::Document, Method::Document),
        (Source::Video, Method::Video { supports_streaming: true }),
        (Source::Animation, Method::Animation),
    ] {
        match still(source).step(Event::Still(framed())).1 {
            Action::Send(delivery) => assert_eq!(delivery.method, method),
            other => panic!("{other:?}"),
        }
        let (job, _) = clip(source).step(Event::Frame { black: false, picture: framed() });
        match job.step(Event::Clip { success: true, written: true }).1 {
            Action::Send(delivery) => assert_eq!(delivery.method, method),
            other => panic!("{other:?}"),
        }
    }
}

#[test]
fn nothing_is_sent_before_the_note() {
    let fetched = |head: &[u8]| {
        vec![Event::Done, Event::Done, Event::Done, Event::Done, Event::Head(head.to_vec())]
    };
    let mut on_still = fetched(b"\x89PNG\r\n\x1a\n");
    on_still.extend([Event::NoFrame, Event::Still(plain()), Event::Done]);
    let mut on_clip = fetched(b"\0\0\0\x18ftypisom");
    on_clip.extend([
        Event::Frame { black: true, picture: framed() },
        Event::NoFrame,
        Event::Frame { black: false, picture: plain() },
        Event::Done,
    ]);
    for events in [on_still, on_clip] {
        let mut job = start(Source::Document);
        let mut last = Action::Wait;
        for event in events {
            (job, last) = job.step(event);
            assert!(!matches!(last, Action::Send(_)));
        }
        assert!(matches!(last, Action::Finish(Answer::NothingToCrop)));
    }
}

#[test]
fn one_delivery_before_a_crop_is_reported() {
    let mut job = start(Source::Video);
    let mut sent = 0;
    for event in [
        Event::Done,
        Event::Done,
        Event::Done,
        Event::Done,
        Event::Head(b"\x89PNG\r\n\x1a\n".to_vec()),
        Event::Still(framed()),
        Event::Still(framed()),
        Event::Done,
        Event::Still(framed()),
        Event::Done,
    ] {
        let (next, action) = job.step(event);
        match action {
            Action::Send(_) => sent += 1,
            Action::Finish(answer) => {
                assert!(matches!(answer, Answer::Cropped(_)));
                assert_eq!(sent, 1);
            }
            _ => {}
        }
        job = next;
    }
    assert_eq!(sent, 1);
}

#[test]
fn unsupported_files() {
    let (job, action) = downloaded(Source::Document).step(Event::Head(b"%PDF-1.7".to_vec()));
    match action {
        Action::Finish(answer) => assert_eq!(
            answer.reply().unwrap(),
            "Couldn't process that one: unsupported file type"
        ),
        other => panic!("{other:?}"),
    }
    assert!(matches!(job.step(Event::Head(b"GIF89a".to_vec())).1, Action::Wait));
}

#[test]
fn failures_say_what_went_wrong() {
    let job = start(Source::Photo);
    assert_eq!(failure(job.step(reason()).1), "create scratch dir");
    let (job, _) = start(Source::Photo).step(Event::Done);
    assert_eq!(failure(job.step(reason()).1), "get_file");
    let (job, _) = start(Source::Photo).step(Event::Done);
    let (job, _) = job.step(Event::Done);
    assert_eq!(failure(job.step(reason()).1), "disk on fire");
    let (job, _) = start(Source::Photo).step(Event::Done);
    let (job, _) = job.step(Event::Done);
    let (job, _) = job.step(Event::Done);
    assert_eq!(failure(job.step(reason()).1), "download_file");
    assert_eq!(failure(downloaded(Source::Photo).step(reason()).1), "disk on fire");
}

#[test]
fn failures_on_stills() {
    assert_eq!(failure(still(Source::Photo).step(Event::Undecodable).1), "decode image");
    assert_eq!(failure(still(Source::Photo).step(reason()).1), "disk on fire");
    let (job, _) = still(Source::Photo).step(Event::Still(framed()));
    assert_eq!(failure(job.step(reason()).1), "disk on fire");
}

#[test]
fn a_crop_that_webp_cannot_hold() {
    let (width, height) = (300, 17400);
    let mut pixels = vec![[0u8; 3]; width * height];
    for y in 500..height - 500 {
        for x in 0..width {
            pixels[y * width + x] = [200, 150, (y / 70) as u8];
        }
    }
    let tall = Picture::new(width, height, pixels).unwrap();
    let (job, action) = downloaded(Source::Photo).step(Event::Head(b"RIFF\0\0\0\0WEBPVP8L".to_vec()));
    assert!(matches!(action, Action::DecodeStill));
    assert_eq!(failure(job.step(Event::Still(tall)).1), "encode crop");
}

#[test]
fn failures_on_clips() {
    assert_eq!(failure(clip(Source::Video).step(reason()).1), "spawn ffmpeg");
    assert_eq!(failure(clip(Source::Video).step(Event::Undecodable).1), "decode probe frame");
    let found = || clip(Source::Video).step(Event::Frame { black: false, picture: framed() }).0;
    assert_eq!(failure(found().step(reason()).1), "spawn ffmpeg");
    let run = |success, written| found().step(Event::Clip { success, written }).1;
    assert_eq!(failure(run(false, true)), "ffmpeg crop failed");
    assert_eq!(failure(run(true, false)), "ffmpeg crop failed");
}

#[test]
fn events_that_do_not_belong() {
    let (job, action) = start(Source::Photo).step(Event::NoFrame);
    assert!(matches!(action, Action::Wait));
    let (_, action) = job.step(Event::Done);
    assert!(matches!(action, Action::LookUp(_)));
    let (job, action) = clip(Source::Video).step(Event::Still(framed()));
    assert!(matches!(action, Action::Wait));
    assert!(probes(&job.step(Event::NoFrame).1, &["-ss", "3"]));
}

#[test]
fn the_longest_job_takes_eleven_events() {
    let mut events = vec![
        Event::Done,
        Event::Done,
        Event::Done,
        Event::Done,
        Event::Head(b"GIF89a".to_vec()),
        Event::NoFrame,
        Event::Frame { black: true, picture: plain() },
        Event::Frame { black: false, picture: framed() },
        Event::Clip { success: true, written: true },
        Event::Done,
    ];
    assert_eq!(events.len(), 10);
    let mut job = start(Source::Animation);
    for event in events.drain(..) {
        let (next, action) = job.step(event);
        assert!(!matches!(action, Action::Wait | Action::Finish(_)));
        job = next;
    }
    let (job, action) = job.step(reason());
    assert!(matches!(action, Action::Finish(Answer::Cropped(_))));
    assert!(matches!(job.step(Event::Done).1, Action::Wait));
}

#[test]
fn the_bytes_decide_not_the_source() {
    for source in [Source::Photo, Source::Video, Source::Animation, Source::Document] {
        let (_, action) = downloaded(source).step(Event::Head(b"BM6\0\0\0".to_vec()));
        assert!(matches!(action, Action::DecodeStill));
        let (_, action) = downloaded(source).step(Event::Head(b"\x1aE\xdf\xa3\x01".to_vec()));
        assert!(probes(&action, &[]));
    }
}
