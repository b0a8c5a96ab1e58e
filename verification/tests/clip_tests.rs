use autocrop_bot::clip::{probe_detected, probe_frame, probe_missed, settle_clip, Verdict};
use autocrop_bot::delivery::{Method, Payload};
use autocrop_bot::ffmpeg::{crop_args, crop_filter, even_floor, probe_args, PROBES};
use autocrop_bot::media::Source;
use autocrop_bot::picture::{Detection, Picture, Rect};
use autocrop_bot::scratch::Scratch;

fn scratch() -> Scratch {
    Scratch {
        input: "/tmp/x/in".to_string(),
        frame: "/tmp/x/frame.jpg".to_string(),
        output: "/tmp/x/out.mp4".to_string(),
    }
}

fn detection(rect: Option<Rect>) -> Detection {
    Detection { rect, score_bits: 0, reason: "chrome".to_string() }
}

#[test]
fn probe_command_lines() {
    let expected: [&[&str]; PROBES] = [
        &["-i", "/tmp/x/in", "-frames:v", "1"],
        &["-ss", "3", "-i", "/tmp/x/in", "-frames:v", "1"],
        &["-sseof", "-0.5", "-i", "/tmp/x/in", "-update", "1"],
    ];
    for (attempt, middle) in expected.iter().enumerate() {
        let mut line = vec!["-hide_banner", "-loglevel", "error", "-y"];
        line.extend(middle.iter());
        line.extend(["-q:v", "2", "/tmp/x/frame.jpg"]);
        assert_eq!(probe_args(attempt, &scratch()), line);
    }
}

#[test]
fn crop_command_line() {
    let rect = Rect { x0: 3, y0: 412, x1: 600, y1: 751 };
    let expected = vec![
        "-hide_banner", "-loglevel", "error", "-y",
        "-i", "/tmp/x/in", "-vf", "crop=596:338:3:412", "-c:a", "copy",
        "-movflags", "+faststart", "-pix_fmt", "yuv420p", "/tmp/x/out.mp4",
    ];
    assert_eq!(crop_args(&rect, &scratch()), expected);
}

#[test]
fn sides_are_made_even() {
    assert_eq!(crop_filter(&Rect { x0: 0, y0: 0, x1: 10, y1: 4 }), "crop=10:4:0:0");
    assert_eq!(crop_filter(&Rect { x0: 1, y0: 2, x1: 2, y1: 5 }), "crop=0:2:1:2");
    assert_eq!(even_floor(0), 0);
    assert_eq!(even_floor(7), 6);
    assert_eq!(even_floor(usize::MAX), usize::MAX - 1);
}

#[test]
fn misses_lead_on() {
    assert!(matches!(probe_missed(0), Verdict::Look(1)));
    assert!(matches!(probe_missed(1), Verdict::Look(2)));
    assert!(matches!(probe_missed(2), Verdict::Nothing));
}

#[test]
fn a_rectangle_ends_the_probing() {
    let rect = Rect { x0: 0, y0: 1, x1: 2, y1: 3 };
    match probe_detected(1, detection(Some(rect))) {
        Verdict::Found(found) => assert_eq!(found.rect, Some(rect)),
        other => panic!("{other:?}"),
    }
    assert!(matches!(probe_detected(0, detection(None)), Verdict::Look(1)));
    assert!(matches!(probe_detected(2, detection(None)), Verdict::Nothing));
}

/// Stripes of many colours between black bars.
fn framed() -> Picture {
    let mut pixels = vec![[0u8; 3]; 300 * 500];
    for y in 120..380 {
        for x in 0..300 {
            pixels[y * 300 + x] = [(x * 7 + y * 13) as u8 | 64, (x * 29) as u8 | 32, (y * 31) as u8];
        }
    }
    Picture::new(300, 500, pixels).unwrap()
}

#[test]
fn black_frames_are_passed_over() {
    assert!(matches!(probe_frame(0, true, &framed()), Verdict::Look(1)));
    assert!(matches!(probe_frame(2, true, &framed()), Verdict::Nothing));
    match probe_frame(0, false, &framed()) {
        Verdict::Found(found) => {
            assert_eq!(found.rect, Some(Rect { x0: 0, y0: 120, x1: 300, y1: 380 }));
        }
        other => panic!("{other:?}"),
    }
    let plain = Picture::new(40, 30, vec![[90; 3]; 1200]).unwrap();
    assert!(matches!(probe_frame(0, false, &plain), Verdict::Look(1)));
}

#[test]
fn clips_come_back_as_they_came() {
    for (source, method) in [
        (Source::Animation, Method::Animation),
        (Source::Document, Method::Document),
        (Source::Video, Method::Video { supports_streaming: true }),
        (Source::Photo, Method::Photo),
    ] {
        let delivery = settle_clip(true, true, "clip.mov", source).unwrap();
        assert_eq!(delivery.method, method);
        assert_eq!(delivery.file_name, "clip_crop.mp4");
        assert!(matches!(delivery.payload, Payload::Clip));
    }
}

#[test]
fn a_clip_that_was_not_written() {
    assert!(settle_clip(false, true, "a", Source::Video).is_none());
    assert!(settle_clip(true, false, "a", Source::Video).is_none());
    assert!(settle_clip(false, false, "a", Source::Video).is_none());
}
