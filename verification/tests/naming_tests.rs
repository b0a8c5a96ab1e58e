use autocrop_bot::naming::out_name;
use autocrop_bot::scratch::{scratch_dir_name, FRAME_FILE, INPUT_FILE, OUTPUT_FILE};
use autocrop_bot::text::append_decimal;

#[test]
fn out_name_rules() {
    assert_eq!(out_name("shot.png", "png"), "shot_crop.png");
    assert_eq!(out_name("clip.mov", "mp4"), "clip_crop.mp4");
    assert_eq!(out_name("", "jpg"), "crop.jpg");
}

#[test]
fn out_name_edges() {
    assert_eq!(out_name("shot", "png"), "shot_crop.png");
    assert_eq!(out_name("a.b.c", "png"), "a.b_crop.png");
    assert_eq!(out_name(".png", "png"), "crop.png");
    assert_eq!(out_name(".", "png"), "crop.png");
    assert_eq!(out_name("shot.", "png"), "shot_crop.png");
    assert_eq!(out_name("..", "png"), "._crop.png");
    assert_eq!(out_name("écran — 1.webp", "webp"), "écran — 1_crop.webp");
    assert_eq!(out_name("shot.jpeg", "png"), out_name("shot.gif", "png"));
}

#[test]
fn scratch_names() {
    assert_eq!(scratch_dir_name(7, Some(1234567890)), "autocrop-7-1234567890");
    assert_eq!(scratch_dir_name(0, None), "autocrop-0-0");
    assert_eq!(
        scratch_dir_name(u32::MAX, Some(u128::MAX)),
        format!("autocrop-{}-{}", u32::MAX, u128::MAX)
    );
    assert_ne!(scratch_dir_name(1, Some(12)), scratch_dir_name(11, Some(2)));
    assert_eq!((INPUT_FILE, FRAME_FILE, OUTPUT_FILE), ("in", "frame.jpg", "out.mp4"));
}

#[test]
fn decimals() {
    for n in [0u128, 9, 10, 99, 100, 1005, 65535, u128::MAX] {
        let mut out = String::from("n=");
        append_decimal(&mut out, n);
        assert_eq!(out, format!("n={n}"));
    }
}
