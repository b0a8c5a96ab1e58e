use autocrop_bot::delivery::{Method, Payload};
use autocrop_bot::format::{sniff, ImageFormat, Kind};
use autocrop_bot::media::Source;
use autocrop_bot::picture::{crop_image, crop_to, Picture, Rect};
use autocrop_bot::still::{crop_still, finish_still};

const BOX: Rect = Rect { x0: 0, y0: 120, x1: 300, y1: 380 };

/// Coloured noise between black bars, 300 by 500.
fn letterboxed() -> Vec<[u8; 3]> {
    let mut seed: u32 = 7;
    let mut channel = move || {
        seed = seed.wrapping_mul(1_664_525).wrapping_add(1_013_904_223);
        40 + (seed >> 24) as u8 % 200
    };
    let mut pixels = vec![[0u8; 3]; 300 * 500];
    for y in 120..380 {
        for x in 0..300 {
            pixels[y * 300 + x] = [channel(), channel(), channel()];
        }
    }
    pixels
}

fn letterboxed_picture() -> Picture {
    Picture::new(300, 500, letterboxed()).unwrap()
}

fn solid(width: usize, height: usize, color: [u8; 3]) -> Picture {
    Picture::new(width, height, vec![color; width * height]).unwrap()
}

#[test]
fn unsound_pictures_are_refused() {
    assert!(Picture::new(0, 4, vec![]).is_none());
    assert!(Picture::new(4, 0, vec![]).is_none());
    assert!(Picture::new(2, 2, vec![[0; 3]; 3]).is_none());
    assert!(Picture::new(usize::MAX, 2, vec![[0; 3]; 3]).is_none());
    assert!(Picture::new(1, 1, vec![[9; 3]]).is_some());
}

#[test]
fn crop_copies_the_rectangle() {
    let pixels: Vec<[u8; 3]> = (0..20u8).map(|i| [i, i + 100, 0]).collect();
    let picture = Picture::new(5, 4, pixels).unwrap();
    let cut = picture.crop(&Rect { x0: 1, y0: 2, x1: 4, y1: 4 });
    assert_eq!((cut.width(), cut.height()), (3, 2));
    let first: Vec<u8> = cut.pixels().iter().map(|p| p[0]).collect();
    assert_eq!(first, vec![11, 12, 13, 16, 17, 18]);
    let whole = picture.crop(&Rect { x0: 0, y0: 0, x1: 5, y1: 4 });
    assert_eq!(whole.pixels(), picture.pixels());
    let kept = crop_to(picture, None);
    assert_eq!((kept.width(), kept.height()), (5, 4));
}

#[test]
fn crop_agrees_with_the_detector_crate() {
    let image = autocrop::RgbImage::new(300, 500, letterboxed());
    let cut = image.crop(&autocrop::Rect::new(10, 20, 33, 47));
    let ours = letterboxed_picture().crop(&Rect { x0: 10, y0: 20, x1: 33, y1: 47 });
    assert_eq!((ours.width(), ours.height()), (cut.width, cut.height));
    assert_eq!(ours.pixels(), &cut.pixels);
}

#[test]
fn bars_are_cut_off() {
    let (cropped, detection) = crop_image(letterboxed_picture());
    assert_eq!(detection.rect, Some(BOX));
    assert_eq!((cropped.width(), cropped.height()), (300, 260));
    assert_eq!(cropped.pixels()[..], letterboxed()[120 * 300..380 * 300]);
    let image = autocrop::RgbImage::new(300, 500, letterboxed());
    let direct = autocrop::find_crop(&image, &autocrop::Params::default());
    assert_eq!(f64::from_bits(detection.score_bits), direct.score);
    assert_eq!(detection.reason, direct.reason);
}

#[test]
fn a_plain_picture_is_left_alone() {
    let (same, detection) = crop_image(solid(64, 48, [200, 10, 10]));
    assert_eq!(detection.rect, None);
    assert_eq!((same.width(), same.height()), (64, 48));
    assert!(detection.reason.starts_with("no-crop"));
}

#[test]
fn a_large_picture_is_cut_in_its_own_pixels() {
    let mut pixels = vec![[0u8; 3]; 1200 * 2000];
    let small = letterboxed();
    for y in 480..1520 {
        for x in 0..1200 {
            pixels[y * 1200 + x] = small[(y / 4) * 300 + x / 4];
        }
    }
    let (cropped, detection) = crop_image(Picture::new(1200, 2000, pixels).unwrap());
    let rect = detection.rect.unwrap();
    assert_eq!((rect.x0, rect.x1), (0, 1200));
    assert!(rect.y0.abs_diff(480) <= 4 && rect.y1.abs_diff(1520) <= 4);
    assert_eq!((cropped.width(), cropped.height()), (rect.width(), rect.height()));
}

#[test]
fn stills_come_back_in_their_format() {
    for (fmt, name) in [
        (ImageFormat::Jpeg, "shot_crop.jpg"),
        (ImageFormat::Png, "shot_crop.png"),
        (ImageFormat::Webp, "shot_crop.webp"),
    ] {
        let still =
            crop_still(letterboxed_picture(), fmt, "shot.bin", Source::Photo).unwrap().unwrap();
        assert_eq!(still.detection.rect, Some(BOX));
        assert_eq!(still.delivery.file_name, name);
        assert_eq!(still.delivery.method, Method::Photo);
        let bytes = match still.delivery.payload {
            Payload::Memory(bytes) => bytes,
            Payload::Clip => panic!("a still is sent from memory"),
        };
        assert_eq!(sniff(&bytes), Some(Kind::Image(fmt)));
        let back = image::load_from_memory(&bytes).unwrap().to_rgb8();
        assert_eq!((back.width(), back.height()), (300, 260));
        if fmt != ImageFormat::Jpeg {
            let expected: Vec<u8> =
                letterboxed()[120 * 300..380 * 300].iter().flatten().copied().collect();
            assert_eq!(back.as_raw(), &expected);
        }
    }
}

#[test]
fn stills_come_back_as_they_came() {
    for (source, method) in [
        (Source::Photo, Method::Photo),
        (Source::Document, Method::Document),
        (Source::Video, Method::Video { supports_streaming: true }),
        (Source::Animation, Method::Animation),
    ] {
        let still = crop_still(letterboxed_picture(), ImageFormat::Png, "", source);
        let delivery = still.unwrap().unwrap().delivery;
        assert_eq!(delivery.method, method);
        assert_eq!(delivery.file_name, "crop.png");
    }
}

#[test]
fn nothing_found_sends_nothing() {
    let r = crop_still(solid(64, 48, [9, 9, 9]), ImageFormat::Png, "a.png", Source::Photo);
    assert!(r.unwrap().is_none());
}

#[test]
fn a_crop_too_large_for_its_format() {
    let detection = || crop_image(letterboxed_picture()).1;
    let wide = solid(65536, 1, [1, 2, 3]);
    assert!(finish_still(&wide, detection(), ImageFormat::Jpeg, "", Source::Photo).is_err());
    assert!(finish_still(&wide, detection(), ImageFormat::Webp, "", Source::Photo).is_err());
    assert!(finish_still(&wide, detection(), ImageFormat::Png, "", Source::Photo).is_ok());
    let edge = solid(65535, 1, [1, 2, 3]);
    assert!(finish_still(&edge, detection(), ImageFormat::Jpeg, "", Source::Photo).is_ok());
    let edge = solid(1, 16384, [1, 2, 3]);
    assert!(finish_still(&edge, detection(), ImageFormat::Webp, "", Source::Photo).is_ok());
    let over = solid(1, 16385, [1, 2, 3]);
    assert!(finish_still(&over, detection(), ImageFormat::Webp, "", Source::Photo).is_err());
}
