use autocrop_bot::format::{sniff, Encoding, ImageFormat, Kind, HEAD_LEN};

#[test]
fn sniff_by_magic() {
    assert_eq!(sniff(b"\xff\xd8\xff\xe0"), Some(Kind::Image(ImageFormat::Jpeg)));
    assert_eq!(sniff(b"\x89PNG\r\n\x1a\n...."), Some(Kind::Image(ImageFormat::Png)));
    assert_eq!(sniff(b"RIFF\0\0\0\0WEBPVP8 "), Some(Kind::Image(ImageFormat::Webp)));
    assert_eq!(sniff(b"\0\0\0\x18ftypisom"), Some(Kind::Video));
    assert_eq!(sniff(b"\x1aE\xdf\xa3\x01"), Some(Kind::Video));
    assert_eq!(sniff(b"GIF89a"), Some(Kind::Video));
    assert_eq!(sniff(b"%PDF-1.7"), None);
    assert_eq!(sniff(b""), None);
}

#[test]
fn bmp_is_written_out_as_png() {
    assert_eq!(sniff(b"BM6\0\0\0"), Some(Kind::Image(ImageFormat::Png)));
    assert_eq!(sniff(b"BM"), Some(Kind::Image(ImageFormat::Png)));
}

#[test]
fn short_heads_do_not_match() {
    assert_eq!(sniff(b"\xff\xd8"), None);
    assert_eq!(sniff(b"\x89PNG\r\n\x1a"), None);
    assert_eq!(sniff(b"RIFF\0\0\0\0WEB"), None);
    assert_eq!(sniff(b"\0\0\0\x18fty"), None);
    assert_eq!(sniff(b"B"), None);
    assert_eq!(sniff(b"GIF"), None);
}

#[test]
fn riff_that_is_not_webp() {
    assert_eq!(sniff(b"RIFF\0\0\0\0AVI LIST"), None);
    assert_eq!(sniff(b"RIFFftypWEBPVP8 "), Some(Kind::Image(ImageFormat::Webp)));
    assert_eq!(sniff(b"RIFFftypAVI "), Some(Kind::Video));
}

#[test]
fn earlier_signatures_win_over_ftyp() {
    assert_eq!(sniff(b"\xff\xd8\xff\xe0ftyp"), Some(Kind::Image(ImageFormat::Jpeg)));
    assert_eq!(sniff(b"BM\0\0ftypisom"), Some(Kind::Image(ImageFormat::Png)));
}

#[test]
fn the_head_is_enough() {
    let mut file = b"RIFF\0\0\0\0WEBPVP8 ".to_vec();
    file.extend_from_slice(&[7; 1000]);
    assert_eq!(sniff(&file), sniff(&file[..HEAD_LEN]));
    assert_eq!(HEAD_LEN, 16);
}

#[test]
fn encodings_and_extensions() {
    assert_eq!(ImageFormat::Jpeg.encoding(), Encoding::Jpeg { quality: 90 });
    assert_eq!(ImageFormat::Png.encoding(), Encoding::Png);
    assert_eq!(ImageFormat::Webp.encoding(), Encoding::WebPLossless);
    assert_eq!(ImageFormat::Jpeg.ext(), "jpg");
    assert_eq!(ImageFormat::Png.ext(), "png");
    assert_eq!(ImageFormat::Webp.ext(), "webp");
}
