use autocrop_bot::media::{
    extract, receive, FileRef, Intake, Media, NamedFile, Source, MAX_DOWNLOAD, SEND_ME, TOO_LARGE,
};

fn file(id: &str, size: u32) -> FileRef {
    FileRef { id: id.to_string(), size }
}

fn named(id: &str, size: u32, name: Option<&str>) -> NamedFile {
    NamedFile { file: file(id, size), file_name: name.map(|n| n.to_string()) }
}

#[test]
fn the_largest_photo_is_taken() {
    let sizes = vec![file("s", 100), file("l", 900), file("m", 400)];
    let incoming = extract(&Media::Photo(sizes)).unwrap();
    assert_eq!(incoming.file_id, "l");
    assert_eq!(incoming.size, Some(900));
    assert_eq!(incoming.name, "");
    assert_eq!(incoming.source, Source::Photo);
}

#[test]
fn the_last_of_equal_photos_is_taken() {
    let sizes = vec![file("a", 900), file("b", 100), file("c", 900), file("d", 1)];
    assert_eq!(extract(&Media::Photo(sizes)).unwrap().file_id, "c");
}

#[test]
fn files_keep_their_names() {
    let incoming = extract(&Media::Video(named("v", 5, Some("clip.mov")))).unwrap();
    assert_eq!((incoming.file_id.as_str(), incoming.name.as_str()), ("v", "clip.mov"));
    assert_eq!(incoming.source, Source::Video);
    let incoming = extract(&Media::Animation(named("a", 6, None))).unwrap();
    assert_eq!((incoming.file_id.as_str(), incoming.name.as_str()), ("a", ""));
    assert_eq!(incoming.source, Source::Animation);
    let incoming = extract(&Media::Document(named("d", 7, Some("shot.png")))).unwrap();
    assert_eq!((incoming.file_id.as_str(), incoming.name.as_str()), ("d", "shot.png"));
    assert_eq!((incoming.size, incoming.source), (Some(7), Source::Document));
}

#[test]
fn nothing_to_extract() {
    assert!(extract(&Media::Other).is_none());
    assert!(extract(&Media::Photo(vec![])).is_none());
}

#[test]
fn messages_without_a_file() {
    match receive(&Media::Other, true) {
        Intake::Reply(text) => {
            assert_eq!(text, "Send me a screenshot as a photo, video, GIF or file.");
            assert_eq!(text, SEND_ME);
        }
        other => panic!("{other:?}"),
    }
    assert!(matches!(receive(&Media::Other, false), Intake::Ignore));
    assert!(matches!(receive(&Media::Photo(vec![]), false), Intake::Ignore));
}

#[test]
fn the_download_cap() {
    assert_eq!(MAX_DOWNLOAD, 20 * 1024 * 1024);
    match receive(&Media::Document(named("d", MAX_DOWNLOAD, None)), false) {
        Intake::Process(incoming) => assert_eq!(incoming.size, Some(20971520)),
        other => panic!("{other:?}"),
    }
    match receive(&Media::Document(named("d", MAX_DOWNLOAD + 1, None)), false) {
        Intake::Reply(text) => {
            assert_eq!(text, "That file is over 20 MB, which is as much as a bot can download.");
            assert_eq!(text, TOO_LARGE);
        }
        other => panic!("{other:?}"),
    }
}
