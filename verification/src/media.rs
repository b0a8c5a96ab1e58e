//! What a message brings, and whether the bot works on it.

use vstd::prelude::*;

verus! {

/// Public Bot API download cap, in bytes.
pub const MAX_DOWNLOAD: u32 = 20 * 1024 * 1024;

/// How the input arrived; decides how the result is sent back.
#[derive(Clone, Copy, Debug, PartialEq, Eq, Structural)]
pub enum Source {
    Photo,
    Video,
    Animation,
    Document,
}

/// A file that Telegram holds.
#[derive(Debug)]
pub struct FileRef {
    pub id: String,
    pub size: u32,
}

/// A file with the name that its sender gave it, if any.
#[derive(Debug)]
pub struct NamedFile {
    pub file: FileRef,
    pub file_name: Option<String>,
}

/// What a message carries, as far as the bot cares.
#[derive(Debug)]
pub enum Media {
    /// The sizes in which one photo is offered.
    Photo(Vec<FileRef>),
    Video(NamedFile),
    Animation(NamedFile),
    Document(NamedFile),
    /// Any other message: text, stickers, service messages.
    Other,
}

/// A file to work on.
#[derive(Debug)]
pub struct Incoming {
    pub file_id: String,
    pub size: Option<u32>,
    pub name: String,
    pub source: Source,
}

/// A file to work on.
pub struct IncomingView {
    pub file_id: Seq<char>,
    pub size: Option<u32>,
    pub name: Seq<char>,
    pub source: Source,
}

impl View for Incoming {
    type V = IncomingView;

    open spec fn view(&self) -> IncomingView {
        IncomingView {
            file_id: self.file_id@,
            size: self.size,
            name: self.name@,
            source: self.source,
        }
    }
}

/// What becomes of a message.
#[derive(Debug)]
pub enum Intake {
    /// Nothing is done or said.
    Ignore,
    /// The sender gets this text.
    Reply(String),
    /// The file is worked on.
    Process(Incoming),
}

/// What becomes of a message.
pub enum IntakeView {
    Ignore,
    Reply(Seq<char>),
    Process(IncomingView),
}

impl View for Intake {
    type V = IntakeView;

    open spec fn view(&self) -> IntakeView {
        match self {
            Intake::Ignore => IntakeView::Ignore,
            Intake::Reply(text) => IntakeView::Reply(text@),
            Intake::Process(incoming) => IntakeView::Process(incoming@),
        }
    }
}

/// No size is larger than the one at `i`, and none after it is as large.
pub open spec fn is_largest(sizes: Seq<FileRef>, i: int) -> bool {
    &&& 0 <= i < sizes.len()
    &&& forall|j: int| 0 <= j < sizes.len() ==> (#[trigger] sizes[j]).size <= sizes[i].size
    &&& forall|j: int| i < j < sizes.len() ==> (#[trigger] sizes[j]).size < sizes[i].size
}

/// The index of the largest size, the last one where several are as large.
pub open spec fn largest(sizes: Seq<FileRef>) -> int {
    choose|i: int| is_largest(sizes, i)
}

/// There is no other largest size.
pub proof fn lemma_largest_unique(sizes: Seq<FileRef>, i: int)
    requires
        is_largest(sizes, i),
    ensures
        largest(sizes) == i,
{
    let k = largest(sizes);
    assert(is_largest(sizes, k));
    assert(sizes[i].size <= sizes[k].size && sizes[k].size <= sizes[i].size);
}

/// A photo in any sizes at all has a largest one.
pub proof fn lemma_largest_exists(sizes: Seq<FileRef>)
    requires
        sizes.len() > 0,
    ensures
        is_largest(sizes, largest(sizes)),
    decreases sizes.len(),
{
    let n = sizes.len() - 1;
    if n == 0 {
        assert(is_largest(sizes, 0));
    } else {
        let front = sizes.drop_last();
        lemma_largest_exists(front);
        let b = largest(front);
        assert(forall|j: int| 0 <= j < n ==> #[trigger] sizes[j] == front[j]);
        if sizes[n].size >= sizes[b].size {
            assert(is_largest(sizes, n));
        } else {
            assert(is_largest(sizes, b));
        }
    }
}

impl NamedFile {
    /// The file as it arrived by `source`; no name counts as an empty one.
    pub open spec fn incoming(self, source: Source) -> IncomingView {
        IncomingView {
            file_id: self.file.id@,
            size: Some(self.file.size),
            name: match self.file_name {
                Some(name) => name@,
                None => Seq::empty(),
            },
            source,
        }
    }

    fn to_incoming(&self, source: Source) -> (r: Incoming)
        ensures
            r@ == self.incoming(source),
    {
        let name = match &self.file_name {
            Some(name) => name.clone(),
            None => String::new(),
        };
        Incoming { file_id: self.file.id.clone(), size: Some(self.file.size), name, source }
    }
}

/// The file of a message to work on, if it carries one.
pub open spec fn file_of(media: Media) -> Option<IncomingView> {
    match media {
        Media::Photo(sizes) => if sizes@.len() == 0 {
            None
        } else {
            let best = sizes@[largest(sizes@)];
            Some(
                IncomingView {
                    file_id: best.id@,
                    size: Some(best.size),
                    name: Seq::empty(),
                    source: Source::Photo,
                },
            )
        },
        Media::Video(file) => Some(file.incoming(Source::Video)),
        Media::Animation(file) => Some(file.incoming(Source::Animation)),
        Media::Document(file) => Some(file.incoming(Source::Document)),
        Media::Other => None,
    }
}

fn find_largest(sizes: &Vec<FileRef>) -> (r: usize)
    requires
        sizes@.len() > 0,
    ensures
        is_largest(sizes@, r as int),
{
    let mut best: usize = 0;
    let mut i: usize = 1;
    while i < sizes.len()
        invariant
            best < i <= sizes@.len(),
            is_largest(sizes@.take(i as int), best as int),
        decreases sizes@.len() - i,
    {
        let ghost before = sizes@.take(i as int);
        if sizes[i].size >= sizes[best].size {
            best = i;
        }
        i += 1;
        proof {
            let after = sizes@.take(i as int);
            assert(forall|j: int| 0 <= j < i - 1 ==> #[trigger] after[j] == before[j]);
            assert(after[i - 1] == sizes@[i - 1]);
        }
    }
    assert(sizes@.take(i as int) =~= sizes@);
    best
}

/// The file of a message to work on: the largest size of a photo, or the file
/// of a video, an animation or a document.
pub fn extract(media: &Media) -> (r: Option<Incoming>)
    ensures
        match r {
            Some(incoming) => file_of(*media) == Some(incoming@),
            None => file_of(*media) is None,
        },
{
    match media {
        Media::Photo(sizes) => {
            if sizes.len() == 0 {
                return None;
            }
            let best = find_largest(sizes);
            proof {
                lemma_largest_unique(sizes@, best as int);
            }
            Some(
                Incoming {
                    file_id: sizes[best].id.clone(),
                    size: Some(sizes[best].size),
                    name: String::new(),
                    source: Source::Photo,
                },
            )
        },
        Media::Video(file) => Some(file.to_incoming(Source::Video)),
        Media::Animation(file) => Some(file.to_incoming(Source::Animation)),
        Media::Document(file) => Some(file.to_incoming(Source::Document)),
        Media::Other => None,
    }
}

/// What is said to someone who writes to the bot without a file.
pub const SEND_ME: &'static str = "Send me a screenshot as a photo, video, GIF or file.";

/// What is said of a file that cannot be downloaded.
pub const TOO_LARGE: &'static str =
    "That file is over 20 MB, which is as much as a bot can download.";

/// A file of this size may be downloaded.
pub open spec fn downloadable(size: Option<u32>) -> bool {
    size matches Some(size) ==> size <= MAX_DOWNLOAD
}

/// What becomes of a message.
pub open spec fn intake_of(media: Media, private: bool) -> IntakeView {
    match file_of(media) {
        None => if private {
            IntakeView::Reply(SEND_ME@)
        } else {
            IntakeView::Ignore
        },
        Some(incoming) => if downloadable(incoming.size) {
            IntakeView::Process(incoming)
        } else {
            IntakeView::Reply(TOO_LARGE@)
        },
    }
}

/// Decides what becomes of a message: without a file it is answered in a
/// private chat only, and a file over the download cap is turned down.
pub fn receive(media: &Media, private: bool) -> (r: Intake)
    ensures
        r@ == intake_of(*media, private),
{
    match extract(media) {
        None => if private {
            Intake::Reply(SEND_ME.to_string())
        } else {
            Intake::Ignore
        },
        Some(incoming) => {
            let over = match incoming.size {
                Some(size) => size > MAX_DOWNLOAD,
                None => false,
            };
            if over {
                Intake::Reply(TOO_LARGE.to_string())
            } else {
                Intake::Process(incoming)
            }
        },
    }
}

/// No file over the download cap is worked on.
pub proof fn lemma_cap(media: Media, private: bool)
    ensures
        intake_of(media, private) matches IntakeView::Process(incoming) ==> downloadable(
            incoming.size,
        ),
{
}

/// A video, an animation or a document is worked on, under its own id, size and
/// name and as what it is, exactly where it has at most 20 MB; only then is its
/// sender not told that it is too large. The chat makes no difference.
pub proof fn lemma_files_up_to_the_cap(
    media: Media,
    file: NamedFile,
    source: Source,
    private: bool,
)
    requires
        match source {
            Source::Video => media == Media::Video(file),
            Source::Animation => media == Media::Animation(file),
            Source::Document => media == Media::Document(file),
            Source::Photo => false,
        },
    ensures
        ({
            let incoming = IncomingView {
                file_id: file.file.id@,
                size: Some(file.file.size),
                name: if file.file_name is Some {
                    file.file_name->0@
                } else {
                    seq![]
                },
                source,
            };
            &&& file_of(media) == Some(incoming)
            &&& file.file.size <= 20 * 1024 * 1024 ==> intake_of(media, private)
                == IntakeView::Process(incoming)
            &&& file.file.size > 20 * 1024 * 1024 ==> intake_of(media, private)
                == IntakeView::Reply(
                "That file is over 20 MB, which is as much as a bot can download."@,
            )
        }),
{
}

/// Of a photo, a size that no other exceeds and no later one equals is worked
/// on, exactly where it has at most 20 MB.
pub proof fn lemma_photos_up_to_the_cap(sizes: Vec<FileRef>, best: int, private: bool)
    requires
        0 <= best < sizes@.len(),
        forall|j: int| 0 <= j < sizes@.len() ==> (#[trigger] sizes@[j]).size <= sizes@[best].size,
        forall|j: int| best < j < sizes@.len() ==> (#[trigger] sizes@[j]).size < sizes@[best].size,
    ensures
        ({
            let media = Media::Photo(sizes);
            let incoming = IncomingView {
                file_id: sizes@[best].id@,
                size: Some(sizes@[best].size),
                name: seq![],
                source: Source::Photo,
            };
            &&& file_of(media) == Some(incoming)
            &&& sizes@[best].size <= 20 * 1024 * 1024 ==> intake_of(media, private)
                == IntakeView::Process(incoming)
            &&& sizes@[best].size > 20 * 1024 * 1024 ==> intake_of(media, private)
                == IntakeView::Reply(
                "That file is over 20 MB, which is as much as a bot can download."@,
            )
        }),
{
    assert(is_largest(sizes@, best));
    lemma_largest_unique(sizes@, best);
}

/// A message without a file is answered in a private chat, and only there. A
/// photo in no size at all is such a message.
pub proof fn lemma_no_file(media: Media, private: bool)
    requires
        media is Other || (media matches Media::Photo(sizes) && sizes@.len() == 0),
    ensures
        file_of(media) is None,
        private ==> intake_of(media, private) == IntakeView::Reply(
            "Send me a screenshot as a photo, video, GIF or file."@,
        ),
        !private ==> intake_of(media, private) is Ignore,
{
}

/// Only a message without a file, outside a private chat, goes unanswered.
pub proof fn lemma_ignored(media: Media, private: bool)
    ensures
        intake_of(media, private) is Ignore <==> file_of(media) is None && !private,
{
}

} // verus!
