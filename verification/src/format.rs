//! What a file is, told from its first bytes.

use vstd::prelude::*;

verus! {

/// The still image formats that the bot sends back.
#[derive(Clone, Copy, Debug, PartialEq, Eq, Structural)]
pub enum ImageFormat {
    Jpeg,
    Png,
    Webp,
}

/// How a picture is written out.
#[derive(Clone, Copy, Debug, PartialEq, Eq, Structural)]
pub enum Encoding {
    Png,
    Jpeg { quality: u8 },
    WebPLossless,
}

/// What the bot can work on.
#[derive(Clone, Copy, Debug, PartialEq, Eq, Structural)]
pub enum Kind {
    Image(ImageFormat),
    Video,
}

/// How many bytes from the start of a file are looked at.
pub const HEAD_LEN: usize = 16;

/// Start of a JPEG file.
pub const JPEG_MAGIC: [u8; 3] = [0xff, 0xd8, 0xff];

/// Start of a PNG file: `\x89PNG\r\n\x1a\n`.
pub const PNG_MAGIC: [u8; 8] = [0x89, 0x50, 0x4e, 0x47, 0x0d, 0x0a, 0x1a, 0x0a];

/// Start of a RIFF container: `RIFF`.
pub const RIFF_MAGIC: [u8; 4] = [0x52, 0x49, 0x46, 0x46];

/// Form type of a WebP file, at offset 8 of its RIFF container: `WEBP`.
pub const WEBP_MAGIC: [u8; 4] = [0x57, 0x45, 0x42, 0x50];

/// Start of a BMP file: `BM`.
pub const BMP_MAGIC: [u8; 2] = [0x42, 0x4d];

/// Start of a GIF file: `GIF8`.
pub const GIF_MAGIC: [u8; 4] = [0x47, 0x49, 0x46, 0x38];

/// Start of an EBML file, which WebM and MKV are.
pub const EBML_MAGIC: [u8; 4] = [0x1a, 0x45, 0xdf, 0xa3];

/// Box type at offset 4 of an MP4 or MOV file: `ftyp`.
pub const FTYP_MAGIC: [u8; 4] = [0x66, 0x74, 0x79, 0x70];

/// The bytes `magic` stand in `head` from `offset` on.
pub open spec fn stands_at(head: Seq<u8>, offset: int, magic: Seq<u8>) -> bool {
    &&& offset + magic.len() <= head.len()
    &&& head.subrange(offset, offset + magic.len()) == magic
}

/// `head` starts as a WebP file does.
pub open spec fn is_webp(head: Seq<u8>) -> bool {
    stands_at(head, 0, RIFF_MAGIC@) && stands_at(head, 8, WEBP_MAGIC@)
}

/// `head` starts as one of the containers that ffmpeg works on does.
pub open spec fn is_clip(head: Seq<u8>) -> bool {
    ||| stands_at(head, 0, GIF_MAGIC@)
    ||| stands_at(head, 0, EBML_MAGIC@)
    ||| stands_at(head, 4, FTYP_MAGIC@)
}

/// The kind of the file that starts with `head`.
pub open spec fn kind_of(head: Seq<u8>) -> Option<Kind> {
    if stands_at(head, 0, JPEG_MAGIC@) {
        Some(Kind::Image(ImageFormat::Jpeg))
    } else if stands_at(head, 0, PNG_MAGIC@) {
        Some(Kind::Image(ImageFormat::Png))
    } else if is_webp(head) {
        Some(Kind::Image(ImageFormat::Webp))
    } else if stands_at(head, 0, BMP_MAGIC@) {
        Some(Kind::Image(ImageFormat::Png))
    } else if is_clip(head) {
        Some(Kind::Video)
    } else {
        None
    }
}

fn has_at(head: &[u8], offset: usize, magic: &[u8]) -> (r: bool)
    ensures
        r == stands_at(head@, offset as int, magic@),
{
    if head.len() < offset || head.len() - offset < magic.len() {
        return false;
    }
    let mut i: usize = 0;
    while i < magic.len()
        invariant
            offset + magic@.len() <= head@.len(),
            head@.len() == head.len(),
            i <= magic@.len(),
            forall|j: int| 0 <= j < i ==> head@[offset + j] == #[trigger] magic@[j],
        decreases magic@.len() - i,
    {
        if head[offset + i] != magic[i] {
            assert(head@.subrange(offset as int, offset + magic@.len())[i as int] != magic@[i as int]);
            return false;
        }
        i += 1;
    }
    assert(head@.subrange(offset as int, offset + magic@.len()) =~= magic@);
    true
}

/// Identifies the container from its first bytes. GIF goes the video route so
/// animations keep every frame; BMP is decoded but written out as PNG.
pub fn sniff(head: &[u8]) -> (r: Option<Kind>)
    ensures
        r == kind_of(head@),
{
    if has_at(head, 0, &JPEG_MAGIC) {
        return Some(Kind::Image(ImageFormat::Jpeg));
    }
    if has_at(head, 0, &PNG_MAGIC) {
        return Some(Kind::Image(ImageFormat::Png));
    }
    if has_at(head, 0, &RIFF_MAGIC) && has_at(head, 8, &WEBP_MAGIC) {
        return Some(Kind::Image(ImageFormat::Webp));
    }
    if has_at(head, 0, &BMP_MAGIC) {
        return Some(Kind::Image(ImageFormat::Png));
    }
    if has_at(head, 0, &GIF_MAGIC) || has_at(head, 0, &EBML_MAGIC) || has_at(head, 4, &FTYP_MAGIC) {
        return Some(Kind::Video);
    }
    None
}

impl ImageFormat {
    /// How a picture of this format is written out.
    pub open spec fn encoding_of(self) -> Encoding {
        match self {
            ImageFormat::Jpeg => Encoding::Jpeg { quality: 90 },
            ImageFormat::Png => Encoding::Png,
            ImageFormat::Webp => Encoding::WebPLossless,
        }
    }

    /// The file name extension of this format.
    pub open spec fn ext_of(self) -> Seq<char> {
        match self {
            ImageFormat::Jpeg => "jpg"@,
            ImageFormat::Png => "png"@,
            ImageFormat::Webp => "webp"@,
        }
    }

    /// How a picture of this format is written out.
    pub fn encoding(self) -> (r: Encoding)
        ensures
            r == self.encoding_of(),
    {
        match self {
            ImageFormat::Jpeg => Encoding::Jpeg { quality: 90 },
            ImageFormat::Png => Encoding::Png,
            ImageFormat::Webp => Encoding::WebPLossless,
        }
    }

    /// The file name extension of this format.
    pub fn ext(self) -> (r: &'static str)
        ensures
            r@ == self.ext_of(),
    {
        match self {
            ImageFormat::Jpeg => "jpg",
            ImageFormat::Png => "png",
            ImageFormat::Webp => "webp",
        }
    }
}

/// A signature stands where its bytes do.
proof fn lemma_stands(head: Seq<u8>, offset: int, magic: Seq<u8>)
    requires
        0 <= offset,
    ensures
        stands_at(head, offset, magic) <==> offset + magic.len() <= head.len() && forall|i: int|
            0 <= i < magic.len() ==> head[offset + i] == #[trigger] magic[i],
{
    if offset + magic.len() <= head.len() {
        let part = head.subrange(offset, offset + magic.len());
        assert(forall|i: int| 0 <= i < magic.len() ==> part[i] == head[offset + i]);
        if forall|i: int| 0 <= i < magic.len() ==> head[offset + i] == #[trigger] magic[i] {
            assert(part =~= magic);
        }
        if part == magic {
            assert forall|i: int| 0 <= i < magic.len() implies head[offset + i]
                == #[trigger] magic[i] by {
                assert(part[i] == magic[i]);
            }
        }
    }
}

/// The bytes of `head` from `offset` on are these four.
pub open spec fn four_at(head: Seq<u8>, offset: int, a: u8, b: u8, c: u8, d: u8) -> bool {
    &&& offset + 4 <= head.len()
    &&& head[offset] == a
    &&& head[offset + 1] == b
    &&& head[offset + 2] == c
    &&& head[offset + 3] == d
}

/// A file is a still of a format exactly where it carries the signature of that
/// format (a BMP counts as a PNG), and a clip exactly where it carries that of a
/// GIF, of a WebM or MKV, or of an MP4 or MOV, and of no still. Neither its
/// length nor any other byte makes a difference.
pub proof fn lemma_signature_decides(head: Seq<u8>)
    ensures
        ({
            let jpeg = head.len() >= 3 && head[0] == 0xff && head[1] == 0xd8 && head[2] == 0xff;
            let png = four_at(head, 0, 0x89, 0x50, 0x4e, 0x47) && four_at(
                head,
                4,
                0x0d,
                0x0a,
                0x1a,
                0x0a,
            );
            let webp = four_at(head, 0, 0x52, 0x49, 0x46, 0x46) && four_at(
                head,
                8,
                0x57,
                0x45,
                0x42,
                0x50,
            );
            let bmp = head.len() >= 2 && head[0] == 0x42 && head[1] == 0x4d;
            let gif = four_at(head, 0, 0x47, 0x49, 0x46, 0x38);
            let ebml = four_at(head, 0, 0x1a, 0x45, 0xdf, 0xa3);
            let ftyp = four_at(head, 4, 0x66, 0x74, 0x79, 0x70);
            &&& kind_of(head) == Some(Kind::Image(ImageFormat::Jpeg)) <==> jpeg
            &&& kind_of(head) == Some(Kind::Image(ImageFormat::Png)) <==> png || bmp
            &&& kind_of(head) == Some(Kind::Image(ImageFormat::Webp)) <==> webp
            &&& kind_of(head) == Some(Kind::Video) <==> (gif || ebml || ftyp) && !jpeg && !png
                && !webp && !bmp
        }),
{
    lemma_stands(head, 0, JPEG_MAGIC@);
    lemma_stands(head, 0, PNG_MAGIC@);
    lemma_stands(head, 0, RIFF_MAGIC@);
    lemma_stands(head, 8, WEBP_MAGIC@);
    lemma_stands(head, 0, BMP_MAGIC@);
    lemma_stands(head, 0, GIF_MAGIC@);
    lemma_stands(head, 0, EBML_MAGIC@);
    lemma_stands(head, 4, FTYP_MAGIC@);
    assert(JPEG_MAGIC@[0] == 0xff && JPEG_MAGIC@[1] == 0xd8 && JPEG_MAGIC@[2] == 0xff);
    assert(PNG_MAGIC@[0] == 0x89 && PNG_MAGIC@[1] == 0x50 && PNG_MAGIC@[2] == 0x4e
        && PNG_MAGIC@[3] == 0x47 && PNG_MAGIC@[4] == 0x0d && PNG_MAGIC@[5] == 0x0a
        && PNG_MAGIC@[6] == 0x1a && PNG_MAGIC@[7] == 0x0a);
    assert(RIFF_MAGIC@[0] == 0x52 && RIFF_MAGIC@[1] == 0x49 && RIFF_MAGIC@[2] == 0x46
        && RIFF_MAGIC@[3] == 0x46);
    assert(WEBP_MAGIC@[0] == 0x57 && WEBP_MAGIC@[1] == 0x45 && WEBP_MAGIC@[2] == 0x42
        && WEBP_MAGIC@[3] == 0x50);
    assert(BMP_MAGIC@[0] == 0x42 && BMP_MAGIC@[1] == 0x4d);
    assert(GIF_MAGIC@[0] == 0x47 && GIF_MAGIC@[1] == 0x49 && GIF_MAGIC@[2] == 0x46
        && GIF_MAGIC@[3] == 0x38);
    assert(EBML_MAGIC@[0] == 0x1a && EBML_MAGIC@[1] == 0x45 && EBML_MAGIC@[2] == 0xdf
        && EBML_MAGIC@[3] == 0xa3);
    assert(FTYP_MAGIC@[0] == 0x66 && FTYP_MAGIC@[1] == 0x74 && FTYP_MAGIC@[2] == 0x79
        && FTYP_MAGIC@[3] == 0x70);
}

/// What follows the head of a file that is known for something does not make
/// it something else. The one head that stays open is an `ftyp` box inside what
/// may yet turn out to be a WebP.
pub proof fn lemma_more_bytes_change_nothing(head: Seq<u8>, more: Seq<u8>)
    requires
        kind_of(head) is Some,
        head.len() >= 12 || !four_at(head, 0, 0x52, 0x49, 0x46, 0x46),
    ensures
        kind_of(head + more) == kind_of(head),
{
    let longer = head + more;
    assert(forall|i: int| 0 <= i < head.len() ==> #[trigger] longer[i] == head[i]);
    lemma_signature_decides(head);
    lemma_signature_decides(longer);
}

/// The first twelve bytes decide: two files that agree in them are of the same
/// kind, or both of none.
pub proof fn lemma_twelve_bytes_decide(one: Seq<u8>, other: Seq<u8>)
    requires
        one.len() >= 12,
        other.len() >= 12,
        forall|i: int| 0 <= i < 12 ==> #[trigger] one[i] == other[i],
    ensures
        kind_of(one) == kind_of(other),
{
    lemma_signature_decides(one);
    lemma_signature_decides(other);
}

/// The bytes that are looked at are enough: the kind of a file does not depend
/// on what follows them.
pub proof fn lemma_head_suffices(content: Seq<u8>)
    requires
        content.len() >= HEAD_LEN,
    ensures
        kind_of(content.take(HEAD_LEN as int)) == kind_of(content),
{
    let head = content.take(HEAD_LEN as int);
    lemma_stands_in_head(content, 0, JPEG_MAGIC@);
    lemma_stands_in_head(content, 0, PNG_MAGIC@);
    lemma_stands_in_head(content, 0, RIFF_MAGIC@);
    lemma_stands_in_head(content, 8, WEBP_MAGIC@);
    lemma_stands_in_head(content, 0, BMP_MAGIC@);
    lemma_stands_in_head(content, 0, GIF_MAGIC@);
    lemma_stands_in_head(content, 0, EBML_MAGIC@);
    lemma_stands_in_head(content, 4, FTYP_MAGIC@);
}

proof fn lemma_stands_in_head(content: Seq<u8>, offset: int, magic: Seq<u8>)
    requires
        0 <= offset,
        offset + magic.len() <= HEAD_LEN <= content.len(),
    ensures
        stands_at(content.take(HEAD_LEN as int), offset, magic) == stands_at(content, offset, magic),
{
    assert(content.take(HEAD_LEN as int).subrange(offset, offset + magic.len())
        =~= content.subrange(offset, offset + magic.len()));
}

} // verus!
