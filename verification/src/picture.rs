//! Pictures, what the detector finds in them, and cutting it out.

use vstd::arithmetic::div_mod::{
    lemma_fundamental_div_mod, lemma_fundamental_div_mod_converse, lemma_multiply_divide_lt,
};
use vstd::prelude::*;

use image::ImageError;

use crate::format::{
    is_webp, kind_of, stands_at, Encoding, ImageFormat, Kind, JPEG_MAGIC, PNG_MAGIC, RIFF_MAGIC,
};
use crate::reading::{pixel, shows};

verus! {

/// The error of the picture encoders.
#[verifier::external_type_specification]
#[verifier::external_body]
pub struct ExImageError(image::ImageError);

/// Half-open rectangle `[x0, x1) x [y0, y1)` in pixels.
#[derive(Clone, Copy, Debug, PartialEq, Eq, Structural)]
pub struct Rect {
    pub x0: usize,
    pub y0: usize,
    pub x1: usize,
    pub y1: usize,
}

impl Rect {
    /// Not empty, and inside a picture of `width` by `height` pixels.
    pub open spec fn within(self, width: nat, height: nat) -> bool {
        &&& self.x0 < self.x1 <= width
        &&& self.y0 < self.y1 <= height
    }

    /// Width in pixels.
    pub fn width(&self) -> (r: usize)
        requires
            self.x0 <= self.x1,
        ensures
            r == self.x1 - self.x0,
    {
        self.x1 - self.x0
    }

    /// Height in pixels.
    pub fn height(&self) -> (r: usize)
        requires
            self.y0 <= self.y1,
        ensures
            r == self.y1 - self.y0,
    {
        self.y1 - self.y0
    }
}

/// A packed 8-bit RGB picture, row by row.
pub struct PictureView {
    pub width: nat,
    pub height: nat,
    pub pixels: Seq<[u8; 3]>,
}

impl PictureView {
    /// The pixel in column `x` of row `y`.
    pub open spec fn at(self, x: int, y: int) -> [u8; 3] {
        self.pixels[y * self.width + x]
    }

    /// At least one pixel, sides of at most 32 bits, one entry for each pixel,
    /// few enough pixels that twelve bytes for each of them can be allocated,
    /// which is what the detector does, and rows so short that their bytes and
    /// one more can be counted in 32 bits, which is what the PNG encoder does.
    pub open spec fn sound(self) -> bool {
        &&& 0 < self.width <= u32::MAX
        &&& 0 < self.height <= u32::MAX
        &&& 3 * self.width < u32::MAX
        &&& self.pixels.len() == self.width * self.height
        &&& self.pixels.len() <= isize::MAX / 12
    }

    /// The picture inside `rect`.
    pub open spec fn cut(self, rect: Rect) -> PictureView {
        let width = (rect.x1 - rect.x0) as nat;
        let height = (rect.y1 - rect.y0) as nat;
        PictureView {
            width,
            height,
            pixels: Seq::new(
                width * height,
                |i: int| self.at(rect.x0 + i % (width as int), rect.y0 + i / (width as int)),
            ),
        }
    }
}

/// A packed 8-bit RGB picture, row by row.
pub struct Picture {
    width: usize,
    height: usize,
    pixels: Vec<[u8; 3]>,
}

impl View for Picture {
    type V = PictureView;

    closed spec fn view(&self) -> PictureView {
        PictureView { width: self.width as nat, height: self.height as nat, pixels: self.pixels@ }
    }
}

/// The cell in column `x` of row `y` lies inside the grid.
proof fn lemma_row_inside(x: int, y: int, width: int, height: int)
    requires
        0 <= x < width,
        0 <= y < height,
    ensures
        0 <= y * width + x < width * height,
{
    assert(0 <= y * width && y * width + width <= width * height) by (nonlinear_arith)
        requires
            0 <= y < height,
            0 < width,
    ;
}

/// A rectangle inside a grid has no more cells than the grid.
proof fn lemma_area_monotone(w: int, h: int, width: int, height: int)
    requires
        0 <= w <= width,
        0 <= h <= height,
    ensures
        0 <= w * h <= width * height,
{
    assert(0 <= w * h <= width * height) by (nonlinear_arith)
        requires
            0 <= w <= width,
            0 <= h <= height,
    ;
}

impl Picture {
    /// Every picture is sound.
    #[verifier::type_invariant]
    pub open spec fn inv(self) -> bool {
        self@.sound()
    }

    /// Wraps a pixel buffer; `None` where it is no sound picture.
    pub fn new(width: usize, height: usize, pixels: Vec<[u8; 3]>) -> (r: Option<Picture>)
        ensures
            ({
                let view = PictureView {
                    width: width as nat,
                    height: height as nat,
                    pixels: pixels@,
                };
                match r {
                    Some(picture) => view.sound() && picture@ == view,
                    None => !view.sound(),
                }
            }),
    {
        let area: Option<usize> = width.checked_mul(height);
        match area {
            Some(area) => {
                if width > 0 && height > 0 && (width as u64) < (u32::MAX / 3) as u64
                    && height as u64 <= u32::MAX as u64 && pixels.len() == area && pixels.len()
                    <= (isize::MAX / 12) as usize {
                    Some(Picture { width, height, pixels })
                } else {
                    None
                }
            },
            None => None,
        }
    }

    /// Width in pixels.
    pub fn width(&self) -> (r: usize)
        ensures
            r == self@.width,
    {
        self.width
    }

    /// Height in pixels.
    pub fn height(&self) -> (r: usize)
        ensures
            r == self@.height,
    {
        self.height
    }

    /// The pixels, row by row.
    pub fn pixels(&self) -> (r: &Vec<[u8; 3]>)
        ensures
            r@ == self@.pixels,
    {
        &self.pixels
    }

    /// Copy of the pixels inside `rect`.
    pub fn crop(&self, rect: &Rect) -> (r: Picture)
        requires
            rect.within(self@.width, self@.height),
        ensures
            r@ == self@.cut(*rect),
    {
        proof {
            use_type_invariant(self);
        }
        let width = rect.width();
        let height = rect.height();
        let ghost target = self@.cut(*rect).pixels;
        proof {
            lemma_area_monotone(
                width as int,
                height as int,
                self.width as int,
                self.height as int,
            );
        }
        let mut pixels: Vec<[u8; 3]> = Vec::new();
        let mut y: usize = rect.y0;
        while y < rect.y1
            invariant
                self@.sound(),
                rect.within(self@.width, self@.height),
                width == rect.x1 - rect.x0,
                height == rect.y1 - rect.y0,
                target == self@.cut(*rect).pixels,
                rect.y0 <= y <= rect.y1,
                pixels@.len() == (y - rect.y0) * width,
                pixels@.len() <= target.len(),
                forall|i: int| 0 <= i < pixels@.len() ==> pixels@[i] == #[trigger] target[i],
            decreases rect.y1 - y,
        {
            let mut x: usize = rect.x0;
            while x < rect.x1
                invariant
                    self@.sound(),
                    rect.within(self@.width, self@.height),
                    width == rect.x1 - rect.x0,
                    height == rect.y1 - rect.y0,
                    target == self@.cut(*rect).pixels,
                    rect.y0 <= y < rect.y1,
                    rect.x0 <= x <= rect.x1,
                    pixels@.len() == (y - rect.y0) * width + (x - rect.x0),
                    forall|i: int| 0 <= i < pixels@.len() ==> pixels@[i] == #[trigger] target[i],
                decreases rect.x1 - x,
            {
                proof {
                    let i = pixels@.len() as int;
                    lemma_row_inside(
                        x as int,
                        y as int,
                        self.width as int,
                        self.height as int,
                    );
                    lemma_row_inside(x - rect.x0, y - rect.y0, width as int, height as int);
                    assert(self.pixels@.len() == self.pixels.len());
                    lemma_fundamental_div_mod_converse(i, width as int, y - rect.y0, x - rect.x0);
                    assert(target[i] == self@.at(x as int, y as int));
                }
                pixels.push(self.pixels[y * self.width + x]);
                x += 1;
            }
            assert((y - rect.y0) * width + width == (y + 1 - rect.y0) * width) by (nonlinear_arith);
            y += 1;
            proof {
                lemma_area_monotone(width as int, y - rect.y0, width as int, height as int);
                assert((y - rect.y0) * width == width * (y - rect.y0)) by (nonlinear_arith);
            }
        }
        assert((height as int) * (width as int) == (width as int) * (height as int))
            by (nonlinear_arith);
        assert(pixels@ =~= target);
        Picture { width, height, pixels }
    }
}

/// What the detector says of a picture.
pub struct DetectionView {
    pub rect: Option<Rect>,
    pub score_bits: u64,
    pub reason: Seq<char>,
}

/// What the detector says of a picture: the rectangle to cut out, or `None`
/// where nothing should be cropped, with the score of the decision (the bits of
/// a double) and the stage that made it.
#[derive(Debug)]
pub struct Detection {
    pub rect: Option<Rect>,
    pub score_bits: u64,
    pub reason: String,
}

impl View for Detection {
    type V = DetectionView;

    open spec fn view(&self) -> DetectionView {
        DetectionView { rect: self.rect, score_bits: self.score_bits, reason: self.reason@ }
    }
}

/// What `autocrop::find_crop` says, under its default thresholds, of the
/// picture with these sides and pixels.
pub uninterp spec fn detection_of(width: nat, height: nat, pixels: Seq<[u8; 3]>) -> DetectionView;

/// The bytes that `autocrop::RgbImage::encode` makes of the picture with these
/// sides and pixels.
pub uninterp spec fn encoded(
    width: nat,
    height: nat,
    pixels: Seq<[u8; 3]>,
    encoding: Encoding,
) -> Seq<u8>;

impl PictureView {
    /// What the detector says of this picture.
    pub open spec fn detection(self) -> DetectionView {
        detection_of(self.width, self.height, self.pixels)
    }

    /// This picture, written out.
    pub open spec fn written(self, encoding: Encoding) -> Seq<u8> {
        encoded(self.width, self.height, self.pixels, encoding)
    }

    /// The picture inside `rect`; all of it where there is no rectangle.
    pub open spec fn cut_to(self, rect: Option<Rect>) -> PictureView {
        match rect {
            Some(rect) => self.cut(rect),
            None => self,
        }
    }
}

impl Encoding {
    /// The longest side of a picture that can be written out this way.
    pub open spec fn longest_side(self) -> nat {
        match self {
            Encoding::Png => u32::MAX as nat,
            Encoding::Jpeg { .. } => 65535,
            Encoding::WebPLossless => 16384,
        }
    }

    /// A picture with these sides can be written out this way.
    pub open spec fn admits(self, width: nat, height: nat) -> bool {
        width <= self.longest_side() && height <= self.longest_side()
    }

    /// `bytes` start as a file of this encoding does.
    pub open spec fn marks(self, bytes: Seq<u8>) -> bool {
        match self {
            Encoding::Png => stands_at(bytes, 0, PNG_MAGIC@),
            Encoding::Jpeg { .. } => stands_at(bytes, 0, JPEG_MAGIC@),
            Encoding::WebPLossless => is_webp(bytes),
        }
    }
}

/// A file that starts as a picture of a format does when it is written out is
/// taken for a picture of that format.
pub proof fn lemma_marked_kind(fmt: ImageFormat, bytes: Seq<u8>)
    requires
        fmt.encoding_of().marks(bytes),
    ensures
        kind_of(bytes) == Some(Kind::Image(fmt)),
{
    match fmt {
        ImageFormat::Jpeg => {},
        ImageFormat::Png => {
            assert(bytes[0] == PNG_MAGIC@[0]) by {
                assert(bytes.subrange(0, 8)[0] == PNG_MAGIC@[0]);
            }
            if stands_at(bytes, 0, JPEG_MAGIC@) {
                assert(bytes.subrange(0, 3)[0] == JPEG_MAGIC@[0]);
            }
        },
        ImageFormat::Webp => {
            assert(bytes.subrange(0, 4)[0] == RIFF_MAGIC@[0]);
            if stands_at(bytes, 0, JPEG_MAGIC@) {
                assert(bytes.subrange(0, 3)[0] == JPEG_MAGIC@[0]);
            }
            if stands_at(bytes, 0, PNG_MAGIC@) {
                assert(bytes.subrange(0, 8)[0] == PNG_MAGIC@[0]);
            }
        },
    }
}

/// Calls `autocrop::find_crop` with `autocrop::Params::default()`.
///
/// Claimed of it: what it says depends on the sides and the pixels alone, and
/// a rectangle that it gives is not empty, lies inside the picture and leaves
/// some of the picture out.
#[verifier::external_body]
pub(crate) fn find_crop(picture: &Picture) -> (r: Detection)
    requires
        picture@.sound(),
    ensures
        r@ == detection_of(picture@.width, picture@.height, picture@.pixels),
        r@.rect matches Some(rect) ==> rect.within(picture@.width, picture@.height) && (rect.x1
            - rect.x0) * (rect.y1 - rect.y0) < picture@.width * picture@.height,
{
    let image = autocrop::RgbImage::new(picture.width, picture.height, picture.pixels.clone());
    let found = autocrop::find_crop(&image, &autocrop::Params::default());
    Detection {
        rect: found.rect.map(|r| Rect { x0: r.x0, y0: r.y0, x1: r.x1, y1: r.y1 }),
        score_bits: found.score.to_bits(),
        reason: found.reason,
    }
}

/// Calls `autocrop::RgbImage::encode`.
///
/// Claimed of it: it fails exactly where a side is longer than the format
/// holds (JPEG counts in 16 bits, WebP up to 16384), what it writes depends on
/// the sides, the pixels and the encoding alone, and it starts with the
/// format's signature.
///
/// A PNG row is compressed whole, after a byte for its filter, and the zeros
/// in it are counted in 32 bits. A sound picture has `3 * width < u32::MAX`, so
/// the count does not overflow.
#[verifier::external_body]
pub(crate) fn encode(picture: &Picture, encoding: Encoding) -> (r: Result<Vec<u8>, ImageError>)
    requires
        picture@.sound(),
    ensures
        r is Ok <==> encoding.admits(picture@.width, picture@.height),
        r matches Ok(bytes) ==> bytes@ == encoded(
            picture@.width,
            picture@.height,
            picture@.pixels,
            encoding,
        ) && encoding.marks(bytes@),
{
    let image = autocrop::RgbImage::new(picture.width, picture.height, picture.pixels.clone());
    image.encode(match encoding {
        Encoding::Png => autocrop::Encoding::Png,
        Encoding::Jpeg { quality } => autocrop::Encoding::Jpeg { quality },
        Encoding::WebPLossless => autocrop::Encoding::WebPLossless,
    })
}

/// The picture inside `rect`; all of it where there is no rectangle.
pub fn crop_to(picture: Picture, rect: Option<Rect>) -> (r: Picture)
    requires
        rect matches Some(rect) ==> rect.within(picture@.width, picture@.height),
    ensures
        r@ == picture@.cut_to(rect),
{
    match rect {
        Some(rect) => picture.crop(&rect),
        None => picture,
    }
}

/// The picture cropped to what the detector finds in it (or unchanged), with
/// what the detector says.
pub fn crop_image(picture: Picture) -> (r: (Picture, Detection))
    ensures
        r.1@ == picture@.detection(),
        r.0@ == picture@.cut_to(r.1@.rect),
        r.1@.rect matches Some(rect) ==> rect.within(picture@.width, picture@.height) && r.0@.width
            * r.0@.height < picture@.width * picture@.height,
{
    proof {
        use_type_invariant(&picture);
    }
    let detection = find_crop(&picture);
    let cropped = crop_to(picture, detection.rect);
    (cropped, detection)
}

/// A pixel of the crop is the pixel of the picture at the same place, counted
/// from the corner of the rectangle.
pub proof fn lemma_cut_at(picture: PictureView, rect: Rect, x: int, y: int)
    requires
        rect.within(picture.width, picture.height),
        0 <= x < rect.x1 - rect.x0,
        0 <= y < rect.y1 - rect.y0,
    ensures
        picture.cut(rect).at(x, y) == picture.at(rect.x0 + x, rect.y0 + y),
{
    let width = rect.x1 - rect.x0;
    let height = rect.y1 - rect.y0;
    lemma_row_inside(x, y, width, height);
    lemma_fundamental_div_mod_converse(y * width + x, width, y, x);
}

/// What is cut out is as wide and as high as the rectangle, and shows what
/// stands inside it. Nothing else does.
pub proof fn lemma_cut_shows(picture: PictureView, rect: Rect, pixels: Seq<[u8; 3]>)
    requires
        rect.x0 < rect.x1 <= picture.width,
        rect.y0 < rect.y1 <= picture.height,
    ensures
        ({
            let crop = picture.cut(rect);
            &&& crop.width == rect.x1 - rect.x0
            &&& crop.height == rect.y1 - rect.y0
            &&& crop.pixels == pixels <==> shows(
                pixels,
                rect.x1 - rect.x0,
                rect.y1 - rect.y0,
                picture.pixels,
                picture.width as int,
                rect.x0 as int,
                rect.y0 as int,
            )
        }),
{
    let crop = picture.cut(rect);
    let (width, height) = (rect.x1 - rect.x0, rect.y1 - rect.y0);
    let (row, left, top) = (picture.width as int, rect.x0 as int, rect.y0 as int);
    assert forall|x: int, y: int| 0 <= x < width && 0 <= y < height implies #[trigger] pixel(
        crop.pixels,
        width,
        x,
        y,
    ) == pixel(picture.pixels, row, left + x, top + y) by {
        lemma_row_inside(x, y, width, height);
        lemma_fundamental_div_mod_converse(y * width + x, width, y, x);
    }
    if shows(pixels, width, height, picture.pixels, row, left, top) {
        assert forall|i: int| 0 <= i < width * height implies #[trigger] pixels[i]
            == crop.pixels[i] by {
            let (x, y) = (i % width, i / width);
            lemma_fundamental_div_mod(i, width);
            lemma_multiply_divide_lt(i, width, height);
            assert(width * y == y * width) by (nonlinear_arith);
            assert(0 <= y) by (nonlinear_arith)
                requires
                    y == i / width,
                    0 <= i,
                    0 < width,
            ;
            assert(pixel(pixels, width, x, y) == pixel(picture.pixels, row, left + x, top + y));
            assert(pixel(crop.pixels, width, x, y) == pixel(picture.pixels, row, left + x, top + y));
        }
        assert(crop.pixels =~= pixels);
    }
}

/// The detector and the encoder are shown the sides and the pixels as they are,
/// and what is not cut is kept.
pub proof fn lemma_shown_as_it_is(picture: PictureView, encoding: Encoding)
    ensures
        picture.detection() == detection_of(picture.width, picture.height, picture.pixels),
        picture.written(encoding) == encoded(
            picture.width,
            picture.height,
            picture.pixels,
            encoding,
        ),
        picture.cut_to(None) == picture,
        forall|rect: Rect| #[trigger] picture.cut_to(Some(rect)) == picture.cut(rect),
{
}

/// Every picture with at least one pixel that the machine and the encoders can
/// hold is worked on, and no other.
pub proof fn lemma_which_pictures_are_sound(picture: PictureView)
    ensures
        picture.sound() <==> {
            &&& 0 < 3 * picture.width < u32::MAX
            &&& 0 < picture.height <= u32::MAX
            &&& picture.pixels.len() == picture.width * picture.height
            &&& 12 * picture.pixels.len() <= isize::MAX
        },
{
}

/// What is cut out of a sound picture is sound.
pub proof fn lemma_cut_sound(picture: PictureView, rect: Rect)
    requires
        picture.sound(),
        rect.within(picture.width, picture.height),
    ensures
        picture.cut(rect).sound(),
{
    let width = rect.x1 - rect.x0;
    let height = rect.y1 - rect.y0;
    lemma_area_monotone(width, height, picture.width as int, picture.height as int);
}

} // verus!
