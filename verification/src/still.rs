//! From a decoded still to what is sent back.

use vstd::prelude::*;

use image::ImageError;

use crate::delivery::{
    deliver_still, delivery_of_still, Delivery, DeliveryView, Method, Payload, PayloadView,
};
use crate::format::{kind_of, Encoding, ImageFormat, Kind};
use crate::media::Source;
use crate::naming::output_name;
use crate::picture::{
    crop_image, detection_of, encode, encoded, lemma_cut_shows, lemma_marked_kind, Detection,
    DetectionView, Picture, PictureView,
};
use crate::reading::shows;

verus! {

/// A cropped still, ready to be sent.
#[derive(Debug)]
pub struct Still {
    pub delivery: Delivery,
    pub detection: Detection,
}

/// A cropped still, ready to be sent.
pub struct StillView {
    pub delivery: DeliveryView,
    pub detection: DetectionView,
}

impl View for Still {
    type V = StillView;

    open spec fn view(&self) -> StillView {
        StillView { delivery: self.delivery@, detection: self.detection@ }
    }
}

/// What is sent for a picture that was cropped to `cropped` by `detection`:
/// nothing where the detector found nothing, an error (the outer `None`) where
/// the crop is too large for its format.
pub open spec fn still_of(
    cropped: PictureView,
    detection: DetectionView,
    fmt: ImageFormat,
    name: Seq<char>,
    source: Source,
) -> Option<Option<StillView>> {
    if detection.rect is None {
        Some(None)
    } else if fmt.encoding_of().admits(cropped.width, cropped.height) {
        let bytes = cropped.written(fmt.encoding_of());
        Some(Some(StillView { delivery: delivery_of_still(bytes, fmt, name, source), detection }))
    } else {
        None
    }
}

/// What the detector makes of `picture`, as [`still_of`] has it.
pub open spec fn cropped_still(
    picture: PictureView,
    fmt: ImageFormat,
    name: Seq<char>,
    source: Source,
) -> Option<Option<StillView>> {
    let detection = picture.detection();
    still_of(picture.cut_to(detection.rect), detection, fmt, name, source)
}

/// A picture with these sides fits into a file of this format: JPEG counts in
/// sixteen bits, WebP in fourteen.
pub open spec fn fits(width: nat, height: nat, fmt: ImageFormat) -> bool {
    match fmt {
        ImageFormat::Jpeg => width < 0x10000 && height < 0x10000,
        ImageFormat::Png => true,
        ImageFormat::Webp => width <= 0x4000 && height <= 0x4000,
    }
}

/// What goes back for a cropped still is what the encoder of its own format
/// makes of the sides and the pixels of the crop, none of them moved or changed,
/// under the name of the input with the extension of that format, and as the
/// type that it arrived in. It goes back exactly where the detector found
/// something and the crop fits into the format.
pub proof fn lemma_still_carries_its_crop(
    cropped: PictureView,
    detection: DetectionView,
    fmt: ImageFormat,
    name: Seq<char>,
    source: Source,
)
    requires
        cropped.width <= u32::MAX,
        cropped.height <= u32::MAX,
    ensures
        ({
            let result = still_of(cropped, detection, fmt, name, source);
            let (encoding, ext) = match fmt {
                ImageFormat::Jpeg => (Encoding::Jpeg { quality: 90 }, "jpg"@),
                ImageFormat::Png => (Encoding::Png, "png"@),
                ImageFormat::Webp => (Encoding::WebPLossless, "webp"@),
            };
            &&& detection.rect is None ==> result == Some(None::<StillView>)
            &&& detection.rect is Some && !fits(cropped.width, cropped.height, fmt) ==> result
                is None
            &&& detection.rect is Some && fits(cropped.width, cropped.height, fmt) ==> {
                &&& result matches Some(Some(still))
                &&& still.detection == detection
                &&& still.delivery.payload == PayloadView::Memory(
                    encoded(cropped.width, cropped.height, cropped.pixels, encoding),
                )
                &&& still.delivery.file_name == output_name(name, ext)
                &&& still.delivery.method is Photo <==> source is Photo
                &&& still.delivery.method is Document <==> source is Document
                &&& still.delivery.method is Animation <==> source is Animation
                &&& still.delivery.method == (Method::Video { supports_streaming: true })
                    <==> source is Video
            }
        }),
{
}

/// The detector is asked about the still as it is, and what goes back is, pixel
/// by pixel, what stands inside its rectangle.
pub proof fn lemma_still_shows_the_rectangle(
    picture: PictureView,
    pixels: Seq<[u8; 3]>,
    fmt: ImageFormat,
    name: Seq<char>,
    source: Source,
)
    requires
        picture.width <= u32::MAX,
        picture.height <= u32::MAX,
        ({
            let found = detection_of(picture.width, picture.height, picture.pixels);
            found.rect matches Some(rect) ==> rect.x0 < rect.x1 <= picture.width && rect.y0 < rect.y1
                <= picture.height && shows(
                pixels,
                rect.x1 - rect.x0,
                rect.y1 - rect.y0,
                picture.pixels,
                picture.width as int,
                rect.x0 as int,
                rect.y0 as int,
            )
        }),
    ensures
        ({
            let result = cropped_still(picture, fmt, name, source);
            let found = detection_of(picture.width, picture.height, picture.pixels);
            &&& found.rect is None ==> result == Some(None::<StillView>)
            &&& found.rect matches Some(rect) ==> {
                let width = (rect.x1 - rect.x0) as nat;
                let height = (rect.y1 - rect.y0) as nat;
                &&& !fits(width, height, fmt) ==> result is None
                &&& fits(width, height, fmt) ==> {
                    &&& result matches Some(Some(still))
                    &&& still.detection == found
                    &&& still.delivery.payload == PayloadView::Memory(
                        encoded(
                            width,
                            height,
                            pixels,
                            match fmt {
                                ImageFormat::Jpeg => Encoding::Jpeg { quality: 90 },
                                ImageFormat::Png => Encoding::Png,
                                ImageFormat::Webp => Encoding::WebPLossless,
                            },
                        ),
                    )
                }
            }
        }),
{
    let found = detection_of(picture.width, picture.height, picture.pixels);
    if let Some(rect) = found.rect {
        lemma_cut_shows(picture, rect, pixels);
        lemma_still_carries_its_crop(picture.cut(rect), found, fmt, name, source);
    }
}

/// `r` is the result that `expected` stands for.
pub open spec fn still_result(
    r: Result<Option<Still>, ImageError>,
    expected: Option<Option<StillView>>,
) -> bool {
    match r {
        Ok(None) => expected == Some(None::<StillView>),
        Ok(Some(still)) => expected == Some(Some(still@)),
        Err(_) => expected is None,
    }
}

/// Writes out a picture that the detector was asked about: `None` where it
/// found nothing to crop, an error where the crop is too large for its format.
pub fn finish_still(
    cropped: &Picture,
    detection: Detection,
    fmt: ImageFormat,
    name: &str,
    source: Source,
) -> (r: Result<Option<Still>, ImageError>)
    ensures
        still_result(r, still_of(cropped@, detection@, fmt, name@, source)),
        r matches Ok(Some(still)) ==> still.delivery.payload matches Payload::Memory(bytes)
            && kind_of(bytes@) == Some(Kind::Image(fmt)),
        r matches Ok(Some(still)) ==> still.delivery.payload@ == PayloadView::Memory(
            encoded(
                cropped@.width,
                cropped@.height,
                cropped@.pixels,
                match fmt {
                    ImageFormat::Jpeg => Encoding::Jpeg { quality: 90 },
                    ImageFormat::Png => Encoding::Png,
                    ImageFormat::Webp => Encoding::WebPLossless,
                },
            ),
        ),
{
    if detection.rect.is_none() {
        return Ok(None);
    }
    proof {
        use_type_invariant(cropped);
    }
    match encode(cropped, fmt.encoding()) {
        Ok(bytes) => {
            proof {
                lemma_marked_kind(fmt, bytes@);
            }
            let delivery = deliver_still(bytes, fmt, name, source);
            Ok(Some(Still { delivery, detection }))
        },
        Err(error) => Err(error),
    }
}

/// Crops a picture to what the detector finds in it and writes the crop out in
/// the format that the picture came in: `None` where the detector finds
/// nothing, an error where the crop is too large for the format.
pub fn crop_still(picture: Picture, fmt: ImageFormat, name: &str, source: Source) -> (r: Result<
    Option<Still>,
    ImageError,
>)
    ensures
        still_result(r, cropped_still(picture@, fmt, name@, source)),
        r matches Ok(Some(still)) ==> still.delivery.payload matches Payload::Memory(bytes)
            && kind_of(bytes@) == Some(Kind::Image(fmt)),
{
    let (cropped, detection) = crop_image(picture);
    finish_still(&cropped, detection, fmt, name, source)
}

} // verus!
