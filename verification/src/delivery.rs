//! How a result goes back to the sender.

use vstd::prelude::*;

use crate::format::ImageFormat;
use crate::media::Source;
use crate::naming::{out_name, output_name};

verus! {

/// What a result is sent as.
#[derive(Clone, Copy, Debug, PartialEq, Eq, Structural)]
pub enum Method {
    Photo,
    Document,
    Animation,
    Video { supports_streaming: bool },
}

/// What is sent.
#[derive(Debug)]
pub enum Payload {
    /// These bytes.
    Memory(Vec<u8>),
    /// The clip that ffmpeg wrote.
    Clip,
}

/// A result to send.
#[derive(Debug)]
pub struct Delivery {
    pub payload: Payload,
    pub file_name: String,
    pub method: Method,
}

/// What is sent.
pub enum PayloadView {
    Memory(Seq<u8>),
    Clip,
}

/// A result to send.
pub struct DeliveryView {
    pub payload: PayloadView,
    pub file_name: Seq<char>,
    pub method: Method,
}

impl View for Payload {
    type V = PayloadView;

    open spec fn view(&self) -> PayloadView {
        match self {
            Payload::Memory(bytes) => PayloadView::Memory(bytes@),
            Payload::Clip => PayloadView::Clip,
        }
    }
}

impl View for Delivery {
    type V = DeliveryView;

    open spec fn view(&self) -> DeliveryView {
        DeliveryView {
            payload: self.payload@,
            file_name: self.file_name@,
            method: self.method,
        }
    }
}

/// What a message of this source is, and so what its result is sent as.
pub open spec fn arrived_as(source: Source) -> Method {
    match source {
        Source::Photo => Method::Photo,
        Source::Video => Method::Video { supports_streaming: true },
        Source::Animation => Method::Animation,
        Source::Document => Method::Document,
    }
}

/// The delivery of a still that was written out as `bytes`.
pub open spec fn delivery_of_still(
    bytes: Seq<u8>,
    fmt: ImageFormat,
    name: Seq<char>,
    source: Source,
) -> DeliveryView {
    DeliveryView {
        payload: PayloadView::Memory(bytes),
        file_name: output_name(name, fmt.ext_of()),
        method: arrived_as(source),
    }
}

/// The delivery of the clip that ffmpeg wrote.
pub open spec fn delivery_of_clip(name: Seq<char>, source: Source) -> DeliveryView {
    DeliveryView {
        payload: PayloadView::Clip,
        file_name: output_name(name, "mp4"@),
        method: arrived_as(source),
    }
}

/// A clip goes back from where ffmpeg wrote it, as an MP4 under the name of the
/// input, and as the type that it arrived in.
pub proof fn lemma_clip_delivery(name: Seq<char>, source: Source)
    ensures
        ({
            let delivery = delivery_of_clip(name, source);
            &&& delivery.payload == PayloadView::Clip
            &&& delivery.file_name == output_name(name, "mp4"@)
            &&& delivery.method is Photo <==> source is Photo
            &&& delivery.method is Document <==> source is Document
            &&& delivery.method is Animation <==> source is Animation
            &&& delivery.method == (Method::Video { supports_streaming: true }) <==> source is Video
        }),
{
}

/// What a result is sent as: the type that its message arrived as.
pub fn method_for(source: Source) -> (r: Method)
    ensures
        r == arrived_as(source),
{
    match source {
        Source::Photo => Method::Photo,
        Source::Video => Method::Video { supports_streaming: true },
        Source::Animation => Method::Animation,
        Source::Document => Method::Document,
    }
}

/// The delivery of a still that was written out as `bytes`.
pub fn deliver_still(bytes: Vec<u8>, fmt: ImageFormat, name: &str, source: Source) -> (r: Delivery)
    ensures
        r@ == delivery_of_still(bytes@, fmt, name@, source),
{
    Delivery {
        payload: Payload::Memory(bytes),
        file_name: out_name(name, fmt.ext()),
        method: method_for(source),
    }
}

/// The delivery of the clip that ffmpeg wrote.
pub fn deliver_clip(name: &str, source: Source) -> (r: Delivery)
    ensures
        r@ == delivery_of_clip(name@, source),
{
    Delivery {
        payload: Payload::Clip,
        file_name: out_name(name, "mp4"),
        method: method_for(source),
    }
}

} // verus!
