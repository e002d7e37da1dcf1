//! The picture source: a stream of one frame.

use crate::event::{Event, EventView, Request, SourceError, Step, StepView};
use crate::frame::{Frame, FrameView};
use vstd::prelude::*;

verus! {

/// What the `image` crate makes of a picture file: the width, the height
/// and the interleaved red-green-blue bytes of the picture that `bytes`
/// hold in the format that the extension of `path` names, or `None` where
/// the extension names no format that the crate reads or `bytes` are no
/// picture in it.
pub uninterp spec fn decoded_rgb8(path: Seq<char>, bytes: Seq<u8>) -> Option<(u32, u32, Seq<u8>)>;

/// Decodes a picture file with the `image` crate: the format comes from
/// `image::ImageFormat::from_path`, the picture from
/// `image::load_from_memory_with_format`, its red-green-blue form from
/// `image::DynamicImage::to_rgb8`. The contract claims no more than that
/// the outcome depends on the path and the bytes alone.
#[verifier::external_body]
fn decode_rgb8(path: &str, bytes: &[u8]) -> (decoded: Option<(u32, u32, Vec<u8>)>)
    ensures
        match decoded {
            Some((width, height, data)) => decoded_rgb8(path@, bytes@) == Some(
                (width, height, data@),
            ),
            None => decoded_rgb8(path@, bytes@) is None,
        },
{
    let format = match image::ImageFormat::from_path(path) {
        Ok(format) => format,
        Err(_) => return None,
    };
    match image::load_from_memory_with_format(bytes, format) {
        Ok(picture) => {
            let rgb = picture.to_rgb8();
            Some((rgb.width(), rgb.height(), rgb.into_raw()))
        },
        Err(_) => None,
    }
}

/// Whether the one frame of a picture source has been handed out.
#[derive(Debug, Clone, Copy, PartialEq, Eq, Structural)]
pub enum Delivery {
    Pending,
    Delivered,
}

/// The mathematical content of a [`Picture`].
pub struct PictureView {
    pub image: FrameView,
    pub delivery: Delivery,
}

impl PictureView {
    /// The answer to `event`: the picture on the first retrieval, the end of
    /// the stream on every later one.
    pub open spec fn step(self, event: EventView) -> StepView {
        if !(event is Nothing) {
            StepView::Failed(SourceError::UnexpectedEvent)
        } else {
            match self.delivery {
                Delivery::Pending => StepView::Frame(self.image),
                Delivery::Delivered => StepView::EndOfStream,
            }
        }
    }

    /// The source after `event`: once a retrieval has been answered, the
    /// frame counts as delivered, for good. An event that answers no
    /// request changes nothing.
    pub open spec fn next(self, event: EventView) -> PictureView {
        if event is Nothing {
            PictureView { delivery: Delivery::Delivered, ..self }
        } else {
            self
        }
    }

    /// The source after `n` retrievals.
    pub open spec fn after(self, n: nat) -> PictureView
        decreases n,
    {
        if n == 0 {
            self
        } else {
            self.after((n - 1) as nat).next(EventView::Nothing)
        }
    }
}

/// The picture source that a decoded picture makes: one that has yet to
/// hand out its frame. A picture that could not be decoded makes none, nor
/// does one that is no frame.
pub open spec fn loaded(decoded: Option<(u32, u32, Seq<u8>)>) -> Result<PictureView, SourceError> {
    match decoded {
        Some((width, height, data)) => if Frame::fits(width, height, data) {
            Ok(
                PictureView {
                    image: FrameView { width: width as nat, height: height as nat, data },
                    delivery: Delivery::Pending,
                },
            )
        } else {
            Err(SourceError::MalformedFrame)
        },
        None => Err(SourceError::Undecodable),
    }
}

/// A picture source that has yet to hand out its frame answers the first
/// retrieval with its picture, and each of the `n` that follow with the end
/// of the stream. The picture that it holds never changes.
pub proof fn lemma_one_frame_then_end(picture: PictureView, n: nat)
    requires
        picture.delivery is Pending,
    ensures
        picture.after(n).image == picture.image,
        n == 0 ==> picture.after(n).step(EventView::Nothing) == StepView::Frame(picture.image),
        n > 0 ==> picture.after(n).step(EventView::Nothing) == StepView::EndOfStream,
    decreases n,
{
    if n > 0 {
        lemma_one_frame_then_end(picture, (n - 1) as nat);
    }
}

/// Once the frame has been handed out, no event brings it back: the source
/// stays as it is and never answers with a frame.
pub proof fn lemma_delivered_is_final(picture: PictureView, event: EventView)
    requires
        picture.delivery is Delivered,
    ensures
        picture.next(event) == picture,
        !(picture.step(event) is Frame),
{
}

/// The frame of a picture source is what the decoder made of the file:
/// where the decoded picture is a frame, the source made of it answers the
/// first retrieval with that very picture, byte for byte; where it is not,
/// or nothing was decoded, no source is made.
pub proof fn lemma_round_trip(path: Seq<char>, bytes: Seq<u8>)
    ensures
        match decoded_rgb8(path, bytes) {
            Some((width, height, data)) => if Frame::fits(width, height, data) {
                loaded(decoded_rgb8(path, bytes)) matches Ok(picture) && picture.step(
                    EventView::Nothing,
                ) == StepView::Frame(
                    FrameView { width: width as nat, height: height as nat, data },
                )
            } else {
                loaded(decoded_rgb8(path, bytes)) == Err::<PictureView, SourceError>(
                    SourceError::MalformedFrame,
                )
            },
            None => loaded(decoded_rgb8(path, bytes)) == Err::<PictureView, SourceError>(
                SourceError::Undecodable,
            ),
        },
{
}

/// A picture source.
#[derive(Debug)]
pub struct Picture {
    image: Frame,
    delivery: Delivery,
}

impl View for Picture {
    type V = PictureView;

    closed spec fn view(&self) -> PictureView {
        PictureView { image: self.image@, delivery: self.delivery }
    }
}

impl Picture {
    /// A picture source on a picture file: `bytes` is what the file holds,
    /// and the extension of `path` names its format.
    pub fn new(path: &str, bytes: &[u8]) -> (picture: Result<Picture, SourceError>)
        ensures
            match loaded(decoded_rgb8(path@, bytes@)) {
                Ok(view) => picture matches Ok(p) && p@ == view,
                Err(error) => picture matches Err(e) && e == error,
            },
    {
        Picture::from_decoded(decode_rgb8(path, bytes))
    }

    /// A picture source on what a decoder made of a picture file: width,
    /// height and red-green-blue bytes, or `None` where it made nothing.
    pub fn from_decoded(decoded: Option<(u32, u32, Vec<u8>)>) -> (picture: Result<
        Picture,
        SourceError,
    >)
        ensures
            match decoded {
                Some((width, height, data)) => match loaded(Some((width, height, data@))) {
                    Ok(view) => picture matches Ok(p) && p@ == view,
                    Err(error) => picture matches Err(e) && e == error,
                },
                None => picture matches Err(e) && e == SourceError::Undecodable,
            },
    {
        match decoded {
            Some((width, height, data)) => match Frame::from_vec(width, height, data) {
                Some(image) => Ok(Picture { image, delivery: Delivery::Pending }),
                None => Err(SourceError::MalformedFrame),
            },
            None => Err(SourceError::Undecodable),
        }
    }

    /// Number of pixels in a row of the picture.
    pub fn width(&self) -> (width: u32)
        ensures
            width == self@.image.width,
    {
        self.image.width()
    }

    /// Number of rows of the picture.
    pub fn height(&self) -> (height: u32)
        ensures
            height == self@.image.height,
    {
        self.image.height()
    }

    /// Whether the frame has been handed out.
    pub fn delivery(&self) -> (delivery: Delivery)
        ensures
            delivery == self@.delivery,
    {
        self.delivery
    }

    /// The outside work that the source waits for: never any.
    pub fn request(&self) -> (request: Request)
        ensures
            request == Request::Nothing,
    {
        Request::Nothing
    }

    /// Answers a retrieval: with a copy of the picture the first time, with
    /// the end of the stream every time after.
    pub fn get_frame(&mut self, event: Event) -> (step: Step)
        ensures
            final(self)@ == old(self)@.next(event@),
            step@ == old(self)@.step(event@),
            !(step is Continue),
            step matches Step::Frame(frame) ==> frame@.wf(),
    {
        match event {
            Event::Nothing => match self.delivery {
                Delivery::Pending => {
                    self.delivery = Delivery::Delivered;
                    Step::Frame(self.image.clone())
                },
                Delivery::Delivered => Step::EndOfStream,
            },
            _ => Step::Failed(SourceError::UnexpectedEvent),
        }
    }
}

} // verus!
