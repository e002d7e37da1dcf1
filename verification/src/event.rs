//! The vocabulary that a source and its caller share.
//!
//! A source never performs outside work itself. It names the work that is
//! due as a [`Request`]; the caller performs it and reports the outcome as
//! an [`Event`]; the source answers with a [`Step`].

use crate::frame::{Frame, FrameView};
use vstd::prelude::*;

verus! {

/// A fatal failure: the reason why a source cannot deliver.
#[derive(Debug, Clone, Copy, PartialEq, Eq, Structural)]
pub enum SourceError {
    /// The event does not answer the request that was pending.
    UnexpectedEvent,
    /// The camera did not deliver a buffer.
    CaptureFailed,
    /// A buffer from outside does not make a frame of the source's
    /// dimensions.
    MalformedFrame,
    /// The decoder refused a packet of the video stream.
    PacketRejected,
    /// The pixel-format conversion of a decoded picture failed.
    ConversionFailed,
    /// The container holds no video stream.
    NoVideoStream,
    /// The picture file cannot be decoded.
    Undecodable,
}

/// The outside work that a source waits for.
#[derive(Debug, Clone, Copy, PartialEq, Eq, Structural)]
pub enum Request {
    /// No outside work is due.
    Nothing,
    /// Capture one raw buffer from the camera.
    Capture,
    /// Pull the next packet from the container.
    Packet,
    /// Submit the packet that was pulled last to the decoder.
    Decode,
    /// Try to receive one decoded picture from the decoder.
    Picture,
    /// Convert the picture that was received last to red-green-blue.
    Convert,
}

/// The outcome of outside work.
#[derive(Debug)]
pub enum Event {
    /// No work was due and none was done.
    Nothing,
    /// The camera delivered this buffer.
    Captured(Vec<u8>),
    /// The camera failed.
    CaptureFailed,
    /// The container gave a packet of the stream with this index.
    Packet(usize),
    /// The container has no more packets.
    Exhausted,
    /// The decoder took the packet.
    Accepted,
    /// The decoder refused the packet.
    Rejected,
    /// The decoder gave a picture.
    Picture,
    /// The decoder has no picture ready yet.
    NotReady,
    /// The conversion gave this buffer.
    Converted(Vec<u8>),
    /// The conversion failed.
    ConversionFailed,
}

/// The mathematical content of an [`Event`].
pub enum EventView {
    Nothing,
    Captured(Seq<u8>),
    CaptureFailed,
    Packet(nat),
    Exhausted,
    Accepted,
    Rejected,
    Picture,
    NotReady,
    Converted(Seq<u8>),
    ConversionFailed,
}

impl View for Event {
    type V = EventView;

    open spec fn view(&self) -> EventView {
        match *self {
            Event::Nothing => EventView::Nothing,
            Event::Captured(data) => EventView::Captured(data@),
            Event::CaptureFailed => EventView::CaptureFailed,
            Event::Packet(stream) => EventView::Packet(stream as nat),
            Event::Exhausted => EventView::Exhausted,
            Event::Accepted => EventView::Accepted,
            Event::Rejected => EventView::Rejected,
            Event::Picture => EventView::Picture,
            Event::NotReady => EventView::NotReady,
            Event::Converted(data) => EventView::Converted(data@),
            Event::ConversionFailed => EventView::ConversionFailed,
        }
    }
}

/// Whether `event` is a possible outcome of the work that `request` names.
pub open spec fn answers(request: Request, event: EventView) -> bool {
    match request {
        Request::Nothing => event is Nothing,
        Request::Capture => event is Captured || event is CaptureFailed,
        Request::Packet => event is Packet || event is Exhausted,
        Request::Decode => event is Accepted || event is Rejected,
        Request::Picture => event is Picture || event is NotReady,
        Request::Convert => event is Converted || event is ConversionFailed,
    }
}

impl Event {
    /// Whether this event is a possible outcome of the work that `request`
    /// names.
    pub fn answers(&self, request: Request) -> (r: bool)
        ensures
            r == answers(request, self@),
    {
        match request {
            Request::Nothing => matches!(self, Event::Nothing),
            Request::Capture => matches!(self, Event::Captured(_) | Event::CaptureFailed),
            Request::Packet => matches!(self, Event::Packet(_) | Event::Exhausted),
            Request::Decode => matches!(self, Event::Accepted | Event::Rejected),
            Request::Picture => matches!(self, Event::Picture | Event::NotReady),
            Request::Convert => matches!(self, Event::Converted(_) | Event::ConversionFailed),
        }
    }
}

/// What a source answers to an event.
#[derive(Debug)]
pub enum Step {
    /// More outside work is due before this retrieval ends.
    Continue,
    /// The retrieval ends with this frame.
    Frame(Frame),
    /// The retrieval ends without a frame, and so will every later one.
    EndOfStream,
    /// The retrieval ends with a fatal failure.
    Failed(SourceError),
}

/// The mathematical content of a [`Step`].
pub enum StepView {
    Continue,
    Frame(FrameView),
    EndOfStream,
    Failed(SourceError),
}

impl View for Step {
    type V = StepView;

    open spec fn view(&self) -> StepView {
        match *self {
            Step::Continue => StepView::Continue,
            Step::Frame(frame) => StepView::Frame(frame@),
            Step::EndOfStream => StepView::EndOfStream,
            Step::Failed(error) => StepView::Failed(error),
        }
    }
}

} // verus!
