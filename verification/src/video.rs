//! The video source: demultiplexing, decoding and conversion, driven one
//! outside operation at a time.
//!
//! A retrieval walks through these phases. In `Demux` the next packet of the
//! container is awaited; a packet of another stream than the selected one
//! is dropped and the next one awaited. In `Feed` the decoder's verdict on
//! the packet is awaited, in `Drain` its attempt to give a picture, in
//! `Convert` the red-green-blue buffer of that picture. The retrieval ends
//! with a frame, with the end of the stream once the container is
//! exhausted, or with a fatal failure.

use crate::event::{answers, Event, EventView, Request, SourceError, Step, StepView};
use crate::frame::{Frame, FrameView};
use vstd::prelude::*;

verus! {

/// What a stream of a container carries.
#[derive(Debug, Clone, Copy, PartialEq, Eq, Structural)]
pub enum MediaKind {
    Unknown,
    Video,
    Audio,
    Data,
    Subtitle,
    Attachment,
}

/// Whether `index` is the place of the first video stream among `kinds`.
pub open spec fn is_first_video(kinds: Seq<MediaKind>, index: int) -> bool {
    &&& 0 <= index < kinds.len()
    &&& kinds[index] is Video
    &&& forall|j: int| 0 <= j < index ==> !(#[trigger] kinds[j] is Video)
}

/// The place of the first video stream among `kinds`, if there is one.
pub open spec fn first_video(kinds: Seq<MediaKind>) -> Option<nat> {
    if exists|i: int| is_first_video(kinds, i) {
        Some((choose|i: int| is_first_video(kinds, i)) as nat)
    } else {
        None
    }
}

/// There is at most one first video stream, and `first_video` names it.
pub proof fn lemma_first_video_found(kinds: Seq<MediaKind>, index: int)
    requires
        is_first_video(kinds, index),
    ensures
        first_video(kinds) == Some(index as nat),
{
    let chosen = choose|i: int| is_first_video(kinds, i);
    assert(is_first_video(kinds, chosen));
    if chosen < index {
        assert(!(kinds[chosen] is Video));
    } else if index < chosen {
        assert(!(kinds[index] is Video));
    }
}

/// Where no stream is a video stream, `first_video` names none.
pub proof fn lemma_first_video_missing(kinds: Seq<MediaKind>)
    requires
        forall|j: int| 0 <= j < kinds.len() ==> !(#[trigger] kinds[j] is Video),
    ensures
        first_video(kinds) is None,
{
    if exists|i: int| is_first_video(kinds, i) {
        let i = choose|i: int| is_first_video(kinds, i);
        assert(kinds[i] is Video);
    }
}

/// Selects the video stream of a container whose streams carry `kinds`:
/// the first one that is a video stream.
pub fn select_video_stream(kinds: &[MediaKind]) -> (index: Option<usize>)
    ensures
        index matches Some(i) ==> first_video(kinds@) == Some(i as nat) && is_first_video(
            kinds@,
            i as int,
        ),
        index is None ==> first_video(kinds@) is None && forall|j: int|
            0 <= j < kinds@.len() ==> !(#[trigger] kinds@[j] is Video),
{
    let mut i: usize = 0;
    while i < kinds.len()
        invariant
            i <= kinds@.len(),
            forall|j: int| 0 <= j < i ==> !(#[trigger] kinds@[j] is Video),
        decreases kinds@.len() - i,
    {
        if let MediaKind::Video = kinds[i] {
            proof {
                lemma_first_video_found(kinds@, i as int);
            }
            return Some(i);
        }
        i += 1;
    }
    proof {
        lemma_first_video_missing(kinds@);
    }
    None
}

/// Where a video source stands on the way from packet to frame.
#[derive(Debug, Clone, Copy, PartialEq, Eq, Structural)]
pub enum Phase {
    /// The next packet of the container is awaited.
    Demux,
    /// The decoder's verdict on a packet of the video stream is awaited.
    Feed,
    /// The decoder's attempt to give a picture is awaited.
    Drain,
    /// The red-green-blue buffer of a decoded picture is awaited.
    Convert,
    /// The container is exhausted. Nothing follows.
    Ended,
    /// The source failed for this reason. Nothing follows.
    Failed(SourceError),
}

/// The layout of the pixels that the conversion produces.
#[derive(Debug, Clone, Copy, PartialEq, Eq, Structural)]
pub enum PixelLayout {
    /// Red, green and blue, one byte each, pixel after pixel.
    Rgb24,
}

/// How the conversion resamples.
#[derive(Debug, Clone, Copy, PartialEq, Eq, Structural)]
pub enum Scaling {
    Bilinear,
}

/// The parameters of the pixel-format conversion of a video source, but for
/// the layout of the decoder's pictures, which only the decoder knows.
#[derive(Debug, Clone, Copy, PartialEq, Eq, Structural)]
pub struct Conversion {
    pub source_width: u32,
    pub source_height: u32,
    pub target: PixelLayout,
    pub target_width: u32,
    pub target_height: u32,
    pub scaling: Scaling,
}

/// The mathematical content of a [`Video`].
pub struct VideoView {
    pub width: nat,
    pub height: nat,
    pub stream: nat,
    pub phase: Phase,
}

impl VideoView {
    /// The outside work that the source waits for.
    pub open spec fn request(self) -> Request {
        match self.phase {
            Phase::Demux => Request::Packet,
            Phase::Feed => Request::Decode,
            Phase::Drain => Request::Picture,
            Phase::Convert => Request::Convert,
            Phase::Ended => Request::Nothing,
            Phase::Failed(_) => Request::Nothing,
        }
    }

    /// The frame that a converted buffer makes at the source's dimensions.
    pub open spec fn frame_of(self, data: Seq<u8>) -> FrameView {
        FrameView { width: self.width, height: self.height, data }
    }

    /// The phase that follows `event`. An event that does not answer the
    /// pending request changes nothing.
    pub open spec fn next_phase(self, event: EventView) -> Phase {
        if !answers(self.request(), event) {
            self.phase
        } else {
            match (self.phase, event) {
                (Phase::Demux, EventView::Packet(stream)) => if stream == self.stream {
                    Phase::Feed
                } else {
                    Phase::Demux
                },
                (Phase::Demux, _) => Phase::Ended,
                (Phase::Feed, EventView::Accepted) => Phase::Drain,
                (Phase::Feed, _) => Phase::Failed(SourceError::PacketRejected),
                (Phase::Drain, EventView::Picture) => Phase::Convert,
                (Phase::Drain, _) => Phase::Demux,
                (Phase::Convert, EventView::Converted(data)) => if self.frame_of(data).wf() {
                    Phase::Demux
                } else {
                    Phase::Failed(SourceError::MalformedFrame)
                },
                (Phase::Convert, _) => Phase::Failed(SourceError::ConversionFailed),
                (Phase::Ended, _) => Phase::Ended,
                (Phase::Failed(error), _) => Phase::Failed(error),
            }
        }
    }

    /// The source after `event`: its dimensions and its stream stay.
    pub open spec fn next(self, event: EventView) -> VideoView {
        VideoView { phase: self.next_phase(event), ..self }
    }

    /// The answer to `event`.
    pub open spec fn step(self, event: EventView) -> StepView {
        if !answers(self.request(), event) {
            StepView::Failed(SourceError::UnexpectedEvent)
        } else {
            match (self.phase, event) {
                (Phase::Demux, EventView::Packet(_)) => StepView::Continue,
                (Phase::Demux, _) => StepView::EndOfStream,
                (Phase::Feed, EventView::Accepted) => StepView::Continue,
                (Phase::Feed, _) => StepView::Failed(SourceError::PacketRejected),
                (Phase::Drain, _) => StepView::Continue,
                (Phase::Convert, EventView::Converted(data)) => if self.frame_of(data).wf() {
                    StepView::Frame(self.frame_of(data))
                } else {
                    StepView::Failed(SourceError::MalformedFrame)
                },
                (Phase::Convert, _) => StepView::Failed(SourceError::ConversionFailed),
                (Phase::Ended, _) => StepView::EndOfStream,
                (Phase::Failed(error), _) => StepView::Failed(error),
            }
        }
    }
}

/// What opening a video source on a container gives: a source that awaits
/// the first packet, with the first video stream selected, or the failure
/// that there is no video stream.
pub open spec fn opened(kinds: Seq<MediaKind>, width: u32, height: u32) -> Result<
    VideoView,
    SourceError,
> {
    match first_video(kinds) {
        Some(stream) => Ok(
            VideoView { width: width as nat, height: height as nat, stream, phase: Phase::Demux },
        ),
        None => Err(SourceError::NoVideoStream),
    }
}

/// A video source.
#[derive(Debug)]
pub struct Video {
    width: u32,
    height: u32,
    video_stream_index: usize,
    phase: Phase,
}

impl View for Video {
    type V = VideoView;

    closed spec fn view(&self) -> VideoView {
        VideoView {
            width: self.width as nat,
            height: self.height as nat,
            stream: self.video_stream_index as nat,
            phase: self.phase,
        }
    }
}

impl Video {
    /// A video source on a container whose streams carry `kinds`, for a
    /// decoder whose pictures are `width` by `height`.
    pub fn new(kinds: &[MediaKind], width: u32, height: u32) -> (video: Result<Video, SourceError>)
        ensures
            match opened(kinds@, width, height) {
                Ok(view) => video matches Ok(v) && v@ == view,
                Err(error) => video matches Err(e) && e == error,
            },
    {
        match select_video_stream(kinds) {
            Some(index) => Ok(
                Video { width, height, video_stream_index: index, phase: Phase::Demux },
            ),
            None => Err(SourceError::NoVideoStream),
        }
    }

    /// Number of pixels in a row of every frame of this source.
    pub fn width(&self) -> (width: u32)
        ensures
            width == self@.width,
    {
        self.width
    }

    /// Number of rows of every frame of this source.
    pub fn height(&self) -> (height: u32)
        ensures
            height == self@.height,
    {
        self.height
    }

    /// Index of the selected stream.
    pub fn video_stream_index(&self) -> (index: usize)
        ensures
            index == self@.stream,
    {
        self.video_stream_index
    }

    /// Where the source stands on the way from packet to frame.
    pub fn phase(&self) -> (phase: Phase)
        ensures
            phase == self@.phase,
    {
        self.phase
    }

    /// The parameters of the conversion: to red-green-blue at the decoder's
    /// own dimensions, resampled bilinearly.
    pub fn conversion(&self) -> (conversion: Conversion)
        ensures
            conversion.source_width == self@.width,
            conversion.source_height == self@.height,
            conversion.target == PixelLayout::Rgb24,
            conversion.target_width == self@.width,
            conversion.target_height == self@.height,
            conversion.scaling == Scaling::Bilinear,
    {
        Conversion {
            source_width: self.width,
            source_height: self.height,
            target: PixelLayout::Rgb24,
            target_width: self.width,
            target_height: self.height,
            scaling: Scaling::Bilinear,
        }
    }

    /// The outside work that the source waits for.
    pub fn request(&self) -> (request: Request)
        ensures
            request == self@.request(),
    {
        match self.phase {
            Phase::Demux => Request::Packet,
            Phase::Feed => Request::Decode,
            Phase::Drain => Request::Picture,
            Phase::Convert => Request::Convert,
            Phase::Ended => Request::Nothing,
            Phase::Failed(_) => Request::Nothing,
        }
    }

    /// Takes the outcome of the outside work that was pending and moves the
    /// retrieval on by one step.
    pub fn get_frame(&mut self, event: Event) -> (step: Step)
        ensures
            final(self)@ == old(self)@.next(event@),
            step@ == old(self)@.step(event@),
            step matches Step::Frame(frame) ==> frame@.wf(),
    {
        if !event.answers(self.request()) {
            return Step::Failed(SourceError::UnexpectedEvent);
        }
        match self.phase {
            Phase::Demux => match event {
                Event::Packet(stream) => {
                    if stream == self.video_stream_index {
                        self.phase = Phase::Feed;
                    }
                    Step::Continue
                },
                _ => {
                    self.phase = Phase::Ended;
                    Step::EndOfStream
                },
            },
            Phase::Feed => match event {
                Event::Accepted => {
                    self.phase = Phase::Drain;
                    Step::Continue
                },
                _ => {
                    self.phase = Phase::Failed(SourceError::PacketRejected);
                    Step::Failed(SourceError::PacketRejected)
                },
            },
            Phase::Drain => match event {
                Event::Picture => {
                    self.phase = Phase::Convert;
                    Step::Continue
                },
                _ => {
                    self.phase = Phase::Demux;
                    Step::Continue
                },
            },
            Phase::Convert => match event {
                Event::Converted(data) => match Frame::from_vec(self.width, self.height, data) {
                    Some(frame) => {
                        self.phase = Phase::Demux;
                        Step::Frame(frame)
                    },
                    None => {
                        self.phase = Phase::Failed(SourceError::MalformedFrame);
                        Step::Failed(SourceError::MalformedFrame)
                    },
                },
                _ => {
                    self.phase = Phase::Failed(SourceError::ConversionFailed);
                    Step::Failed(SourceError::ConversionFailed)
                },
            },
            Phase::Ended => Step::EndOfStream,
            Phase::Failed(error) => Step::Failed(error),
        }
    }
}

} // verus!
