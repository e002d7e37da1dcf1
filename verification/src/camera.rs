//! The camera source: every capture is one frame.
//!
//! A camera has no end of stream and keeps no memory of what came before:
//! each capture is judged on its own.

use crate::event::{Event, EventView, Request, SourceError, Step, StepView};
use crate::frame::{Frame, FrameView};
use vstd::prelude::*;

verus! {

/// The four-character code of raw interleaved red-green-blue: `RGB3`.
pub const RGB3: [u8; 4] = [0x52, 0x47, 0x42, 0x33];

/// What the capture device is configured with.
#[derive(Debug, Clone, Copy)]
pub struct CaptureConfig {
    /// Time between two frames in seconds, as numerator and denominator.
    pub interval: (u32, u32),
    /// Width and height of a frame.
    pub resolution: (u32, u32),
    /// Four-character code of the pixel format.
    pub format: [u8; 4],
}

/// The mathematical content of a [`Camera`].
pub struct CameraView {
    pub device: Seq<char>,
    pub width: nat,
    pub height: nat,
    pub fps: nat,
}

impl CameraView {
    /// The frame that a captured buffer makes at the camera's resolution.
    pub open spec fn frame_of(self, data: Seq<u8>) -> FrameView {
        FrameView { width: self.width, height: self.height, data }
    }

    /// The answer to `event`: a capture of the right size is a frame, one
    /// of another size and a failed capture are fatal. A camera never
    /// reaches the end of its stream.
    pub open spec fn step(self, event: EventView) -> StepView {
        match event {
            EventView::Captured(data) => if self.frame_of(data).wf() {
                StepView::Frame(self.frame_of(data))
            } else {
                StepView::Failed(SourceError::MalformedFrame)
            },
            EventView::CaptureFailed => StepView::Failed(SourceError::CaptureFailed),
            _ => StepView::Failed(SourceError::UnexpectedEvent),
        }
    }
}

/// A camera never announces the end of its stream, and it ends every
/// retrieval at once: a capture of `width * height * 3` bytes is answered
/// with the frame that holds them, anything else with a failure.
pub proof fn lemma_camera_never_ends(camera: CameraView, event: EventView)
    ensures
        !(camera.step(event) is EndOfStream),
        !(camera.step(event) is Continue),
        event matches EventView::Captured(data) ==> (camera.frame_of(data).wf() ==> camera.step(
            event,
        ) == StepView::Frame(camera.frame_of(data))),
        camera.step(event) matches StepView::Frame(frame) ==> frame.wf() && frame.width
            == camera.width && frame.height == camera.height,
{
}

/// A camera source: a device, and the resolution and frame rate that it
/// is to capture at.
#[derive(Debug)]
pub struct Camera {
    device: String,
    width: u32,
    height: u32,
    fps: u32,
}

impl View for Camera {
    type V = CameraView;

    closed spec fn view(&self) -> CameraView {
        CameraView {
            device: self.device@,
            width: self.width as nat,
            height: self.height as nat,
            fps: self.fps as nat,
        }
    }
}

impl Camera {
    /// A camera source on the device of this name, for frames of `width`
    /// by `height` pixels, `fps` of them in a second.
    pub fn new(device: &str, width: u32, height: u32, fps: u32) -> (camera: Camera)
        ensures
            camera@ == (CameraView {
                device: device@,
                width: width as nat,
                height: height as nat,
                fps: fps as nat,
            }),
    {
        Camera { device: device.to_owned(), width, height, fps }
    }

    /// Name of the device.
    pub fn device(&self) -> (device: &str)
        ensures
            device@ == self@.device,
    {
        self.device.as_str()
    }

    /// Number of pixels in a row of every frame of this source.
    pub fn width(&self) -> (width: u32)
        ensures
            width == self@.width,
    {
        self.width
    }

    /// Number of rows of every frame of this source.
    pub fn height(&self) -> (height: u32)
        ensures
            height == self@.height,
    {
        self.height
    }

    /// Frames in a second.
    pub fn fps(&self) -> (fps: u32)
        ensures
            fps == self@.fps,
    {
        self.fps
    }

    /// What the device is to be configured with: one frame every `1 / fps`
    /// seconds, at the camera's resolution, as raw red-green-blue.
    pub fn config(&self) -> (config: CaptureConfig)
        ensures
            config.interval == (1u32, self@.fps as u32),
            config.resolution == (self@.width as u32, self@.height as u32),
            config.format == RGB3,
    {
        CaptureConfig {
            interval: (1, self.fps),
            resolution: (self.width, self.height),
            format: RGB3,
        }
    }

    /// The outside work that the source waits for: always a capture.
    pub fn request(&self) -> (request: Request)
        ensures
            request == Request::Capture,
    {
        Request::Capture
    }

    /// Takes the outcome of a capture and ends the retrieval.
    pub fn get_frame(&self, event: Event) -> (step: Step)
        ensures
            step@ == self@.step(event@),
            !(step is EndOfStream),
            !(step is Continue),
            step matches Step::Frame(frame) ==> frame@.wf(),
    {
        match event {
            Event::Captured(data) => match Frame::from_vec(self.width, self.height, data) {
                Some(frame) => Step::Frame(frame),
                None => Step::Failed(SourceError::MalformedFrame),
            },
            Event::CaptureFailed => Step::Failed(SourceError::CaptureFailed),
            _ => Step::Failed(SourceError::UnexpectedEvent),
        }
    }
}

} // verus!
