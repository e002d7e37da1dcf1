//! The facade: one of the three sources behind one retrieval operation.

use crate::camera::{Camera, CameraView};
use crate::event::{Event, EventView, Request, SourceError, Step, StepView};
use crate::picture::{decoded_rgb8, loaded, Picture, PictureView};
use crate::video::{opened, MediaKind, Video, VideoView};
use vstd::prelude::*;

verus! {

/// The mathematical content of a [`SimpleImageInterface`]: which source it
/// is, and that source's content.
pub enum InterfaceView {
    Camera(CameraView),
    Picture(PictureView),
    Video(VideoView),
}

impl InterfaceView {
    /// The picture that a picture source holds is a well-formed frame. The
    /// other sources hold none.
    pub open spec fn wf(self) -> bool {
        self matches InterfaceView::Picture(picture) ==> picture.image.wf()
    }

    /// Whether both are the same kind of source.
    pub open spec fn same_kind(self, other: InterfaceView) -> bool {
        match self {
            InterfaceView::Camera(_) => other is Camera,
            InterfaceView::Picture(_) => other is Picture,
            InterfaceView::Video(_) => other is Video,
        }
    }

    /// The outside work that the active source waits for.
    pub open spec fn request(self) -> Request {
        match self {
            InterfaceView::Camera(_) => Request::Capture,
            InterfaceView::Picture(_) => Request::Nothing,
            InterfaceView::Video(video) => video.request(),
        }
    }

    /// The answer of the active source to `event`.
    pub open spec fn step(self, event: EventView) -> StepView {
        match self {
            InterfaceView::Camera(camera) => camera.step(event),
            InterfaceView::Picture(picture) => picture.step(event),
            InterfaceView::Video(video) => video.step(event),
        }
    }

    /// The interface after `event`: the same source, moved on as that
    /// source moves on.
    pub open spec fn next(self, event: EventView) -> InterfaceView {
        match self {
            InterfaceView::Camera(camera) => InterfaceView::Camera(camera),
            InterfaceView::Picture(picture) => InterfaceView::Picture(picture.next(event)),
            InterfaceView::Video(video) => InterfaceView::Video(video.next(event)),
        }
    }
}

/// Whatever the source, every frame that it hands out holds exactly three
/// bytes for each of its `width * height` pixels.
pub proof fn lemma_frames_hold_three_bytes_per_pixel(interface: InterfaceView, event: EventView)
    requires
        interface.wf(),
    ensures
        interface.step(event) matches StepView::Frame(frame) ==> frame.wf() && frame.data.len()
            == frame.width * frame.height * 3,
{
}

/// An interface stays the kind of source that it was made as, and stays
/// well formed.
pub proof fn lemma_kind_is_fixed(interface: InterfaceView, event: EventView)
    requires
        interface.wf(),
    ensures
        interface.next(event).same_kind(interface),
        interface.next(event).wf(),
{
}

/// An interface on a camera never announces the end of its stream.
pub proof fn lemma_camera_interface_never_ends(interface: InterfaceView, event: EventView)
    requires
        interface is Camera,
    ensures
        !(interface.step(event) is EndOfStream),
        interface.next(event) == interface,
{
}

/// The source that an interface was made with.
#[derive(Debug)]
enum Source {
    Camera(Camera),
    Picture(Picture),
    Video(Video),
}

/// A frame source that is a camera, a picture or a video, fixed when it is
/// made.
#[derive(Debug)]
pub struct SimpleImageInterface {
    source: Source,
}

impl View for SimpleImageInterface {
    type V = InterfaceView;

    closed spec fn view(&self) -> InterfaceView {
        match self.source {
            Source::Camera(camera) => InterfaceView::Camera(camera@),
            Source::Picture(picture) => InterfaceView::Picture(picture@),
            Source::Video(video) => InterfaceView::Video(video@),
        }
    }
}

impl SimpleImageInterface {
    /// An interface on a camera: see [`Camera::new`].
    pub fn new_camera(device: &str, width: u32, height: u32, fps: u32) -> (interface:
        SimpleImageInterface)
        ensures
            interface@ == InterfaceView::Camera(
                CameraView {
                    device: device@,
                    width: width as nat,
                    height: height as nat,
                    fps: fps as nat,
                },
            ),
    {
        SimpleImageInterface { source: Source::Camera(Camera::new(device, width, height, fps)) }
    }

    /// An interface on a picture file: see [`Picture::new`].
    pub fn new_picture(path: &str, bytes: &[u8]) -> (interface: Result<
        SimpleImageInterface,
        SourceError,
    >)
        ensures
            match loaded(decoded_rgb8(path@, bytes@)) {
                Ok(view) => interface matches Ok(i) && i@ == InterfaceView::Picture(view),
                Err(error) => interface matches Err(e) && e == error,
            },
    {
        match Picture::new(path, bytes) {
            Ok(picture) => Ok(SimpleImageInterface { source: Source::Picture(picture) }),
            Err(error) => Err(error),
        }
    }

    /// An interface on a video: see [`Video::new`].
    pub fn new_video(kinds: &[MediaKind], width: u32, height: u32) -> (interface: Result<
        SimpleImageInterface,
        SourceError,
    >)
        ensures
            match opened(kinds@, width, height) {
                Ok(view) => interface matches Ok(i) && i@ == InterfaceView::Video(view),
                Err(error) => interface matches Err(e) && e == error,
            },
    {
        match Video::new(kinds, width, height) {
            Ok(video) => Ok(SimpleImageInterface { source: Source::Video(video) }),
            Err(error) => Err(error),
        }
    }

    /// The camera, where the interface is on one.
    pub fn camera(&self) -> (camera: Option<&Camera>)
        ensures
            match self@ {
                InterfaceView::Camera(view) => camera matches Some(c) && c@ == view,
                _ => camera is None,
            },
    {
        match &self.source {
            Source::Camera(camera) => Some(camera),
            _ => None,
        }
    }

    /// The picture, where the interface is on one.
    pub fn picture(&self) -> (picture: Option<&Picture>)
        ensures
            match self@ {
                InterfaceView::Picture(view) => picture matches Some(p) && p@ == view,
                _ => picture is None,
            },
    {
        match &self.source {
            Source::Picture(picture) => Some(picture),
            _ => None,
        }
    }

    /// The video, where the interface is on one.
    pub fn video(&self) -> (video: Option<&Video>)
        ensures
            match self@ {
                InterfaceView::Video(view) => video matches Some(v) && v@ == view,
                _ => video is None,
            },
    {
        match &self.source {
            Source::Video(video) => Some(video),
            _ => None,
        }
    }

    /// The outside work that the active source waits for.
    pub fn request(&self) -> (request: Request)
        ensures
            request == self@.request(),
    {
        match &self.source {
            Source::Camera(camera) => camera.request(),
            Source::Picture(picture) => picture.request(),
            Source::Video(video) => video.request(),
        }
    }

    /// Hands `event` to the active source and returns its answer as it is.
    pub fn get_frame(&mut self, event: Event) -> (step: Step)
        ensures
            final(self)@ == old(self)@.next(event@),
            step@ == old(self)@.step(event@),
            step matches Step::Frame(frame) ==> frame@.wf(),
    {
        match &mut self.source {
            Source::Camera(camera) => camera.get_frame(event),
            Source::Picture(picture) => picture.get_frame(event),
            Source::Video(video) => video.get_frame(event),
        }
    }
}

} // verus!
