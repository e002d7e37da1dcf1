//! A uniform frame source over a camera, a video file and a still picture.
//!
//! Every source hands out [`frame::Frame`]s through one operation,
//! `get_frame`, so that image-processing code need not know where its
//! frames come from. The sources themselves never touch a device or a file:
//! whenever outside work is due, a source names it as a
//! [`event::Request`], the caller performs it and reports the outcome as
//! an [`event::Event`], and the source answers with a [`event::Step`].

pub mod camera;
pub mod event;
pub mod frame;
pub mod picture;
pub mod playback;
pub mod simple_image_interface;
pub mod video;

pub use crate::camera::Camera;
pub use crate::event::{Event, Request, SourceError, Step};
pub use crate::frame::Frame;
pub use crate::picture::Picture;
pub use crate::simple_image_interface::SimpleImageInterface;
pub use crate::video::Video;
