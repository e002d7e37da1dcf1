use simple_image_interface::camera::RGB3;
use simple_image_interface::picture::Delivery;
use simple_image_interface::video::{select_video_stream, MediaKind, Phase, PixelLayout, Scaling};
use simple_image_interface::{
    Camera, Event, Frame, Picture, Request, SimpleImageInterface, SourceError, Step, Video,
};
use std::io::Cursor;

fn encode(width: u32, height: u32, data: Vec<u8>, format: image::ImageFormat) -> Vec<u8> {
    let picture = image::RgbImage::from_raw(width, height, data).unwrap();
    let mut bytes = Vec::new();
    image::DynamicImage::ImageRgb8(picture)
        .write_to(&mut Cursor::new(&mut bytes), format)
        .unwrap();
    bytes
}

fn frame_of(step: Step) -> Frame {
    match step {
        Step::Frame(frame) => frame,
        other => panic!("no frame: {:?}", other),
    }
}

fn failure_of(step: Step) -> SourceError {
    match step {
        Step::Failed(error) => error,
        other => panic!("no failure: {:?}", other),
    }
}

fn two_by_two() -> Video {
    Video::new(&[MediaKind::Audio, MediaKind::Video], 2, 2).unwrap()
}

// Frame

#[test]
fn frame_wants_three_bytes_per_pixel() {
    assert!(Frame::from_vec(2, 1, vec![0; 6]).is_some());
    assert!(Frame::from_vec(2, 1, vec![0; 5]).is_none());
    assert!(Frame::from_vec(2, 1, vec![0; 7]).is_none());
    assert!(Frame::from_vec(640, 360, vec![0; 691200]).is_some());
}

#[test]
fn frame_wants_positive_dimensions() {
    assert!(Frame::from_vec(0, 0, vec![]).is_none());
    assert!(Frame::from_vec(0, 3, vec![]).is_none());
    assert!(Frame::from_vec(3, 0, vec![]).is_none());
    assert!(Frame::from_vec(1, 1, vec![1, 2, 3]).is_some());
}

#[test]
fn frame_refuses_dimensions_beyond_any_buffer() {
    assert!(Frame::from_vec(u32::MAX, u32::MAX, vec![0; 9]).is_none());
    assert!(Frame::from_vec(u32::MAX, u32::MAX, vec![]).is_none());
}

#[test]
fn frame_keeps_what_it_was_given() {
    let data: Vec<u8> = (0..18).collect();
    let frame = Frame::from_vec(3, 2, data.clone()).unwrap();
    assert_eq!(frame.width(), 3);
    assert_eq!(frame.height(), 2);
    assert_eq!(frame.as_raw(), &data);
    assert_eq!(frame.as_raw().len(), 3 * 2 * 3);
    assert_eq!(frame.into_raw(), data);
}

#[test]
fn frame_pixels_lie_row_after_row() {
    let data: Vec<u8> = (0..18).collect();
    let frame = Frame::from_vec(3, 2, data).unwrap();
    assert_eq!(frame.get_pixel(0, 0), Some((0, 1, 2)));
    assert_eq!(frame.get_pixel(1, 0), Some((3, 4, 5)));
    assert_eq!(frame.get_pixel(2, 0), Some((6, 7, 8)));
    assert_eq!(frame.get_pixel(0, 1), Some((9, 10, 11)));
    assert_eq!(frame.get_pixel(2, 1), Some((15, 16, 17)));
    assert_eq!(frame.get_pixel(3, 0), None);
    assert_eq!(frame.get_pixel(0, 2), None);
    assert_eq!(frame.get_pixel(u32::MAX, u32::MAX), None);
}

#[test]
fn frame_clone_is_a_copy_of_its_own() {
    let frame = Frame::from_vec(1, 2, vec![9, 8, 7, 6, 5, 4]).unwrap();
    let copy = frame.clone();
    assert_eq!(copy.width(), 1);
    assert_eq!(copy.height(), 2);
    assert_eq!(copy.as_raw(), frame.as_raw());
    assert_ne!(copy.as_raw().as_ptr(), frame.as_raw().as_ptr());
}

// Events

#[test]
fn events_answer_the_request_that_they_come_from() {
    let requests = [
        Request::Nothing,
        Request::Capture,
        Request::Packet,
        Request::Decode,
        Request::Picture,
        Request::Convert,
    ];
    let events = || {
        vec![
            (Event::Nothing, Request::Nothing),
            (Event::Captured(vec![]), Request::Capture),
            (Event::CaptureFailed, Request::Capture),
            (Event::Packet(0), Request::Packet),
            (Event::Exhausted, Request::Packet),
            (Event::Accepted, Request::Decode),
            (Event::Rejected, Request::Decode),
            (Event::Picture, Request::Picture),
            (Event::NotReady, Request::Picture),
            (Event::Converted(vec![]), Request::Convert),
            (Event::ConversionFailed, Request::Convert),
        ]
    };
    for request in requests {
        for (event, origin) in events() {
            assert_eq!(event.answers(request), request == origin);
        }
    }
}

// Camera

#[test]
fn camera_keeps_what_it_was_made_with() {
    let camera = Camera::new("/dev/video0", 640, 360, 330);
    assert_eq!(camera.device(), "/dev/video0");
    assert_eq!(camera.width(), 640);
    assert_eq!(camera.height(), 360);
    assert_eq!(camera.fps(), 330);
}

#[test]
fn camera_is_configured_for_raw_rgb() {
    let config = Camera::new("/dev/video0", 640, 360, 330).config();
    assert_eq!(config.interval, (1, 330));
    assert_eq!(config.resolution, (640, 360));
    assert_eq!(&config.format, b"RGB3");
    assert_eq!(&RGB3, b"RGB3");
}

#[test]
fn camera_frames_hold_the_captured_bytes() {
    let camera = Camera::new("/dev/video0", 2, 3, 30);
    assert_eq!(camera.request(), Request::Capture);
    let data: Vec<u8> = (100..118).collect();
    let frame = frame_of(camera.get_frame(Event::Captured(data.clone())));
    assert_eq!((frame.width(), frame.height()), (2, 3));
    assert_eq!(frame.as_raw(), &data);
    assert_eq!(frame.as_raw().len(), 2 * 3 * 3);
}

#[test]
fn camera_never_reaches_the_end() {
    let mut interface = SimpleImageInterface::new_camera("/dev/video0", 2, 2, 30);
    for round in 0..50u8 {
        assert_eq!(interface.request(), Request::Capture);
        let frame = frame_of(interface.get_frame(Event::Captured(vec![round; 12])));
        assert_eq!(frame.as_raw(), &vec![round; 12]);
    }
}

#[test]
fn camera_fails_on_a_buffer_of_another_size() {
    let camera = Camera::new("/dev/video0", 2, 2, 30);
    assert_eq!(
        failure_of(camera.get_frame(Event::Captured(vec![0; 11]))),
        SourceError::MalformedFrame
    );
    assert_eq!(
        failure_of(camera.get_frame(Event::Captured(vec![0; 13]))),
        SourceError::MalformedFrame
    );
    assert!(matches!(camera.get_frame(Event::Captured(vec![0; 12])), Step::Frame(_)));
}

#[test]
fn camera_fails_when_the_device_fails() {
    let camera = Camera::new("/dev/video0", 2, 2, 30);
    assert_eq!(failure_of(camera.get_frame(Event::CaptureFailed)), SourceError::CaptureFailed);
}

#[test]
fn camera_refuses_what_is_no_capture() {
    let camera = Camera::new("/dev/video0", 2, 2, 30);
    assert_eq!(failure_of(camera.get_frame(Event::Nothing)), SourceError::UnexpectedEvent);
    assert_eq!(failure_of(camera.get_frame(Event::Exhausted)), SourceError::UnexpectedEvent);
    assert_eq!(
        failure_of(camera.get_frame(Event::Converted(vec![0; 12]))),
        SourceError::UnexpectedEvent
    );
}

// Picture

#[test]
fn picture_gives_one_frame_and_then_the_end_for_good() {
    let mut picture = Picture::from_decoded(Some((1, 1, vec![1, 2, 3]))).unwrap();
    assert_eq!(picture.delivery(), Delivery::Pending);
    assert_eq!(picture.request(), Request::Nothing);
    let frame = frame_of(picture.get_frame(Event::Nothing));
    assert_eq!(frame.into_raw(), vec![1, 2, 3]);
    for _ in 0..100 {
        assert_eq!(picture.delivery(), Delivery::Delivered);
        assert_eq!(picture.request(), Request::Nothing);
        assert!(matches!(picture.get_frame(Event::Nothing), Step::EndOfStream));
    }
}

#[test]
fn picture_is_untouched_by_an_event_out_of_turn() {
    let mut picture = Picture::from_decoded(Some((1, 1, vec![1, 2, 3]))).unwrap();
    assert_eq!(
        failure_of(picture.get_frame(Event::Captured(vec![4, 5, 6]))),
        SourceError::UnexpectedEvent
    );
    assert_eq!(picture.delivery(), Delivery::Pending);
    let frame = frame_of(picture.get_frame(Event::Nothing));
    assert_eq!(frame.into_raw(), vec![1, 2, 3]);
    assert_eq!(failure_of(picture.get_frame(Event::Exhausted)), SourceError::UnexpectedEvent);
    assert!(matches!(picture.get_frame(Event::Nothing), Step::EndOfStream));
}

#[test]
fn picture_decodes_png() {
    let data: Vec<u8> = vec![255, 0, 0, 0, 255, 0, 0, 0, 255, 10, 20, 30, 40, 50, 60, 70, 80, 90];
    let bytes = encode(3, 2, data.clone(), image::ImageFormat::Png);
    assert_ne!(bytes, data);
    let mut picture = Picture::new("shapes.png", &bytes).unwrap();
    assert_eq!((picture.width(), picture.height()), (3, 2));
    let frame = frame_of(picture.get_frame(Event::Nothing));
    assert_eq!((frame.width(), frame.height()), (3, 2));
    assert_eq!(frame.get_pixel(0, 0), Some((255, 0, 0)));
    assert_eq!(frame.get_pixel(0, 1), Some((10, 20, 30)));
    assert_eq!(frame.into_raw(), data);
}

#[test]
fn picture_round_trip_png_and_jpeg() {
    let data: Vec<u8> = (0..16 * 8 * 3).map(|i| (i % 200) as u8).collect();
    for (path, format) in [
        ("./data/picture.png", image::ImageFormat::Png),
        ("./data/picture.jpg", image::ImageFormat::Jpeg),
        ("./data/PICTURE.JPEG", image::ImageFormat::Jpeg),
    ] {
        let bytes = encode(16, 8, data.clone(), format);
        let direct = image::load_from_memory_with_format(&bytes, format).unwrap().to_rgb8();
        let mut interface = SimpleImageInterface::new_picture(path, &bytes).unwrap();
        let frame = frame_of(interface.get_frame(Event::Nothing));
        assert_eq!((frame.width(), frame.height()), direct.dimensions());
        assert_eq!(frame.as_raw(), direct.as_raw());
        assert_eq!(frame.as_raw().len(), 16 * 8 * 3);
        assert!(matches!(interface.get_frame(Event::Nothing), Step::EndOfStream));
    }
}

#[test]
fn picture_with_transparency_comes_out_as_rgb() {
    let rgba = image::RgbaImage::from_raw(2, 1, vec![1, 2, 3, 255, 4, 5, 6, 128]).unwrap();
    let mut bytes = Vec::new();
    image::DynamicImage::ImageRgba8(rgba)
        .write_to(&mut Cursor::new(&mut bytes), image::ImageFormat::Png)
        .unwrap();
    let mut picture = Picture::new("a.png", &bytes).unwrap();
    let frame = frame_of(picture.get_frame(Event::Nothing));
    assert_eq!(frame.into_raw(), vec![1, 2, 3, 4, 5, 6]);
}

#[test]
fn picture_that_cannot_be_decoded_is_refused() {
    let bytes = encode(2, 2, vec![0; 12], image::ImageFormat::Png);
    assert_eq!(Picture::new("a.png", b"no picture").unwrap_err(), SourceError::Undecodable);
    assert_eq!(Picture::new("a.png", &[]).unwrap_err(), SourceError::Undecodable);
    assert_eq!(Picture::new("a.png", &bytes[..bytes.len() / 2]).unwrap_err(), SourceError::Undecodable);
    assert_eq!(Picture::new("a.jpg", &bytes).unwrap_err(), SourceError::Undecodable);
    assert_eq!(Picture::new("a.unknown", &bytes).unwrap_err(), SourceError::Undecodable);
    assert_eq!(Picture::new("a", &bytes).unwrap_err(), SourceError::Undecodable);
    assert_eq!(
        SimpleImageInterface::new_picture("a", &bytes).unwrap_err(),
        SourceError::Undecodable
    );
    assert!(Picture::new("a.png", &bytes).is_ok());
}

#[test]
fn picture_from_what_a_decoder_made() {
    assert_eq!(Picture::from_decoded(None).unwrap_err(), SourceError::Undecodable);
    assert_eq!(
        Picture::from_decoded(Some((2, 2, vec![0; 11]))).unwrap_err(),
        SourceError::MalformedFrame
    );
    assert_eq!(
        Picture::from_decoded(Some((0, 0, vec![]))).unwrap_err(),
        SourceError::MalformedFrame
    );
    let mut picture = Picture::from_decoded(Some((2, 1, vec![1, 2, 3, 4, 5, 6]))).unwrap();
    assert_eq!(picture.delivery(), Delivery::Pending);
    assert_eq!((picture.width(), picture.height()), (2, 1));
    assert_eq!(frame_of(picture.get_frame(Event::Nothing)).into_raw(), vec![1, 2, 3, 4, 5, 6]);
}

// Video

#[test]
fn the_first_video_stream_is_selected() {
    let (audio, film) = (MediaKind::Audio, MediaKind::Video);
    assert_eq!(select_video_stream(&[]), None);
    assert_eq!(
        select_video_stream(&[
            audio,
            MediaKind::Subtitle,
            MediaKind::Data,
            MediaKind::Attachment,
            MediaKind::Unknown
        ]),
        None
    );
    assert_eq!(select_video_stream(&[film]), Some(0));
    assert_eq!(select_video_stream(&[audio, film]), Some(1));
    assert_eq!(select_video_stream(&[audio, film, film]), Some(1));
    assert_eq!(
        select_video_stream(&[MediaKind::Unknown, MediaKind::Data, audio, film, audio, film]),
        Some(3)
    );
}

#[test]
fn video_without_a_video_stream_is_refused() {
    assert_eq!(Video::new(&[], 2, 2).unwrap_err(), SourceError::NoVideoStream);
    assert_eq!(
        Video::new(&[MediaKind::Audio, MediaKind::Subtitle], 2, 2).unwrap_err(),
        SourceError::NoVideoStream
    );
    assert_eq!(
        SimpleImageInterface::new_video(&[MediaKind::Audio], 2, 2).unwrap_err(),
        SourceError::NoVideoStream
    );
}

#[test]
fn video_starts_by_awaiting_a_packet() {
    let video = Video::new(&[MediaKind::Data, MediaKind::Audio, MediaKind::Video], 640, 360).unwrap();
    assert_eq!(video.video_stream_index(), 2);
    assert_eq!((video.width(), video.height()), (640, 360));
    assert_eq!(video.phase(), Phase::Demux);
    assert_eq!(video.request(), Request::Packet);
}

#[test]
fn video_converts_to_rgb_at_its_own_size() {
    let conversion = Video::new(&[MediaKind::Video], 640, 360).unwrap().conversion();
    assert_eq!((conversion.source_width, conversion.source_height), (640, 360));
    assert_eq!((conversion.target_width, conversion.target_height), (640, 360));
    assert_eq!(conversion.target, PixelLayout::Rgb24);
    assert_eq!(conversion.scaling, Scaling::Bilinear);
}

#[test]
fn video_walks_from_packet_to_frame() {
    let mut video = two_by_two();
    assert!(matches!(video.get_frame(Event::Packet(1)), Step::Continue));
    assert_eq!((video.phase(), video.request()), (Phase::Feed, Request::Decode));
    assert!(matches!(video.get_frame(Event::Accepted), Step::Continue));
    assert_eq!((video.phase(), video.request()), (Phase::Drain, Request::Picture));
    assert!(matches!(video.get_frame(Event::Picture), Step::Continue));
    assert_eq!((video.phase(), video.request()), (Phase::Convert, Request::Convert));
    let data: Vec<u8> = (0..12).collect();
    let frame = frame_of(video.get_frame(Event::Converted(data.clone())));
    assert_eq!((frame.width(), frame.height()), (2, 2));
    assert_eq!(frame.into_raw(), data);
    assert_eq!((video.phase(), video.request()), (Phase::Demux, Request::Packet));
}

#[test]
fn video_skips_packets_of_other_streams() {
    let mut video = two_by_two();
    for stream in [0, 2, 0, 7, usize::MAX] {
        assert!(matches!(video.get_frame(Event::Packet(stream)), Step::Continue));
        assert_eq!((video.phase(), video.request()), (Phase::Demux, Request::Packet));
    }
    assert!(matches!(video.get_frame(Event::Packet(1)), Step::Continue));
    assert_eq!(video.phase(), Phase::Feed);
}

#[test]
fn video_goes_back_for_a_packet_when_no_picture_is_ready() {
    let mut video = two_by_two();
    assert!(matches!(video.get_frame(Event::Packet(1)), Step::Continue));
    assert!(matches!(video.get_frame(Event::Accepted), Step::Continue));
    assert!(matches!(video.get_frame(Event::NotReady), Step::Continue));
    assert_eq!((video.phase(), video.request()), (Phase::Demux, Request::Packet));
}

#[test]
fn video_ends_when_the_container_is_exhausted_and_stays_ended() {
    let mut video = two_by_two();
    assert!(matches!(video.get_frame(Event::Packet(0)), Step::Continue));
    assert!(matches!(video.get_frame(Event::Exhausted), Step::EndOfStream));
    for _ in 0..10 {
        assert_eq!((video.phase(), video.request()), (Phase::Ended, Request::Nothing));
        assert!(matches!(video.get_frame(Event::Nothing), Step::EndOfStream));
    }
    assert_eq!(failure_of(video.get_frame(Event::Packet(1))), SourceError::UnexpectedEvent);
    assert_eq!(video.phase(), Phase::Ended);
}

#[test]
fn video_fails_for_good_when_the_decoder_refuses_a_packet() {
    let mut video = two_by_two();
    assert!(matches!(video.get_frame(Event::Packet(1)), Step::Continue));
    assert_eq!(failure_of(video.get_frame(Event::Rejected)), SourceError::PacketRejected);
    for _ in 0..3 {
        assert_eq!(video.phase(), Phase::Failed(SourceError::PacketRejected));
        assert_eq!(video.request(), Request::Nothing);
        assert_eq!(failure_of(video.get_frame(Event::Nothing)), SourceError::PacketRejected);
    }
}

#[test]
fn video_fails_for_good_when_the_conversion_fails() {
    let mut video = two_by_two();
    assert!(matches!(video.get_frame(Event::Packet(1)), Step::Continue));
    assert!(matches!(video.get_frame(Event::Accepted), Step::Continue));
    assert!(matches!(video.get_frame(Event::Picture), Step::Continue));
    assert_eq!(failure_of(video.get_frame(Event::ConversionFailed)), SourceError::ConversionFailed);
    assert_eq!(video.phase(), Phase::Failed(SourceError::ConversionFailed));
    assert_eq!(failure_of(video.get_frame(Event::Nothing)), SourceError::ConversionFailed);
}

#[test]
fn video_fails_for_good_on_a_buffer_of_another_size() {
    for len in [0, 11, 13, 16] {
        let mut video = two_by_two();
        assert!(matches!(video.get_frame(Event::Packet(1)), Step::Continue));
        assert!(matches!(video.get_frame(Event::Accepted), Step::Continue));
        assert!(matches!(video.get_frame(Event::Picture), Step::Continue));
        assert_eq!(
            failure_of(video.get_frame(Event::Converted(vec![0; len]))),
            SourceError::MalformedFrame
        );
        assert_eq!(video.phase(), Phase::Failed(SourceError::MalformedFrame));
        assert_eq!(failure_of(video.get_frame(Event::Nothing)), SourceError::MalformedFrame);
    }
}

#[test]
fn video_is_untouched_by_an_event_out_of_turn() {
    let mut video = two_by_two();
    assert_eq!(failure_of(video.get_frame(Event::Accepted)), SourceError::UnexpectedEvent);
    assert_eq!(failure_of(video.get_frame(Event::Nothing)), SourceError::UnexpectedEvent);
    assert_eq!(
        failure_of(video.get_frame(Event::Converted(vec![0; 12]))),
        SourceError::UnexpectedEvent
    );
    assert_eq!(video.phase(), Phase::Demux);
    assert!(matches!(video.get_frame(Event::Packet(1)), Step::Continue));
    assert_eq!(failure_of(video.get_frame(Event::Packet(1))), SourceError::UnexpectedEvent);
    assert_eq!(failure_of(video.get_frame(Event::Exhausted)), SourceError::UnexpectedEvent);
    assert_eq!(video.phase(), Phase::Feed);
}

#[test]
fn video_frames_are_as_many_as_pictures_even_when_the_decoder_lags() {
    let mut video = two_by_two();
    let mut pictures = 0;
    let mut frames = Vec::new();
    for packet in 0..40usize {
        assert!(matches!(video.get_frame(Event::Packet(packet % 2)), Step::Continue));
        if packet % 2 == 0 {
            continue;
        }
        assert!(matches!(video.get_frame(Event::Accepted), Step::Continue));
        if packet < 7 {
            assert!(matches!(video.get_frame(Event::NotReady), Step::Continue));
            continue;
        }
        assert!(matches!(video.get_frame(Event::Picture), Step::Continue));
        pictures += 1;
        frames.push(frame_of(video.get_frame(Event::Converted(vec![packet as u8; 12]))));
    }
    assert!(matches!(video.get_frame(Event::Exhausted), Step::EndOfStream));
    assert_eq!(pictures, 17);
    assert_eq!(frames.len(), pictures);
    for (i, frame) in frames.iter().enumerate() {
        assert_eq!(frame.as_raw(), &vec![(7 + 2 * i) as u8; 12]);
        assert_eq!(frame.as_raw().len() as u32, frame.width() * frame.height() * 3);
    }
}

// Interface

#[test]
fn interface_stays_the_source_that_it_was_made_as() {
    let mut camera = SimpleImageInterface::new_camera("/dev/video0", 1, 1, 30);
    let _ = camera.get_frame(Event::Captured(vec![0; 3]));
    let _ = camera.get_frame(Event::Exhausted);
    assert!(camera.camera().is_some() && camera.picture().is_none() && camera.video().is_none());

    let bytes = encode(1, 1, vec![1, 2, 3], image::ImageFormat::Png);
    let mut picture = SimpleImageInterface::new_picture("dot.png", &bytes).unwrap();
    let _ = picture.get_frame(Event::Nothing);
    let _ = picture.get_frame(Event::Captured(vec![0; 3]));
    assert!(picture.camera().is_none() && picture.picture().is_some() && picture.video().is_none());

    let mut video = SimpleImageInterface::new_video(&[MediaKind::Video], 1, 1).unwrap();
    let _ = video.get_frame(Event::Packet(0));
    let _ = video.get_frame(Event::Rejected);
    assert!(video.camera().is_none() && video.picture().is_none() && video.video().is_some());
}

#[test]
fn interface_answers_as_its_source_does() {
    let mut interface = SimpleImageInterface::new_video(&[MediaKind::Video], 1, 1).unwrap();
    let mut video = Video::new(&[MediaKind::Video], 1, 1).unwrap();
    let events = || {
        vec![
            Event::Packet(3),
            Event::Nothing,
            Event::Packet(0),
            Event::Accepted,
            Event::Picture,
            Event::Converted(vec![5, 6, 7]),
            Event::Captured(vec![1, 2, 3]),
            Event::Exhausted,
            Event::Nothing,
        ]
    };
    for (one, other) in events().into_iter().zip(events()) {
        assert_eq!(interface.request(), video.request());
        let left = format!("{:?}", interface.get_frame(one));
        let right = format!("{:?}", video.get_frame(other));
        assert_eq!(left, right);
        assert_eq!(interface.video().unwrap().phase(), video.phase());
    }
    assert_eq!(video.phase(), Phase::Ended);
}
