use scap::capturer::{build_check, CaptureState, CapturerBuildError, CapturerError};
use scap::frame::{
    create_bgr_frame, create_bgra_frame, create_rgb_frame, create_yuv_frame, next_frame_step,
    packed_frame, pixel_format_for, process_sample_buffer, stream_settings, Frame, FrameEvent,
    FrameStatus, FrameStep, FrameType, FrameWaitError, ImageBuffer, ImageContents, OutputType,
    PixelFormat, PlaneInfo, Sample,
};
use scap::pixels::{convert_bgra_to_rgb, get_cropped_data, remove_alpha_channel};
use scap::pixel_buffer::{next_pixel_buffer_step, PixelBuffer, PollEvent, PollStep};
use scap::resolution::{output_frame_size, Resolution};
use scap::support::{is_supported, os_version_supported};
use scap::targets::{select_content, ContentFilter, Display, Target, TargetError, Window};

fn window(id: u32) -> Target {
    Target::Window(Window { id, title: format!("window {id}"), raw_handle: id })
}

fn display(id: u32) -> Target {
    Target::Display(Display { id, title: format!("display {id}"), raw_handle: id })
}

fn plane(width: usize, height: usize, bytes_per_row: usize, data: Option<Vec<u8>>) -> PlaneInfo {
    PlaneInfo { width, height, bytes_per_row, data }
}

fn sample(status: Option<FrameStatus>, image: Option<ImageBuffer>) -> Sample {
    Sample { display_time: 42, status, image }
}

fn yuv_image() -> ImageBuffer {
    ImageBuffer {
        width: 4,
        height: 2,
        bytes_per_row: 4,
        contents: Some(ImageContents {
            bytes: vec![1, 2, 3, 4, 5, 6, 7, 8, 9, 10, 11, 12],
            planes: vec![
                plane(4, 2, 4, Some(vec![1, 2, 3, 4, 5, 6, 7, 8])),
                plane(2, 1, 4, Some(vec![9, 10, 11, 12])),
            ],
        }),
    }
}

fn bgra_image() -> ImageBuffer {
    ImageBuffer {
        width: 2,
        height: 1,
        bytes_per_row: 12,
        contents: Some(ImageContents { bytes: (0u8..12).collect(), planes: vec![] }),
    }
}

#[test]
fn captured_resolution_has_no_explicit_size() {
    assert_eq!(Resolution::Captured.standard_width(), None);
}

#[test]
fn standard_widths_of_each_resolution() {
    assert_eq!(Resolution::_480p.standard_width(), Some(640));
    assert_eq!(Resolution::_720p.standard_width(), Some(1280));
    assert_eq!(Resolution::_1080p.standard_width(), Some(1920));
    assert_eq!(Resolution::_1440p.standard_width(), Some(2560));
    assert_eq!(Resolution::_2160p.standard_width(), Some(3840));
    assert_eq!(Resolution::_4320p.standard_width(), Some(7680));
    assert_eq!(Resolution::default(), Resolution::Captured);
}

#[test]
fn frame_size_is_scaled_and_even() {
    assert_eq!(output_frame_size(1201, 801, 1, None), [1200, 800]);
    assert_eq!(output_frame_size(600, 400, 2, None), [1200, 800]);
}

#[test]
fn frame_size_is_capped_by_the_resolution() {
    assert_eq!(output_frame_size(1200, 800, 2, Some([1280, 853])), [1280, 852]);
    assert_eq!(output_frame_size(600, 400, 1, Some([1280, 853])), [600, 400]);
    assert_eq!(output_frame_size(0, 0, 3, Some([1280, 720])), [0, 0]);
}

#[test]
fn frame_size_law_on_concrete_values() {
    let [w, h] = output_frame_size(999, 333, 3, Some([2999, 1001]));
    assert_eq!([w, h], [2996, 998]);
    assert!(w % 2 == 0 && h % 2 == 0 && w <= 2999 && h <= 999);
}

#[test]
fn os_versions_against_twelve_point_three() {
    assert!(os_version_supported(Some("14.2")));
    assert!(os_version_supported(Some("12.4")));
    assert!(os_version_supported(Some("12.3.1")));
    assert!(os_version_supported(Some("9.0")));
    assert!(!os_version_supported(Some("12.3")));
    assert!(!os_version_supported(Some("11.6")));
    assert!(!os_version_supported(Some("")));
    assert!(!os_version_supported(None));
}

#[test]
fn newer_versions_stay_supported() {
    assert!(os_version_supported(Some("13")));
    assert!(os_version_supported(Some("13.1")));
    assert!(os_version_supported(Some("2")));
}

#[test]
fn is_supported_runs() {
    let _ = is_supported();
}

#[test]
fn build_checks_support_before_permission() {
    assert!(matches!(build_check(false, false), Err(CapturerBuildError::NotSupported)));
    assert!(matches!(build_check(false, true), Err(CapturerBuildError::NotSupported)));
    assert!(matches!(build_check(true, false), Err(CapturerBuildError::PermissionNotGranted)));
    assert!(build_check(true, true).is_ok());
}

#[test]
fn build_error_messages() {
    assert_eq!(CapturerBuildError::NotSupported.message(), "Screen capturing is not supported");
    assert_eq!(
        CapturerBuildError::PermissionNotGranted.message(),
        "Permission to capture the screen is not granted"
    );
    assert_eq!(CapturerBuildError::Initialization("boom".to_string()).message(), "boom");
}

#[test]
fn error_texts_come_from_display() {
    assert_eq!(CapturerError::new("stream stopped").message(), "stream stopped");
    assert_eq!(CapturerError::new(17).message(), "17");
    assert_eq!(TargetError::new("no display").message(), "no display");
}

#[test]
fn start_reaches_the_engine_once() {
    let mut state = CaptureState::new();
    assert!(!state.is_started());
    assert!(state.start_needs_engine());
    assert!(state.record_start(Ok(())).is_ok());
    assert!(state.is_started());
    assert!(!state.start_needs_engine());
    assert!(state.stop_needs_engine());
}

#[test]
fn failed_start_leaves_the_capture_stopped() {
    let mut state = CaptureState::new();
    let r = state.record_start(Err(CapturerError::new("denied")));
    assert_eq!(r.unwrap_err().message(), "denied");
    assert!(!state.is_started());
    assert!(!state.stop_needs_engine());
}

#[test]
fn stop_after_start() {
    let mut state = CaptureState::new();
    let _ = state.record_start(Ok(()));
    assert!(state.record_stop(Err(CapturerError::new("busy"))).is_err());
    assert!(state.is_started());
    assert!(state.record_stop(Ok(())).is_ok());
    assert!(!state.is_started());
    assert!(!state.stop_needs_engine());
    assert!(state.start_needs_engine());
}

#[test]
fn window_is_found_by_first_matching_id() {
    let r = select_content(&window(7), &[5, 7, 7], &[1], None);
    assert_eq!(r, Ok(ContentFilter::Window(1)));
}

#[test]
fn missing_window_is_an_error() {
    let r = select_content(&window(1234), &[5, 7], &[1], None);
    assert_eq!(r, Err("Window 1234 is no longer available".to_string()));
    let r = select_content(&window(0), &[], &[], None);
    assert_eq!(r, Err("Window 0 is no longer available".to_string()));
}

#[test]
fn missing_display_is_an_error() {
    let r = select_content(&display(4294967295), &[5], &[1, 2], None);
    assert_eq!(r, Err("Display 4294967295 is no longer available".to_string()));
}

#[test]
fn display_excludes_named_windows() {
    let excluded = vec![window(7), display(1), window(9), window(100)];
    let r = select_content(&display(2), &[5, 7, 9, 7, 3], &[1, 2], Some(&excluded));
    assert_eq!(r, Ok(ContentFilter::Display { display: 1, excluded_windows: vec![1, 2, 3] }));
}

#[test]
fn display_without_exclusions() {
    let r = select_content(&display(1), &[5, 7], &[1, 1], None);
    assert_eq!(r, Ok(ContentFilter::Display { display: 0, excluded_windows: vec![] }));
    let only_displays = vec![display(5)];
    let r = select_content(&display(1), &[5, 7], &[1], Some(&only_displays));
    assert_eq!(r, Ok(ContentFilter::Display { display: 0, excluded_windows: vec![] }));
}

#[test]
fn pixel_formats() {
    assert_eq!(pixel_format_for(FrameType::YUVFrame), PixelFormat::YCbCr420v);
    assert_eq!(pixel_format_for(FrameType::BGRAFrame), PixelFormat::Bgra);
    assert_eq!(pixel_format_for(FrameType::RGB), PixelFormat::Bgra);
    assert_eq!(pixel_format_for(FrameType::BGR0), PixelFormat::Bgra);
}

#[test]
fn stream_settings_for_yuv() {
    let c = stream_settings(FrameType::YUVFrame, [1280, 720], true, 60);
    assert_eq!((c.width, c.height), (1280, 720));
    assert_eq!(c.pixel_format, PixelFormat::YCbCr420v);
    assert!(c.shows_cursor);
    assert_eq!((c.frame_interval_value, c.frame_interval_timescale), (1, 60));
}

#[test]
fn yuv_frame_from_two_planes() {
    let f = create_yuv_frame(&sample(Some(FrameStatus::Complete), Some(yuv_image()))).unwrap();
    assert_eq!((f.display_time, f.width, f.height), (42, 4, 2));
    assert_eq!(f.luminance_bytes, vec![1, 2, 3, 4, 5, 6, 7, 8]);
    assert_eq!(f.luminance_stride, 4);
    assert_eq!(f.chrominance_bytes, vec![9, 10, 11, 12]);
    assert_eq!(f.chrominance_stride, 4);
}

#[test]
fn yuv_frame_needs_two_planes_with_bytes() {
    let mut image = yuv_image();
    image.contents.as_mut().unwrap().planes.pop();
    assert!(create_yuv_frame(&sample(None, Some(image))).is_none());
    let mut image = yuv_image();
    image.contents.as_mut().unwrap().planes[1].data = None;
    assert!(create_yuv_frame(&sample(None, Some(image))).is_none());
    let mut image = yuv_image();
    image.width = 0;
    assert!(create_yuv_frame(&sample(None, Some(image))).is_none());
    let mut image = yuv_image();
    image.contents = None;
    assert!(create_yuv_frame(&sample(None, Some(image))).is_none());
    assert!(create_yuv_frame(&sample(None, None)).is_none());
}

#[test]
fn packed_frame_crops_rows_to_the_width() {
    // two pixels wide, rows padded to three pixels
    let p = packed_frame(&sample(None, Some(bgra_image()))).unwrap();
    assert_eq!((p.display_time, p.width, p.height), (42, 2, 1));
    assert_eq!(p.data, (0u8..8).collect::<Vec<u8>>());
    let mut image = bgra_image();
    image.height = 0;
    assert!(packed_frame(&sample(None, Some(image))).is_none());
}

#[test]
fn cropping_keeps_the_first_pixels_of_each_row() {
    let data: Vec<u8> = (0u8..24).collect();
    assert_eq!(
        get_cropped_data(data.clone(), 3, 2, 2),
        vec![0, 1, 2, 3, 4, 5, 6, 7, 12, 13, 14, 15, 16, 17, 18, 19]
    );
    assert_eq!(get_cropped_data(data.clone(), 3, 2, 3), data);
    assert_eq!(get_cropped_data(data.clone(), 3, 2, 0), Vec::<u8>::new());
}

#[test]
fn cropping_leaves_other_shapes_alone() {
    let data: Vec<u8> = (0u8..24).collect();
    assert_eq!(get_cropped_data(data.clone(), 4, 2, 2), data);
    assert_eq!(get_cropped_data(data.clone(), 3, 2, 4), data);
    assert_eq!(get_cropped_data(data.clone(), -3, -2, 2), data);
    assert_eq!(get_cropped_data(vec![], 5, 0, 1), Vec::<u8>::new());
}

#[test]
fn alpha_is_removed_and_rgb_reordered() {
    let bgra = vec![1, 2, 3, 255, 4, 5, 6, 255, 9];
    assert_eq!(remove_alpha_channel(bgra.clone()), vec![1, 2, 3, 4, 5, 6]);
    assert_eq!(convert_bgra_to_rgb(bgra), vec![3, 2, 1, 6, 5, 4]);
    assert_eq!(remove_alpha_channel(vec![7, 8]), Vec::<u8>::new());
}

#[test]
fn packed_frames_of_each_kind() {
    let s = sample(Some(FrameStatus::Complete), Some(bgra_image()));
    let f = create_bgra_frame(&s).unwrap();
    assert_eq!((f.display_time, f.width, f.height), (42, 2, 1));
    assert_eq!(f.data, vec![0, 1, 2, 3, 4, 5, 6, 7]);
    let f = create_bgr_frame(&s).unwrap();
    assert_eq!((f.width, f.height), (2, 1));
    assert_eq!(f.data, vec![0, 1, 2, 4, 5, 6]);
    let f = create_rgb_frame(&s).unwrap();
    assert_eq!(f.data, vec![2, 1, 0, 6, 5, 4]);
    assert!(create_rgb_frame(&sample(None, None)).is_none());
}

#[test]
fn only_screen_samples_with_content_give_frames() {
    let s = sample(Some(FrameStatus::Complete), Some(bgra_image()));
    assert!(process_sample_buffer(OutputType::Audio, FrameType::BGRAFrame, &s).is_none());
    match process_sample_buffer(OutputType::Screen, FrameType::RGB, &s) {
        Some(Frame::RGB(f)) => assert_eq!(f.data, vec![2, 1, 0, 6, 5, 4]),
        other => panic!("unexpected {other:?}"),
    }
    match process_sample_buffer(OutputType::Screen, FrameType::BGR0, &s) {
        Some(Frame::BGR0(f)) => assert_eq!(f.data, vec![0, 1, 2, 4, 5, 6]),
        other => panic!("unexpected {other:?}"),
    }
    match process_sample_buffer(OutputType::Screen, FrameType::BGRAFrame, &s) {
        Some(Frame::BGRA(f)) => assert_eq!(f.data, vec![0, 1, 2, 3, 4, 5, 6, 7]),
        other => panic!("unexpected {other:?}"),
    }
    let s = sample(Some(FrameStatus::Started), Some(yuv_image()));
    assert!(matches!(
        process_sample_buffer(OutputType::Screen, FrameType::YUVFrame, &s),
        Some(Frame::YUVFrame(_))
    ));
    let s = sample(Some(FrameStatus::Blank), Some(bgra_image()));
    assert!(process_sample_buffer(OutputType::Screen, FrameType::BGRAFrame, &s).is_none());
    let s = sample(None, Some(bgra_image()));
    assert!(process_sample_buffer(OutputType::Screen, FrameType::BGRAFrame, &s).is_none());
}

#[test]
fn idle_screen_gives_empty_bgra_frame() {
    let s = sample(Some(FrameStatus::Idle), Some(bgra_image()));
    match process_sample_buffer(OutputType::Screen, FrameType::BGRAFrame, &s) {
        Some(Frame::BGRA(f)) => {
            assert_eq!((f.display_time, f.width, f.height), (42, 0, 0));
            assert!(f.data.is_empty());
        }
        other => panic!("unexpected {other:?}"),
    }
    assert!(process_sample_buffer(OutputType::Screen, FrameType::BGR0, &s).is_none());
}

#[test]
fn frame_steps() {
    assert!(matches!(
        next_frame_step(FrameType::BGRAFrame, FrameEvent::Disconnected),
        FrameStep::Fail(FrameWaitError::Disconnected)
    ));
    assert!(matches!(next_frame_step(FrameType::BGRAFrame, FrameEvent::TimedOut), FrameStep::Wait));
    match next_frame_step(FrameType::YUVFrame, FrameEvent::StreamFailed("stream stopped".to_string())) {
        FrameStep::Fail(FrameWaitError::StreamFailed(text)) => assert_eq!(text, "stream stopped"),
        _ => panic!("expected the stream failure"),
    }
    let s = sample(Some(FrameStatus::Stopped), Some(bgra_image()));
    assert!(matches!(
        next_frame_step(FrameType::BGRAFrame, FrameEvent::Received(OutputType::Screen, s)),
        FrameStep::Wait
    ));
    let s = sample(Some(FrameStatus::Complete), Some(bgra_image()));
    assert!(matches!(
        next_frame_step(FrameType::BGRAFrame, FrameEvent::Received(OutputType::Screen, s)),
        FrameStep::Deliver(Frame::BGRA(_))
    ));
}

#[test]
fn frames_are_yuv_by_default() {
    assert_eq!(FrameType::default(), FrameType::YUVFrame);
}

#[test]
fn pixel_buffer_from_accepted_statuses() {
    for status in [FrameStatus::Complete, FrameStatus::Started, FrameStatus::Idle] {
        let p = PixelBuffer::new(sample(Some(status), Some(yuv_image()))).unwrap();
        assert_eq!((p.display_time(), p.width(), p.height(), p.bytes_per_row()), (42, 4, 2, 4));
    }
    for status in [FrameStatus::Blank, FrameStatus::Suspended, FrameStatus::Stopped, FrameStatus::Unknown(9)] {
        assert!(PixelBuffer::new(sample(Some(status), Some(yuv_image()))).is_none());
    }
    assert!(PixelBuffer::new(sample(None, Some(yuv_image()))).is_none());
    assert!(PixelBuffer::new(sample(Some(FrameStatus::Complete), None)).is_none());
}

#[test]
fn pixel_buffer_data_and_planes() {
    let mut image = yuv_image();
    image.contents.as_mut().unwrap().planes.insert(1, plane(1, 1, 1, None));
    let p = PixelBuffer::new(sample(Some(FrameStatus::Complete), Some(image))).unwrap();
    assert_eq!(&*p.data(), &[1, 2, 3, 4, 5, 6, 7, 8, 9, 10, 11, 12]);
    let planes = p.planes();
    assert_eq!(planes.len(), 2);
    assert_eq!((planes[0].width(), planes[0].height(), planes[0].bytes_per_row()), (4, 2, 4));
    assert_eq!(planes[0].data().as_slice(), &[1, 2, 3, 4, 5, 6, 7, 8]);
    assert_eq!((planes[1].width(), planes[1].height(), planes[1].bytes_per_row()), (2, 1, 4));
    assert_eq!(&*planes[1].data(), &[9, 10, 11, 12]);
}

#[test]
fn unlocked_pixel_buffer_has_no_data() {
    let mut image = yuv_image();
    image.contents = None;
    let p = PixelBuffer::new(sample(Some(FrameStatus::Idle), Some(image))).unwrap();
    assert!(p.data().is_empty());
    assert!(p.planes().is_empty());
}

#[test]
fn poll_steps() {
    assert!(matches!(next_pixel_buffer_step(PollEvent::StreamFailed), PollStep::Fail));
    assert!(matches!(next_pixel_buffer_step(PollEvent::Disconnected), PollStep::Fail));
    assert!(matches!(next_pixel_buffer_step(PollEvent::TimedOut), PollStep::Wait));
    let s = sample(Some(FrameStatus::Suspended), Some(yuv_image()));
    assert!(matches!(next_pixel_buffer_step(PollEvent::Received(s)), PollStep::Wait));
    let s = sample(Some(FrameStatus::Started), Some(yuv_image()));
    match next_pixel_buffer_step(PollEvent::Received(s)) {
        PollStep::Deliver(p) => assert_eq!(p.width(), 4),
        _ => panic!("expected a pixel buffer"),
    }
}

#[test]
fn requested_target_wins_over_the_main_display() {
    let r = scap::targets::resolve_target(Some(window(3)), || -> Result<Display, TargetError> {
        panic!("the main display is not asked for")
    });
    assert!(matches!(r, Ok(Target::Window(w)) if w.id == 3));
}

#[test]
fn main_display_is_the_default_target() {
    let r = scap::targets::resolve_target(None, || {
        Ok(Display { id: 1, title: "main".to_string(), raw_handle: 1 })
    });
    assert!(matches!(r, Ok(Target::Display(d)) if d.id == 1));
    let r = scap::targets::resolve_target(None, || Err(TargetError::new("no display")));
    assert_eq!(r.unwrap_err().message(), "no display");
}
