use uvcview::{
    BufferSetup, CropRect, DeviceError, FileKind, FrameOutcome, MappedBuffer, Ownership,
    PixFormat, Stage, UvcView, EAGAIN, EINVAL, V4L2_CAP_STREAMING, V4L2_CAP_VIDEO_CAPTURE,
    V4L2_FIELD_INTERLACED, V4L2_PIX_FMT_YUYV,
};

const CAPS: u32 = V4L2_CAP_VIDEO_CAPTURE | V4L2_CAP_STREAMING;

fn reply(width: u32, height: u32, bytes_per_line: u32, size_image: u32) -> PixFormat {
    PixFormat {
        width,
        height,
        pixel_format: V4L2_PIX_FMT_YUYV,
        field: V4L2_FIELD_INTERLACED,
        bytes_per_line,
        size_image,
    }
}

fn buffer(i: u32) -> MappedBuffer {
    MappedBuffer { offset: i * 4096, length: 4096 }
}

fn opened() -> UvcView {
    let mut d = UvcView::new(String::from("/dev/video1"), 4, 2);
    assert_eq!(d.open(Ok(3)), Ok(()));
    d
}

fn formatted() -> UvcView {
    let mut d = opened();
    assert_eq!(d.check_capabilities(Ok(CAPS)), Ok(()));
    assert_eq!(d.adopt_format(Ok(reply(4, 2, 8, 16))), Ok(()));
    d
}

fn negotiated(n: u32) -> UvcView {
    let mut d = formatted();
    assert_eq!(d.accept_buffers(Ok(n)), Ok(n));
    for i in 0..n {
        assert!(d.add_buffer(BufferSetup::Mapped(buffer(i))).is_ok());
    }
    d
}

fn streaming(n: u32) -> UvcView {
    let mut d = negotiated(n);
    let order = d.start_capturing();
    assert_eq!(order, (0..n).collect::<Vec<u32>>());
    d
}

#[test]
fn default_device_is_closed_at_video0() {
    let d: UvcView = Default::default();
    assert_eq!(d.device_path().as_str(), "/dev/video0");
    assert_eq!(d.fd(), -1);
    assert_eq!(d.width(), 1280);
    assert_eq!(d.height(), 720);
    assert_eq!(d.stage(), Stage::Closed);
    assert_eq!(d.buffer_count(), 0);
}

#[test]
fn requested_size_can_be_changed_before_negotiation() {
    let mut d = UvcView::default();
    d.set_requested_size(640, 480);
    assert_eq!((d.width(), d.height()), (640, 480));
    let f = d.format_request();
    assert_eq!(f.width, 640);
    assert_eq!(f.height, 480);
    assert_eq!(f.pixel_format, V4L2_PIX_FMT_YUYV);
}

#[test]
fn only_character_devices_are_opened() {
    assert_eq!(UvcView::check_device_file(Ok(FileKind::CharacterDevice)), Ok(()));
    assert_eq!(
        UvcView::check_device_file(Ok(FileKind::Other)),
        Err(DeviceError::InvalidFileType)
    );
    assert_eq!(UvcView::check_device_file(Err(2)), Err(DeviceError::DeviceOpenFailed(2)));
}

#[test]
fn open_records_descriptor_or_error() {
    let mut d = UvcView::default();
    assert_eq!(d.open(Err(13)), Err(DeviceError::DeviceOpenFailed(13)));
    assert_eq!(d.stage(), Stage::Closed);
    assert_eq!(d.fd(), -1);
    assert_eq!(d.open(Ok(5)), Ok(()));
    assert_eq!(d.stage(), Stage::Opened);
    assert_eq!(d.fd(), 5);
}

#[test]
fn capabilities_need_capture_and_streaming() {
    let mut d = opened();
    assert_eq!(
        d.check_capabilities(Ok(V4L2_CAP_STREAMING)),
        Err(DeviceError::UnsupportedDevice(V4L2_CAP_STREAMING))
    );
    assert_eq!(
        d.check_capabilities(Ok(V4L2_CAP_VIDEO_CAPTURE)),
        Err(DeviceError::UnsupportedDevice(V4L2_CAP_VIDEO_CAPTURE))
    );
    assert_eq!(d.check_capabilities(Err(EINVAL)), Err(DeviceError::NotAV4L2Device));
    assert_eq!(d.check_capabilities(Err(5)), Err(DeviceError::CapabilityQueryFailed(5)));
    assert_eq!(d.stage(), Stage::Opened);
    assert_eq!(d.check_capabilities(Ok(CAPS | 0x20)), Ok(()));
    assert_eq!(d.stage(), Stage::Capable);
}

#[test]
fn crop_is_best_effort() {
    let rect = CropRect { left: 0, top: 0, width: 640, height: 480 };
    assert_eq!(UvcView::crop_request(Ok(rect)), Some(rect));
    assert_eq!(UvcView::crop_request(Err(EINVAL)), None);
}

#[test]
fn format_adopts_driver_geometry_and_corrects_sizes() {
    let mut d = opened();
    d.check_capabilities(Ok(CAPS)).unwrap();
    assert_eq!(d.adopt_format(Ok(reply(640, 480, 100, 10))), Ok(()));
    assert_eq!(d.stage(), Stage::Formatted);
    assert_eq!((d.width(), d.height()), (640, 480));
    assert_eq!(d.stride(), 1280);
    assert_eq!(d.image_size(), 1280 * 480);
    assert!(d.width() * 2 <= d.stride());
    assert!(d.stride() * d.height() <= d.image_size());
}

#[test]
fn format_keeps_generous_driver_sizes() {
    let mut d = opened();
    d.check_capabilities(Ok(CAPS)).unwrap();
    assert_eq!(d.adopt_format(Ok(reply(320, 240, 1024, 1_000_000))), Ok(()));
    assert_eq!(d.stride(), 1024);
    assert_eq!(d.image_size(), 1_000_000);
}

#[test]
fn format_errors() {
    let mut d = opened();
    d.check_capabilities(Ok(CAPS)).unwrap();
    assert_eq!(d.adopt_format(Err(EINVAL)), Err(DeviceError::FormatNegotiationFailed(EINVAL)));
    assert_eq!(
        d.adopt_format(Ok(reply(70_000, 70_000, 0, 0))),
        Err(DeviceError::GeometryOverflow)
    );
    assert_eq!(d.stage(), Stage::Capable);
    assert_eq!(d.width(), 4);
}

#[test]
fn buffer_request_outcomes() {
    let mut d = formatted();
    assert_eq!(d.accept_buffers(Err(EINVAL)), Err(DeviceError::MemoryMappingUnsupported));
    assert_eq!(d.accept_buffers(Err(12)), Err(DeviceError::BufferRequestFailed(12)));
    assert_eq!(d.accept_buffers(Ok(0)), Err(DeviceError::InsufficientBuffers(0)));
    assert_eq!(d.accept_buffers(Ok(1)), Err(DeviceError::InsufficientBuffers(1)));
    assert_eq!(d.stage(), Stage::Formatted);
    assert_eq!(d.accept_buffers(Ok(2)), Ok(2));
    assert_eq!(d.stage(), Stage::Mapping);
}

#[test]
fn full_pool_completes_negotiation() {
    let d = negotiated(4);
    assert_eq!(d.stage(), Stage::Negotiated);
    assert_eq!(d.buffer_count(), 4);
    assert_eq!(d.buffer(2), buffer(2));
}

#[test]
fn mapping_failure_on_third_of_four_unwinds() {
    let mut d = formatted();
    d.accept_buffers(Ok(4)).unwrap();
    assert!(d.add_buffer(BufferSetup::Mapped(buffer(0))).is_ok());
    assert!(d.add_buffer(BufferSetup::Mapped(buffer(1))).is_ok());
    let u = d.add_buffer(BufferSetup::MapFailed(buffer(2))).unwrap_err();
    assert_eq!(u.error, DeviceError::BufferMappingFailed(2));
    assert_eq!(u.unmap, vec![0, 1]);
    assert_eq!(d.buffer_count(), 0);
    assert_eq!(d.stage(), Stage::Formatted);
    let r = d.release();
    assert!(r.unmap.is_empty());
    assert_eq!(r.close_fd, Some(3));
}

#[test]
fn query_failure_unwinds_too() {
    let mut d = formatted();
    d.accept_buffers(Ok(3)).unwrap();
    assert!(d.add_buffer(BufferSetup::Mapped(buffer(0))).is_ok());
    let u = d.add_buffer(BufferSetup::QueryFailed(22)).unwrap_err();
    assert_eq!(u.error, DeviceError::BufferMappingFailed(1));
    assert_eq!(u.unmap, vec![0]);
    assert_eq!(d.buffer_count(), 0);
}

#[test]
fn start_hands_every_buffer_to_driver() {
    let d = streaming(4);
    assert_eq!(d.stage(), Stage::Streaming);
    for i in 0..4 {
        assert_eq!(d.owner(i), Ownership::Driver);
    }
}

#[test]
fn would_block_changes_nothing() {
    let mut d = streaming(2);
    for _ in 0..3 {
        assert!(matches!(d.read_frame(Err(EAGAIN)), Ok(FrameOutcome::WouldBlock)));
        assert_eq!(d.owner(0), Ownership::Driver);
        assert_eq!(d.owner(1), Ownership::Driver);
        assert_eq!(d.stage(), Stage::Streaming);
    }
}

#[test]
fn dequeue_and_requeue_move_ownership() {
    let mut d = streaming(3);
    let h = match d.read_frame(Ok(1)) {
        Ok(FrameOutcome::Ready(h)) => h,
        _ => panic!("expected a frame"),
    };
    assert_eq!(h.index(), 1);
    assert_eq!(d.owner(1), Ownership::App);
    assert_eq!(d.owner(0), Ownership::Driver);
    let app = (0..3).filter(|&i| d.owner(i) == Ownership::App).count();
    let driver = (0..3).filter(|&i| d.owner(i) == Ownership::Driver).count();
    assert_eq!(app + driver, 3);
    d.requeue(h);
    assert_eq!(d.owner(1), Ownership::Driver);
}

#[test]
fn dequeue_rejects_unknown_or_app_owned_index() {
    let mut d = streaming(2);
    assert!(matches!(d.read_frame(Ok(2)), Err(DeviceError::InvalidBufferIndex(2))));
    assert!(matches!(d.read_frame(Ok(0)), Ok(FrameOutcome::Ready(_))));
    assert!(matches!(d.read_frame(Ok(0)), Err(DeviceError::InvalidBufferIndex(0))));
    assert!(matches!(d.read_frame(Err(5)), Err(DeviceError::FrameReadFailed(5))));
}

#[test]
fn process_image_converts_at_negotiated_size() {
    let mut d = streaming(2);
    let h = match d.read_frame(Ok(0)) {
        Ok(FrameOutcome::Ready(h)) => h,
        _ => panic!("expected a frame"),
    };
    let data: Vec<u8> = vec![128; 16];
    let rgb = d.process_image(&h, &data).unwrap();
    assert_eq!(rgb, vec![128; 24]);
    assert_eq!(d.process_image(&h, &data[..15]), None);
}

#[test]
fn stop_keeps_buffers_mapped() {
    let mut d = streaming(2);
    d.stop_capturing();
    assert_eq!(d.stage(), Stage::Stopped);
    assert_eq!(d.buffer_count(), 2);
    let r = d.release();
    assert_eq!(r.unmap, vec![0, 1]);
    assert_eq!(r.close_fd, Some(3));
}

#[test]
fn release_never_opened() {
    let mut d = UvcView::default();
    let r = d.release();
    assert!(r.unmap.is_empty());
    assert_eq!(r.close_fd, None);
}

#[test]
fn release_opened_only() {
    let mut d = opened();
    let r = d.release();
    assert!(r.unmap.is_empty());
    assert_eq!(r.close_fd, Some(3));
    assert_eq!(d.fd(), -1);
    assert_eq!(d.stage(), Stage::Closed);
}

#[test]
fn release_negotiated_only() {
    let mut d = negotiated(4);
    let r = d.release();
    assert_eq!(r.unmap, vec![0, 1, 2, 3]);
    assert_eq!(r.close_fd, Some(3));
    assert_eq!(d.buffer_count(), 0);
}

#[test]
fn release_while_streaming_then_again() {
    let mut d = streaming(3);
    let r = d.release();
    assert_eq!(r.unmap, vec![0, 1, 2]);
    assert_eq!(r.close_fd, Some(3));
    let again = d.release();
    assert!(again.unmap.is_empty());
    assert_eq!(again.close_fd, None);
}
