use obs_lenkeng::frame::FrameDescriptor;
use obs_lenkeng::frame::PixelFormat;
use obs_lenkeng::socket::Endpoint;
use obs_lenkeng::socket::PORT;
use obs_lenkeng::socket::RETRY_DELAY_SECS;
use obs_lenkeng::turbojpeg::ColorSpace;
use obs_lenkeng::turbojpeg::Header;

fn header(width: i32, height: i32) -> Header {
    Header { width, height, subsamp: 2, colorspace: ColorSpace::YCbCr }
}

#[test]
fn bgrx_takes_four_bytes_per_pixel() {
    assert_eq!(PixelFormat::Bgrx.bytes_per_pixel(), 4);
}

#[test]
fn descriptor_of_a_64_by_64_frame() {
    let descriptor = FrameDescriptor::new(&header(64, 64), 123_456_789).unwrap();
    assert_eq!(
        descriptor,
        FrameDescriptor {
            width: 64,
            height: 64,
            stride: 256,
            format: PixelFormat::Bgrx,
            timestamp: 123_456_789,
        }
    );
}

#[test]
fn stride_is_four_times_the_width() {
    for width in [0, 1, 2, 63, 640, 1920, 65535] {
        let descriptor = FrameDescriptor::new(&header(width, 2), 0).unwrap();
        assert_eq!(descriptor.stride, 4 * width as u32);
        assert_eq!(descriptor.width, width as u32);
        assert_eq!(descriptor.height, 2);
    }
}

#[test]
fn descriptor_carries_the_timestamp() {
    assert_eq!(FrameDescriptor::new(&header(8, 8), 0).unwrap().timestamp, 0);
    assert_eq!(FrameDescriptor::new(&header(8, 8), u64::MAX).unwrap().timestamp, u64::MAX);
}

#[test]
fn negative_dimensions_have_no_descriptor() {
    assert_eq!(FrameDescriptor::new(&header(-1, 64), 5), None);
    assert_eq!(FrameDescriptor::new(&header(64, -64), 5), None);
}

#[test]
fn a_row_too_long_for_the_stride_has_no_descriptor() {
    // 4 * 2^30 is one more than a stride can be, though the frame is empty.
    assert_eq!(FrameDescriptor::new(&header(1 << 30, 0), 5), None);
    assert_eq!(FrameDescriptor::new(&header(i32::MAX, 0), 5), None);
    let widest = FrameDescriptor::new(&header((1 << 30) - 1, 0), 5).unwrap();
    assert_eq!(widest.stride, u32::MAX - 3);
}

#[test]
fn the_stream_endpoint() {
    let endpoint = Endpoint::stream();
    assert_eq!(endpoint.bind, [0, 0, 0, 0]);
    assert_eq!(endpoint.port, 2068);
    assert_eq!(endpoint.group, [226, 2, 2, 2]);
    assert!(endpoint.reuse_port);
    assert_eq!(PORT, 2068);
    assert_eq!(RETRY_DELAY_SECS, 1);
}
