//! The description of one decoded frame, as it is handed to the video sink.

use vstd::prelude::*;
use crate::turbojpeg::Header;
use crate::turbojpeg::BGRX_PIXEL_SIZE;

verus! {

/// Layout of the decoded pixels. The pipeline decodes to one layout only.
#[derive(Clone, Copy, Debug, PartialEq, Eq, Structural)]
pub enum PixelFormat {
    /// Blue, green, red and one unused byte per pixel.
    Bgrx,
}

impl PixelFormat {
    /// Bytes that one pixel occupies in this layout.
    pub open spec fn spec_bytes_per_pixel(self) -> usize {
        BGRX_PIXEL_SIZE
    }

    /// Bytes that one pixel occupies in this layout.
    pub fn bytes_per_pixel(&self) -> (bytes: usize)
        ensures
            bytes == self.spec_bytes_per_pixel(),
    {
        BGRX_PIXEL_SIZE
    }
}

/// Geometry, layout and capture time of one decoded frame. The pixels
/// themselves stay in the worker's pixel buffer and are lent to the sink
/// only while it is being called.
#[derive(Clone, Copy, Debug, PartialEq, Eq, Structural)]
pub struct FrameDescriptor {
    pub width: u32,
    pub height: u32,
    /// Bytes from the start of one row of pixels to the start of the next.
    pub stride: u32,
    pub format: PixelFormat,
    /// Clock reading, in nanoseconds, taken when the frame's first datagram
    /// was seen.
    pub timestamp: u64,
}

impl FrameDescriptor {
    /// Whether a frame with this header can be described: its decoded size
    /// is a size, and the length of one row fits the descriptor.
    pub open spec fn describable(header: Header) -> bool {
        &&& header.sizable()
        &&& header.width * BGRX_PIXEL_SIZE <= u32::MAX
    }

    /// The descriptor of a frame with the given header and capture time.
    pub open spec fn of(header: Header, timestamp: u64) -> FrameDescriptor {
        FrameDescriptor {
            width: header.width as u32,
            height: header.height as u32,
            stride: (header.width * BGRX_PIXEL_SIZE) as u32,
            format: PixelFormat::Bgrx,
            timestamp,
        }
    }

    /// Bytes of the pixel buffer that the described frame occupies.
    pub open spec fn size(self) -> int {
        self.stride * self.height
    }

    /// Describes a frame with the given header and capture time, or returns
    /// `None` where no descriptor can hold its geometry.
    pub fn new(header: &Header, timestamp: u64) -> (descriptor: Option<FrameDescriptor>)
        ensures
            descriptor == if FrameDescriptor::describable(*header) {
                Some(FrameDescriptor::of(*header, timestamp))
            } else {
                None
            },
            descriptor matches Some(d) ==> {
                &&& d.stride == d.width * 4
                &&& d.size() == header.size()
                &&& d.timestamp == timestamp
            },
    {
        if header.checked_dst_size().is_none() {
            return None;
        }
        let width: u32 = header.width as u32;
        let height: u32 = header.height as u32;
        match width.checked_mul(4) {
            Some(stride) => {
                proof {
                    assert(stride * height == header.width * header.height * 4)
                        by (nonlinear_arith)
                        requires
                            stride == header.width * 4,
                            height == header.height,
                    ;
                }
                Some(FrameDescriptor { width, height, stride, format: PixelFormat::Bgrx, timestamp })
            },
            None => None,
        }
    }
}

} // verus!
