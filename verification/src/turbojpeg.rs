//! The data that crosses the boundary to the JPEG codec: the colorspace
//! codes it reports, the header it probes, and the error it raises.

use vstd::prelude::*;
use vstd::string::StringExecFns;

verus! {

/// Codec code of the RGB colorspace.
pub const TJCS_RGB: u32 = 0;

/// Codec code of the YCbCr colorspace.
pub const TJCS_YCBCR: u32 = 1;

/// Codec code of the grayscale colorspace.
pub const TJCS_GRAY: u32 = 2;

/// Codec code of the CMYK colorspace.
pub const TJCS_CMYK: u32 = 3;

/// Codec code of the YCCK colorspace.
pub const TJCS_YCCK: u32 = 4;

/// Bytes that one decoded BGRX pixel occupies.
pub const BGRX_PIXEL_SIZE: usize = 4;

/// Status with which a call into the codec reports success.
pub const STATUS_OK: i32 = 0;

/// Whether a status returned by the codec reports success. Every other
/// status is a failure, whose code and message the codec keeps for asking.
pub fn succeeded(status: i32) -> (ok: bool)
    ensures
        ok <==> status == STATUS_OK,
{
    status == STATUS_OK
}

/// Colorspace of a compressed image, as the codec reports it.
#[allow(non_camel_case_types)]
#[derive(Clone, Copy, Debug, PartialEq, Eq, Structural)]
pub enum ColorSpace {
    CMYK,
    GRAY,
    RGB,
    YCCK,
    YCbCr,
}

impl ColorSpace {
    /// The code under which the codec knows this colorspace.
    pub open spec fn tjcs(self) -> u32 {
        match self {
            ColorSpace::CMYK => TJCS_CMYK,
            ColorSpace::GRAY => TJCS_GRAY,
            ColorSpace::RGB => TJCS_RGB,
            ColorSpace::YCCK => TJCS_YCCK,
            ColorSpace::YCbCr => TJCS_YCBCR,
        }
    }

    /// The colorspace that a codec code stands for, if it stands for one.
    pub open spec fn of_tjcs(tjcs: u32) -> Option<ColorSpace> {
        if tjcs == TJCS_CMYK {
            Some(ColorSpace::CMYK)
        } else if tjcs == TJCS_GRAY {
            Some(ColorSpace::GRAY)
        } else if tjcs == TJCS_RGB {
            Some(ColorSpace::RGB)
        } else if tjcs == TJCS_YCCK {
            Some(ColorSpace::YCCK)
        } else if tjcs == TJCS_YCBCR {
            Some(ColorSpace::YCbCr)
        } else {
            None
        }
    }

    /// The codec's code for the colorspace.
    pub fn to_tjcs(&self) -> (tjcs: u32)
        ensures
            tjcs == self.tjcs(),
            ColorSpace::of_tjcs(tjcs) == Some(*self),
    {
        match self {
            ColorSpace::CMYK => TJCS_CMYK,
            ColorSpace::GRAY => TJCS_GRAY,
            ColorSpace::RGB => TJCS_RGB,
            ColorSpace::YCCK => TJCS_YCCK,
            ColorSpace::YCbCr => TJCS_YCBCR,
        }
    }

    /// The colorspace behind a codec code. Codes that the codec does
    /// not define give `None`.
    pub fn from_tjcs(tjcs: u32) -> (colorspace: Option<ColorSpace>)
        ensures
            colorspace == ColorSpace::of_tjcs(tjcs),
            colorspace is Some <==> tjcs <= TJCS_YCCK,
            colorspace matches Some(c) ==> c.tjcs() == tjcs,
    {
        if tjcs == TJCS_CMYK {
            Some(ColorSpace::CMYK)
        } else if tjcs == TJCS_GRAY {
            Some(ColorSpace::GRAY)
        } else if tjcs == TJCS_RGB {
            Some(ColorSpace::RGB)
        } else if tjcs == TJCS_YCCK {
            Some(ColorSpace::YCCK)
        } else if tjcs == TJCS_YCBCR {
            Some(ColorSpace::YCbCr)
        } else {
            None
        }
    }
}

/// What the codec learns from the head of a compressed image.
#[derive(Clone, Copy, Debug, PartialEq, Eq, Structural)]
pub struct Header {
    pub width: i32,
    pub height: i32,
    pub subsamp: i32,
    pub colorspace: ColorSpace,
}

impl Header {
    /// The header that the codec's four readings stand for, if the
    /// colorspace reading is a code that names a colorspace.
    pub open spec fn of_readings(width: i32, height: i32, subsamp: i32, colorspace: i32) -> Option<
        Header,
    > {
        if colorspace < 0 {
            None
        } else {
            match ColorSpace::of_tjcs(colorspace as u32) {
                Some(colorspace) => Some(Header { width, height, subsamp, colorspace }),
                None => None,
            }
        }
    }

    /// Puts the four readings of a header probe together. The dimensions
    /// and the subsampling are taken as the codec gives them; a colorspace
    /// reading that names no colorspace gives `None`.
    pub fn from_readings(width: i32, height: i32, subsamp: i32, colorspace: i32) -> (header: Option<
        Header,
    >)
        ensures
            header == Header::of_readings(width, height, subsamp, colorspace),
            header is Some <==> 0 <= colorspace <= TJCS_YCCK,
            header matches Some(h) ==> h.width == width && h.height == height && h.subsamp
                == subsamp && h.colorspace.tjcs() == colorspace,
    {
        if colorspace < 0 {
            return None;
        }
        match ColorSpace::from_tjcs(colorspace as u32) {
            Some(colorspace) => Some(Header { width, height, subsamp, colorspace }),
            None => None,
        }
    }

    /// Bytes that the image occupies once decoded to BGRX.
    pub open spec fn size(self) -> int {
        self.width * self.height * BGRX_PIXEL_SIZE
    }

    /// Whether the decoded size of the image is a size at all: neither
    /// dimension is negative and the byte count is one a buffer can have.
    pub open spec fn sizable(self) -> bool {
        &&& 0 <= self.width
        &&& 0 <= self.height
        &&& self.size() <= usize::MAX
    }

    /// Bytes that the destination of a decode must at least hold.
    pub fn dst_size(&self) -> (size: usize)
        requires
            self.sizable(),
        ensures
            size == self.size(),
    {
        let width: usize = self.width as usize;
        let height: usize = self.height as usize;
        proof {
            lemma_area_bounded(self.width as int, self.height as int);
        }
        width * height * BGRX_PIXEL_SIZE
    }

    /// The decoded size of the image, or `None` where it has none.
    pub fn checked_dst_size(&self) -> (size: Option<usize>)
        ensures
            size is Some <==> self.sizable(),
            size matches Some(n) ==> n == self.size(),
    {
        if self.width < 0 || self.height < 0 {
            return None;
        }
        let width: usize = self.width as usize;
        let height: usize = self.height as usize;
        match width.checked_mul(height) {
            Some(area) => {
                let size = area.checked_mul(BGRX_PIXEL_SIZE);
                proof {
                    lemma_area_bounded(self.width as int, self.height as int);
                }
                size
            },
            None => {
                proof {
                    lemma_area_bounded(self.width as int, self.height as int);
                }
                None
            },
        }
    }

    /// Whether a destination of `len` bytes is large enough for the decoded
    /// image.
    pub fn fits_within(&self, len: usize) -> (fits: bool)
        ensures
            fits <==> self.sizable() && self.size() <= len,
    {
        match self.checked_dst_size() {
            Some(size) => size <= len,
            None => false,
        }
    }
}

/// The area of an image is no larger than four times itself, and never
/// negative.
proof fn lemma_area_bounded(width: int, height: int)
    requires
        0 <= width,
        0 <= height,
    ensures
        0 <= width * height,
        width * height <= width * height * 4,
        width * height * 4 == (width * height) * 4,
{
    assert(0 <= width * height) by (nonlinear_arith)
        requires
            0 <= width,
            0 <= height,
    ;
}

/// A failure that the codec reports: its numeric code and its message.
#[derive(Debug, PartialEq, Eq)]
pub struct Error {
    pub message: String,
    pub code: i32,
}

/// The character that stands for a decimal digit.
pub open spec fn digit_char(digit: int) -> char {
    if digit == 0 {
        '0'
    } else if digit == 1 {
        '1'
    } else if digit == 2 {
        '2'
    } else if digit == 3 {
        '3'
    } else if digit == 4 {
        '4'
    } else if digit == 5 {
        '5'
    } else if digit == 6 {
        '6'
    } else if digit == 7 {
        '7'
    } else if digit == 8 {
        '8'
    } else {
        '9'
    }
}

/// A natural number in decimal notation, without leading zeros.
pub open spec fn decimal(n: nat) -> Seq<char>
    decreases n,
{
    if n < 10 {
        seq![digit_char(n as int)]
    } else {
        decimal(n / 10).push(digit_char((n % 10) as int))
    }
}

/// An integer in decimal notation, with a minus sign in front of a negative
/// one.
pub open spec fn signed_decimal(n: int) -> Seq<char> {
    if n < 0 {
        seq!['-'] + decimal((-n) as nat)
    } else {
        decimal(n as nat)
    }
}

/// The text that stands for one decimal digit.
fn digit_text(digit: u32) -> (text: &'static str)
    requires
        digit < 10,
    ensures
        text@ == seq![digit_char(digit as int)],
{
    proof {
        reveal_strlit("0");
        reveal_strlit("1");
        reveal_strlit("2");
        reveal_strlit("3");
        reveal_strlit("4");
        reveal_strlit("5");
        reveal_strlit("6");
        reveal_strlit("7");
        reveal_strlit("8");
        reveal_strlit("9");
    }
    let text = if digit == 0 {
        "0"
    } else if digit == 1 {
        "1"
    } else if digit == 2 {
        "2"
    } else if digit == 3 {
        "3"
    } else if digit == 4 {
        "4"
    } else if digit == 5 {
        "5"
    } else if digit == 6 {
        "6"
    } else if digit == 7 {
        "7"
    } else if digit == 8 {
        "8"
    } else {
        "9"
    };
    assert(text@ =~= seq![digit_char(digit as int)]);
    text
}

/// Writes a number in decimal notation behind a text.
fn push_decimal(text: &mut String, n: u32)
    ensures
        final(text)@ == old(text)@ + decimal(n as nat),
    decreases n,
{
    if n >= 10 {
        push_decimal(text, n / 10);
    }
    text.append(digit_text(n % 10));
    proof {
        if n >= 10 {
            assert(old(text)@ + decimal((n / 10) as nat) + seq![digit_char((n % 10) as int)]
                =~= old(text)@ + decimal(n as nat));
        }
    }
}

impl Error {
    /// The error on one line: its code, a colon and a space, its message.
    pub open spec fn text(self) -> Seq<char> {
        signed_decimal(self.code as int) + seq![':', ' '] + self.message@
    }

    /// Renders the error on one line, as `code: message`.
    pub fn to_text(&self) -> (text: String)
        ensures
            text@ == self.text(),
    {
        let mut text = String::new();
        if self.code < 0 {
            proof {
                reveal_strlit("-");
            }
            text.append("-");
            let magnitude: i64 = -(self.code as i64);
            push_decimal(&mut text, magnitude as u32);
        } else {
            push_decimal(&mut text, self.code as u32);
        }
        proof {
            reveal_strlit(": ");
        }
        text.append(": ");
        text.append(self.message.as_str());
        assert(text@ =~= self.text());
        text
    }
}

} // verus!
