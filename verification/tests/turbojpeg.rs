use obs_lenkeng::turbojpeg::ColorSpace;
use obs_lenkeng::turbojpeg::Error;
use obs_lenkeng::turbojpeg::Header;
use obs_lenkeng::turbojpeg::succeeded;
use obs_lenkeng::turbojpeg::BGRX_PIXEL_SIZE;

fn header(width: i32, height: i32) -> Header {
    Header { width, height, subsamp: 2, colorspace: ColorSpace::YCbCr }
}

#[test]
fn colorspaces_have_the_codes_of_the_codec() {
    assert_eq!(ColorSpace::RGB.to_tjcs(), 0);
    assert_eq!(ColorSpace::YCbCr.to_tjcs(), 1);
    assert_eq!(ColorSpace::GRAY.to_tjcs(), 2);
    assert_eq!(ColorSpace::CMYK.to_tjcs(), 3);
    assert_eq!(ColorSpace::YCCK.to_tjcs(), 4);
}

#[test]
fn codes_of_the_codec_name_colorspaces() {
    assert_eq!(ColorSpace::from_tjcs(0), Some(ColorSpace::RGB));
    assert_eq!(ColorSpace::from_tjcs(1), Some(ColorSpace::YCbCr));
    assert_eq!(ColorSpace::from_tjcs(2), Some(ColorSpace::GRAY));
    assert_eq!(ColorSpace::from_tjcs(3), Some(ColorSpace::CMYK));
    assert_eq!(ColorSpace::from_tjcs(4), Some(ColorSpace::YCCK));
}

#[test]
fn unknown_codes_name_no_colorspace() {
    assert_eq!(ColorSpace::from_tjcs(5), None);
    assert_eq!(ColorSpace::from_tjcs(u32::MAX), None);
}

#[test]
fn colorspace_codes_round_trip() {
    for colorspace in [
        ColorSpace::CMYK,
        ColorSpace::GRAY,
        ColorSpace::RGB,
        ColorSpace::YCCK,
        ColorSpace::YCbCr,
    ] {
        assert_eq!(ColorSpace::from_tjcs(colorspace.to_tjcs()), Some(colorspace));
    }
    for code in 0..5u32 {
        assert_eq!(ColorSpace::from_tjcs(code).unwrap().to_tjcs(), code);
    }
}

#[test]
fn a_pixel_takes_four_bytes() {
    assert_eq!(BGRX_PIXEL_SIZE, 4);
}

#[test]
fn dst_size_is_width_times_height_times_four() {
    assert_eq!(header(64, 64).dst_size(), 16384);
    assert_eq!(header(1920, 1080).dst_size(), 8294400);
    assert_eq!(header(1, 1).dst_size(), 4);
    assert_eq!(header(3, 5).dst_size(), 60);
}

#[test]
fn dst_size_of_an_empty_image_is_zero() {
    assert_eq!(header(0, 0).dst_size(), 0);
    assert_eq!(header(0, 480).dst_size(), 0);
    assert_eq!(header(640, 0).dst_size(), 0);
}

#[test]
fn checked_dst_size_agrees_with_dst_size() {
    assert_eq!(header(64, 64).checked_dst_size(), Some(16384));
    assert_eq!(header(0, 0).checked_dst_size(), Some(0));
    assert_eq!(header(65535, 1).checked_dst_size(), Some(262140));
}

#[test]
fn negative_dimensions_have_no_size() {
    assert_eq!(header(-1, 64).checked_dst_size(), None);
    assert_eq!(header(64, -1).checked_dst_size(), None);
    assert_eq!(header(i32::MIN, i32::MIN).checked_dst_size(), None);
}

#[test]
fn largest_dimensions_have_a_size_only_where_it_fits() {
    let largest = header(i32::MAX, i32::MAX);
    let bytes = (i32::MAX as u128) * (i32::MAX as u128) * 4;
    if bytes <= usize::MAX as u128 {
        assert_eq!(largest.checked_dst_size(), Some(bytes as usize));
    } else {
        assert_eq!(largest.checked_dst_size(), None);
    }
}

#[test]
fn fits_within_compares_with_the_decoded_size() {
    assert!(header(64, 64).fits_within(16384));
    assert!(header(64, 64).fits_within(16385));
    assert!(!header(64, 64).fits_within(16383));
    assert!(header(0, 0).fits_within(0));
    assert!(!header(-1, 1).fits_within(usize::MAX));
}

#[test]
fn error_text_is_code_colon_message() {
    let error = Error { message: String::from("Not a JPEG file: starts with 0x00 0x00"), code: -1 };
    assert_eq!(error.to_text(), "-1: Not a JPEG file: starts with 0x00 0x00");
}

#[test]
fn error_text_writes_the_code_in_decimal() {
    let text = |code: i32| Error { message: String::from("m"), code }.to_text();
    assert_eq!(text(0), "0: m");
    assert_eq!(text(1), "1: m");
    assert_eq!(text(9), "9: m");
    assert_eq!(text(10), "10: m");
    assert_eq!(text(1234567890), "1234567890: m");
    assert_eq!(text(i32::MAX), "2147483647: m");
    assert_eq!(text(-10), "-10: m");
    assert_eq!(text(i32::MIN), "-2147483648: m");
}

#[test]
fn error_text_agrees_with_the_formatter() {
    for code in [-1000, -99, -1, 0, 1, 7, 42, 100, 65535, 1_000_000] {
        let error = Error { message: String::from("bad Huffman code"), code };
        assert_eq!(error.to_text(), format!("{}: {}", code, "bad Huffman code"));
    }
}

#[test]
fn error_text_keeps_an_empty_or_unusual_message() {
    assert_eq!(Error { message: String::new(), code: 3 }.to_text(), "3: ");
    assert_eq!(Error { message: String::from("größe ✓"), code: 3 }.to_text(), "3: größe ✓");
}

#[test]
fn only_status_zero_is_success() {
    assert!(succeeded(0));
    assert!(!succeeded(-1));
    assert!(!succeeded(1));
    assert!(!succeeded(i32::MIN));
}

#[test]
fn header_readings_are_taken_as_they_come() {
    assert_eq!(
        Header::from_readings(64, 64, 2, 1),
        Some(Header { width: 64, height: 64, subsamp: 2, colorspace: ColorSpace::YCbCr })
    );
    assert_eq!(
        Header::from_readings(-3, 0, -1, 2),
        Some(Header { width: -3, height: 0, subsamp: -1, colorspace: ColorSpace::GRAY })
    );
}

#[test]
fn untouched_header_readings_are_an_empty_rgb_image() {
    assert_eq!(
        Header::from_readings(0, 0, 0, 0),
        Some(Header { width: 0, height: 0, subsamp: 0, colorspace: ColorSpace::RGB })
    );
}

#[test]
fn header_readings_with_an_unknown_colorspace_are_no_header() {
    assert_eq!(Header::from_readings(64, 64, 2, 5), None);
    assert_eq!(Header::from_readings(64, 64, 2, -1), None);
    assert_eq!(Header::from_readings(64, 64, 2, i32::MIN), None);
}
