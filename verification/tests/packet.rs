use obs_lenkeng::packet::classify;
use obs_lenkeng::packet::part_number;
use obs_lenkeng::packet::payload;
use obs_lenkeng::packet::PacketKind;
use obs_lenkeng::packet::HEADER_SIZE;
use obs_lenkeng::packet::PACKET_SIZE;
use obs_lenkeng::packet::PAYLOAD_SIZE;
use obs_lenkeng::packet::TERMINAL_THRESHOLD;

fn packet(header: [u8; 4], fill: u8) -> [u8; PACKET_SIZE] {
    let mut bytes = [fill; PACKET_SIZE];
    bytes[..4].copy_from_slice(&header);
    bytes
}

#[test]
fn sizes_add_up() {
    assert_eq!(PACKET_SIZE, 1024);
    assert_eq!(HEADER_SIZE, 4);
    assert_eq!(PAYLOAD_SIZE, 1020);
    assert_eq!(HEADER_SIZE + PAYLOAD_SIZE, PACKET_SIZE);
    assert_eq!(TERMINAL_THRESHOLD, 0x4000);
}

#[test]
fn part_number_weighs_the_high_byte_with_255() {
    assert_eq!(part_number(&packet([0, 0, 0, 0], 0)), 0);
    assert_eq!(part_number(&packet([0, 0, 0, 1], 0)), 1);
    assert_eq!(part_number(&packet([0, 0, 0, 255], 0)), 255);
    assert_eq!(part_number(&packet([0, 0, 1, 0], 0)), 255);
    assert_eq!(part_number(&packet([0, 0, 1, 1], 0)), 256);
    assert_eq!(part_number(&packet([0, 0, 2, 3], 0)), 513);
    assert_eq!(part_number(&packet([0, 0, 0x40, 0x01], 0)), 16321);
    assert_eq!(part_number(&packet([0, 0, 255, 255], 0)), 65280);
}

#[test]
fn part_number_ignores_the_sequence_number_and_the_payload() {
    assert_eq!(part_number(&packet([9, 8, 0, 7], 0xAB)), 7);
    assert_eq!(part_number(&packet([0xFF, 0xFF, 0, 0], 0xFF)), 0);
}

#[test]
fn two_headers_can_carry_the_same_part_number() {
    assert_eq!(part_number(&packet([0, 0, 0, 255], 0)), part_number(&packet([0, 0, 1, 0], 0)));
}

#[test]
fn part_zero_starts_a_frame() {
    assert_eq!(classify(&packet([0, 0, 0, 0], 1)), PacketKind::FrameStart);
    assert_eq!(classify(&packet([7, 7, 0, 0], 1)), PacketKind::FrameStart);
}

#[test]
fn parts_up_to_the_threshold_continue_a_frame() {
    assert_eq!(classify(&packet([0, 0, 0, 1], 0)), PacketKind::Continuation);
    assert_eq!(classify(&packet([0, 0, 0x40, 0x01], 0)), PacketKind::Continuation);
    // 64 * 255 + 64 = 0x4000
    assert_eq!(part_number(&packet([0, 0, 64, 64], 0)), 0x4000);
    assert_eq!(classify(&packet([0, 0, 64, 64], 0)), PacketKind::Continuation);
}

#[test]
fn parts_above_the_threshold_end_a_frame() {
    // 64 * 255 + 65 = 0x4001
    assert_eq!(part_number(&packet([0, 0, 64, 65], 0)), 0x4001);
    assert_eq!(classify(&packet([0, 0, 64, 65], 0)), PacketKind::Terminal);
    assert_eq!(classify(&packet([0, 0, 0x41, 0x00], 0)), PacketKind::Terminal);
    assert_eq!(classify(&packet([0, 0, 255, 255], 0)), PacketKind::Terminal);
}

#[test]
fn payload_is_everything_behind_the_header() {
    let mut bytes = [0u8; PACKET_SIZE];
    for (i, byte) in bytes.iter_mut().enumerate() {
        *byte = (i % 251) as u8;
    }
    let body = payload(&bytes);
    assert_eq!(body.len(), 1020);
    assert_eq!(body, &bytes[4..]);
    assert_eq!(body[0], 4);
    assert_eq!(body[1019], (1023 % 251) as u8);
}
