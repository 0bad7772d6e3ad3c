//! Byte encodings of command frames and their building blocks.

use isis_eps_service::command::{channels_valid, frame, group_mask, push_le16, push_le32,
    stid_byte, u16_of_i16, u32_of_i32, u8_of_i8, CC_PING, CC_SYS_RESET, RESET_KEY};
use isis_eps_service::translate::StId;

#[test]
fn stid_frame_bytes() {
    assert_eq!(stid_byte(StId::PduStid), 0x11);
    assert_eq!(stid_byte(StId::PbuStid), 0x12);
    assert_eq!(stid_byte(StId::PcuStid), 0x13);
    assert_eq!(stid_byte(StId::PiuStid), 0x1A);
    assert_eq!(stid_byte(StId::OverrideStid), 0x00);
}

#[test]
fn frame_layout() {
    assert_eq!(frame(StId::PiuStid, CC_PING, Vec::new()), vec![0x1A, 0x01]);
    assert_eq!(
        frame(StId::OverrideStid, CC_SYS_RESET, vec![RESET_KEY]),
        vec![0x00, 0x02, 0xA6]
    );
}

#[test]
fn little_endian_argument_bytes() {
    let mut v: Vec<u8> = Vec::new();
    push_le16(&mut v, 0x0204);
    assert_eq!(v, vec![0x04, 0x02]);
    let mut w: Vec<u8> = Vec::new();
    push_le32(&mut w, 0xA1B2_C3D4);
    assert_eq!(w, vec![0xD4, 0xC3, 0xB2, 0xA1]);
}

#[test]
fn unsigned_images_of_signed_values() {
    assert_eq!(u16_of_i16(0), 0);
    assert_eq!(u16_of_i16(-1), 0xFFFF);
    assert_eq!(u16_of_i16(-2), 0xFFFE);
    assert_eq!(u16_of_i16(i16::MIN), 0x8000);
    assert_eq!(u16_of_i16(i16::MAX), 0x7FFF);
    assert_eq!(u32_of_i32(-1), 0xFFFF_FFFF);
    assert_eq!(u32_of_i32(i32::MIN), 0x8000_0000);
    assert_eq!(u8_of_i8(-1), 0xFF);
    assert_eq!(u8_of_i8(-128), 0x80);
    assert_eq!(u8_of_i8(127), 0x7F);
}

#[test]
fn group_mask_sets_one_bit_per_channel() {
    assert_eq!(group_mask(&vec![0, 3]), 0b1001);
    assert_eq!(group_mask(&vec![15]), 0x8000);
    assert_eq!(group_mask(&Vec::new()), 0);
    assert_eq!(group_mask(&vec![2, 2]), 0b100);
}

#[test]
fn channel_validity_is_bounded_by_the_mask_width() {
    assert!(channels_valid(&vec![0, 7, 15]));
    assert!(channels_valid(&Vec::new()));
    assert!(!channels_valid(&vec![16]));
    assert!(!channels_valid(&vec![3, 200]));
}
