use sh1108::command::{Command, NFrames, VcomLevel};
use sh1108::displaysize::DisplaySize;

fn bytes(c: Command) -> Vec<u8> {
    let (data, len) = c.encode();
    data[..len].to_vec()
}

#[test]
fn contrast_encodes_opcode_and_level() {
    let (data, len) = Command::Contrast(0x7F).encode();
    assert_eq!(len, 2);
    assert_eq!(&data[..len], &[0x81, 0x7F]);
}

#[test]
fn invert_on_encodes_single_byte() {
    let (data, len) = Command::Invert(true).encode();
    assert_eq!(len, 1);
    assert_eq!(&data[..len], &[0xA7]);
    assert_eq!(bytes(Command::Invert(false)), vec![0xA6]);
}

#[test]
fn clock_div_packs_nibbles() {
    let (data, len) = Command::DisplayClockDiv(0x8, 0x0).encode();
    assert_eq!(len, 2);
    assert_eq!(&data[..len], &[0xD5, 0x80]);
    assert_eq!(bytes(Command::DisplayClockDiv(0xF3, 0x25)), vec![0xD5, 0x35]);
}

#[test]
fn precharge_packs_phase2_high() {
    assert_eq!(bytes(Command::PreChargePeriod(0x2, 0x7)), vec![0xD9, 0x72]);
    assert_eq!(bytes(Command::PreChargePeriod(0x1F, 0x2F)), vec![0xD9, 0xFF]);
}

#[test]
fn boolean_commands_or_their_flag() {
    assert_eq!(bytes(Command::AllOn(false)), vec![0xA4]);
    assert_eq!(bytes(Command::AllOn(true)), vec![0xA5]);
    assert_eq!(bytes(Command::AddressMode(false)), vec![0x20]);
    assert_eq!(bytes(Command::AddressMode(true)), vec![0x21]);
    assert_eq!(bytes(Command::DisplayOn(false)), vec![0xAE]);
    assert_eq!(bytes(Command::DisplayOn(true)), vec![0xAF]);
    assert_eq!(bytes(Command::SegmentRemap(false)), vec![0xA0]);
    assert_eq!(bytes(Command::SegmentRemap(true)), vec![0xA1]);
    assert_eq!(bytes(Command::SetCommonScanDir(false)), vec![0xC0]);
    assert_eq!(bytes(Command::SetCommonScanDir(true)), vec![0xC8]);
}

#[test]
fn column_and_page_addresses_are_masked() {
    assert_eq!(bytes(Command::ColumnAddressLow(0x3A)), vec![0x0A]);
    assert_eq!(bytes(Command::ColumnAddressHigh(0x3A)), vec![0x1A]);
    assert_eq!(bytes(Command::PageAddress(0x13)), vec![0xB0, 0x13]);
    assert_eq!(bytes(Command::PageAddress(0x33)), vec![0xB0, 0x13]);
    assert_eq!(bytes(Command::PageAddress(32)), vec![0xB0, 0x00]);
    assert_eq!(bytes(Command::Noop), vec![0xE3]);
}

#[test]
fn resolution_carries_size_code() {
    assert_eq!(bytes(Command::DisplayResolution(DisplaySize::Display64x160)), vec![0xA9, 0]);
    assert_eq!(bytes(Command::DisplayResolution(DisplaySize::Display96x160)), vec![0xA9, 1]);
    assert_eq!(bytes(Command::DisplayResolution(DisplaySize::Display128x160)), vec![0xA9, 2]);
    assert_eq!(bytes(Command::DisplayResolution(DisplaySize::Display160x160)), vec![0xA9, 3]);
}

#[test]
fn encoding_is_repeatable_and_bounded() {
    let all = [
        Command::Contrast(3),
        Command::AllOn(true),
        Command::Invert(false),
        Command::DisplayResolution(DisplaySize::Display96x160),
        Command::AddressMode(true),
        Command::DisplayOn(true),
        Command::ColumnAddressLow(0xFF),
        Command::ColumnAddressHigh(0xFF),
        Command::PageAddress(0xFF),
        Command::SegmentRemap(true),
        Command::SetCommonScanDir(true),
        Command::DisplayClockDiv(0xFF, 0xFF),
        Command::PreChargePeriod(0xFF, 0xFF),
        Command::Noop,
    ];
    for c in all {
        let first = c.encode();
        let second = c.encode();
        assert_eq!(first, second);
        assert!(first.1 >= 1 && first.1 <= 7);
        assert_eq!(c.to_bytes(), first.0[..first.1].to_vec());
    }
}

#[test]
fn frame_and_vcom_field_values() {
    assert_eq!(NFrames::F2.bits(), 0b111);
    assert_eq!(NFrames::F5.bits(), 0b000);
    assert_eq!(NFrames::F256.bits(), 0b011);
    assert_eq!(VcomLevel::V077.bits(), 0x35);
    assert_eq!(VcomLevel::V043.bits(), 0x00);
    assert_eq!(VcomLevel::V0834.bits(), 0x3f);
}
