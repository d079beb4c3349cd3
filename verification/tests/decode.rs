use chippy::opcode::{extract_opcode_from_array, OpCode};

#[test]
fn decode_canonical_words() {
    assert_eq!(OpCode::from_opcode(0x00E0), OpCode::CLS);
    assert_eq!(OpCode::from_opcode(0x1234), OpCode::JP(0x234));
    assert_eq!(OpCode::from_opcode(0x6A07), OpCode::LDByte(10, 0x07));
    assert_eq!(OpCode::from_opcode(0x8014), OpCode::ADD(0, 1));
    assert_eq!(OpCode::from_opcode(0xFFFF), OpCode::DATA(0xFFFF));
}

#[test]
fn decode_whole_table() {
    assert_eq!(OpCode::from_opcode(0x0000), OpCode::EMPTY);
    assert_eq!(OpCode::from_opcode(0x00EE), OpCode::RET);
    assert_eq!(OpCode::from_opcode(0x2345), OpCode::CALL(0x345));
    assert_eq!(OpCode::from_opcode(0x3A55), OpCode::SEByte(0xA, 0x55));
    assert_eq!(OpCode::from_opcode(0x4B66), OpCode::SNEByte(0xB, 0x66));
    assert_eq!(OpCode::from_opcode(0x5120), OpCode::SE(1, 2));
    assert_eq!(OpCode::from_opcode(0x7C10), OpCode::ADDByte(0xC, 0x10));
    assert_eq!(OpCode::from_opcode(0x8120), OpCode::LD(1, 2));
    assert_eq!(OpCode::from_opcode(0x8341), OpCode::OR(3, 4));
    assert_eq!(OpCode::from_opcode(0x8342), OpCode::AND(3, 4));
    assert_eq!(OpCode::from_opcode(0x8343), OpCode::XOR(3, 4));
    assert_eq!(OpCode::from_opcode(0x8345), OpCode::SUB(3, 4));
    assert_eq!(OpCode::from_opcode(0x8346), OpCode::SHR(3, 4));
    assert_eq!(OpCode::from_opcode(0x8347), OpCode::SUBN(3, 4));
    assert_eq!(OpCode::from_opcode(0x834E), OpCode::SHL(3, 4));
    assert_eq!(OpCode::from_opcode(0x9340), OpCode::SNE(3, 4));
    assert_eq!(OpCode::from_opcode(0xA123), OpCode::LDI(0x123));
    assert_eq!(OpCode::from_opcode(0xB123), OpCode::JP0(0x123));
    assert_eq!(OpCode::from_opcode(0xC2F0), OpCode::RND(2, 0xF0));
    assert_eq!(OpCode::from_opcode(0xD125), OpCode::DRW(1, 2, 5));
    assert_eq!(OpCode::from_opcode(0xE29E), OpCode::SKP(2));
    assert_eq!(OpCode::from_opcode(0xE2A1), OpCode::SKNP(2));
    assert_eq!(OpCode::from_opcode(0xF307), OpCode::LDGetDelayTimer(3));
    assert_eq!(OpCode::from_opcode(0xF30A), OpCode::LDGetKey(3));
    assert_eq!(OpCode::from_opcode(0xF315), OpCode::LDSetDelayTimer(3));
    assert_eq!(OpCode::from_opcode(0xF318), OpCode::LDSetSoundTimer(3));
    assert_eq!(OpCode::from_opcode(0xF31E), OpCode::ADDI(3));
    assert_eq!(OpCode::from_opcode(0xF329), OpCode::LDSprite(3));
    assert_eq!(OpCode::from_opcode(0xF333), OpCode::LDBCD(3));
    assert_eq!(OpCode::from_opcode(0xF355), OpCode::LDS(3));
    assert_eq!(OpCode::from_opcode(0xF365), OpCode::LDR(3));
}

#[test]
fn decode_sys_and_data_edges() {
    // A word with all-zero low nibbles that matches no earlier entry
    // falls to the SYS row of the table.
    assert_eq!(OpCode::from_opcode(0xE000), OpCode::SYS(0));
    // Words matching no table entry at all degrade to DATA no-ops.
    assert_eq!(OpCode::from_opcode(0x5001), OpCode::DATA(0x5001));
    assert_eq!(OpCode::from_opcode(0x800A), OpCode::DATA(0x800A));
    assert_eq!(OpCode::from_opcode(0xE0FF), OpCode::DATA(0xE0FF));
}

#[test]
fn decode_is_total_and_deterministic() {
    // Every 16-bit word decodes, and decoding twice gives the same
    // variant.
    let mut w: u32 = 0;
    while w <= 0xFFFF {
        let a = OpCode::from_opcode(w as u16);
        let b = OpCode::from_opcode(w as u16);
        assert_eq!(a, b);
        w += 1;
    }
}

#[test]
fn extract_word_in_bounds() {
    let buf = [0x12u8, 0x34, 0x56];
    assert_eq!(extract_opcode_from_array(&buf, 0), 0x1234);
    assert_eq!(extract_opcode_from_array(&buf, 1), 0x3456);
}

#[test]
fn extract_word_out_of_bounds_is_zero() {
    let buf = [0x12u8, 0x34, 0x56];
    // The second byte of the word lies outside the buffer.
    assert_eq!(extract_opcode_from_array(&buf, 2), 0);
    assert_eq!(extract_opcode_from_array(&buf, 3), 0);
    assert_eq!(extract_opcode_from_array(&buf, usize::MAX), 0);
    assert_eq!(extract_opcode_from_array(&[], 0), 0);
}
