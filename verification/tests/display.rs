use chippy::opcode::{BadInstruction, OpCode};

#[test]
fn mnemonics_for_plain_instructions() {
    let (mnemonic, verbose) = OpCode::from_opcode(0x00E0).get_opcode_str();
    assert_eq!(mnemonic, "CLS");
    assert_eq!(verbose, "clearing screen");

    let (mnemonic, verbose) = OpCode::from_opcode(0x1234).get_opcode_str();
    assert_eq!(mnemonic, "JP 0234");
    assert_eq!(verbose, "jumping to address 0234");

    let (mnemonic, verbose) = OpCode::from_opcode(0x6A07).get_opcode_str();
    assert_eq!(mnemonic, "LD VA, 07");
    assert_eq!(verbose, "set VA = 07");
}

#[test]
fn mnemonics_render_operands_in_hex() {
    let (mnemonic, _) = OpCode::from_opcode(0xA0FE).get_opcode_str();
    assert_eq!(mnemonic, "LD I, 00FE");

    let (mnemonic, verbose) = OpCode::from_opcode(0xC2F0).get_opcode_str();
    assert_eq!(mnemonic, "RND V2, F0");
    assert_eq!(verbose, "set V2 = random byte AND F0");

    let (mnemonic, verbose) = OpCode::from_opcode(0xD12F).get_opcode_str();
    assert_eq!(mnemonic, "DRW V1, V2, 0F");
    assert_eq!(
        verbose,
        "display sprite starting at mem. location I at (V1, V2) on 15 bytes, set VF = collision"
    );
}

#[test]
fn data_words_are_shown_raw() {
    let (mnemonic, verbose) = OpCode::from_opcode(0xFFFF).get_opcode_str();
    assert_eq!(mnemonic, "DATA FFFF");
    assert_eq!(verbose, "- data (FFFF)");

    let (mnemonic, verbose) = OpCode::from_opcode(0x0000).get_opcode_str();
    assert_eq!(mnemonic, "EMPTY");
    assert_eq!(verbose, "- empty");
}

#[test]
fn bad_instruction_message() {
    let bad = BadInstruction(String::from("0xBEEF"));
    assert_eq!(bad.message(), "bad instruction: 0xBEEF.");
}
