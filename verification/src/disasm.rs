//! Display strings for decoded instructions: a short assembly mnemonic
//! and a verbose description, for disassembly views only.

use vstd::prelude::*;

use crate::opcode::{lemma_opcode_fields, spec_decode, OpCode};

verus! {

/// The upper-case character for hexadecimal digit `n`.
pub open spec fn spec_hex_digit(n: u8) -> char {
    if n == 0 {
        '0'
    } else if n == 1 {
        '1'
    } else if n == 2 {
        '2'
    } else if n == 3 {
        '3'
    } else if n == 4 {
        '4'
    } else if n == 5 {
        '5'
    } else if n == 6 {
        '6'
    } else if n == 7 {
        '7'
    } else if n == 8 {
        '8'
    } else if n == 9 {
        '9'
    } else if n == 10 {
        'A'
    } else if n == 11 {
        'B'
    } else if n == 12 {
        'C'
    } else if n == 13 {
        'D'
    } else if n == 14 {
        'E'
    } else {
        'F'
    }
}

/// A register index rendered as one hexadecimal digit.
pub open spec fn spec_hex1(n: u8) -> Seq<char> {
    seq![spec_hex_digit(n)]
}

/// A byte rendered as two hexadecimal digits.
pub open spec fn spec_hex2(b: u8) -> Seq<char> {
    seq![spec_hex_digit((b / 16) as u8), spec_hex_digit((b % 16) as u8)]
}

/// A word rendered as four hexadecimal digits.
pub open spec fn spec_hex4(w: u16) -> Seq<char> {
    seq![
        spec_hex_digit((w / 4096) as u8),
        spec_hex_digit(((w / 256) % 16) as u8),
        spec_hex_digit(((w / 16) % 16) as u8),
        spec_hex_digit((w % 16) as u8),
    ]
}

/// A byte rendered in decimal without padding.
pub open spec fn spec_dec(b: u8) -> Seq<char> {
    if b < 10 {
        seq![spec_hex_digit(b)]
    } else if b < 100 {
        seq![spec_hex_digit((b / 10) as u8), spec_hex_digit((b % 10) as u8)]
    } else {
        seq![
            spec_hex_digit((b / 100) as u8),
            spec_hex_digit(((b / 10) % 10) as u8),
            spec_hex_digit((b % 10) as u8),
        ]
    }
}

/// Register-index operands fit in one nibble, as the decoder produces
/// them.
pub open spec fn spec_operands_in_range(op: OpCode) -> bool {
    match op {
        OpCode::SEByte(reg, _) => reg < 16,
        OpCode::SNEByte(reg, _) => reg < 16,
        OpCode::SE(reg1, reg2) => reg1 < 16 && reg2 < 16,
        OpCode::LDByte(reg, _) => reg < 16,
        OpCode::ADDByte(reg, _) => reg < 16,
        OpCode::LD(reg1, reg2) => reg1 < 16 && reg2 < 16,
        OpCode::OR(reg1, reg2) => reg1 < 16 && reg2 < 16,
        OpCode::AND(reg1, reg2) => reg1 < 16 && reg2 < 16,
        OpCode::XOR(reg1, reg2) => reg1 < 16 && reg2 < 16,
        OpCode::ADD(reg1, reg2) => reg1 < 16 && reg2 < 16,
        OpCode::SUB(reg1, reg2) => reg1 < 16 && reg2 < 16,
        OpCode::SHR(reg1, reg2) => reg1 < 16 && reg2 < 16,
        OpCode::SUBN(reg1, reg2) => reg1 < 16 && reg2 < 16,
        OpCode::SHL(reg1, reg2) => reg1 < 16 && reg2 < 16,
        OpCode::SNE(reg1, reg2) => reg1 < 16 && reg2 < 16,
        OpCode::RND(reg, _) => reg < 16,
        OpCode::DRW(reg1, reg2, _) => reg1 < 16 && reg2 < 16,
        OpCode::SKP(reg) => reg < 16,
        OpCode::SKNP(reg) => reg < 16,
        OpCode::LDGetDelayTimer(reg) => reg < 16,
        OpCode::LDGetKey(reg) => reg < 16,
        OpCode::LDSetDelayTimer(reg) => reg < 16,
        OpCode::LDSetSoundTimer(reg) => reg < 16,
        OpCode::ADDI(reg) => reg < 16,
        OpCode::LDSprite(reg) => reg < 16,
        OpCode::LDBCD(reg) => reg < 16,
        OpCode::LDS(reg) => reg < 16,
        OpCode::LDR(reg) => reg < 16,
        _ => true,
    }
}

/// Every decoded word has its register-index operands in range.
pub proof fn lemma_decode_operands_in_range(w: u16)
    ensures
        spec_operands_in_range(spec_decode(w)),
{
    lemma_opcode_fields(w);
}

/// The assembly mnemonic of an instruction.
pub open spec fn spec_asm_str(op: OpCode) -> Seq<char> {
    match op {
        OpCode::SYS(addr) => "SYS "@ + spec_hex4(addr),
        OpCode::CLS => "CLS"@,
        OpCode::RET => "RET"@,
        OpCode::JP(addr) => "JP "@ + spec_hex4(addr),
        OpCode::CALL(addr) => "CALL "@ + spec_hex4(addr),
        OpCode::SEByte(reg, byte) => "SE V"@ + spec_hex1(reg) + ", "@ + spec_hex2(byte),
        OpCode::SNEByte(reg, byte) => "SNE V"@ + spec_hex1(reg) + ", "@ + spec_hex2(byte),
        OpCode::SE(reg1, reg2) => "SE V"@ + spec_hex1(reg1) + ", V"@ + spec_hex1(reg2),
        OpCode::LDByte(reg, byte) => "LD V"@ + spec_hex1(reg) + ", "@ + spec_hex2(byte),
        OpCode::ADDByte(reg, byte) => "ADD V"@ + spec_hex1(reg) + ", "@ + spec_hex2(byte),
        OpCode::LD(reg1, reg2) => "LD V"@ + spec_hex1(reg1) + ", V"@ + spec_hex1(reg2),
        OpCode::OR(reg1, reg2) => "OR V"@ + spec_hex1(reg1) + ", V"@ + spec_hex1(reg2),
        OpCode::AND(reg1, reg2) => "AND V"@ + spec_hex1(reg1) + ", V"@ + spec_hex1(reg2),
        OpCode::XOR(reg1, reg2) => "XOR V"@ + spec_hex1(reg1) + ", V"@ + spec_hex1(reg2),
        OpCode::ADD(reg1, reg2) => "AND V"@ + spec_hex1(reg1) + ", V"@ + spec_hex1(reg2),
        OpCode::SUB(reg1, reg2) => "SUB V"@ + spec_hex1(reg1) + ", V"@ + spec_hex1(reg2),
        OpCode::SHR(reg, _) => "SHR V"@ + spec_hex1(reg),
        OpCode::SUBN(reg1, reg2) => "SUBN V"@ + spec_hex1(reg1) + ", V"@ + spec_hex1(reg2),
        OpCode::SHL(reg, _) => "SHL V"@ + spec_hex1(reg),
        OpCode::SNE(reg1, reg2) => "SNE V"@ + spec_hex1(reg1) + ", V"@ + spec_hex1(reg2),
        OpCode::LDI(addr) => "LD I, "@ + spec_hex4(addr),
        OpCode::JP0(addr) => "JP V0, "@ + spec_hex4(addr),
        OpCode::RND(reg, byte) => "RND V"@ + spec_hex1(reg) + ", "@ + spec_hex2(byte),
        OpCode::DRW(reg1, reg2, byte) => "DRW V"@ + spec_hex1(reg1) + ", V"@ + spec_hex1(reg2)
            + ", "@ + spec_hex2(byte),
        OpCode::SKP(reg) => "SKP V"@ + spec_hex1(reg),
        OpCode::SKNP(reg) => "SKNP V"@ + spec_hex1(reg),
        OpCode::LDGetDelayTimer(reg) => "LD V"@ + spec_hex1(reg) + ", DT"@,
        OpCode::LDGetKey(reg) => "LD V"@ + spec_hex1(reg) + ", K"@,
        OpCode::LDSetDelayTimer(reg) => "LD DT, V"@ + spec_hex1(reg),
        OpCode::LDSetSoundTimer(reg) => "LD ST, V"@ + spec_hex1(reg),
        OpCode::ADDI(reg) => "ADD I, V"@ + spec_hex1(reg),
        OpCode::LDSprite(reg) => "LD F, V"@ + spec_hex1(reg),
        OpCode::LDBCD(reg) => "LD B, V"@ + spec_hex1(reg),
        OpCode::LDS(reg) => "LD [I], V"@ + spec_hex1(reg),
        OpCode::LDR(reg) => "LD V"@ + spec_hex1(reg) + ", [I]"@,
        OpCode::EMPTY => "EMPTY"@,
        OpCode::DATA(word) => "DATA "@ + spec_hex4(word),
    }
}

/// The verbose description of an instruction.
pub open spec fn spec_verbose_str(op: OpCode) -> Seq<char> {
    match op {
        OpCode::SYS(addr) => "executing system routine at "@ + spec_hex4(addr) + " (NOP)"@,
        OpCode::CLS => "clearing screen"@,
        OpCode::RET => "return from subroutine"@,
        OpCode::JP(addr) => "jumping to address "@ + spec_hex4(addr),
        OpCode::CALL(addr) => "call subroutine at "@ + spec_hex4(addr),
        OpCode::SEByte(reg, byte) => "skip next instruction if V"@ + spec_hex1(reg) + " = "@
            + spec_hex2(byte),
        OpCode::SNEByte(reg, byte) => "skip next instruction if V"@ + spec_hex1(reg) + " != "@
            + spec_hex2(byte),
        OpCode::SE(reg1, reg2) => "skip next instruction if V"@ + spec_hex1(reg1) + " = V"@
            + spec_hex1(reg2),
        OpCode::LDByte(reg, byte) => "set V"@ + spec_hex1(reg) + " = "@ + spec_hex2(byte),
        OpCode::ADDByte(reg, byte) => "set V"@ + spec_hex1(reg) + " = V"@ + spec_hex1(reg) + " + "@
            + spec_hex2(byte),
        OpCode::LD(reg1, reg2) => "set V"@ + spec_hex1(reg1) + " = V"@ + spec_hex1(reg2),
        OpCode::OR(reg1, reg2) => "set V"@ + spec_hex1(reg1) + " = V"@ + spec_hex1(reg1) + " OR V"@
            + spec_hex1(reg2),
        OpCode::AND(reg1, reg2) => "set V"@ + spec_hex1(reg1) + " = V"@ + spec_hex1(reg1)
            + " AND V"@ + spec_hex1(reg2),
        OpCode::XOR(reg1, reg2) => "set V"@ + spec_hex1(reg1) + " = V"@ + spec_hex1(reg1)
            + " XOR V"@ + spec_hex1(reg2),
        OpCode::ADD(reg1, reg2) => "set V"@ + spec_hex1(reg1) + " = V"@ + spec_hex1(reg1) + " + V"@
            + spec_hex1(reg2) + ", set VF = carry"@,
        OpCode::SUB(reg1, reg2) => "set V"@ + spec_hex1(reg1) + " = V"@ + spec_hex1(reg1) + " - V"@
            + spec_hex1(reg2) + ", set VF = NOT borrow"@,
        OpCode::SHR(reg, _) => "set V"@ + spec_hex1(reg) + " = V"@ + spec_hex1(reg) + " SHR 1"@,
        OpCode::SUBN(reg1, reg2) => "set V"@ + spec_hex1(reg1) + " = V"@ + spec_hex1(reg2)
            + " - V"@ + spec_hex1(reg1) + ", set VF = NOT borrow"@,
        OpCode::SHL(reg, _) => "set V"@ + spec_hex1(reg) + " = V"@ + spec_hex1(reg) + " SHL 1"@,
        OpCode::SNE(reg1, reg2) => "skip next instruction if V"@ + spec_hex1(reg1) + " != V"@
            + spec_hex1(reg2),
        OpCode::LDI(addr) => "set I = "@ + spec_hex4(addr),
        OpCode::JP0(addr) => "jump to location "@ + spec_hex4(addr) + " + V0"@,
        OpCode::RND(reg, byte) => "set V"@ + spec_hex1(reg) + " = random byte AND "@ + spec_hex2(
            byte,
        ),
        OpCode::DRW(reg1, reg2, byte) => "display sprite starting at mem. location I at (V"@
            + spec_hex1(reg1) + ", V"@ + spec_hex1(reg2) + ") on "@ + spec_dec(byte)
            + " bytes, set VF = collision"@,
        OpCode::SKP(reg) => "skip next instruction if key with the value of V"@ + spec_hex1(reg)
            + " is pressed"@,
        OpCode::SKNP(reg) => "skip next instruction if key with the value of V"@ + spec_hex1(reg)
            + " is not pressed"@,
        OpCode::LDGetDelayTimer(reg) => "set V"@ + spec_hex1(reg) + " = delay timer value"@,
        OpCode::LDGetKey(reg) => "wait for a key press, store the value of the key in V"@
            + spec_hex1(reg),
        OpCode::LDSetDelayTimer(reg) => "set delay timer = V"@ + spec_hex1(reg),
        OpCode::LDSetSoundTimer(reg) => "set sound timer = V"@ + spec_hex1(reg),
        OpCode::ADDI(reg) => "set I = I + V"@ + spec_hex1(reg),
        OpCode::LDSprite(reg) => "set I = location of sprite for digit V"@ + spec_hex1(reg),
        OpCode::LDBCD(reg) => "store BCD representation of V"@ + spec_hex1(reg)
            + " in memory locations I, I+1 and I+2"@,
        OpCode::LDS(reg) => "store registers V0 through V"@ + spec_hex1(reg)
            + " in memory starting at location I"@,
        OpCode::LDR(reg) => "read registers V0 through V"@ + spec_hex1(reg)
            + " from memory starting at location I"@,
        OpCode::EMPTY => "- empty"@,
        OpCode::DATA(word) => "- data ("@ + spec_hex4(word) + ")"@,
    }
}

/// Append the single upper-case hexadecimal digit for `n`.
fn append_hex_digit(s: &mut String, n: u8)
    requires
        n < 16,
    ensures
        final(s)@ == old(s)@ + seq![spec_hex_digit(n)],
{
    if n == 0 {
        s.append("0");
        proof {
            reveal_strlit("0");
            assert(old(s)@ + "0"@ =~= old(s)@ + seq![spec_hex_digit(n)]);
        }
    } else if n == 1 {
        s.append("1");
        proof {
            reveal_strlit("1");
            assert(old(s)@ + "1"@ =~= old(s)@ + seq![spec_hex_digit(n)]);
        }
    } else if n == 2 {
        s.append("2");
        proof {
            reveal_strlit("2");
            assert(old(s)@ + "2"@ =~= old(s)@ + seq![spec_hex_digit(n)]);
        }
    } else if n == 3 {
        s.append("3");
        proof {
            reveal_strlit("3");
            assert(old(s)@ + "3"@ =~= old(s)@ + seq![spec_hex_digit(n)]);
        }
    } else if n == 4 {
        s.append("4");
        proof {
            reveal_strlit("4");
            assert(old(s)@ + "4"@ =~= old(s)@ + seq![spec_hex_digit(n)]);
        }
    } else if n == 5 {
        s.append("5");
        proof {
            reveal_strlit("5");
            assert(old(s)@ + "5"@ =~= old(s)@ + seq![spec_hex_digit(n)]);
        }
    } else if n == 6 {
        s.append("6");
        proof {
            reveal_strlit("6");
            assert(old(s)@ + "6"@ =~= old(s)@ + seq![spec_hex_digit(n)]);
        }
    } else if n == 7 {
        s.append("7");
        proof {
            reveal_strlit("7");
            assert(old(s)@ + "7"@ =~= old(s)@ + seq![spec_hex_digit(n)]);
        }
    } else if n == 8 {
        s.append("8");
        proof {
            reveal_strlit("8");
            assert(old(s)@ + "8"@ =~= old(s)@ + seq![spec_hex_digit(n)]);
        }
    } else if n == 9 {
        s.append("9");
        proof {
            reveal_strlit("9");
            assert(old(s)@ + "9"@ =~= old(s)@ + seq![spec_hex_digit(n)]);
        }
    } else if n == 10 {
        s.append("A");
        proof {
            reveal_strlit("A");
            assert(old(s)@ + "A"@ =~= old(s)@ + seq![spec_hex_digit(n)]);
        }
    } else if n == 11 {
        s.append("B");
        proof {
            reveal_strlit("B");
            assert(old(s)@ + "B"@ =~= old(s)@ + seq![spec_hex_digit(n)]);
        }
    } else if n == 12 {
        s.append("C");
        proof {
            reveal_strlit("C");
            assert(old(s)@ + "C"@ =~= old(s)@ + seq![spec_hex_digit(n)]);
        }
    } else if n == 13 {
        s.append("D");
        proof {
            reveal_strlit("D");
            assert(old(s)@ + "D"@ =~= old(s)@ + seq![spec_hex_digit(n)]);
        }
    } else if n == 14 {
        s.append("E");
        proof {
            reveal_strlit("E");
            assert(old(s)@ + "E"@ =~= old(s)@ + seq![spec_hex_digit(n)]);
        }
    } else {
        s.append("F");
        proof {
            reveal_strlit("F");
            assert(old(s)@ + "F"@ =~= old(s)@ + seq![spec_hex_digit(n)]);
        }
    }
}

/// Append a register index as one hexadecimal digit.
fn append_hex1(s: &mut String, n: u8)
    requires
        n < 16,
    ensures
        final(s)@ == old(s)@ + spec_hex1(n),
{
    append_hex_digit(s, n);
}

/// Append a byte as two hexadecimal digits.
fn append_hex2(s: &mut String, b: u8)
    ensures
        final(s)@ == old(s)@ + spec_hex2(b),
{
    append_hex_digit(s, b / 16);
    append_hex_digit(s, b % 16);
    proof {
        assert(final(s)@ =~= old(s)@ + spec_hex2(b));
    }
}

/// Append a word as four hexadecimal digits.
fn append_hex4(s: &mut String, w: u16)
    ensures
        final(s)@ == old(s)@ + spec_hex4(w),
{
    append_hex_digit(s, (w / 4096) as u8);
    append_hex_digit(s, ((w / 256) % 16) as u8);
    append_hex_digit(s, ((w / 16) % 16) as u8);
    append_hex_digit(s, (w % 16) as u8);
    proof {
        assert(final(s)@ =~= old(s)@ + spec_hex4(w));
    }
}

/// Append a byte in decimal without padding.
fn append_dec(s: &mut String, b: u8)
    ensures
        final(s)@ == old(s)@ + spec_dec(b),
{
    if b < 10 {
        append_hex_digit(s, b);
    } else if b < 100 {
        append_hex_digit(s, b / 10);
        append_hex_digit(s, b % 10);
    } else {
        append_hex_digit(s, b / 100);
        append_hex_digit(s, (b / 10) % 10);
        append_hex_digit(s, b % 10);
    }
    proof {
        assert(final(s)@ =~= old(s)@ + spec_dec(b));
    }
}

impl OpCode {
    /// The display strings for this instruction: the assembly mnemonic
    /// and a verbose description, as a pair.
    pub fn get_opcode_str(&self) -> (r: (String, String))
        requires
            spec_operands_in_range(*self),
        ensures
            r.0@ == spec_asm_str(*self),
            r.1@ == spec_verbose_str(*self),
    {
        match self {
            OpCode::SYS(addr) => {
                let mut a = String::from_str("SYS ");
                append_hex4(&mut a, *addr);
                let mut v = String::from_str("executing system routine at ");
                append_hex4(&mut v, *addr);
                v.append(" (NOP)");
                (a, v)
            },
            OpCode::CLS => (String::from_str("CLS"), String::from_str("clearing screen")),
            OpCode::RET => (String::from_str("RET"), String::from_str("return from subroutine")),
            OpCode::JP(addr) => {
                let mut a = String::from_str("JP ");
                append_hex4(&mut a, *addr);
                let mut v = String::from_str("jumping to address ");
                append_hex4(&mut v, *addr);
                (a, v)
            },
            OpCode::CALL(addr) => {
                let mut a = String::from_str("CALL ");
                append_hex4(&mut a, *addr);
                let mut v = String::from_str("call subroutine at ");
                append_hex4(&mut v, *addr);
                (a, v)
            },
            OpCode::SEByte(reg, byte) => {
                let mut a = String::from_str("SE V");
                append_hex1(&mut a, *reg);
                a.append(", ");
                append_hex2(&mut a, *byte);
                let mut v = String::from_str("skip next instruction if V");
                append_hex1(&mut v, *reg);
                v.append(" = ");
                append_hex2(&mut v, *byte);
                (a, v)
            },
            OpCode::SNEByte(reg, byte) => {
                let mut a = String::from_str("SNE V");
                append_hex1(&mut a, *reg);
                a.append(", ");
                append_hex2(&mut a, *byte);
                let mut v = String::from_str("skip next instruction if V");
                append_hex1(&mut v, *reg);
                v.append(" != ");
                append_hex2(&mut v, *byte);
                (a, v)
            },
            OpCode::SE(reg1, reg2) => {
                let mut a = String::from_str("SE V");
                append_hex1(&mut a, *reg1);
                a.append(", V");
                append_hex1(&mut a, *reg2);
                let mut v = String::from_str("skip next instruction if V");
                append_hex1(&mut v, *reg1);
                v.append(" = V");
                append_hex1(&mut v, *reg2);
                (a, v)
            },
            OpCode::LDByte(reg, byte) => {
                let mut a = String::from_str("LD V");
                append_hex1(&mut a, *reg);
                a.append(", ");
                append_hex2(&mut a, *byte);
                let mut v = String::from_str("set V");
                append_hex1(&mut v, *reg);
                v.append(" = ");
                append_hex2(&mut v, *byte);
                (a, v)
            },
            OpCode::ADDByte(reg, byte) => {
                let mut a = String::from_str("ADD V");
                append_hex1(&mut a, *reg);
                a.append(", ");
                append_hex2(&mut a, *byte);
                let mut v = String::from_str("set V");
                append_hex1(&mut v, *reg);
                v.append(" = V");
                append_hex1(&mut v, *reg);
                v.append(" + ");
                append_hex2(&mut v, *byte);
                (a, v)
            },
            OpCode::LD(reg1, reg2) => {
                let mut a = String::from_str("LD V");
                append_hex1(&mut a, *reg1);
                a.append(", V");
                append_hex1(&mut a, *reg2);
                let mut v = String::from_str("set V");
                append_hex1(&mut v, *reg1);
                v.append(" = V");
                append_hex1(&mut v, *reg2);
                (a, v)
            },
            OpCode::OR(reg1, reg2) => {
                let mut a = String::from_str("OR V");
                append_hex1(&mut a, *reg1);
                a.append(", V");
                append_hex1(&mut a, *reg2);
                let mut v = String::from_str("set V");
                append_hex1(&mut v, *reg1);
                v.append(" = V");
                append_hex1(&mut v, *reg1);
                v.append(" OR V");
                append_hex1(&mut v, *reg2);
                (a, v)
            },
            OpCode::AND(reg1, reg2) => {
                let mut a = String::from_str("AND V");
                append_hex1(&mut a, *reg1);
                a.append(", V");
                append_hex1(&mut a, *reg2);
                let mut v = String::from_str("set V");
                append_hex1(&mut v, *reg1);
                v.append(" = V");
                append_hex1(&mut v, *reg1);
                v.append(" AND V");
                append_hex1(&mut v, *reg2);
                (a, v)
            },
            OpCode::XOR(reg1, reg2) => {
                let mut a = String::from_str("XOR V");
                append_hex1(&mut a, *reg1);
                a.append(", V");
                append_hex1(&mut a, *reg2);
                let mut v = String::from_str("set V");
                append_hex1(&mut v, *reg1);
                v.append(" = V");
                append_hex1(&mut v, *reg1);
                v.append(" XOR V");
                append_hex1(&mut v, *reg2);
                (a, v)
            },
            OpCode::ADD(reg1, reg2) => {
                let mut a = String::from_str("AND V");
                append_hex1(&mut a, *reg1);
                a.append(", V");
                append_hex1(&mut a, *reg2);
                let mut v = String::from_str("set V");
                append_hex1(&mut v, *reg1);
                v.append(" = V");
                append_hex1(&mut v, *reg1);
                v.append(" + V");
                append_hex1(&mut v, *reg2);
                v.append(", set VF = carry");
                (a, v)
            },
            OpCode::SUB(reg1, reg2) => {
                let mut a = String::from_str("SUB V");
                append_hex1(&mut a, *reg1);
                a.append(", V");
                append_hex1(&mut a, *reg2);
                let mut v = String::from_str("set V");
                append_hex1(&mut v, *reg1);
                v.append(" = V");
                append_hex1(&mut v, *reg1);
                v.append(" - V");
                append_hex1(&mut v, *reg2);
                v.append(", set VF = NOT borrow");
                (a, v)
            },
            OpCode::SHR(reg, _) => {
                let mut a = String::from_str("SHR V");
                append_hex1(&mut a, *reg);
                let mut v = String::from_str("set V");
                append_hex1(&mut v, *reg);
                v.append(" = V");
                append_hex1(&mut v, *reg);
                v.append(" SHR 1");
                (a, v)
            },
            OpCode::SUBN(reg1, reg2) => {
                let mut a = String::from_str("SUBN V");
                append_hex1(&mut a, *reg1);
                a.append(", V");
                append_hex1(&mut a, *reg2);
                let mut v = String::from_str("set V");
                append_hex1(&mut v, *reg1);
                v.append(" = V");
                append_hex1(&mut v, *reg2);
                v.append(" - V");
                append_hex1(&mut v, *reg1);
                v.append(", set VF = NOT borrow");
                (a, v)
            },
            OpCode::SHL(reg, _) => {
                let mut a = String::from_str("SHL V");
                append_hex1(&mut a, *reg);
                let mut v = String::from_str("set V");
                append_hex1(&mut v, *reg);
                v.append(" = V");
                append_hex1(&mut v, *reg);
                v.append(" SHL 1");
                (a, v)
            },
            OpCode::SNE(reg1, reg2) => {
                let mut a = String::from_str("SNE V");
                append_hex1(&mut a, *reg1);
                a.append(", V");
                append_hex1(&mut a, *reg2);
                let mut v = String::from_str("skip next instruction if V");
                append_hex1(&mut v, *reg1);
                v.append(" != V");
                append_hex1(&mut v, *reg2);
                (a, v)
            },
            OpCode::LDI(addr) => {
                let mut a = String::from_str("LD I, ");
                append_hex4(&mut a, *addr);
                let mut v = String::from_str("set I = ");
                append_hex4(&mut v, *addr);
                (a, v)
            },
            OpCode::JP0(addr) => {
                let mut a = String::from_str("JP V0, ");
                append_hex4(&mut a, *addr);
                let mut v = String::from_str("jump to location ");
                append_hex4(&mut v, *addr);
                v.append(" + V0");
                (a, v)
            },
            OpCode::RND(reg, byte) => {
                let mut a = String::from_str("RND V");
                append_hex1(&mut a, *reg);
                a.append(", ");
                append_hex2(&mut a, *byte);
                let mut v = String::from_str("set V");
                append_hex1(&mut v, *reg);
                v.append(" = random byte AND ");
                append_hex2(&mut v, *byte);
                (a, v)
            },
            OpCode::DRW(reg1, reg2, byte) => {
                let mut a = String::from_str("DRW V");
                append_hex1(&mut a, *reg1);
                a.append(", V");
                append_hex1(&mut a, *reg2);
                a.append(", ");
                append_hex2(&mut a, *byte);
                let mut v = String::from_str("display sprite starting at mem. location I at (V");
                append_hex1(&mut v, *reg1);
                v.append(", V");
                append_hex1(&mut v, *reg2);
                v.append(") on ");
                append_dec(&mut v, *byte);
                v.append(" bytes, set VF = collision");
                (a, v)
            },
            OpCode::SKP(reg) => {
                let mut a = String::from_str("SKP V");
                append_hex1(&mut a, *reg);
                let mut v = String::from_str("skip next instruction if key with the value of V");
                append_hex1(&mut v, *reg);
                v.append(" is pressed");
                (a, v)
            },
            OpCode::SKNP(reg) => {
                let mut a = String::from_str("SKNP V");
                append_hex1(&mut a, *reg);
                let mut v = String::from_str("skip next instruction if key with the value of V");
                append_hex1(&mut v, *reg);
                v.append(" is not pressed");
                (a, v)
            },
            OpCode::LDGetDelayTimer(reg) => {
                let mut a = String::from_str("LD V");
                append_hex1(&mut a, *reg);
                a.append(", DT");
                let mut v = String::from_str("set V");
                append_hex1(&mut v, *reg);
                v.append(" = delay timer value");
                (a, v)
            },
            OpCode::LDGetKey(reg) => {
                let mut a = String::from_str("LD V");
                append_hex1(&mut a, *reg);
                a.append(", K");
                let mut v = String::from_str(
                    "wait for a key press, store the value of the key in V",
                );
                append_hex1(&mut v, *reg);
                (a, v)
            },
            OpCode::LDSetDelayTimer(reg) => {
                let mut a = String::from_str("LD DT, V");
                append_hex1(&mut a, *reg);
                let mut v = String::from_str("set delay timer = V");
                append_hex1(&mut v, *reg);
                (a, v)
            },
            OpCode::LDSetSoundTimer(reg) => {
                let mut a = String::from_str("LD ST, V");
                append_hex1(&mut a, *reg);
                let mut v = String::from_str("set sound timer = V");
                append_hex1(&mut v, *reg);
                (a, v)
            },
            OpCode::ADDI(reg) => {
                let mut a = String::from_str("ADD I, V");
                append_hex1(&mut a, *reg);
                let mut v = String::from_str("set I = I + V");
                append_hex1(&mut v, *reg);
                (a, v)
            },
            OpCode::LDSprite(reg) => {
                let mut a = String::from_str("LD F, V");
                append_hex1(&mut a, *reg);
                let mut v = String::from_str("set I = location of sprite for digit V");
                append_hex1(&mut v, *reg);
                (a, v)
            },
            OpCode::LDBCD(reg) => {
                let mut a = String::from_str("LD B, V");
                append_hex1(&mut a, *reg);
                let mut v = String::from_str("store BCD representation of V");
                append_hex1(&mut v, *reg);
                v.append(" in memory locations I, I+1 and I+2");
                (a, v)
            },
            OpCode::LDS(reg) => {
                let mut a = String::from_str("LD [I], V");
                append_hex1(&mut a, *reg);
                let mut v = String::from_str("store registers V0 through V");
                append_hex1(&mut v, *reg);
                v.append(" in memory starting at location I");
                (a, v)
            },
            OpCode::LDR(reg) => {
                let mut a = String::from_str("LD V");
                append_hex1(&mut a, *reg);
                a.append(", [I]");
                let mut v = String::from_str("read registers V0 through V");
                append_hex1(&mut v, *reg);
                v.append(" from memory starting at location I");
                (a, v)
            },
            OpCode::EMPTY => (String::from_str("EMPTY"), String::from_str("- empty")),
            OpCode::DATA(word) => {
                let mut a = String::from_str("DATA ");
                append_hex4(&mut a, *word);
                let mut v = String::from_str("- data (");
                append_hex4(&mut v, *word);
                v.append(")");
                (a, v)
            },
        }
    }
}

} // verus!
