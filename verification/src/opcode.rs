//! Instruction decoding: a 16-bit word is classified by an ordered
//! flag/mask table into exactly one tagged instruction variant.

use vstd::prelude::*;

use crate::types::{C8Addr, C8Byte, C8RegIdx};

verus! {

/// Diagnostic record for an instruction that could not be handled,
/// carrying a short description of the offending word.
pub struct BadInstruction(pub String);

impl BadInstruction {
    /// Human-readable description of the bad instruction.
    pub fn message(&self) -> (r: String)
        ensures
            r@ == "bad instruction: "@ + self.0@ + "."@,
    {
        let mut s = String::from_str("bad instruction: ");
        s.append(self.0.as_str());
        s.append(".");
        s
    }
}

/// One decoded machine instruction.
#[derive(Debug, PartialEq, Eq, Structural)]
pub enum OpCode {
    /// 0nnn - SYS addr. Jump to a machine code routine at nnn;
    /// ignored by modern interpreters (NOP here).
    SYS(C8Addr),
    /// 00E0 - CLS. Clear the display.
    CLS,
    /// 00EE - RET. Return from a subroutine.
    RET,
    /// 1nnn - JP addr. Jump to location nnn.
    JP(C8Addr),
    /// 2nnn - CALL addr. Call subroutine at nnn.
    CALL(C8Addr),
    /// 3xkk - SE Vx, byte. Skip next instruction if Vx = kk.
    SEByte(C8RegIdx, C8Byte),
    /// 4xkk - SNE Vx, byte. Skip next instruction if Vx != kk.
    SNEByte(C8RegIdx, C8Byte),
    /// 5xy0 - SE Vx, Vy. Skip next instruction if Vx = Vy.
    SE(C8RegIdx, C8RegIdx),
    /// 6xkk - LD Vx, byte. Set Vx = kk.
    LDByte(C8RegIdx, C8Byte),
    /// 7xkk - ADD Vx, byte. Set Vx = Vx + kk (wrapping, no flag).
    ADDByte(C8RegIdx, C8Byte),
    /// 8xy0 - LD Vx, Vy. Set Vx = Vy.
    LD(C8RegIdx, C8RegIdx),
    /// 8xy1 - OR Vx, Vy. Set Vx = Vx OR Vy.
    OR(C8RegIdx, C8RegIdx),
    /// 8xy2 - AND Vx, Vy. Set Vx = Vx AND Vy.
    AND(C8RegIdx, C8RegIdx),
    /// 8xy3 - XOR Vx, Vy. Set Vx = Vx XOR Vy.
    XOR(C8RegIdx, C8RegIdx),
    /// 8xy4 - ADD Vx, Vy. Set Vx = Vx + Vy, set VF = carry.
    ADD(C8RegIdx, C8RegIdx),
    /// 8xy5 - SUB Vx, Vy. Set Vx = Vx - Vy, set VF = 1 iff Vx > Vy.
    SUB(C8RegIdx, C8RegIdx),
    /// 8xy6 - SHR Vx {, Vy}. VF = low bit of Vx, then Vx >>= 1.
    SHR(C8RegIdx, C8RegIdx),
    /// 8xy7 - SUBN Vx, Vy. Set Vx = Vy - Vx, set VF = 1 iff Vy > Vx.
    SUBN(C8RegIdx, C8RegIdx),
    /// 8xyE - SHL Vx {, Vy}. VF = high bit of Vx, then Vx <<= 1.
    SHL(C8RegIdx, C8RegIdx),
    /// 9xy0 - SNE Vx, Vy. Skip next instruction if Vx != Vy.
    SNE(C8RegIdx, C8RegIdx),
    /// Annn - LD I, addr. Set I = nnn.
    LDI(C8Addr),
    /// Bnnn - JP V0, addr. Jump to location nnn + V0.
    JP0(C8Addr),
    /// Cxkk - RND Vx, byte. Set Vx = random byte AND kk.
    RND(C8RegIdx, C8Byte),
    /// Dxyn - DRW Vx, Vy, nibble. XOR-blit an n-byte sprite from
    /// memory[I..] at (Vx, Vy), set VF from the collision outcome.
    DRW(C8RegIdx, C8RegIdx, C8Byte),
    /// Ex9E - SKP Vx. Skip next instruction if key Vx is pressed.
    SKP(C8RegIdx),
    /// ExA1 - SKNP Vx. Skip next instruction if key Vx is not pressed.
    SKNP(C8RegIdx),
    /// Fx07 - LD Vx, DT. Set Vx = delay timer value.
    LDGetDelayTimer(C8RegIdx),
    /// Fx0A - LD Vx, K. Wait for a key press, store the key in Vx.
    LDGetKey(C8RegIdx),
    /// Fx15 - LD DT, Vx. Set delay timer = Vx.
    LDSetDelayTimer(C8RegIdx),
    /// Fx18 - LD ST, Vx. Set sound timer = Vx.
    LDSetSoundTimer(C8RegIdx),
    /// Fx1E - ADD I, Vx. Set I = I + Vx (wrapping 16-bit).
    ADDI(C8RegIdx),
    /// Fx29 - LD F, Vx. Set I = location of the font sprite for digit Vx.
    LDSprite(C8RegIdx),
    /// Fx33 - LD B, Vx. Store the decimal digits of Vx at I, I+1, I+2.
    LDBCD(C8RegIdx),
    /// Fx55 - LD [I], Vx. Store registers V0..=Vx in memory at I.
    LDS(C8RegIdx),
    /// Fx65 - LD Vx, [I]. Read registers V0..=Vx from memory at I.
    LDR(C8RegIdx),
    /// 0000 - EMPTY. All-zero word, a no-op.
    EMPTY,
    /// xxxx - Data: a word matching no table entry, kept for display.
    DATA(C8Addr),
}

/// High operand nibble of a word: `(w >> 8) & 0xF`.
pub open spec fn spec_b3(w: u16) -> u8 {
    (((w & 0x0F00) >> 8) as u8)
}

/// Middle operand nibble of a word: `(w >> 4) & 0xF`.
pub open spec fn spec_b2(w: u16) -> u8 {
    (((w & 0x00F0) >> 4) as u8)
}

/// Low operand nibble of a word.
pub open spec fn spec_b1(w: u16) -> u8 {
    ((w & 0x000F) as u8)
}

/// 12-bit address operand: the low three nibbles of a word.
pub open spec fn spec_addr(w: u16) -> u16 {
    w & 0x0FFF
}

/// Byte operand: the low two nibbles of a word.
pub open spec fn spec_kk(w: u16) -> u8 {
    ((w & 0x00FF) as u8)
}

/// Bounds of the operand fields, and how the nibble-composed address and
/// byte operands relate to plain masking of the word.
pub proof fn lemma_opcode_fields(w: u16)
    ensures
        spec_b3(w) < 16,
        spec_b2(w) < 16,
        spec_b1(w) < 16,
        spec_addr(w) < 4096,
        ((spec_b3(w) as u16) << 8) < 4096,
        ((spec_b2(w) as u16) << 4) < 256,
        ((spec_b3(w) as u16) << 8) + ((spec_b2(w) as u16) << 4) + (spec_b1(w) as u16)
            == spec_addr(w),
        (spec_b2(w) << 4) < 256,
        (spec_b2(w) << 4) + spec_b1(w) == spec_kk(w),
{
    assert((((w & 0x0F00) >> 8) as u8) < 16 && (((w & 0x00F0) >> 4) as u8) < 16 && ((w
        & 0x000F) as u8) < 16 && (w & 0x0FFF) < 4096 && ((((((w & 0x0F00) >> 8) as u8)) as u16)
        << 8) < 4096 && ((((((w & 0x00F0) >> 4) as u8)) as u16) << 4) < 256 && ((((((w & 0x0F00)
        >> 8) as u8)) as u16) << 8) + (((((w & 0x00F0) >> 4) as u8) as u16) << 4) + (((w
        & 0x000F) as u8) as u16) == (w & 0x0FFF) && ((((w & 0x00F0) >> 4) as u8) << 4) < 256 && ((((w
        & 0x00F0) >> 4) as u8) << 4) + ((w & 0x000F) as u8) == ((w & 0x00FF) as u8)) by (bit_vector);
}

/// The ordered flag/mask table: the identifier of the first entry whose
/// mask selects the word's flag bits, or 255 when no entry matches.
/// More specific masks come first, so overlapping prefixes resolve to
/// the most specific entry.
pub open spec fn spec_opcode_id(w: u16) -> u16 {
    if w & 0xFFFF == 0x0000 {
        35
    } else if w & 0xFFFF == 0x00E0 {
        1
    } else if w & 0xFFFF == 0x00EE {
        2
    } else if w & 0xF00F == 0x5000 {
        7
    } else if w & 0xF00F == 0x8000 {
        10
    } else if w & 0xF00F == 0x8001 {
        11
    } else if w & 0xF00F == 0x8002 {
        12
    } else if w & 0xF00F == 0x8003 {
        13
    } else if w & 0xF00F == 0x8004 {
        14
    } else if w & 0xF00F == 0x8005 {
        15
    } else if w & 0xF00F == 0x8006 {
        16
    } else if w & 0xF00F == 0x8007 {
        17
    } else if w & 0xF00F == 0x800E {
        18
    } else if w & 0xF00F == 0x9000 {
        19
    } else if w & 0xF0FF == 0xE09E {
        24
    } else if w & 0xF0FF == 0xE0A1 {
        25
    } else if w & 0xF0FF == 0xF007 {
        26
    } else if w & 0xF0FF == 0xF00A {
        27
    } else if w & 0xF0FF == 0xF015 {
        28
    } else if w & 0xF0FF == 0xF018 {
        29
    } else if w & 0xF0FF == 0xF01E {
        30
    } else if w & 0xF0FF == 0xF029 {
        31
    } else if w & 0xF0FF == 0xF033 {
        32
    } else if w & 0xF0FF == 0xF055 {
        33
    } else if w & 0xF0FF == 0xF065 {
        34
    } else if w & 0xF000 == 0x1000 {
        3
    } else if w & 0xF000 == 0x2000 {
        4
    } else if w & 0xF000 == 0x3000 {
        5
    } else if w & 0xF000 == 0x4000 {
        6
    } else if w & 0xF000 == 0x6000 {
        8
    } else if w & 0xF000 == 0x7000 {
        9
    } else if w & 0xF000 == 0xA000 {
        20
    } else if w & 0xF000 == 0xB000 {
        21
    } else if w & 0xF000 == 0xC000 {
        22
    } else if w & 0xF000 == 0xD000 {
        23
    } else if w & 0x0FFF == 0x0000 {
        0
    } else {
        255
    }
}

/// What a word decodes to: the variant selected by the ordered table,
/// with its operand fields extracted from the word, or `DATA` carrying
/// the raw word when no entry matches.
pub open spec fn spec_decode(w: u16) -> OpCode {
    let id = spec_opcode_id(w);
    let b3 = spec_b3(w);
    let b2 = spec_b2(w);
    let b1 = spec_b1(w);
    let addr = spec_addr(w);
    let kk = spec_kk(w);
    if id == 0 {
        OpCode::SYS(addr)
    } else if id == 1 {
        OpCode::CLS
    } else if id == 2 {
        OpCode::RET
    } else if id == 3 {
        OpCode::JP(addr)
    } else if id == 4 {
        OpCode::CALL(addr)
    } else if id == 5 {
        OpCode::SEByte(b3, kk)
    } else if id == 6 {
        OpCode::SNEByte(b3, kk)
    } else if id == 7 {
        OpCode::SE(b3, b2)
    } else if id == 8 {
        OpCode::LDByte(b3, kk)
    } else if id == 9 {
        OpCode::ADDByte(b3, kk)
    } else if id == 10 {
        OpCode::LD(b3, b2)
    } else if id == 11 {
        OpCode::OR(b3, b2)
    } else if id == 12 {
        OpCode::AND(b3, b2)
    } else if id == 13 {
        OpCode::XOR(b3, b2)
    } else if id == 14 {
        OpCode::ADD(b3, b2)
    } else if id == 15 {
        OpCode::SUB(b3, b2)
    } else if id == 16 {
        OpCode::SHR(b3, b2)
    } else if id == 17 {
        OpCode::SUBN(b3, b2)
    } else if id == 18 {
        OpCode::SHL(b3, b2)
    } else if id == 19 {
        OpCode::SNE(b3, b2)
    } else if id == 20 {
        OpCode::LDI(addr)
    } else if id == 21 {
        OpCode::JP0(addr)
    } else if id == 22 {
        OpCode::RND(b3, kk)
    } else if id == 23 {
        OpCode::DRW(b3, b2, b1)
    } else if id == 24 {
        OpCode::SKP(b3)
    } else if id == 25 {
        OpCode::SKNP(b3)
    } else if id == 26 {
        OpCode::LDGetDelayTimer(b3)
    } else if id == 27 {
        OpCode::LDGetKey(b3)
    } else if id == 28 {
        OpCode::LDSetDelayTimer(b3)
    } else if id == 29 {
        OpCode::LDSetSoundTimer(b3)
    } else if id == 30 {
        OpCode::ADDI(b3)
    } else if id == 31 {
        OpCode::LDSprite(b3)
    } else if id == 32 {
        OpCode::LDBCD(b3)
    } else if id == 33 {
        OpCode::LDS(b3)
    } else if id == 34 {
        OpCode::LDR(b3)
    } else if id == 35 {
        OpCode::EMPTY
    } else {
        OpCode::DATA(w)
    }
}

/// Decoding is total and a function of the word alone: equal words
/// always decode to the same single variant.
pub proof fn lemma_decode_deterministic(w1: u16, w2: u16)
    requires
        w1 == w2,
    ensures
        spec_decode(w1) == spec_decode(w2),
{
}

impl OpCode {
    /// Walk the ordered flag/mask table and return the identifier of the
    /// first matching entry, or 255 when no entry matches.
    fn extract_opcode_id(opcode: C8Addr) -> (id: C8Addr)
        ensures
            id == spec_opcode_id(opcode),
    {
        if opcode & 0xFFFF == 0x0000 {
            35
        } else if opcode & 0xFFFF == 0x00E0 {
            1
        } else if opcode & 0xFFFF == 0x00EE {
            2
        } else if opcode & 0xF00F == 0x5000 {
            7
        } else if opcode & 0xF00F == 0x8000 {
            10
        } else if opcode & 0xF00F == 0x8001 {
            11
        } else if opcode & 0xF00F == 0x8002 {
            12
        } else if opcode & 0xF00F == 0x8003 {
            13
        } else if opcode & 0xF00F == 0x8004 {
            14
        } else if opcode & 0xF00F == 0x8005 {
            15
        } else if opcode & 0xF00F == 0x8006 {
            16
        } else if opcode & 0xF00F == 0x8007 {
            17
        } else if opcode & 0xF00F == 0x800E {
            18
        } else if opcode & 0xF00F == 0x9000 {
            19
        } else if opcode & 0xF0FF == 0xE09E {
            24
        } else if opcode & 0xF0FF == 0xE0A1 {
            25
        } else if opcode & 0xF0FF == 0xF007 {
            26
        } else if opcode & 0xF0FF == 0xF00A {
            27
        } else if opcode & 0xF0FF == 0xF015 {
            28
        } else if opcode & 0xF0FF == 0xF018 {
            29
        } else if opcode & 0xF0FF == 0xF01E {
            30
        } else if opcode & 0xF0FF == 0xF029 {
            31
        } else if opcode & 0xF0FF == 0xF033 {
            32
        } else if opcode & 0xF0FF == 0xF055 {
            33
        } else if opcode & 0xF0FF == 0xF065 {
            34
        } else if opcode & 0xF000 == 0x1000 {
            3
        } else if opcode & 0xF000 == 0x2000 {
            4
        } else if opcode & 0xF000 == 0x3000 {
            5
        } else if opcode & 0xF000 == 0x4000 {
            6
        } else if opcode & 0xF000 == 0x6000 {
            8
        } else if opcode & 0xF000 == 0x7000 {
            9
        } else if opcode & 0xF000 == 0xA000 {
            20
        } else if opcode & 0xF000 == 0xB000 {
            21
        } else if opcode & 0xF000 == 0xC000 {
            22
        } else if opcode & 0xF000 == 0xD000 {
            23
        } else if opcode & 0x0FFF == 0x0000 {
            0
        } else {
            255
        }
    }

    /// Decode a 16-bit word into its instruction variant.
    pub fn from_opcode(opcode: C8Addr) -> (r: Self)
        ensures
            r == spec_decode(opcode),
    {
        let action_id = Self::extract_opcode_id(opcode);

        proof {
            lemma_opcode_fields(opcode);
        }

        let b3 = ((opcode & 0x0F00) >> 8) as C8Byte;
        let b2 = ((opcode & 0x00F0) >> 4) as C8Byte;
        let b1 = (opcode & 0x000F) as C8Byte;

        let addr = ((b3 as C8Addr) << 8) + ((b2 as C8Addr) << 4) + (b1 as C8Addr);
        let kk = (b2 << 4) + b1;

        match action_id {
            0 => Self::SYS(addr),
            1 => Self::CLS,
            2 => Self::RET,
            3 => Self::JP(addr),
            4 => Self::CALL(addr),
            5 => Self::SEByte(b3, kk),
            6 => Self::SNEByte(b3, kk),
            7 => Self::SE(b3, b2),
            8 => Self::LDByte(b3, kk),
            9 => Self::ADDByte(b3, kk),
            10 => Self::LD(b3, b2),
            11 => Self::OR(b3, b2),
            12 => Self::AND(b3, b2),
            13 => Self::XOR(b3, b2),
            14 => Self::ADD(b3, b2),
            15 => Self::SUB(b3, b2),
            16 => Self::SHR(b3, b2),
            17 => Self::SUBN(b3, b2),
            18 => Self::SHL(b3, b2),
            19 => Self::SNE(b3, b2),
            20 => Self::LDI(addr),
            21 => Self::JP0(addr),
            22 => Self::RND(b3, kk),
            23 => Self::DRW(b3, b2, b1),
            24 => Self::SKP(b3),
            25 => Self::SKNP(b3),
            26 => Self::LDGetDelayTimer(b3),
            27 => Self::LDGetKey(b3),
            28 => Self::LDSetDelayTimer(b3),
            29 => Self::LDSetSoundTimer(b3),
            30 => Self::ADDI(b3),
            31 => Self::LDSprite(b3),
            32 => Self::LDBCD(b3),
            33 => Self::LDS(b3),
            34 => Self::LDR(b3),
            35 => Self::EMPTY,
            _ => Self::DATA(opcode),
        }
    }
}

/// The instruction word fetched from a byte buffer at `ptr`:
/// `buffer[ptr] << 8 | buffer[ptr+1]`, or 0 when either byte lies
/// outside the buffer.
pub open spec fn spec_word_at(mem: Seq<u8>, ptr: int) -> u16 {
    if ptr < 0 || ptr >= mem.len() || ptr + 1 >= mem.len() {
        0
    } else {
        ((((mem[ptr] as u16) << 8) + (mem[ptr + 1] as u16)) as u16)
    }
}

/// Fetch the 16-bit big-endian instruction word at `ptr`, or 0 when the
/// word is not completely inside the buffer.
pub fn extract_opcode_from_array(array: &[u8], ptr: usize) -> (r: C8Addr)
    ensures
        r == spec_word_at(array@, ptr as int),
{
    let array_length = array.len();

    if ptr >= array_length || (ptr + 1) >= array_length {
        0
    } else {
        let hi = array[ptr];
        let lo = array[ptr + 1];
        proof {
            assert(((hi as u16) << 8) <= 0xFF00) by (bit_vector);
        }
        ((hi as C8Addr) << 8) + (lo as C8Addr)
    }
}

} // verus!
