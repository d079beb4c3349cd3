//! The executor: fetch the word at the program counter, decode it, and
//! apply the instruction's semantics, advancing the program counter per
//! instruction-specific policy and then polling the timers once.

use vstd::prelude::*;

use crate::host;
use crate::machine::{
    blank_screen, spec_draw, spec_tick, Chip8, MachineView,
};
use crate::opcode::{
    extract_opcode_from_array, lemma_opcode_fields, spec_decode, spec_word_at, OpCode,
};

verus! {

/// The instruction word fetched at the program counter.
pub open spec fn spec_fetched(s: MachineView) -> u16 {
    spec_word_at(s.memory, s.pc as int)
}

/// The decoded instruction at the program counter.
pub open spec fn spec_current_op(s: MachineView) -> OpCode {
    spec_decode(spec_fetched(s))
}

/// Byte addition wrapping modulo 256.
pub open spec fn wrap_add_u8(a: u8, b: u8) -> u8 {
    (((a + b) % 256) as u8)
}

/// Byte subtraction wrapping modulo 256.
pub open spec fn wrap_sub_u8(a: u8, b: u8) -> u8 {
    ((((a + 256) - b) % 256) as u8)
}

/// The highest pressed key index below `n`, or -1 when no key below
/// `n` is pressed. An ascending scan that keeps overwriting its result
/// captures exactly this key.
pub open spec fn spec_highest_pressed(keys: Seq<bool>, n: int) -> int
    decreases n,
{
    if n <= 0 {
        -1
    } else if keys[n - 1] {
        n - 1
    } else {
        spec_highest_pressed(keys, n - 1)
    }
}

/// Memory with registers `0..count` stored at `base`.
pub open spec fn spec_store_regs(mem: Seq<u8>, regs: Seq<u8>, base: int, count: int) -> Seq<u8>
    decreases count,
{
    if count <= 0 {
        mem
    } else {
        spec_store_regs(mem, regs, base, count - 1).update(base + count - 1, regs[count - 1])
    }
}

/// Registers with entries `0..count` replaced from memory at `base`.
pub open spec fn spec_load_regs(regs: Seq<u8>, mem: Seq<u8>, base: int, count: int) -> Seq<u8>
    decreases count,
{
    if count <= 0 {
        regs
    } else {
        spec_load_regs(regs, mem, base, count - 1).update(count - 1, mem[base + count - 1])
    }
}

/// The machine advanced past the current two-byte instruction.
pub open spec fn spec_adv(s: MachineView) -> MachineView {
    MachineView { pc: ((s.pc + 2) as u16), ..s }
}

/// The machine after applying the instruction at the program counter,
/// given the random byte that a `RND` instruction would consume. The
/// program counter auto-advances by 2 except where the instruction
/// sets it directly (`JP`, `JP0`, taken `CALL`) or where `LD Vx, K`
/// finds no key pressed and so holds the machine in place.
pub open spec fn spec_exec(s: MachineView, rnd: u8) -> MachineView {
    match spec_current_op(s) {
        OpCode::SYS(_) => spec_adv(s),
        OpCode::CLS => spec_adv(MachineView { screen: blank_screen(), ..s }),
        OpCode::RET => if s.sp > 0 {
            spec_adv(MachineView { sp: (s.sp - 1) as nat, pc: s.stack[s.sp - 1], ..s })
        } else {
            spec_adv(s)
        },
        OpCode::JP(addr) => MachineView { pc: addr, ..s },
        OpCode::CALL(addr) => if s.sp < 15 {
            MachineView {
                stack: s.stack.update(s.sp as int, s.pc),
                sp: (s.sp + 1) as nat,
                pc: addr,
                ..s
            }
        } else {
            spec_adv(s)
        },
        OpCode::SEByte(x, kk) => if s.registers[x as int] == kk {
            spec_adv(spec_adv(s))
        } else {
            spec_adv(s)
        },
        OpCode::SNEByte(x, kk) => if s.registers[x as int] != kk {
            spec_adv(spec_adv(s))
        } else {
            spec_adv(s)
        },
        OpCode::SE(x, y) => if s.registers[x as int] == s.registers[y as int] {
            spec_adv(spec_adv(s))
        } else {
            spec_adv(s)
        },
        OpCode::LDByte(x, kk) => spec_adv(
            MachineView { registers: s.registers.update(x as int, kk), ..s },
        ),
        OpCode::ADDByte(x, kk) => spec_adv(
            MachineView {
                registers: s.registers.update(x as int, wrap_add_u8(s.registers[x as int], kk)),
                ..s
            },
        ),
        OpCode::LD(x, y) => spec_adv(
            MachineView { registers: s.registers.update(x as int, s.registers[y as int]), ..s },
        ),
        OpCode::OR(x, y) => spec_adv(
            MachineView {
                registers: s.registers.update(
                    x as int,
                    s.registers[x as int] | s.registers[y as int],
                ),
                ..s
            },
        ),
        OpCode::AND(x, y) => spec_adv(
            MachineView {
                registers: s.registers.update(
                    x as int,
                    s.registers[x as int] & s.registers[y as int],
                ),
                ..s
            },
        ),
        OpCode::XOR(x, y) => spec_adv(
            MachineView {
                registers: s.registers.update(
                    x as int,
                    s.registers[x as int] ^ s.registers[y as int],
                ),
                ..s
            },
        ),
        OpCode::ADD(x, y) => {
            let r1 = s.registers[x as int];
            let r2 = s.registers[y as int];
            let vf: u8 = if r1 + r2 > 255 {
                1
            } else {
                0
            };
            spec_adv(
                MachineView {
                    registers: s.registers.update(15, vf).update(x as int, wrap_add_u8(r1, r2)),
                    ..s
                },
            )
        },
        OpCode::SUB(x, y) => {
            let r1 = s.registers[x as int];
            let r2 = s.registers[y as int];
            let vf: u8 = if r1 > r2 {
                1
            } else {
                0
            };
            spec_adv(
                MachineView {
                    registers: s.registers.update(15, vf).update(x as int, wrap_sub_u8(r1, r2)),
                    ..s
                },
            )
        },
        OpCode::SHR(x, _y) => {
            let r = s.registers[x as int];
            let vf: u8 = if r & 1 == 1 {
                1
            } else {
                0
            };
            spec_adv(
                MachineView {
                    registers: s.registers.update(15, vf).update(x as int, r >> 1),
                    ..s
                },
            )
        },
        OpCode::SUBN(x, y) => {
            let r1 = s.registers[x as int];
            let r2 = s.registers[y as int];
            let vf: u8 = if r2 > r1 {
                1
            } else {
                0
            };
            spec_adv(
                MachineView {
                    registers: s.registers.update(15, vf).update(x as int, wrap_sub_u8(r2, r1)),
                    ..s
                },
            )
        },
        OpCode::SHL(x, _y) => {
            let r = s.registers[x as int];
            let vf: u8 = if r & 0x80 == 0x80 {
                1
            } else {
                0
            };
            spec_adv(
                MachineView {
                    registers: s.registers.update(15, vf).update(x as int, r << 1),
                    ..s
                },
            )
        },
        OpCode::SNE(x, y) => if s.registers[x as int] != s.registers[y as int] {
            spec_adv(spec_adv(s))
        } else {
            spec_adv(s)
        },
        OpCode::LDI(addr) => spec_adv(MachineView { index: addr, ..s }),
        OpCode::JP0(addr) => MachineView { pc: ((addr + s.registers[0]) as u16), ..s },
        OpCode::RND(x, kk) => spec_adv(
            MachineView { registers: s.registers.update(x as int, rnd & kk), ..s },
        ),
        OpCode::DRW(x, y, nib) => spec_adv(spec_draw(s, x as int, y as int, nib)),
        OpCode::SKP(x) => if s.keypad.keys[s.registers[x as int] as int] {
            spec_adv(spec_adv(s))
        } else {
            spec_adv(s)
        },
        OpCode::SKNP(x) => if !s.keypad.keys[s.registers[x as int] as int] {
            spec_adv(spec_adv(s))
        } else {
            spec_adv(s)
        },
        OpCode::LDGetDelayTimer(x) => spec_adv(
            MachineView { registers: s.registers.update(x as int, s.delay_timer), ..s },
        ),
        OpCode::LDGetKey(x) => {
            let h = spec_highest_pressed(s.keypad.keys, 16);
            if h >= 0 {
                spec_adv(MachineView { registers: s.registers.update(x as int, h as u8), ..s })
            } else {
                s
            }
        },
        OpCode::LDSetDelayTimer(x) => spec_adv(
            MachineView { delay_timer: s.registers[x as int], ..s },
        ),
        OpCode::LDSetSoundTimer(x) => spec_adv(
            MachineView { sound_timer: s.registers[x as int], ..s },
        ),
        OpCode::ADDI(x) => spec_adv(
            MachineView { index: (((s.index + s.registers[x as int]) % 0x10000) as u16), ..s },
        ),
        OpCode::LDSprite(x) => spec_adv(
            MachineView { index: ((s.registers[x as int] * 5) as u16), ..s },
        ),
        OpCode::LDBCD(x) => {
            let r = s.registers[x as int];
            spec_adv(
                MachineView {
                    memory: s.memory.update(s.index as int, (r / 100) as u8).update(
                        s.index + 1,
                        (((r / 10) % 10) as u8),
                    ).update(s.index + 2, ((r % 10) as u8)),
                    ..s
                },
            )
        },
        OpCode::LDS(x) => spec_adv(
            MachineView {
                memory: spec_store_regs(s.memory, s.registers, s.index as int, x + 1),
                ..s
            },
        ),
        OpCode::LDR(x) => spec_adv(
            MachineView {
                registers: spec_load_regs(s.registers, s.memory, s.index as int, x + 1),
                ..s
            },
        ),
        OpCode::EMPTY => spec_adv(s),
        OpCode::DATA(_) => spec_adv(s),
    }
}

/// Whether executing the instruction at the program counter stays
/// within the machine's bounds: program-counter arithmetic does not
/// leave 16 bits, memory-indexed instructions stay inside the 4096
/// bytes, and the key-test instructions name one of the 16 keys.
pub open spec fn spec_step_ok(s: MachineView) -> bool {
    match spec_current_op(s) {
        OpCode::RET => if s.sp > 0 {
            s.stack[s.sp - 1] + 2 <= 0xFFFF
        } else {
            s.pc + 2 <= 0xFFFF
        },
        OpCode::JP(_) => true,
        OpCode::CALL(_) => s.sp < 15 || s.pc + 2 <= 0xFFFF,
        OpCode::SEByte(x, kk) => if s.registers[x as int] == kk {
            s.pc + 4 <= 0xFFFF
        } else {
            s.pc + 2 <= 0xFFFF
        },
        OpCode::SNEByte(x, kk) => if s.registers[x as int] != kk {
            s.pc + 4 <= 0xFFFF
        } else {
            s.pc + 2 <= 0xFFFF
        },
        OpCode::SE(x, y) => if s.registers[x as int] == s.registers[y as int] {
            s.pc + 4 <= 0xFFFF
        } else {
            s.pc + 2 <= 0xFFFF
        },
        OpCode::SNE(x, y) => if s.registers[x as int] != s.registers[y as int] {
            s.pc + 4 <= 0xFFFF
        } else {
            s.pc + 2 <= 0xFFFF
        },
        OpCode::JP0(_) => true,
        OpCode::DRW(_x, _y, nib) => (nib == 0 || s.index + nib <= 4096) && s.pc + 2 <= 0xFFFF,
        OpCode::SKP(x) => s.registers[x as int] < 16 && (if s.keypad.keys[s.registers[
            x as int
        ] as int] {
            s.pc + 4 <= 0xFFFF
        } else {
            s.pc + 2 <= 0xFFFF
        }),
        OpCode::SKNP(x) => s.registers[x as int] < 16 && (if !s.keypad.keys[s.registers[
            x as int
        ] as int] {
            s.pc + 4 <= 0xFFFF
        } else {
            s.pc + 2 <= 0xFFFF
        }),
        OpCode::LDGetKey(_x) => if spec_highest_pressed(s.keypad.keys, 16) >= 0 {
            s.pc + 2 <= 0xFFFF
        } else {
            true
        },
        OpCode::LDBCD(_x) => s.index + 2 < 4096 && s.pc + 2 <= 0xFFFF,
        OpCode::LDS(x) => s.index + x < 4096 && s.pc + 2 <= 0xFFFF,
        OpCode::LDR(x) => s.index + x < 4096 && s.pc + 2 <= 0xFFFF,
        _ => s.pc + 2 <= 0xFFFF,
    }
}

/// One full machine cycle: the instruction at the program counter
/// applied with random byte `rnd`, then one timer poll at
/// `elapsed_micros` of wall time.
pub open spec fn spec_step(s: MachineView, rnd: u8, elapsed_micros: u64) -> MachineView {
    spec_tick(spec_exec(s, rnd), elapsed_micros)
}

impl Chip8 {
    /// Whether any of the 16 keys is currently pressed.
    fn any_key_pressed(&self) -> (r: bool)
        requires
            self.wf(),
        ensures
            r == (spec_highest_pressed(self@.keypad.keys, 16) >= 0),
    {
        let mut pressed = false;
        let mut i: usize = 0;
        while i < 16
            invariant
                self.wf(),
                i <= 16,
                pressed == (spec_highest_pressed(self@.keypad.keys, i as int) >= 0),
            decreases 16 - i,
        {
            if self.keypad.keys[i] {
                pressed = true;
            }
            i += 1;
        }
        pressed
    }

    /// Whether the instruction at the program counter can be executed
    /// within the machine's bounds, so that a cycle neither leaves the
    /// 16-bit program counter range nor touches memory or keys outside
    /// their fixed sizes.
    pub fn can_step(&self) -> (r: bool)
        requires
            self.wf(),
        ensures
            r == spec_step_ok(self@),
    {
        let w = extract_opcode_from_array(self.memory.as_slice(), self.pc as usize);
        let op = OpCode::from_opcode(w);
        proof {
            lemma_opcode_fields(w);
        }
        match op {
            OpCode::RET => if self.sp > 0 {
                self.stack[self.sp - 1] <= 0xFFFD
            } else {
                self.pc <= 0xFFFD
            },
            OpCode::JP(_) => true,
            OpCode::CALL(_) => self.sp < 15 || self.pc <= 0xFFFD,
            OpCode::SEByte(reg, byte) => if self.registers[reg as usize] == byte {
                self.pc <= 0xFFFB
            } else {
                self.pc <= 0xFFFD
            },
            OpCode::SNEByte(reg, byte) => if self.registers[reg as usize] != byte {
                self.pc <= 0xFFFB
            } else {
                self.pc <= 0xFFFD
            },
            OpCode::SE(reg1, reg2) => if self.registers[reg1 as usize] == self.registers[
                reg2 as usize
            ] {
                self.pc <= 0xFFFB
            } else {
                self.pc <= 0xFFFD
            },
            OpCode::SNE(reg1, reg2) => if self.registers[reg1 as usize] != self.registers[
                reg2 as usize
            ] {
                self.pc <= 0xFFFB
            } else {
                self.pc <= 0xFFFD
            },
            OpCode::JP0(_) => true,
            OpCode::DRW(_reg1, _reg2, byte) => (byte == 0 || (self.index as u32) + (byte as u32)
                <= 4096) && self.pc <= 0xFFFD,
            OpCode::SKP(reg) => {
                let key = self.registers[reg as usize];
                if key >= 16 {
                    false
                } else if self.keypad.keys[key as usize] {
                    self.pc <= 0xFFFB
                } else {
                    self.pc <= 0xFFFD
                }
            },
            OpCode::SKNP(reg) => {
                let key = self.registers[reg as usize];
                if key >= 16 {
                    false
                } else if !self.keypad.keys[key as usize] {
                    self.pc <= 0xFFFB
                } else {
                    self.pc <= 0xFFFD
                }
            },
            OpCode::LDGetKey(_reg) => if self.any_key_pressed() {
                self.pc <= 0xFFFD
            } else {
                true
            },
            OpCode::LDBCD(_reg) => (self.index as u32) + 2 < 4096 && self.pc <= 0xFFFD,
            OpCode::LDS(reg) => (self.index as u32) + (reg as u32) < 4096 && self.pc <= 0xFFFD,
            OpCode::LDR(reg) => (self.index as u32) + (reg as u32) < 4096 && self.pc <= 0xFFFD,
            _ => self.pc <= 0xFFFD,
        }
    }

    /// Apply the instruction at the program counter to the machine,
    /// using `rnd` as the random byte that a `RND` instruction
    /// consumes.
    fn execute_instruction(&mut self, rnd: u8)
        requires
            old(self).wf(),
            spec_step_ok(old(self)@),
        ensures
            final(self).wf(),
            final(self)@ == spec_exec(old(self)@, rnd),
    {
        let mut advance_pointer = true;

        let w = extract_opcode_from_array(self.memory.as_slice(), self.pc as usize);
        let opcode = OpCode::from_opcode(w);
        proof {
            lemma_opcode_fields(w);
            assert(opcode == spec_current_op(old(self)@));
        }
        let ghost target = spec_exec(old(self)@, rnd);

        match opcode {
            OpCode::CLS => {
                self.clear_screen();
            },
            OpCode::RET => {
                if self.sp > 0 {
                    self.sp = self.sp - 1;
                    self.pc = self.stack[self.sp];
                }
                // A return with an empty stack is a stack underflow;
                // the cycle continues with the state unchanged.
            },
            OpCode::JP(addr) => {
                self.pc = addr;
                advance_pointer = false;
            },
            OpCode::CALL(addr) => {
                if self.sp < 15 {
                    self.stack[self.sp] = self.pc;
                    self.sp = self.sp + 1;
                    self.pc = addr;
                    advance_pointer = false;
                }
                // A call with a full stack is a stack overflow; the
                // cycle continues with the state unchanged.
            },
            OpCode::SEByte(reg, byte) => {
                if self.registers[reg as usize] == byte {
                    self.pc = self.pc + 2;
                }
            },
            OpCode::SNEByte(reg, byte) => {
                if self.registers[reg as usize] != byte {
                    self.pc = self.pc + 2;
                }
            },
            OpCode::SE(reg1, reg2) => {
                if self.registers[reg1 as usize] == self.registers[reg2 as usize] {
                    self.pc = self.pc + 2;
                }
            },
            OpCode::LDByte(reg, byte) => {
                self.registers[reg as usize] = byte;
            },
            OpCode::ADDByte(reg, byte) => {
                let r = self.registers[reg as usize];
                self.registers[reg as usize] = (((r as u16) + (byte as u16)) % 256) as u8;
            },
            OpCode::LD(reg1, reg2) => {
                self.registers[reg1 as usize] = self.registers[reg2 as usize];
            },
            OpCode::OR(reg1, reg2) => {
                let r = self.registers[reg1 as usize] | self.registers[reg2 as usize];
                self.registers[reg1 as usize] = r;
            },
            OpCode::AND(reg1, reg2) => {
                let r = self.registers[reg1 as usize] & self.registers[reg2 as usize];
                self.registers[reg1 as usize] = r;
            },
            OpCode::XOR(reg1, reg2) => {
                let r = self.registers[reg1 as usize] ^ self.registers[reg2 as usize];
                self.registers[reg1 as usize] = r;
            },
            OpCode::ADD(reg1, reg2) => {
                let r1 = self.registers[reg1 as usize];
                let r2 = self.registers[reg2 as usize];
                let sum = (r1 as u16) + (r2 as u16);
                if sum > 255 {
                    self.registers[15] = 1;
                } else {
                    self.registers[15] = 0;
                }
                self.registers[reg1 as usize] = (sum % 256) as u8;
            },
            OpCode::SUB(reg1, reg2) => {
                let r1 = self.registers[reg1 as usize];
                let r2 = self.registers[reg2 as usize];
                if r1 > r2 {
                    self.registers[15] = 1;
                } else {
                    self.registers[15] = 0;
                }
                self.registers[reg1 as usize] = ((((r1 as u16) + 256) - (r2 as u16)) % 256) as u8;
            },
            OpCode::SHR(reg, _) => {
                let r = self.registers[reg as usize];
                if r & 1 == 1 {
                    self.registers[15] = 1;
                } else {
                    self.registers[15] = 0;
                }
                self.registers[reg as usize] = r >> 1;
            },
            OpCode::SUBN(reg1, reg2) => {
                let r1 = self.registers[reg1 as usize];
                let r2 = self.registers[reg2 as usize];
                if r2 > r1 {
                    self.registers[15] = 1;
                } else {
                    self.registers[15] = 0;
                }
                self.registers[reg1 as usize] = ((((r2 as u16) + 256) - (r1 as u16)) % 256) as u8;
            },
            OpCode::SHL(reg, _) => {
                let r = self.registers[reg as usize];
                if r & 0x80 == 0x80 {
                    self.registers[15] = 1;
                } else {
                    self.registers[15] = 0;
                }
                self.registers[reg as usize] = r << 1;
            },
            OpCode::SNE(reg1, reg2) => {
                if self.registers[reg1 as usize] != self.registers[reg2 as usize] {
                    self.pc = self.pc + 2;
                }
            },
            OpCode::LDI(addr) => {
                self.index = addr;
            },
            OpCode::JP0(addr) => {
                self.pc = addr + (self.registers[0] as u16);
                advance_pointer = false;
            },
            OpCode::RND(reg, byte) => {
                self.registers[reg as usize] = rnd & byte;
            },
            OpCode::DRW(reg1, reg2, byte) => {
                self.draw_sprite(reg1 as usize, reg2 as usize, byte);
            },
            OpCode::SKP(reg) => {
                if self.keypad.keys[self.registers[reg as usize] as usize] {
                    self.pc = self.pc + 2;
                }
            },
            OpCode::SKNP(reg) => {
                if !self.keypad.keys[self.registers[reg as usize] as usize] {
                    self.pc = self.pc + 2;
                }
            },
            OpCode::LDGetDelayTimer(reg) => {
                self.registers[reg as usize] = self.delay_timer;
            },
            OpCode::LDGetKey(reg) => {
                let mut pressed = false;
                let mut i: usize = 0;
                while i < 16
                    invariant
                        old(self).wf(),
                        i <= 16,
                        (reg as int) < 16,
                        self@ == (MachineView { registers: self@.registers, ..old(self)@ }),
                        self@.registers.len() == 16,
                        pressed == (spec_highest_pressed(old(self)@.keypad.keys, i as int) >= 0),
                        (if pressed {
                            self@.registers == old(self)@.registers.update(
                                reg as int,
                                spec_highest_pressed(old(self)@.keypad.keys, i as int) as u8,
                            )
                        } else {
                            self@.registers == old(self)@.registers
                        }),
                    decreases 16 - i,
                {
                    if self.keypad.keys[i] {
                        self.registers[reg as usize] = i as u8;
                        proof {
                            if pressed {
                                assert(old(self)@.registers.update(
                                    reg as int,
                                    spec_highest_pressed(old(self)@.keypad.keys, i as int) as u8,
                                ).update(reg as int, i as u8) =~= old(self)@.registers.update(
                                    reg as int,
                                    i as u8,
                                ));
                            }
                        }
                        pressed = true;
                    }
                    i += 1;
                }

                if !pressed {
                    // Do not busy-wait for a key inside the cycle: hold
                    // the program counter so the instruction re-polls
                    // on the next cycle.
                    advance_pointer = false;
                }
            },
            OpCode::LDSetDelayTimer(reg) => {
                self.delay_timer = self.registers[reg as usize];
            },
            OpCode::LDSetSoundTimer(reg) => {
                self.sound_timer = self.registers[reg as usize];
            },
            OpCode::ADDI(reg) => {
                self.index = (((self.index as u32) + (self.registers[reg as usize] as u32))
                    % 0x10000) as u16;
            },
            OpCode::LDSprite(reg) => {
                self.index = (self.registers[reg as usize] as u16) * 5;
            },
            OpCode::LDBCD(reg) => {
                let r = self.registers[reg as usize];
                let base = self.index as usize;
                self.memory[base] = r / 100;
                self.memory[base + 1] = (r / 10) % 10;
                self.memory[base + 2] = r % 10;
            },
            OpCode::LDS(reg) => {
                let x = reg as usize;
                let base = self.index as usize;
                let mut i: usize = 0;
                while i <= x
                    invariant
                        old(self).wf(),
                        x < 16,
                        i <= x + 1,
                        base == old(self)@.index,
                        base + x < 4096,
                        self@ == (MachineView { memory: self@.memory, ..old(self)@ }),
                        self@.memory.len() == 4096,
                        self@.memory == spec_store_regs(
                            old(self)@.memory,
                            old(self)@.registers,
                            base as int,
                            i as int,
                        ),
                    decreases x + 1 - i,
                {
                    self.memory[base + i] = self.registers[i];
                    i += 1;
                }
            },
            OpCode::LDR(reg) => {
                let x = reg as usize;
                let base = self.index as usize;
                let mut i: usize = 0;
                while i <= x
                    invariant
                        old(self).wf(),
                        x < 16,
                        i <= x + 1,
                        base == old(self)@.index,
                        base + x < 4096,
                        self@ == (MachineView { registers: self@.registers, ..old(self)@ }),
                        self@.registers.len() == 16,
                        self@.registers == spec_load_regs(
                            old(self)@.registers,
                            old(self)@.memory,
                            base as int,
                            i as int,
                        ),
                    decreases x + 1 - i,
                {
                    self.registers[i] = self.memory[base + i];
                    i += 1;
                }
            },
            _ => {
                // SYS, EMPTY and DATA are no-ops.
            },
        };

        let ghost mid = self@;
        proof {
            if advance_pointer {
                assert(mid.pc + 2 <= 0xFFFF);
                assert(target =~~= spec_adv(mid));
            } else {
                assert(target =~~= mid);
            }
        }

        if advance_pointer {
            self.pc = self.pc + 2;
        }

        proof {
            assert(self@ =~~= target);
        }
    }

    /// One deterministic machine cycle: apply the instruction at the
    /// program counter with `rnd` standing in for the random byte, then
    /// poll the timers with `elapsed_micros` of wall time since the
    /// last decrement.
    pub fn step_with(&mut self, rnd: u8, elapsed_micros: u64)
        requires
            old(self).wf(),
            spec_step_ok(old(self)@),
        ensures
            final(self).wf(),
            final(self)@ == spec_step(old(self)@, rnd, elapsed_micros),
    {
        self.execute_instruction(rnd);
        self.tick_timers(elapsed_micros);
    }

    /// Execute a single machine cycle: fetch, decode and apply the
    /// instruction at the program counter, then poll the timers. The
    /// random byte comes from the host's generator and the elapsed time
    /// from the host's clock, so the machine afterwards is one cycle at
    /// some random byte and some elapsed time.
    pub fn interpreter(&mut self)
        requires
            old(self).wf(),
            spec_step_ok(old(self)@),
        ensures
            final(self).wf(),
            exists|rnd: u8, e: u64| final(self)@ == spec_step(old(self)@, rnd, e),
    {
        let rnd = host::random_byte();
        self.execute_instruction(rnd);
        self.timer();
        proof {
            let e = choose|e: u64| self@ == spec_tick(spec_exec(old(self)@, rnd), e);
            assert(self@ == spec_step(old(self)@, rnd, e));
        }
    }
}

} // verus!
