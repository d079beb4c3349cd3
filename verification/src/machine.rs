//! Machine state: registers, memory, stack, timers, framebuffer and
//! input latch, together with program loading, the built-in font,
//! real-time timer decay and the sprite blit.

use std::time::Instant;
use vstd::prelude::*;

use crate::host;
use crate::keypad::{Keypad, KeypadView};
use crate::types::C8Byte;

verus! {

/// Ghost image of the whole machine state.
#[verifier::ext_equal]
pub ghost struct MachineView {
    /// Program counter.
    pub pc: u16,
    /// Stack depth, at most 16.
    pub sp: nat,
    /// Index register.
    pub index: u16,
    /// 4096 bytes of memory.
    pub memory: Seq<u8>,
    /// 16 return addresses; the top is `stack[sp-1]`.
    pub stack: Seq<u16>,
    /// 16 general-purpose registers V0-VF.
    pub registers: Seq<u8>,
    /// Delay timer, decays toward 0 in real time.
    pub delay_timer: u8,
    /// Sound timer, decays toward 0 in real time.
    pub sound_timer: u8,
    /// 32 rows of 64 pixels, true = lit.
    pub screen: Seq<Seq<bool>>,
    /// The input latch.
    pub keypad: KeypadView,
}

impl MachineView {
    /// The fixed shape of the machine: memory, stack, register file,
    /// framebuffer and keypad have their architectural sizes, and the
    /// stack depth stays within the 16 slots.
    pub open spec fn wf(self) -> bool {
        &&& self.memory.len() == 4096
        &&& self.stack.len() == 16
        &&& self.registers.len() == 16
        &&& self.screen.len() == 32
        &&& (forall|i: int| 0 <= i < 32 ==> (#[trigger] self.screen[i]).len() == 64)
        &&& self.keypad.keys.len() == 16
        &&& self.sp <= 16
    }
}

/// The built-in font: 16 glyphs of 5 bytes each, one glyph per
/// hexadecimal digit.
pub open spec fn font_seq() -> Seq<u8> {
    seq![
        0xF0u8, 0x90, 0x90, 0x90, 0xF0,
        0x20, 0x60, 0x20, 0x20, 0x70,
        0xF0, 0x10, 0xF0, 0x80, 0xF0,
        0xF0, 0x10, 0xF0, 0x10, 0xF0,
        0x90, 0x90, 0xF0, 0x10, 0x10,
        0xF0, 0x80, 0xF0, 0x10, 0xF0,
        0xF0, 0x80, 0xF0, 0x90, 0xF0,
        0xF0, 0x10, 0x20, 0x40, 0x40,
        0xF0, 0x90, 0xF0, 0x90, 0xF0,
        0xF0, 0x90, 0xF0, 0x10, 0xF0,
        0xF0, 0x90, 0xF0, 0x90, 0x90,
        0xE0, 0x90, 0xE0, 0x90, 0xE0,
        0xF0, 0x80, 0x80, 0x80, 0xF0,
        0xE0, 0x90, 0x90, 0x90, 0xE0,
        0xF0, 0x80, 0xF0, 0x80, 0xF0,
        0xF0, 0x80, 0xF0, 0x80, 0x80,
    ]
}

/// An all-dark framebuffer: 32 rows of 64 unlit pixels.
pub open spec fn blank_screen() -> Seq<Seq<bool>> {
    Seq::new(32, |i: int| Seq::new(64, |j: int| false))
}

/// The machine as it is first created: pc at 0x200, everything cleared,
/// the font in the first 80 bytes of memory.
pub open spec fn spec_initial() -> MachineView {
    MachineView {
        pc: 0x200,
        sp: 0,
        index: 0,
        memory: font_seq() + Seq::new(4016, |i: int| 0u8),
        stack: Seq::new(16, |i: int| 0u16),
        registers: Seq::new(16, |i: int| 0u8),
        delay_timer: 0,
        sound_timer: 0,
        screen: blank_screen(),
        keypad: KeypadView { keys: Seq::new(16, |i: int| false), last_pressed: 0 },
    }
}

/// What a state reset leaves behind: timers, pc, index, stack and
/// registers cleared, the font reloaded, the screen dark. Memory
/// outside the font area, the stack depth and the keypad keep their
/// previous contents.
pub open spec fn spec_reset(s: MachineView) -> MachineView {
    MachineView {
        pc: 0x200,
        index: 0,
        memory: font_seq() + s.memory.skip(80),
        stack: Seq::new(16, |i: int| 0u16),
        registers: Seq::new(16, |i: int| 0u8),
        delay_timer: 0,
        sound_timer: 0,
        screen: blank_screen(),
        ..s
    }
}

/// A program image fitted to the 3584-byte program area: truncated when
/// longer, zero-padded when shorter.
pub open spec fn padded_rom(rom: Seq<u8>) -> Seq<u8> {
    Seq::new(3584, |i: int| if i < rom.len() { rom[i] } else { 0u8 })
}

/// What loading a program leaves behind: the reset state with the
/// fitted program image in memory starting at 0x200.
pub open spec fn spec_load_rom(s: MachineView, rom: Seq<u8>) -> MachineView {
    let r = spec_reset(s);
    MachineView { memory: r.memory.take(512) + padded_rom(rom), ..r }
}

/// One timer poll after `elapsed_micros` microseconds of wall time
/// since the last decrement: when at least ~16.666 ms have passed, each
/// non-zero timer drops by one and never below zero; otherwise nothing
/// changes.
pub open spec fn spec_tick(s: MachineView, elapsed_micros: u64) -> MachineView {
    if elapsed_micros >= 16666 {
        MachineView {
            delay_timer: if s.delay_timer > 0 {
                (s.delay_timer - 1) as u8
            } else {
                s.delay_timer
            },
            sound_timer: if s.sound_timer > 0 {
                (s.sound_timer - 1) as u8
            } else {
                s.sound_timer
            },
            ..s
        }
    } else {
        s
    }
}

/// The framebuffer with the pixel at row `y`, column `x` toggled.
pub open spec fn spec_flip(screen: Seq<Seq<bool>>, y: int, x: int) -> Seq<Seq<bool>> {
    screen.update(y, screen[y].update(x, !screen[y][x]))
}

/// XOR one sprite row onto the framebuffer, bits `i..8` of `line`, most
/// significant bit first. Each set bit toggles the pixel at
/// `((vy + j) mod 32, (vx + i) mod 64)` and records the collision flag
/// for that pixel: 1 when the pixel was lit, 0 when it was dark. The
/// flag of the last processed set bit survives.
pub open spec fn spec_draw_bits(
    screen: Seq<Seq<bool>>,
    vf: u8,
    line: u8,
    vx: u8,
    vy: u8,
    j: int,
    i: int,
) -> (Seq<Seq<bool>>, u8)
    decreases 8 - i,
{
    if i < 0 || i >= 8 {
        (screen, vf)
    } else {
        let set = line & (0x80u8 >> (i as u8)) != 0;
        let y = (vy + j) % 32;
        let x = (vx + i) % 64;
        let next = if set {
            (spec_flip(screen, y, x), if screen[y][x] { 1u8 } else { 0u8 })
        } else {
            (screen, vf)
        };
        spec_draw_bits(next.0, next.1, line, vx, vy, j, i + 1)
    }
}

/// XOR sprite rows `j..n` onto the framebuffer, row `j` taken from
/// `mem[index + j]`, threading the collision flag through every row.
pub open spec fn spec_draw_rows(
    screen: Seq<Seq<bool>>,
    vf: u8,
    mem: Seq<u8>,
    index: u16,
    vx: u8,
    vy: u8,
    n: int,
    j: int,
) -> (Seq<Seq<bool>>, u8)
    decreases n - j,
{
    if j < 0 || j >= n {
        (screen, vf)
    } else {
        let line = mem[index + j];
        let r = spec_draw_bits(screen, vf, line, vx, vy, j, 0);
        spec_draw_rows(r.0, r.1, mem, index, vx, vy, n, j + 1)
    }
}

/// The machine after blitting an `n`-row sprite from `memory[index..]`
/// at the coordinates held in registers `x` and `y`: the framebuffer is
/// XOR-ed and VF holds the collision outcome of the last set bit
/// processed, or its old value when the sprite has no set bits.
pub open spec fn spec_draw(s: MachineView, x: int, y: int, n: u8) -> MachineView {
    let vx = s.registers[x];
    let vy = s.registers[y];
    let r = spec_draw_rows(s.screen, s.registers[15], s.memory, s.index, vx, vy, n as int, 0);
    MachineView { screen: r.0, registers: s.registers.update(15, r.1), ..s }
}

/// Loading a program resets the mutable state whatever it held before:
/// the program counter returns to 0x200, index and both timers to 0,
/// every register and stack slot to 0, the font stands in bytes
/// [0, 80), and every pixel is dark.
pub proof fn lemma_load_rom_resets(s: MachineView, rom: Seq<u8>)
    requires
        s.wf(),
    ensures
        spec_load_rom(s, rom).pc == 0x200,
        spec_load_rom(s, rom).index == 0,
        spec_load_rom(s, rom).delay_timer == 0,
        spec_load_rom(s, rom).sound_timer == 0,
        spec_load_rom(s, rom).registers == Seq::new(16, |i: int| 0u8),
        spec_load_rom(s, rom).stack == Seq::new(16, |i: int| 0u16),
        spec_load_rom(s, rom).screen == blank_screen(),
        forall|i: int| 0 <= i < 80 ==> spec_load_rom(s, rom).memory[i] == font_seq()[i],
{
    assert forall|i: int| 0 <= i < 80 implies spec_load_rom(s, rom).memory[i] == font_seq()[i] by {
        assert(spec_reset(s).memory.take(512)[i] == (font_seq() + s.memory.skip(80))[i]);
    }
}

/// The program area after a load holds exactly the first 3584 bytes of
/// the program, zero-padded when the program is shorter: a program
/// longer than 3584 bytes is silently truncated, and memory never
/// grows beyond its 4096 bytes.
pub proof fn lemma_load_rom_program_bytes(s: MachineView, rom: Seq<u8>)
    requires
        s.wf(),
    ensures
        spec_load_rom(s, rom).memory.len() == 4096,
        forall|i: int|
            0 <= i < 3584 ==> spec_load_rom(s, rom).memory[512 + i] == (if i < rom.len() {
                rom[i]
            } else {
                0u8
            }),
{
}

/// A timer poll at or beyond the ~16.666 ms threshold decrements each
/// non-zero timer exactly once and leaves a zero timer at zero; a poll
/// under the threshold changes nothing. Timers therefore never fall
/// below zero, however little or much wall time has passed.
pub proof fn lemma_tick_timer_decay(s: MachineView, e: u64)
    ensures
        e >= 16666 && s.delay_timer > 0 ==> spec_tick(s, e).delay_timer == s.delay_timer - 1,
        e >= 16666 && s.delay_timer == 0 ==> spec_tick(s, e).delay_timer == 0,
        e >= 16666 && s.sound_timer > 0 ==> spec_tick(s, e).sound_timer == s.sound_timer - 1,
        e >= 16666 && s.sound_timer == 0 ==> spec_tick(s, e).sound_timer == 0,
        e < 16666 ==> spec_tick(s, e) == s,
        spec_tick(s, e).delay_timer >= 0,
        spec_tick(s, e).sound_timer >= 0,
{
}

/// The framebuffer flattened row-major into RGBA bytes: a lit pixel is
/// opaque white, an unlit pixel opaque black, alpha always full.
pub open spec fn spec_screen_rgba(screen: Seq<Seq<bool>>) -> Seq<u8> {
    Seq::new(
        32 * 64 * 4,
        |k: int|
            {
                let p = k / 4;
                if k % 4 == 3 {
                    255u8
                } else if screen[p / 64][p % 64] {
                    255u8
                } else {
                    0u8
                }
            },
    )
}

/// The virtual machine: registers, memory, stack, timers, framebuffer
/// and input latch. Fields are public so that observers (a renderer, a
/// debugger) can take snapshots.
pub struct Chip8 {
    /// Program counter; program memory starts at 0x200.
    pub pc: u16,
    /// Stack depth.
    pub sp: usize,
    /// Index register used by memory-indexed instructions.
    pub index: u16,
    /// 4 kilobytes of memory.
    pub memory: Vec<C8Byte>,
    /// 16 return addresses.
    pub stack: Vec<u16>,
    /// 16 8-bit registers V0-VF; VF doubles as the flag register.
    pub registers: Vec<u8>,
    /// Delay timer, decays independently of execution speed.
    pub delay_timer: u8,
    /// Sound timer, decays while a tone should play.
    pub sound_timer: u8,
    /// Video memory: 32 rows of 64 pixels.
    pub screen: Vec<Vec<bool>>,
    /// The input latch.
    pub keypad: Keypad,
    /// Wall-clock reference pacing timer decay.
    pub timer: Instant,
}

impl View for Chip8 {
    type V = MachineView;

    open spec fn view(&self) -> MachineView {
        MachineView {
            pc: self.pc,
            sp: self.sp as nat,
            index: self.index,
            memory: self.memory@,
            stack: self.stack@,
            registers: self.registers@,
            delay_timer: self.delay_timer,
            sound_timer: self.sound_timer,
            screen: Seq::new(self.screen@.len(), |i: int| self.screen@[i]@),
            keypad: self.keypad@,
        }
    }
}

/// A vector of `n` zero bytes.
fn zero_bytes(n: usize) -> (r: Vec<u8>)
    ensures
        r@ == Seq::new(n as nat, |i: int| 0u8),
{
    let mut v: Vec<u8> = Vec::new();
    let mut i: usize = 0;
    while i < n
        invariant
            i <= n,
            v@.len() == i,
            forall|j: int| 0 <= j < i ==> v@[j] == 0u8,
        decreases n - i,
    {
        v.push(0);
        i += 1;
    }
    proof {
        assert(v@ =~= Seq::new(n as nat, |i: int| 0u8));
    }
    v
}

/// A vector of `n` zero words.
fn zero_words(n: usize) -> (r: Vec<u16>)
    ensures
        r@ == Seq::new(n as nat, |i: int| 0u16),
{
    let mut v: Vec<u16> = Vec::new();
    let mut i: usize = 0;
    while i < n
        invariant
            i <= n,
            v@.len() == i,
            forall|j: int| 0 <= j < i ==> v@[j] == 0u16,
        decreases n - i,
    {
        v.push(0);
        i += 1;
    }
    proof {
        assert(v@ =~= Seq::new(n as nat, |i: int| 0u16));
    }
    v
}

/// A framebuffer row of 64 unlit pixels.
fn dark_row() -> (r: Vec<bool>)
    ensures
        r@ == Seq::new(64, |i: int| false),
{
    let mut v: Vec<bool> = Vec::new();
    let mut i: usize = 0;
    while i < 64
        invariant
            i <= 64,
            v@.len() == i,
            forall|j: int| 0 <= j < i ==> !v@[j],
        decreases 64 - i,
    {
        v.push(false);
        i += 1;
    }
    proof {
        assert(v@ =~= Seq::new(64, |i: int| false));
    }
    v
}

/// A framebuffer of 32 dark rows.
fn dark_screen() -> (r: Vec<Vec<bool>>)
    ensures
        Seq::new(r@.len(), |i: int| r@[i]@) == blank_screen(),
{
    let mut v: Vec<Vec<bool>> = Vec::new();
    let mut i: usize = 0;
    while i < 32
        invariant
            i <= 32,
            v@.len() == i,
            forall|j: int| 0 <= j < i ==> (#[trigger] v@[j])@ == Seq::new(64, |k: int| false),
        decreases 32 - i,
    {
        v.push(dark_row());
        i += 1;
    }
    proof {
        assert(Seq::new(v@.len(), |i: int| v@[i]@) =~~= blank_screen());
    }
    v
}

/// The 80 font bytes in glyph order.
#[verifier::rlimit(50)]
fn font_bytes() -> (r: Vec<u8>)
    ensures
        r@ == font_seq(),
{
    let mut v: Vec<u8> = Vec::new();
    v.push(0xF0); v.push(0x90); v.push(0x90); v.push(0x90); v.push(0xF0);
    v.push(0x20); v.push(0x60); v.push(0x20); v.push(0x20); v.push(0x70);
    v.push(0xF0); v.push(0x10); v.push(0xF0); v.push(0x80); v.push(0xF0);
    v.push(0xF0); v.push(0x10); v.push(0xF0); v.push(0x10); v.push(0xF0);
    v.push(0x90); v.push(0x90); v.push(0xF0); v.push(0x10); v.push(0x10);
    v.push(0xF0); v.push(0x80); v.push(0xF0); v.push(0x10); v.push(0xF0);
    v.push(0xF0); v.push(0x80); v.push(0xF0); v.push(0x90); v.push(0xF0);
    v.push(0xF0); v.push(0x10); v.push(0x20); v.push(0x40); v.push(0x40);
    v.push(0xF0); v.push(0x90); v.push(0xF0); v.push(0x90); v.push(0xF0);
    v.push(0xF0); v.push(0x90); v.push(0xF0); v.push(0x10); v.push(0xF0);
    v.push(0xF0); v.push(0x90); v.push(0xF0); v.push(0x90); v.push(0x90);
    v.push(0xE0); v.push(0x90); v.push(0xE0); v.push(0x90); v.push(0xE0);
    v.push(0xF0); v.push(0x80); v.push(0x80); v.push(0x80); v.push(0xF0);
    v.push(0xE0); v.push(0x90); v.push(0x90); v.push(0x90); v.push(0xE0);
    v.push(0xF0); v.push(0x80); v.push(0xF0); v.push(0x80); v.push(0xF0);
    v.push(0xF0); v.push(0x80); v.push(0xF0); v.push(0x80); v.push(0x80);
    proof {
        assert(v@ =~= font_seq());
    }
    v
}

impl Chip8 {
    /// The machine keeps its architectural shape.
    pub open spec fn wf(&self) -> bool {
        self@.wf()
    }

    /// Create a machine with the font pre-loaded and everything else
    /// cleared, the program counter at 0x200.
    pub fn new() -> (r: Self)
        ensures
            r.wf(),
            r@ == spec_initial(),
    {
        let mut state = Chip8 {
            pc: 0x200,
            sp: 0,
            index: 0,
            memory: zero_bytes(4096),
            stack: zero_words(16),
            registers: zero_bytes(16),
            delay_timer: 0,
            sound_timer: 0,
            screen: dark_screen(),
            timer: host::now_instant(),
            keypad: Keypad::default(),
        };

        state.load_font();
        proof {
            assert(state@.memory =~= spec_initial().memory);
            assert(state@ =~~= spec_initial());
        }
        state
    }

    /// Reset the mutable state of the machine: timers, pc, index, stack
    /// and registers cleared, font reloaded, screen dark. Memory beyond
    /// the font area keeps its contents.
    pub fn reset_state(&mut self)
        requires
            old(self).wf(),
        ensures
            final(self).wf(),
            final(self)@ == spec_reset(old(self)@),
    {
        self.delay_timer = 0;
        self.sound_timer = 0;
        self.pc = 0x200;
        self.index = 0;
        self.stack = zero_words(16);
        self.registers = zero_bytes(16);
        self.load_font();
        self.clear_screen();
        proof {
            assert(self@ =~~= spec_reset(old(self)@));
        }
    }

    /// Load a program: reset the machine, then copy the program bytes
    /// into the 3584-byte program area at 0x200, zero-padding a short
    /// program and silently truncating a long one.
    pub fn load_rom(&mut self, rom: Vec<u8>)
        requires
            old(self).wf(),
        ensures
            final(self).wf(),
            final(self)@ == spec_load_rom(old(self)@, rom@),
    {
        self.reset_state();

        let ghost r = spec_reset(old(self)@);
        let mut i: usize = 0;
        while i < 3584
            invariant
                i <= 3584,
                self@.memory.len() == 4096,
                self@ == (MachineView { memory: self@.memory, ..r }),
                forall|j: int| 0 <= j < 512 ==> self@.memory[j] == r.memory[j],
                forall|j: int| 0 <= j < i ==> self@.memory[512 + j] == padded_rom(rom@)[j],
                forall|j: int| 512 + i <= j < 4096 ==> self@.memory[j] == r.memory[j],
            decreases 3584 - i,
        {
            let b: u8 = if i < rom.len() {
                rom[i]
            } else {
                0
            };
            self.memory[512 + i] = b;
            i += 1;
        }
        proof {
            assert(self@.memory =~= spec_load_rom(old(self)@, rom@).memory);
            assert(self@ =~~= spec_load_rom(old(self)@, rom@));
        }
    }

    /// Write the built-in font into the first 80 bytes of memory.
    pub(crate) fn load_font(&mut self)
        requires
            old(self)@.memory.len() == 4096,
        ensures
            final(self)@ == (MachineView {
                memory: font_seq() + old(self)@.memory.skip(80),
                ..old(self)@
            }),
    {
        let font = font_bytes();
        let mut i: usize = 0;
        while i < 80
            invariant
                i <= 80,
                font@ == font_seq(),
                self@.memory.len() == 4096,
                self@ == (MachineView { memory: self@.memory, ..old(self)@ }),
                forall|j: int| 0 <= j < i ==> self@.memory[j] == font_seq()[j],
                forall|j: int| i <= j < 4096 ==> self@.memory[j] == old(self)@.memory[j],
            decreases 80 - i,
        {
            self.memory[i] = font[i];
            i += 1;
        }
        proof {
            assert(self@.memory =~= font_seq() + old(self)@.memory.skip(80));
            assert(self@ =~~= (MachineView {
                memory: font_seq() + old(self)@.memory.skip(80),
                ..old(self)@
            }));
        }
    }

    /// Turn every pixel of the framebuffer off.
    pub(crate) fn clear_screen(&mut self)
        ensures
            final(self)@ == (MachineView { screen: blank_screen(), ..old(self)@ }),
    {
        self.screen = dark_screen();
        proof {
            assert(self@ =~~= (MachineView { screen: blank_screen(), ..old(self)@ }));
        }
    }

    /// Apply one timer poll, given the wall-clock microseconds elapsed
    /// since the last decrement: at or beyond the ~16.666 ms threshold
    /// each non-zero timer drops by one (never below zero) and the
    /// reference clock restarts; under the threshold nothing changes.
    pub fn tick_timers(&mut self, elapsed_micros: u64)
        ensures
            final(self)@ == spec_tick(old(self)@, elapsed_micros),
    {
        if elapsed_micros >= 16666 {
            if self.delay_timer > 0 {
                self.delay_timer = self.delay_timer - 1;
            }
            if self.sound_timer > 0 {
                self.sound_timer = self.sound_timer - 1;
            }
            self.timer = host::now_instant();
        }
        proof {
            assert(self@ =~~= spec_tick(old(self)@, elapsed_micros));
        }
    }

    /// Poll the real clock and decay the timers accordingly: the
    /// machine afterwards is one timer poll at some elapsed wall time.
    pub(crate) fn timer(&mut self)
        ensures
            exists|e: u64| final(self)@ == spec_tick(old(self)@, e),
    {
        let e = host::elapsed_micros(&self.timer);
        self.tick_timers(e);
        proof {
            assert(self@ == spec_tick(old(self)@, e));
        }
    }

    /// The framebuffer as an RGBA pixel buffer for rendering: one
    /// row-major byte quadruple per pixel, lit pixels opaque white and
    /// unlit pixels opaque black.
    pub fn screen_rgba(&self) -> (r: Vec<u8>)
        requires
            self.wf(),
        ensures
            r@ == spec_screen_rgba(self@.screen),
    {
        let mut buffer: Vec<u8> = Vec::new();
        let mut y: usize = 0;
        while y < 32
            invariant
                self.wf(),
                y <= 32,
                buffer@.len() == 256 * y,
                forall|k: int|
                    0 <= k < buffer@.len() ==> buffer@[k] == spec_screen_rgba(self@.screen)[k],
            decreases 32 - y,
        {
            let mut x: usize = 0;
            while x < 64
                invariant
                    self.wf(),
                    y < 32,
                    x <= 64,
                    buffer@.len() == 256 * y + 4 * x,
                    forall|k: int|
                        0 <= k < buffer@.len() ==> buffer@[k] == spec_screen_rgba(self@.screen)[k],
                decreases 64 - x,
            {
                proof {
                    assert(self@.screen[y as int].len() == 64);
                }
                let shade: u8 = if self.screen[y][x] {
                    255
                } else {
                    0
                };
                let ghost p = 64 * y + x;
                buffer.push(shade);
                buffer.push(shade);
                buffer.push(shade);
                buffer.push(255);
                proof {
                    assert forall|k: int|
                        0 <= k < buffer@.len() implies buffer@[k] == spec_screen_rgba(
                        self@.screen,
                    )[k] by {
                        if k >= 4 * p {
                            assert(k / 4 == p && (k % 4 == k - 4 * p)) by (nonlinear_arith)
                                requires
                                    4 * p <= k < 4 * p + 4,
                            ;
                        }
                    }
                }
                x += 1;
            }
            y += 1;
        }
        proof {
            assert(buffer@ =~= spec_screen_rgba(self@.screen));
        }
        buffer
    }

    /// Blit an `n`-row sprite from `memory[index..]` at the coordinates
    /// held in registers `x` and `y`, with per-pixel wraparound. Each
    /// set sprite bit toggles its pixel and rewrites VF: 1 when the
    /// pixel was lit (a collision), 0 when it was dark; the outcome of
    /// the last set bit survives.
    pub(crate) fn draw_sprite(&mut self, x: usize, y: usize, n: u8)
        requires
            old(self).wf(),
            x < 16,
            y < 16,
            n == 0 || old(self)@.index + n <= 4096,
        ensures
            final(self).wf(),
            final(self)@ == spec_draw(old(self)@, x as int, y as int, n),
    {
        let vx = self.registers[x];
        let vy = self.registers[y];

        let mut j: usize = 0;
        while j < n as usize
            invariant
                old(self).wf(),
                x < 16,
                y < 16,
                n == 0 || old(self)@.index + n <= 4096,
                j <= n,
                vx == old(self)@.registers[x as int],
                vy == old(self)@.registers[y as int],
                self@.registers.len() == 16,
                self@.screen.len() == 32,
                forall|k: int| 0 <= k < 32 ==> (#[trigger] self@.screen[k]).len() == 64,
                forall|k: int| 0 <= k < 16 && k != 15 ==> self@.registers[k] == old(
                    self,
                )@.registers[k],
                self@ == (MachineView {
                    screen: self@.screen,
                    registers: self@.registers,
                    ..old(self)@
                }),
                spec_draw_rows(
                    old(self)@.screen,
                    old(self)@.registers[15],
                    old(self)@.memory,
                    old(self)@.index,
                    vx,
                    vy,
                    n as int,
                    0,
                ) == spec_draw_rows(
                    self@.screen,
                    self@.registers[15],
                    old(self)@.memory,
                    old(self)@.index,
                    vx,
                    vy,
                    n as int,
                    j as int,
                ),
            decreases n - j,
        {
            let line = self.memory[(self.index + j as u16) as usize];

            let ghost screen_row_start = self@.screen;
            let ghost vf_row_start = self@.registers[15];

            let mut i: usize = 0;
            while i < 8
                invariant
                    old(self).wf(),
                    x < 16,
                    y < 16,
                    i <= 8,
                    j < n,
                    vx == old(self)@.registers[x as int],
                    vy == old(self)@.registers[y as int],
                    line == old(self)@.memory[old(self)@.index + j],
                    self@.registers.len() == 16,
                    self@.screen.len() == 32,
                    forall|k: int| 0 <= k < 32 ==> (#[trigger] self@.screen[k]).len() == 64,
                    forall|k: int| 0 <= k < 16 && k != 15 ==> self@.registers[k] == old(
                        self,
                    )@.registers[k],
                    self@ == (MachineView {
                        screen: self@.screen,
                        registers: self@.registers,
                        ..old(self)@
                    }),
                    spec_draw_bits(screen_row_start, vf_row_start, line, vx, vy, j as int, 0)
                        == spec_draw_bits(
                        self@.screen,
                        self@.registers[15],
                        line,
                        vx,
                        vy,
                        j as int,
                        i as int,
                    ),
                decreases 8 - i,
            {
                let mask = 0x80u8 >> (i as u8);
                if line & mask != 0 {
                    let yy = (vy as usize + j) % 32;
                    let xx = (vx as usize + i) % 64;

                    let ghost screen_before = self@.screen;
                    let lit = self.screen[yy][xx];
                    if lit {
                        let row = &mut self.screen[yy];
                        row[xx] = false;
                        self.registers[15] = 1;
                    } else {
                        let row = &mut self.screen[yy];
                        row[xx] = true;
                        self.registers[15] = 0;
                    }
                    proof {
                        assert(self@.screen =~~= spec_flip(screen_before, yy as int, xx as int));
                    }
                }
                i += 1;
            }

            j += 1;
        }
        proof {
            assert(self@.registers =~= spec_draw(
                old(self)@,
                x as int,
                y as int,
                n,
            ).registers);
            assert(self@ =~~= spec_draw(old(self)@, x as int, y as int, n));
        }
    }
}

} // verus!
