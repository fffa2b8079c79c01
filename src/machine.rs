use vstd::prelude::*;

use crate::font::{font_table, get_font_sprite, FONT_BASE, FONT_SIZE, GLYPH_SIZE};
use crate::instr::{instr_of, Instr, INSTR_SIZE};

verus! {

/// Framebuffer width in pixels.
pub const W: usize = 64;

/// Framebuffer height in pixels.
pub const H: usize = 32;

/// Number of pixels in the framebuffer; pixel `(row, col)` is at `row * W + col`.
pub const SCREEN_SIZE: usize = 2048;

/// Address of the first program byte, and the initial program counter.
pub const PROGRAM_START: usize = 0x200;

/// Initial stack pointer; the call stack grows downward from here.
pub const STACK_TOP: usize = 0xFA0;

/// Bytes of free memory after the program image.
pub const HEADROOM: usize = 5000;

/// Largest return address that a two-byte stack slot holds.
pub const MAX_RETURN_ADDR: usize = 0xFFFF;

/// Number of general registers.
pub const NUM_REGS: usize = 16;

/// Number of keypad keys.
pub const NUM_KEYS: usize = 16;

/// The general register that doubles as carry, borrow and collision flag.
pub const FLAG: usize = 0xF;

/// A condition that stops the running program.
#[derive(Clone, Copy, Debug, PartialEq, Eq, Structural)]
pub enum Fault {
    /// The program counter does not address a whole instruction in memory,
    /// or a call's return address does not fit in a two-byte stack slot.
    PcOutOfRange,
    /// A call would push the stack pointer below address 0.
    StackOverflow,
    /// A return with no return address on the stack.
    StackUnderflow,
    /// A memory access through the index register falls outside memory.
    MemoryOutOfRange,
}

/// The machine state as mathematical values.
pub ghost struct MachineView {
    pub pc: int,
    pub sp: int,
    pub index: u16,
    pub v: Seq<u8>,
    pub delay: u8,
    pub sound: u8,
    pub mem: Seq<u8>,
    pub screen: Seq<bool>,
    pub keys: Seq<bool>,
}

impl MachineView {
    /// The shape every reachable state has.
    pub open spec fn wf(self) -> bool {
        &&& self.v.len() == NUM_REGS
        &&& self.keys.len() == NUM_KEYS
        &&& self.screen.len() == SCREEN_SIZE
        &&& STACK_TOP < self.mem.len()
        &&& 0 <= self.sp <= STACK_TOP
        &&& 0 <= self.pc
    }
}

/// The whole interpreter state: registers, memory, timers, keypad and framebuffer.
pub struct CpuState {
    /// Address of the next instruction.
    pub pc: usize,
    /// Address of the top of the call stack.
    pub sp: usize,
    /// The index register `I`.
    pub index: u16,
    /// Registers V0..=VF.
    pub v: Vec<u8>,
    pub delay: u8,
    pub sound: u8,
    pub mem: Vec<u8>,
    /// `true` for a lit pixel, row-major.
    pub screen_buffer: Vec<bool>,
    /// `true` for a key held down.
    pub key_state: Vec<bool>,
}

impl View for CpuState {
    type V = MachineView;

    open spec fn view(&self) -> MachineView {
        MachineView {
            pc: self.pc as int,
            sp: self.sp as int,
            index: self.index,
            v: self.v@,
            delay: self.delay,
            sound: self.sound,
            mem: self.mem@,
            screen: self.screen_buffer@,
            keys: self.key_state@,
        }
    }
}

/// The program counter moved on by `by` bytes.
pub open spec fn advance(s: MachineView, by: int) -> MachineView {
    MachineView { pc: s.pc + by, ..s }
}

/// Moves past this instruction, and past the next one too when `cond` holds.
pub open spec fn skip_if(s: MachineView, cond: bool) -> MachineView {
    advance(s, if cond { 2 * INSTR_SIZE as int } else { INSTR_SIZE as int })
}

/// Register `x` set to `val`, then the next instruction.
pub open spec fn set_reg(s: MachineView, x: u8, val: u8) -> MachineView {
    MachineView { v: s.v.update(x as int, val), pc: s.pc + INSTR_SIZE, ..s }
}

/// Register `x` set to `val`, then the flag register set to `flag`, then the
/// next instruction. Both values come from the registers as they were; the
/// flag is written last, so with `x == FLAG` the flag is what remains.
pub open spec fn set_reg_flag(s: MachineView, x: u8, val: u8, flag: u8) -> MachineView {
    MachineView { v: s.v.update(x as int, val).update(FLAG as int, flag), pc: s.pc + INSTR_SIZE, ..s }
}

/// Whether the key named by `k` exists and is held down; a value above 0xF
/// names no key, which counts as released.
pub open spec fn key_down(s: MachineView, k: u8) -> bool {
    k < NUM_KEYS && s.keys[k as int]
}

/// The lowest key at or above `from` that is held down, or `NUM_KEYS` if none is.
pub open spec fn lowest_pressed(keys: Seq<bool>, from: int) -> int
    decreases NUM_KEYS - from,
{
    if from >= NUM_KEYS {
        NUM_KEYS as int
    } else if keys[from] {
        from
    } else {
        lowest_pressed(keys, from + 1)
    }
}

/// Bit `j` of a sprite row, counting from the most significant bit.
pub open spec fn sprite_bit(b: u8, j: int) -> bool {
    (b >> ((7 - j) as u8)) & 1u8 == 1u8
}

/// Whether the `n`-row sprite at `s.index`, placed at column `vx % W` and
/// row `vy % H` with wrap-around, has a set bit over pixel `p`.
pub open spec fn sprite_covers(s: MachineView, vx: u8, vy: u8, n: u8, p: int) -> bool {
    let i = (p / W as int - vy as int % H as int + H as int) % H as int;
    let j = (p % W as int - vx as int % W as int + W as int) % W as int;
    i < n && j < 8 && sprite_bit(s.mem[s.index + i], j)
}

/// The framebuffer after XOR-drawing the sprite.
pub open spec fn drawn_screen(s: MachineView, vx: u8, vy: u8, n: u8) -> Seq<bool> {
    Seq::new(SCREEN_SIZE as nat, |p: int| s.screen[p] != sprite_covers(s, vx, vy, n, p))
}

/// Whether drawing the sprite turns some lit pixel off.
pub open spec fn collides(s: MachineView, vx: u8, vy: u8, n: u8) -> bool {
    exists|p: int| 0 <= p < SCREEN_SIZE && s.screen[p] && #[trigger] sprite_covers(s, vx, vy, n, p)
}

/// Memory after storing registers 0..=x from the index register on.
pub open spec fn stored_mem(s: MachineView, x: u8) -> Seq<u8> {
    Seq::new(
        s.mem.len(),
        |a: int| if s.index <= a <= s.index + x { s.v[a - s.index] } else { s.mem[a] },
    )
}

/// Registers after loading registers 0..=x from the index register on.
pub open spec fn loaded_regs(s: MachineView, x: u8) -> Seq<u8> {
    Seq::new(NUM_REGS as nat, |r: int| if r <= x { s.mem[s.index + r] } else { s.v[r] })
}

/// The index register moved on by `k`, modulo 2^16.
pub open spec fn index_plus(s: MachineView, k: int) -> u16 {
    ((s.index + k) % 0x10000) as u16
}

/// What executing `ins` does to `s`; `rnd` is the byte that `RND` draws.
///
/// A fault leaves the state as it was.
pub open spec fn exec_spec(s: MachineView, ins: Instr, rnd: u8) -> Result<MachineView, Fault> {
    let next = advance(s, INSTR_SIZE as int);
    if s.pc + 1 >= s.mem.len() {
        Err(Fault::PcOutOfRange)
    } else {
        match ins {
            Instr::Cls => Ok(
                MachineView { screen: Seq::new(SCREEN_SIZE as nat, |p: int| false), ..next },
            ),
            Instr::Ret => if s.sp + 2 > STACK_TOP {
                Err(Fault::StackUnderflow)
            } else {
                Ok(
                    MachineView {
                        pc: s.mem[s.sp] as int * 256 + s.mem[s.sp + 1] as int,
                        sp: s.sp + 2,
                        ..s
                    },
                )
            },
            Instr::Jp { addr } => Ok(MachineView { pc: addr as int, ..s }),
            Instr::Call { addr } => if s.pc + INSTR_SIZE > MAX_RETURN_ADDR {
                Err(Fault::PcOutOfRange)
            } else if s.sp < 2 {
                Err(Fault::StackOverflow)
            } else {
                let ret = s.pc + INSTR_SIZE;
                Ok(
                    MachineView {
                        pc: addr as int,
                        sp: s.sp - 2,
                        mem: s.mem.update(s.sp - 2, (ret / 256) as u8).update(
                            s.sp - 1,
                            (ret % 256) as u8,
                        ),
                        ..s
                    },
                )
            },
            Instr::SeByte { x, kk } => Ok(skip_if(s, s.v[x as int] == kk)),
            Instr::SneByte { x, kk } => Ok(skip_if(s, s.v[x as int] != kk)),
            Instr::SeReg { x, y } => Ok(skip_if(s, s.v[x as int] == s.v[y as int])),
            Instr::SneReg { x, y } => Ok(skip_if(s, s.v[x as int] != s.v[y as int])),
            Instr::LdByte { x, kk } => Ok(set_reg(s, x, kk)),
            Instr::AddByte { x, kk } => Ok(set_reg(s, x, ((s.v[x as int] + kk) % 256) as u8)),
            Instr::LdReg { x, y } => Ok(set_reg(s, x, s.v[y as int])),
            Instr::Or { x, y } => Ok(set_reg(s, x, s.v[x as int] | s.v[y as int])),
            Instr::And { x, y } => Ok(set_reg(s, x, s.v[x as int] & s.v[y as int])),
            Instr::Xor { x, y } => Ok(set_reg(s, x, s.v[x as int] ^ s.v[y as int])),
            Instr::AddReg { x, y } => {
                let sum = s.v[x as int] + s.v[y as int];
                Ok(set_reg_flag(s, x, (sum % 256) as u8, if sum > 255 { 1 } else { 0 }))
            },
            Instr::Sub { x, y } => {
                let (a, b) = (s.v[x as int], s.v[y as int]);
                Ok(set_reg_flag(s, x, ((a - b) % 256) as u8, if a > b { 1 } else { 0 }))
            },
            Instr::Subn { x, y } => {
                let (a, b) = (s.v[x as int], s.v[y as int]);
                Ok(set_reg_flag(s, x, ((b - a) % 256) as u8, if b > a { 1 } else { 0 }))
            },
            Instr::Shr { x, .. } => {
                let a = s.v[x as int];
                Ok(set_reg_flag(s, x, a / 2, a % 2))
            },
            Instr::Shl { x, .. } => {
                let a = s.v[x as int];
                Ok(set_reg_flag(s, x, ((a * 2) % 256) as u8, a / 128))
            },
            Instr::LdI { addr } => Ok(MachineView { index: addr, ..next }),
            Instr::JpV0 { addr } => Ok(MachineView { pc: addr + s.v[0], ..s }),
            Instr::Rnd { x, kk } => Ok(set_reg(s, x, rnd & kk)),
            Instr::Drw { x, y, n } => if s.index + n > s.mem.len() {
                Err(Fault::MemoryOutOfRange)
            } else {
                let (vx, vy) = (s.v[x as int], s.v[y as int]);
                Ok(
                    MachineView {
                        screen: drawn_screen(s, vx, vy, n),
                        v: s.v.update(FLAG as int, if collides(s, vx, vy, n) { 1 } else { 0 }),
                        ..next
                    },
                )
            },
            Instr::Skp { x } => Ok(skip_if(s, key_down(s, s.v[x as int]))),
            Instr::Sknp { x } => Ok(skip_if(s, !key_down(s, s.v[x as int]))),
            Instr::LdFromDelay { x } => Ok(set_reg(s, x, s.delay)),
            Instr::WaitKey { x } => {
                let k = lowest_pressed(s.keys, 0);
                if k < NUM_KEYS {
                    Ok(set_reg(s, x, k as u8))
                } else {
                    Ok(s)
                }
            },
            Instr::LdDelay { x } => Ok(MachineView { delay: s.v[x as int], ..next }),
            Instr::LdSound { x } => Ok(MachineView { sound: s.v[x as int], ..next }),
            Instr::AddI { x } => Ok(MachineView { index: index_plus(s, s.v[x as int] as int), ..next }),
            Instr::LdFont { x } => Ok(
                MachineView {
                    index: (FONT_BASE + GLYPH_SIZE * (s.v[x as int] % 16)) as u16,
                    ..next
                },
            ),
            Instr::Bcd { x } => if s.index + 3 > s.mem.len() {
                Err(Fault::MemoryOutOfRange)
            } else {
                let val = s.v[x as int];
                Ok(
                    MachineView {
                        mem: s.mem.update(s.index as int, val / 100).update(
                            s.index + 1,
                            (val / 10) % 10,
                        ).update(s.index + 2, val % 10),
                        ..next
                    },
                )
            },
            Instr::StoreRegs { x } => if s.index + x + 1 > s.mem.len() {
                Err(Fault::MemoryOutOfRange)
            } else {
                Ok(
                    MachineView {
                        mem: stored_mem(s, x),
                        index: index_plus(s, x + 1),
                        ..next
                    },
                )
            },
            Instr::LoadRegs { x } => if s.index + x + 1 > s.mem.len() {
                Err(Fault::MemoryOutOfRange)
            } else {
                Ok(
                    MachineView {
                        v: loaded_regs(s, x),
                        index: index_plus(s, x + 1),
                        ..next
                    },
                )
            },
            Instr::Unknown { .. } => Ok(next),
        }
    }
}

/// A call that returned `r` and left `after` behind, starting from `before`,
/// did what `expected` says: the new state on success, the fault and an
/// unchanged state on failure.
pub open spec fn outcome_is(
    before: MachineView,
    after: MachineView,
    r: Result<(), Fault>,
    expected: Result<MachineView, Fault>,
) -> bool {
    match expected {
        Ok(next) => r == Ok::<(), Fault>(()) && after == next,
        Err(e) => r == Err::<(), Fault>(e) && after == before,
    }
}

/// The instruction at the program counter, fetched and decoded.
pub open spec fn fetched(s: MachineView) -> Instr {
    instr_of(s.mem[s.pc], s.mem[s.pc + 1])
}

/// One fetch-decode-execute step.
pub open spec fn step_spec(s: MachineView, rnd: u8) -> Result<MachineView, Fault> {
    if s.pc + 1 >= s.mem.len() {
        Err(Fault::PcOutOfRange)
    } else {
        exec_spec(s, fetched(s), rnd)
    }
}

/// Byte `a` of the memory image of a freshly loaded `program`.
pub open spec fn initial_byte(program: Seq<u8>, a: int) -> u8 {
    if FONT_BASE <= a < FONT_BASE + FONT_SIZE {
        font_table()[a - FONT_BASE]
    } else if PROGRAM_START <= a < PROGRAM_START + program.len() {
        program[a - PROGRAM_START]
    } else {
        0
    }
}

/// The state of a machine that has just loaded `program`.
pub open spec fn initial_view(program: Seq<u8>) -> MachineView {
    MachineView {
        pc: PROGRAM_START as int,
        sp: STACK_TOP as int,
        index: 0,
        v: Seq::new(NUM_REGS as nat, |r: int| 0u8),
        delay: 0,
        sound: 0,
        mem: Seq::new(
            (PROGRAM_START + program.len() + HEADROOM) as nat,
            |a: int| initial_byte(program, a),
        ),
        screen: Seq::new(SCREEN_SIZE as nat, |p: int| false),
        keys: Seq::new(NUM_KEYS as nat, |k: int| false),
    }
}

/// A timer's value after one tick; timers stop at zero.
pub open spec fn ticked(t: u8) -> u8 {
    if t > 0 { (t - 1) as u8 } else { 0 }
}

impl CpuState {
    /// Well-formedness: the shape of the view, and room to move the program
    /// counter past the end of memory without overflow.
    pub open spec fn wf(&self) -> bool {
        &&& self@.wf()
        &&& self.mem.len() + 4 <= usize::MAX
    }

    /// A machine with `m` loaded at `PROGRAM_START` and the glyph table at
    /// `FONT_BASE`, all registers, timers, keys and pixels cleared.
    pub fn new(m: &Vec<u8>) -> (r: CpuState)
        requires
            m.len() + PROGRAM_START + HEADROOM + 4 <= usize::MAX,
        ensures
            r.wf(),
            r@ == initial_view(m@),
    {
        let font = get_font_sprite();
        let total = PROGRAM_START + m.len() + HEADROOM;
        let mut mem: Vec<u8> = Vec::new();
        let mut a: usize = 0;
        while a < total
            invariant
                a <= total,
                total == PROGRAM_START + m.len() + HEADROOM,
                font@ == font_table(),
                mem@ =~= Seq::new(a as nat, |k: int| initial_byte(m@, k)),
            decreases total - a,
        {
            let b: u8 = if a < FONT_BASE + FONT_SIZE {
                font[a - FONT_BASE]
            } else if PROGRAM_START <= a && a < PROGRAM_START + m.len() {
                m[a - PROGRAM_START]
            } else {
                0
            };
            mem.push(b);
            a += 1;
        }
        let r = CpuState {
            pc: PROGRAM_START,
            sp: STACK_TOP,
            index: 0,
            v: filled(0u8, NUM_REGS),
            delay: 0,
            sound: 0,
            mem,
            screen_buffer: filled(false, SCREEN_SIZE),
            key_state: filled(false, NUM_KEYS),
        };
        assert(r@.mem =~= initial_view(m@).mem);
        r
    }

    /// Marks key `keycode` as held down; a code above 0xF names no key and
    /// changes nothing.
    pub fn update_key_down(&mut self, keycode: u8)
        requires
            old(self).wf(),
        ensures
            final(self).wf(),
            keycode < NUM_KEYS ==> final(self)@ == (MachineView {
                keys: old(self)@.keys.update(keycode as int, true),
                ..old(self)@
            }),
            keycode >= NUM_KEYS ==> final(self)@ == old(self)@,
    {
        if keycode as usize >= NUM_KEYS {
            return;
        }
        self.key_state[keycode as usize] = true;
    }

    /// Releases every key.
    pub fn clear_keys(&mut self)
        requires
            old(self).wf(),
        ensures
            final(self).wf(),
            final(self)@ == (MachineView {
                keys: Seq::new(NUM_KEYS as nat, |k: int| false),
                ..old(self)@
            }),
    {
        let mut k: usize = 0;
        while k < NUM_KEYS
            invariant
                k <= NUM_KEYS,
                self.key_state.len() == NUM_KEYS,
                forall|i: int| 0 <= i < k ==> !self.key_state@[i],
                self.pc == old(self).pc,
                self.sp == old(self).sp,
                self.index == old(self).index,
                self.v == old(self).v,
                self.delay == old(self).delay,
                self.sound == old(self).sound,
                self.mem == old(self).mem,
                self.screen_buffer == old(self).screen_buffer,
            decreases NUM_KEYS - k,
        {
            self.key_state[k] = false;
            k += 1;
        }
        assert(self.key_state@ =~= Seq::new(NUM_KEYS as nat, |k: int| false));
    }

    /// One tick of the 60 Hz timer unit: both timers count down and stop at zero.
    pub fn tick_timers(&mut self)
        requires
            old(self).wf(),
        ensures
            final(self).wf(),
            final(self)@ == (MachineView {
                delay: ticked(old(self).delay),
                sound: ticked(old(self).sound),
                ..old(self)@
            }),
    {
        if self.delay > 0 {
            self.delay = self.delay - 1;
        }
        if self.sound > 0 {
            self.sound = self.sound - 1;
        }
    }
}

/// A vector of `n` copies of `val`.
fn filled<T: Copy>(val: T, n: usize) -> (r: Vec<T>)
    ensures
        r@ == Seq::new(n as nat, |i: int| val),
{
    let mut r: Vec<T> = Vec::new();
    let mut i: usize = 0;
    while i < n
        invariant
            i <= n,
            r@ =~= Seq::new(i as nat, |k: int| val),
        decreases n - i,
    {
        r.push(val);
        i += 1;
    }
    r
}

} // verus!
