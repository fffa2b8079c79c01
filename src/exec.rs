use vstd::prelude::*;

use crate::font::{FONT_BASE, GLYPH_SIZE};
use crate::instr::{decode, operands_in_range, Instr, INSTR_SIZE};
use crate::machine::{
    advance, collides, drawn_screen, exec_spec, outcome_is, loaded_regs, lowest_pressed, sprite_covers, step_spec,
    stored_mem, CpuState, Fault, MachineView, FLAG, H, MAX_RETURN_ADDR, NUM_KEYS, NUM_REGS, SCREEN_SIZE, STACK_TOP, W,
};
use crate::rng::random_byte;

verus! {

impl CpuState {
    /// Turns every pixel off.
    fn clear_screen(&mut self)
        requires
            old(self).wf(),
        ensures
            final(self)@ == (MachineView {
                screen: Seq::new(SCREEN_SIZE as nat, |p: int| false),
                ..old(self)@
            }),
    {
        let ghost s0 = self@;
        let mut p: usize = 0;
        while p < SCREEN_SIZE
            invariant
                p <= SCREEN_SIZE,
                self.screen_buffer@.len() == SCREEN_SIZE,
                self@ == (MachineView { screen: self.screen_buffer@, ..s0 }),
                forall|q: int| 0 <= q < p ==> !self.screen_buffer@[q],
            decreases SCREEN_SIZE - p,
        {
            self.screen_buffer[p] = false;
            p += 1;
        }
        assert(self.screen_buffer@ =~= Seq::new(SCREEN_SIZE as nat, |p: int| false));
    }

    /// XOR-draws the `n`-row sprite at the index register at column `vx % W`,
    /// row `vy % H`, wrapping at the edges; returns whether a lit pixel went off.
    fn draw_sprite(&mut self, vx: u8, vy: u8, n: u8) -> (collided: bool)
        requires
            old(self).wf(),
            n < 16,
            old(self).index + n <= old(self).mem.len(),
        ensures
            final(self)@ == (MachineView {
                screen: drawn_screen(old(self)@, vx, vy, n),
                ..old(self)@
            }),
            collided == collides(old(self)@, vx, vy, n),
    {
        let ghost s0 = self@;
        let x0 = (vx % 64) as usize;
        let y0 = (vy % 32) as usize;
        let base = self.index as usize;
        let mut collided = false;
        let mut p: usize = 0;
        while p < SCREEN_SIZE
            invariant
                p <= SCREEN_SIZE,
                s0 == old(self)@,
                base == s0.index,
                x0 == vx % 64,
                y0 == vy % 32,
                n < 16,
                base + n <= s0.mem.len(),
                self.screen_buffer@.len() == SCREEN_SIZE,
                self@ == (MachineView { screen: self.screen_buffer@, ..s0 }),
                forall|q: int|
                    0 <= q < p ==> self.screen_buffer@[q] == (s0.screen[q] != sprite_covers(
                        s0,
                        vx,
                        vy,
                        n,
                        q,
                    )),
                forall|q: int| p <= q < SCREEN_SIZE ==> self.screen_buffer@[q] == s0.screen[q],
                collided == (exists|q: int|
                    0 <= q < p && s0.screen[q] && #[trigger] sprite_covers(s0, vx, vy, n, q)),
            decreases SCREEN_SIZE - p,
        {
            let row = p / W;
            let col = p % W;
            let i = (row + H - y0) % H;
            let j = (col + W - x0) % W;
            let mut cover = false;
            if i < n as usize && j < 8 {
                let b = self.mem[base + i];
                cover = (b >> ((7 - j) as u8)) & 1u8 == 1u8;
            }
            assert(cover == sprite_covers(s0, vx, vy, n, p as int));
            let lit = self.screen_buffer[p];
            if cover {
                if lit {
                    collided = true;
                }
                self.screen_buffer[p] = !lit;
            }
            assert(collided == (exists|q: int|
                0 <= q < p + 1 && s0.screen[q] && #[trigger] sprite_covers(s0, vx, vy, n, q))) by {
                if cover && lit {
                    assert(0 <= p < p + 1 && s0.screen[p as int] && sprite_covers(
                        s0,
                        vx,
                        vy,
                        n,
                        p as int,
                    ));
                }
            }
            p += 1;
        }
        assert(self.screen_buffer@ =~= drawn_screen(s0, vx, vy, n));
        collided
    }

    /// Stores registers 0..=x at the index register on.
    fn store_regs(&mut self, x: u8)
        requires
            old(self).wf(),
            x < 16,
            old(self).index + x + 1 <= old(self).mem.len(),
        ensures
            final(self)@ == (MachineView { mem: stored_mem(old(self)@, x), ..old(self)@ }),
    {
        let ghost s0 = self@;
        let base = self.index as usize;
        let mut r: usize = 0;
        while r <= x as usize
            invariant
                r <= x + 1,
                x < 16,
                base == s0.index,
                base + x + 1 <= s0.mem.len(),
                s0.v.len() == NUM_REGS,
                self.mem@.len() == s0.mem.len(),
                self@ == (MachineView { mem: self.mem@, ..s0 }),
                forall|a: int|
                    0 <= a < s0.mem.len() ==> #[trigger] self.mem@[a] == (if base <= a < base + r {
                        s0.v[a - base]
                    } else {
                        s0.mem[a]
                    }),
            decreases x + 1 - r,
        {
            let val = self.v[r];
            self.mem[base + r] = val;
            r += 1;
        }
        assert(self.mem@ =~= stored_mem(s0, x));
    }

    /// Loads registers 0..=x from the index register on.
    fn load_regs(&mut self, x: u8)
        requires
            old(self).wf(),
            x < 16,
            old(self).index + x + 1 <= old(self).mem.len(),
        ensures
            final(self)@ == (MachineView { v: loaded_regs(old(self)@, x), ..old(self)@ }),
    {
        let ghost s0 = self@;
        let base = self.index as usize;
        let mut r: usize = 0;
        while r <= x as usize
            invariant
                r <= x + 1,
                x < 16,
                base == s0.index,
                base + x + 1 <= s0.mem.len(),
                self.v@.len() == NUM_REGS,
                self@ == (MachineView { v: self.v@, ..s0 }),
                forall|k: int|
                    0 <= k < NUM_REGS ==> #[trigger] self.v@[k] == (if k < r {
                        s0.mem[base + k]
                    } else {
                        s0.v[k]
                    }),
            decreases x + 1 - r,
        {
            let val = self.mem[base + r];
            self.v[r] = val;
            r += 1;
        }
        assert(self.v@ =~= loaded_regs(s0, x));
    }

    /// The lowest key held down, or `NUM_KEYS` if none is.
    fn find_pressed_key(&self) -> (k: usize)
        requires
            self.wf(),
        ensures
            k == lowest_pressed(self@.keys, 0),
    {
        let mut k: usize = 0;
        while k < NUM_KEYS && !self.key_state[k]
            invariant
                k <= NUM_KEYS,
                self.key_state@.len() == NUM_KEYS,
                lowest_pressed(self@.keys, 0) == lowest_pressed(self@.keys, k as int),
            decreases NUM_KEYS - k,
        {
            k += 1;
        }
        k
    }
}

} // verus!

verus! {

impl CpuState {
    /// Handles a byte pair outside the instruction table: nothing happens
    /// but moving past it.
    pub fn not_impl(&mut self, _data: u8)
        requires
            old(self).wf(),
            old(self).pc < old(self).mem.len(),
        ensures
            final(self).wf(),
            final(self)@ == advance(old(self)@, INSTR_SIZE as int),
    {
        self.pc = self.pc + INSTR_SIZE;
    }

    /// Executes one decoded instruction; `rnd` is the byte that `RND` uses.
    #[verifier::rlimit(50)]
    pub fn execute(&mut self, ins: Instr, rnd: u8) -> (r: Result<(), Fault>)
        requires
            old(self).wf(),
            operands_in_range(ins),
        ensures
            final(self).wf(),
            outcome_is(old(self)@, final(self)@, r, exec_spec(old(self)@, ins, rnd)),
    {
        if self.pc >= self.mem.len() - 1 {
            return Err(Fault::PcOutOfRange);
        }
        let next = self.pc + INSTR_SIZE;
        match ins {
            Instr::Cls => {
                self.clear_screen();
                self.pc = next;
            },
            Instr::Ret => {
                if self.sp + 2 > STACK_TOP {
                    return Err(Fault::StackUnderflow);
                }
                let hi = self.mem[self.sp];
                let lo = self.mem[self.sp + 1];
                self.pc = hi as usize * 256 + lo as usize;
                self.sp = self.sp + 2;
            },
            Instr::Jp { addr } => {
                self.pc = addr as usize;
            },
            Instr::Call { addr } => {
                if next > MAX_RETURN_ADDR {
                    return Err(Fault::PcOutOfRange);
                }
                if self.sp < 2 {
                    return Err(Fault::StackOverflow);
                }
                self.sp = self.sp - 2;
                let sp = self.sp;
                self.mem[sp] = (next / 256) as u8;
                self.mem[sp + 1] = (next % 256) as u8;
                self.pc = addr as usize;
            },
            Instr::SeByte { x, kk } => {
                self.pc = if self.v[x as usize] == kk { next + INSTR_SIZE } else { next };
            },
            Instr::SneByte { x, kk } => {
                self.pc = if self.v[x as usize] != kk { next + INSTR_SIZE } else { next };
            },
            Instr::SeReg { x, y } => {
                self.pc = if self.v[x as usize] == self.v[y as usize] { next + INSTR_SIZE } else { next };
            },
            Instr::SneReg { x, y } => {
                self.pc = if self.v[x as usize] != self.v[y as usize] { next + INSTR_SIZE } else { next };
            },
            Instr::LdByte { x, kk } => {
                self.v[x as usize] = kk;
                self.pc = next;
            },
            Instr::AddByte { x, kk } => {
                let a = self.v[x as usize];
                self.v[x as usize] = ((a as u16 + kk as u16) % 256) as u8;
                self.pc = next;
            },
            Instr::LdReg { x, y } => {
                let b = self.v[y as usize];
                self.v[x as usize] = b;
                self.pc = next;
            },
            Instr::Or { x, y } => {
                let r = self.v[x as usize] | self.v[y as usize];
                self.v[x as usize] = r;
                self.pc = next;
            },
            Instr::And { x, y } => {
                let r = self.v[x as usize] & self.v[y as usize];
                self.v[x as usize] = r;
                self.pc = next;
            },
            Instr::Xor { x, y } => {
                let r = self.v[x as usize] ^ self.v[y as usize];
                self.v[x as usize] = r;
                self.pc = next;
            },
            Instr::AddReg { x, y } => {
                let sum = self.v[x as usize] as u16 + self.v[y as usize] as u16;
                self.v[x as usize] = (sum % 256) as u8;
                self.v[FLAG] = if sum > 255 { 1 } else { 0 };
                self.pc = next;
            },
            Instr::Sub { x, y } => {
                let (a, b) = (self.v[x as usize], self.v[y as usize]);
                self.v[x as usize] = a.wrapping_sub(b);
                self.v[FLAG] = if a > b { 1 } else { 0 };
                self.pc = next;
            },
            Instr::Subn { x, y } => {
                let (a, b) = (self.v[x as usize], self.v[y as usize]);
                self.v[x as usize] = b.wrapping_sub(a);
                self.v[FLAG] = if b > a { 1 } else { 0 };
                self.pc = next;
            },
            Instr::Shr { x, .. } => {
                let a = self.v[x as usize];
                self.v[x as usize] = a / 2;
                self.v[FLAG] = a % 2;
                self.pc = next;
            },
            Instr::Shl { x, .. } => {
                let a = self.v[x as usize];
                self.v[x as usize] = ((a as u16 * 2) % 256) as u8;
                self.v[FLAG] = a / 128;
                self.pc = next;
            },
            Instr::LdI { addr } => {
                self.index = addr;
                self.pc = next;
            },
            Instr::JpV0 { addr } => {
                self.pc = addr as usize + self.v[0] as usize;
            },
            Instr::Rnd { x, kk } => {
                self.v[x as usize] = rnd & kk;
                self.pc = next;
            },
            Instr::Drw { x, y, n } => {
                if self.index as usize + n as usize > self.mem.len() {
                    return Err(Fault::MemoryOutOfRange);
                }
                let (vx, vy) = (self.v[x as usize], self.v[y as usize]);
                let collided = self.draw_sprite(vx, vy, n);
                self.v[FLAG] = if collided { 1 } else { 0 };
                self.pc = next;
            },
            Instr::Skp { x } => {
                let k = self.v[x as usize] as usize;
                let down = k < NUM_KEYS && self.key_state[k];
                self.pc = if down { next + INSTR_SIZE } else { next };
            },
            Instr::Sknp { x } => {
                let k = self.v[x as usize] as usize;
                let down = k < NUM_KEYS && self.key_state[k];
                self.pc = if !down { next + INSTR_SIZE } else { next };
            },
            Instr::LdFromDelay { x } => {
                self.v[x as usize] = self.delay;
                self.pc = next;
            },
            Instr::WaitKey { x } => {
                let k = self.find_pressed_key();
                if k < NUM_KEYS {
                    self.v[x as usize] = k as u8;
                    self.pc = next;
                }
            },
            Instr::LdDelay { x } => {
                self.delay = self.v[x as usize];
                self.pc = next;
            },
            Instr::LdSound { x } => {
                self.sound = self.v[x as usize];
                self.pc = next;
            },
            Instr::AddI { x } => {
                self.index = ((self.index as u32 + self.v[x as usize] as u32) % 0x10000) as u16;
                self.pc = next;
            },
            Instr::LdFont { x } => {
                self.index = (FONT_BASE + GLYPH_SIZE * (self.v[x as usize] % 16) as usize) as u16;
                self.pc = next;
            },
            Instr::Bcd { x } => {
                if self.index as usize + 3 > self.mem.len() {
                    return Err(Fault::MemoryOutOfRange);
                }
                let val = self.v[x as usize];
                let i = self.index as usize;
                self.mem[i] = val / 100;
                self.mem[i + 1] = (val / 10) % 10;
                self.mem[i + 2] = val % 10;
                self.pc = next;
            },
            Instr::StoreRegs { x } => {
                if self.index as usize + x as usize + 1 > self.mem.len() {
                    return Err(Fault::MemoryOutOfRange);
                }
                self.store_regs(x);
                self.index = ((self.index as u32 + x as u32 + 1) % 0x10000) as u16;
                self.pc = next;
            },
            Instr::LoadRegs { x } => {
                if self.index as usize + x as usize + 1 > self.mem.len() {
                    return Err(Fault::MemoryOutOfRange);
                }
                self.load_regs(x);
                self.index = ((self.index as u32 + x as u32 + 1) % 0x10000) as u16;
                self.pc = next;
            },
            Instr::Unknown { hi, .. } => {
                self.not_impl(hi);
            },
        }
        Ok(())
    }

    /// One fetch-decode-execute step: reads the two bytes at the program
    /// counter, decodes them and executes the instruction.
    pub fn step(&mut self, rnd: u8) -> (r: Result<(), Fault>)
        requires
            old(self).wf(),
        ensures
            final(self).wf(),
            outcome_is(old(self)@, final(self)@, r, step_spec(old(self)@, rnd)),
    {
        if self.pc >= self.mem.len() - 1 {
            return Err(Fault::PcOutOfRange);
        }
        let ins = decode(self.mem[self.pc], self.mem[self.pc + 1]);
        self.execute(ins, rnd)
    }

    /// One step, with `RND` drawing its byte from the random generator.
    pub fn emulate_chip8(&mut self) -> (r: Result<(), Fault>)
        requires
            old(self).wf(),
        ensures
            final(self).wf(),
            exists|rnd: u8| outcome_is(old(self)@, final(self)@, r, #[trigger] step_spec(old(self)@, rnd)),
    {
        let rnd = random_byte();
        let r = self.step(rnd);
        assert(outcome_is(old(self)@, self@, r, step_spec(old(self)@, rnd)));
        r
    }
}

} // verus!
