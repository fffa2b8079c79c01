use vstd::prelude::*;

use crate::instr::{instr_of, Instr, INSTR_SIZE};
use crate::machine::{
    exec_spec, fetched, index_plus, sprite_covers, step_spec, Fault, MachineView, FLAG,
    MAX_RETURN_ADDR, SCREEN_SIZE,
};

verus! {

/// Whether executing `ins` moves on to the instruction right after it,
/// whatever the state: every instruction but jumps, calls, returns, skips and
/// the key wait, and including the ones outside the instruction table.
pub open spec fn falls_through(ins: Instr) -> bool {
    match ins {
        Instr::Ret | Instr::Jp { .. } | Instr::Call { .. } | Instr::JpV0 { .. }
        | Instr::SeByte { .. } | Instr::SneByte { .. } | Instr::SeReg { .. } | Instr::SneReg { .. }
        | Instr::Skp { .. } | Instr::Sknp { .. } | Instr::WaitKey { .. } => false,
        _ => true,
    }
}

/// `ADD Vx, Vy` sets the flag register to 1 exactly when the 8-bit sum
/// overflows, and Vx to the sum modulo 256 (for any Vx but the flag register
/// itself, which the flag overwrites).
pub proof fn lemma_add_sets_carry(s: MachineView, x: u8, y: u8, rnd: u8)
    requires
        s.wf(),
        s.pc + 1 < s.mem.len(),
        x < 16,
        y < 16,
        x != FLAG,
    ensures
        ({
            let (a, b) = (s.v[x as int], s.v[y as int]);
            match exec_spec(s, Instr::AddReg { x, y }, rnd) {
                Ok(t) => t.v[FLAG as int] == (if a + b > 255 { 1u8 } else { 0u8 }) && t.v[x as int]
                    == (a + b) % 256,
                Err(_) => false,
            }
        }),
{
}

/// `SUB Vx, Vy` sets the flag register to 1 exactly when Vx > Vy (no borrow),
/// and Vx to the difference modulo 256 (for any Vx but the flag register).
pub proof fn lemma_sub_sets_no_borrow(s: MachineView, x: u8, y: u8, rnd: u8)
    requires
        s.wf(),
        s.pc + 1 < s.mem.len(),
        x < 16,
        y < 16,
        x != FLAG,
    ensures
        ({
            let (a, b) = (s.v[x as int], s.v[y as int]);
            match exec_spec(s, Instr::Sub { x, y }, rnd) {
                Ok(t) => t.v[FLAG as int] == (if a > b { 1u8 } else { 0u8 }) && t.v[x as int] == (a
                    - b) % 256,
                Err(_) => false,
            }
        }),
{
}

/// `CALL addr` followed by `RET` at `addr` comes back to the instruction
/// after the call, with the stack pointer where it was, at any stack depth
/// that leaves room for the return address. The call faults instead exactly
/// when the return address does not fit in a two-byte stack slot.
pub proof fn lemma_call_then_ret(s: MachineView, addr: u16, rnd: u8)
    requires
        s.wf(),
        s.pc + 1 < s.mem.len(),
        addr + 1 < s.mem.len(),
        s.sp >= 2,
    ensures
        match exec_spec(s, Instr::Call { addr }, rnd) {
            Ok(t) => t.pc == addr && match exec_spec(t, Instr::Ret, rnd) {
                Ok(u) => u.pc == s.pc + INSTR_SIZE && u.sp == s.sp,
                Err(_) => false,
            },
            Err(e) => e == Fault::PcOutOfRange && s.pc + INSTR_SIZE > MAX_RETURN_ADDR,
        },
{
}

/// A step that fetches `CALL addr`, followed by a step that fetches `RET` at
/// `addr` (one that the push did not overwrite), brings the program counter
/// to the instruction after the call and the stack pointer back where it was.
pub proof fn lemma_call_then_ret_steps(s: MachineView, addr: u16, rnd1: u8, rnd2: u8)
    requires
        s.wf(),
        s.pc + 1 < s.mem.len(),
        fetched(s) == (Instr::Call { addr }),
        addr + 1 < s.mem.len(),
        s.sp >= 2,
        s.pc + INSTR_SIZE <= MAX_RETURN_ADDR,
        step_spec(s, rnd1) matches Ok(t) ==> fetched(t) == Instr::Ret,
    ensures
        step_spec(s, rnd1) matches Ok(t) && t.pc == addr && (step_spec(t, rnd2) matches Ok(u)
            && u.pc == s.pc + INSTR_SIZE && u.sp == s.sp),
{
    lemma_call_then_ret(s, addr, rnd1);
}

/// `DRW` flips every pixel under a set sprite bit, and sets the flag register
/// to 1 exactly when one of them was lit (a lit pixel went off), else to 0.
pub proof fn lemma_draw_flags_collision(s: MachineView, x: u8, y: u8, n: u8, rnd: u8)
    requires
        s.wf(),
        s.pc + 1 < s.mem.len(),
        x < 16,
        y < 16,
        n < 16,
        s.index + n <= s.mem.len(),
    ensures
        ({
            let (vx, vy) = (s.v[x as int], s.v[y as int]);
            match exec_spec(s, Instr::Drw { x, y, n }, rnd) {
                Ok(t) => {
                    &&& forall|p: int|
                        0 <= p < SCREEN_SIZE && #[trigger] sprite_covers(s, vx, vy, n, p)
                            ==> t.screen[p] == !s.screen[p]
                    &&& (forall|p: int|
                        0 <= p < SCREEN_SIZE && #[trigger] sprite_covers(s, vx, vy, n, p)
                            ==> !s.screen[p]) ==> t.v[FLAG as int] == 0
                    &&& (exists|p: int|
                        0 <= p < SCREEN_SIZE && #[trigger] sprite_covers(s, vx, vy, n, p)
                            && s.screen[p]) ==> t.v[FLAG as int] == 1
                },
                Err(_) => false,
            }
        }),
{
}

/// `LD [I], Vx` then `LD Vx, [I]` from the same index register, on any
/// machine holding the memory that the store left, reads back registers
/// 0..=x; each of the two moves the index register on by x + 1.
pub proof fn lemma_store_load_round_trip(s: MachineView, t: MachineView, x: u8, rnd: u8)
    requires
        s.wf(),
        t.wf(),
        s.pc + 1 < s.mem.len(),
        t.pc + 1 < t.mem.len(),
        x < 16,
        s.index + x + 1 <= s.mem.len(),
        t.index == s.index,
        exec_spec(s, Instr::StoreRegs { x }, rnd) matches Ok(s1) && t.mem == s1.mem,
    ensures
        match (exec_spec(s, Instr::StoreRegs { x }, rnd), exec_spec(t, Instr::LoadRegs { x }, rnd)) {
            (Ok(s1), Ok(t1)) => {
                &&& forall|r: int| 0 <= r <= x ==> #[trigger] t1.v[r] == s.v[r]
                &&& s1.index == index_plus(s, x + 1)
                &&& t1.index == index_plus(s, x + 1)
            },
            _ => false,
        },
{
}

/// `SE Vx, byte` moves the program counter on by 4 when Vx equals the byte,
/// by 2 when it does not.
pub proof fn lemma_skip_equal(s: MachineView, x: u8, kk: u8, rnd: u8)
    requires
        s.wf(),
        s.pc + 1 < s.mem.len(),
        x < 16,
    ensures
        match exec_spec(s, Instr::SeByte { x, kk }, rnd) {
            Ok(t) => t.pc == s.pc + (if s.v[x as int] == kk { 4int } else { 2int }),
            Err(_) => false,
        },
{
}

/// Whether the memory that `ins` reads or writes through the index register
/// lies inside memory.
pub open spec fn stays_in_memory(s: MachineView, ins: Instr) -> bool {
    match ins {
        Instr::Drw { n, .. } => s.index + n <= s.mem.len(),
        Instr::Bcd { .. } => s.index + 3 <= s.mem.len(),
        Instr::StoreRegs { x } | Instr::LoadRegs { x } => s.index + x + 1 <= s.mem.len(),
        _ => true,
    }
}

/// For every byte pair, the executor moves past a fall-through instruction
/// (including one outside the table) whose memory accesses stay inside
/// memory by `INSTR_SIZE`, the same size that the disassembler reports; a
/// skip moves by one or two times `INSTR_SIZE`.
pub proof fn lemma_size_agrees(s: MachineView, hi: u8, lo: u8, rnd: u8)
    requires
        s.wf(),
        s.pc + 1 < s.mem.len(),
    ensures
        ({
            let ins = instr_of(hi, lo);
            &&& falls_through(ins) && stays_in_memory(s, ins) ==> (exec_spec(s, ins, rnd) matches Ok(
                t,
            ) && t.pc == s.pc + INSTR_SIZE)
            &&& (ins is SeByte || ins is SneByte || ins is SeReg || ins is SneReg || ins is Skp
                || ins is Sknp) ==> (exec_spec(s, ins, rnd) matches Ok(t) && (t.pc == s.pc
                + INSTR_SIZE || t.pc == s.pc + 2 * INSTR_SIZE))
        }),
{
}

/// One step over a fall-through instruction whose memory accesses stay
/// inside memory succeeds and moves the program counter on by `INSTR_SIZE`,
/// the size that `disassemble_instruction` reports for it.
pub proof fn lemma_step_size_agrees(s: MachineView, rnd: u8)
    requires
        s.wf(),
        s.pc + 1 < s.mem.len(),
        falls_through(fetched(s)),
        stays_in_memory(s, fetched(s)),
    ensures
        step_spec(s, rnd) matches Ok(t) && t.pc == s.pc + INSTR_SIZE,
{
    lemma_size_agrees(s, s.mem[s.pc], s.mem[s.pc + 1], rnd);
}

} // verus!
