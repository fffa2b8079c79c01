use vstd::prelude::*;
use vstd::string::*;

use crate::instr::{decode, instr_of, Instr, INSTR_SIZE};
use crate::machine::{fetched, CpuState};

verus! {

/// The sixteen hex digits, lower case.
pub open spec fn hex_chars() -> Seq<char> {
    seq!['0', '1', '2', '3', '4', '5', '6', '7', '8', '9', 'a', 'b', 'c', 'd', 'e', 'f']
}

/// The last `digits` hex digits of `v`, most significant first, zero-padded.
pub open spec fn hex_text(v: nat, digits: nat) -> Seq<char>
    decreases digits,
{
    if digits == 0 {
        Seq::empty()
    } else {
        hex_text(v / 16, (digits - 1) as nat).push(hex_chars()[(v % 16) as int])
    }
}

/// `m Vxx`, the register as two hex digits
pub open spec fn op_reg(m: Seq<char>, x: u8) -> Seq<char> {
    m + " V"@ + hex_text(x as nat, 2)
}

/// `m Vxx<suffix>`
pub open spec fn op_reg_then(m: Seq<char>, x: u8, suffix: Seq<char>) -> Seq<char> {
    m + " V"@ + hex_text(x as nat, 2) + suffix
}

/// `m Vxx, #$kkkk`, the byte as four hex digits
pub open spec fn op_reg_byte(m: Seq<char>, x: u8, kk: u8) -> Seq<char> {
    m + " V"@ + hex_text(x as nat, 2) + ", #$"@ + hex_text(kk as nat, 4)
}

/// `m Vxx, Vyy`
pub open spec fn op_reg_reg(m: Seq<char>, x: u8, y: u8) -> Seq<char> {
    m + " V"@ + hex_text(x as nat, 2) + ", V"@ + hex_text(y as nat, 2)
}

/// `m $nnn`, the address as three hex digits
pub open spec fn op_addr(m: Seq<char>, addr: u16) -> Seq<char> {
    m + " $"@ + hex_text(addr as nat, 3)
}

/// The assembly text of an instruction.
pub open spec fn listing(ins: Instr) -> Seq<char> {
    match ins {
        Instr::Cls => "CLS"@,
        Instr::Ret => "RET"@,
        Instr::Jp { addr } => op_addr("JP"@, addr),
        Instr::Call { addr } => op_addr("CALL"@, addr),
        Instr::SeByte { x, kk } => op_reg_byte("SE"@, x, kk),
        Instr::SneByte { x, kk } => op_reg_byte("SNE"@, x, kk),
        Instr::SeReg { x, y } => op_reg_reg("SE"@, x, y),
        Instr::LdByte { x, kk } => op_reg_byte("LD"@, x, kk),
        Instr::AddByte { x, kk } => op_reg_byte("ADD"@, x, kk),
        Instr::LdReg { x, y } => op_reg_reg("LD"@, x, y),
        Instr::Or { x, y } => op_reg_reg("OR"@, x, y),
        Instr::And { x, y } => op_reg_reg("AND"@, x, y),
        Instr::Xor { x, y } => op_reg_reg("XOR"@, x, y),
        Instr::AddReg { x, y } => op_reg_reg("ADD"@, x, y),
        Instr::Sub { x, y } => op_reg_reg("SUB"@, x, y),
        Instr::Shr { x, y } => op_reg_reg("SHR"@, x, y),
        Instr::Subn { x, y } => op_reg_reg("SUBN"@, x, y),
        Instr::Shl { x, y } => op_reg_reg("SHL"@, x, y),
        Instr::SneReg { x, y } => op_reg_reg("SNE"@, x, y),
        Instr::LdI { addr } => op_addr("LD I,"@, addr),
        Instr::JpV0 { addr } => op_addr("JP V0,"@, addr),
        Instr::Rnd { x, kk } => op_reg_byte("RND"@, x, kk),
        Instr::Drw { x, y, n } => op_reg_reg("DRW"@, x, y) + ", #$"@ + hex_text(n as nat, 2),
        Instr::Skp { x } => op_reg("SKP"@, x),
        Instr::Sknp { x } => op_reg("SKNP"@, x),
        Instr::LdFromDelay { x } => op_reg_then("LD"@, x, ", DT"@),
        Instr::WaitKey { x } => op_reg_then("LD"@, x, ", K"@),
        Instr::LdDelay { x } => op_reg("LD DT,"@, x),
        Instr::LdSound { x } => op_reg("LD ST,"@, x),
        Instr::AddI { x } => op_reg("ADD I,"@, x),
        Instr::LdFont { x } => op_reg("LD F,"@, x),
        Instr::Bcd { x } => op_reg("LD B,"@, x),
        Instr::StoreRegs { x } => op_reg("LD [I],"@, x),
        Instr::LoadRegs { x } => op_reg_then("LD"@, x, ", [I]"@),
        Instr::Unknown { hi, lo } => hex_text((hi as nat) * 256 + lo as nat, 4)
            + " not implemented"@,
    }
}

/// The assembly text of the instruction stored at address `a`.
pub open spec fn listing_at(mem: Seq<u8>, a: int) -> Seq<char> {
    listing(instr_of(mem[a], mem[a + 1]))
}

/// The hex digit `d` as a one-character string.
fn hex_digit(d: u32) -> (r: &'static str)
    requires
        d < 16,
    ensures
        r@ == seq![hex_chars()[d as int]],
{
    proof {
        reveal_strlit("0");
        reveal_strlit("1");
        reveal_strlit("2");
        reveal_strlit("3");
        reveal_strlit("4");
        reveal_strlit("5");
        reveal_strlit("6");
        reveal_strlit("7");
        reveal_strlit("8");
        reveal_strlit("9");
        reveal_strlit("a");
        reveal_strlit("b");
        reveal_strlit("c");
        reveal_strlit("d");
        reveal_strlit("e");
        reveal_strlit("f");
    }
    let r = match d {
        0 => "0",
        1 => "1",
        2 => "2",
        3 => "3",
        4 => "4",
        5 => "5",
        6 => "6",
        7 => "7",
        8 => "8",
        9 => "9",
        10 => "a",
        11 => "b",
        12 => "c",
        13 => "d",
        14 => "e",
        _ => "f",
    };
    assert(r@ =~= seq![hex_chars()[d as int]]);
    r
}

/// Appends the last `digits` hex digits of `v`.
fn push_hex(s: &mut String, v: u32, digits: u32)
    ensures
        final(s)@ == old(s)@ + hex_text(v as nat, digits as nat),
    decreases digits,
{
    if digits > 0 {
        push_hex(s, v / 16, digits - 1);
        s.append(hex_digit(v % 16));
        assert(final(s)@ =~= old(s)@ + hex_text(v as nat, digits as nat));
    } else {
        assert(final(s)@ =~= old(s)@ + hex_text(v as nat, digits as nat));
    }
}

fn text_reg(m: &str, x: u8) -> (r: String)
    ensures
        r@ == op_reg(m@, x),
{
    let mut s = String::from_str(m);
    s.append(" V");
    push_hex(&mut s, x as u32, 2);
    s
}

fn text_reg_then(m: &str, x: u8, suffix: &str) -> (r: String)
    ensures
        r@ == op_reg_then(m@, x, suffix@),
{
    let mut s = text_reg(m, x);
    s.append(suffix);
    s
}

fn text_reg_byte(m: &str, x: u8, kk: u8) -> (r: String)
    ensures
        r@ == op_reg_byte(m@, x, kk),
{
    let mut s = text_reg(m, x);
    s.append(", #$");
    push_hex(&mut s, kk as u32, 4);
    s
}

fn text_reg_reg(m: &str, x: u8, y: u8) -> (r: String)
    ensures
        r@ == op_reg_reg(m@, x, y),
{
    let mut s = text_reg(m, x);
    s.append(", V");
    push_hex(&mut s, y as u32, 2);
    s
}

fn text_addr(m: &str, addr: u16) -> (r: String)
    ensures
        r@ == op_addr(m@, addr),
{
    let mut s = String::from_str(m);
    s.append(" $");
    push_hex(&mut s, addr as u32, 3);
    s
}

/// The assembly text of a decoded instruction.
pub fn disassemble_instr(ins: Instr) -> (r: String)
    ensures
        r@ == listing(ins),
{
    match ins {
        Instr::Cls => String::from_str("CLS"),
        Instr::Ret => String::from_str("RET"),
        Instr::Jp { addr } => text_addr("JP", addr),
        Instr::Call { addr } => text_addr("CALL", addr),
        Instr::SeByte { x, kk } => text_reg_byte("SE", x, kk),
        Instr::SneByte { x, kk } => text_reg_byte("SNE", x, kk),
        Instr::SeReg { x, y } => text_reg_reg("SE", x, y),
        Instr::LdByte { x, kk } => text_reg_byte("LD", x, kk),
        Instr::AddByte { x, kk } => text_reg_byte("ADD", x, kk),
        Instr::LdReg { x, y } => text_reg_reg("LD", x, y),
        Instr::Or { x, y } => text_reg_reg("OR", x, y),
        Instr::And { x, y } => text_reg_reg("AND", x, y),
        Instr::Xor { x, y } => text_reg_reg("XOR", x, y),
        Instr::AddReg { x, y } => text_reg_reg("ADD", x, y),
        Instr::Sub { x, y } => text_reg_reg("SUB", x, y),
        Instr::Shr { x, y } => text_reg_reg("SHR", x, y),
        Instr::Subn { x, y } => text_reg_reg("SUBN", x, y),
        Instr::Shl { x, y } => text_reg_reg("SHL", x, y),
        Instr::SneReg { x, y } => text_reg_reg("SNE", x, y),
        Instr::LdI { addr } => text_addr("LD I,", addr),
        Instr::JpV0 { addr } => text_addr("JP V0,", addr),
        Instr::Rnd { x, kk } => text_reg_byte("RND", x, kk),
        Instr::Drw { x, y, n } => {
            let mut s = text_reg_reg("DRW", x, y);
            s.append(", #$");
            push_hex(&mut s, n as u32, 2);
            s
        },
        Instr::Skp { x } => text_reg("SKP", x),
        Instr::Sknp { x } => text_reg("SKNP", x),
        Instr::LdFromDelay { x } => text_reg_then("LD", x, ", DT"),
        Instr::WaitKey { x } => text_reg_then("LD", x, ", K"),
        Instr::LdDelay { x } => text_reg("LD DT,", x),
        Instr::LdSound { x } => text_reg("LD ST,", x),
        Instr::AddI { x } => text_reg("ADD I,", x),
        Instr::LdFont { x } => text_reg("LD F,", x),
        Instr::Bcd { x } => text_reg("LD B,", x),
        Instr::StoreRegs { x } => text_reg("LD [I],", x),
        Instr::LoadRegs { x } => text_reg_then("LD", x, ", [I]"),
        Instr::Unknown { hi, lo } => {
            let mut s = String::new();
            push_hex(&mut s, hi as u32 * 256 + lo as u32, 4);
            s.append(" not implemented");
            assert(s@ =~= listing(ins));
            s
        },
    }
}

/// Disassembles the two bytes of one instruction: its text, and how many
/// bytes to move on to reach the next one.
pub fn disassemble(hi: u8, lo: u8) -> (r: (String, usize))
    ensures
        r.0@ == listing(instr_of(hi, lo)),
        r.1 == INSTR_SIZE,
{
    let ins = decode(hi, lo);
    (disassemble_instr(ins), INSTR_SIZE)
}

impl CpuState {
    /// Disassembles the instruction at the program counter, without changing
    /// the machine.
    pub fn disassemble_instruction(&self) -> (r: (String, usize))
        requires
            self.pc + 1 < self.mem.len(),
        ensures
            r.0@ == listing(fetched(self@)),
            r.1 == INSTR_SIZE,
    {
        disassemble(self.mem[self.pc], self.mem[self.pc + 1])
    }

    /// Lists every instruction from the program counter to the end of memory,
    /// one text per two-byte step.
    pub fn disassemble_chip8(&self) -> (r: Vec<String>)
        requires
            self.wf(),
        ensures
            self.pc + INSTR_SIZE * r.len() + 1 >= self.mem.len(),
            r.len() > 0 ==> self.pc + INSTR_SIZE * (r.len() - 1) + 1 < self.mem.len(),
            forall|k: int|
                0 <= k < r.len() ==> #[trigger] r@[k]@ == listing_at(
                    self.mem@,
                    self.pc + INSTR_SIZE * k,
                ),
    {
        let mut out: Vec<String> = Vec::new();
        let mut a = self.pc;
        while a < self.mem.len() - 1
            invariant
                a == self.pc + INSTR_SIZE * out.len(),
                self.wf(),
                out.len() > 0 ==> self.pc + INSTR_SIZE * (out.len() - 1) + 1 < self.mem.len(),
                forall|k: int|
                    0 <= k < out.len() ==> self.pc + INSTR_SIZE * k + 1 < self.mem.len()
                        && #[trigger] out@[k]@ == listing_at(self.mem@, self.pc + INSTR_SIZE * k),
            decreases self.mem.len() - a,
        {
            let (text, size) = disassemble(self.mem[a], self.mem[a + 1]);
            out.push(text);
            a = a + size;
        }
        out
    }
}

} // verus!
