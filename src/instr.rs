use vstd::prelude::*;

verus! {

/// Size in bytes of every CHIP-8 instruction.
pub const INSTR_SIZE: usize = 2;

/// One decoded CHIP-8 instruction with its operand fields.
///
/// `x` and `y` are register indices (0..=15), `kk` an 8-bit immediate,
/// `n` a 4-bit immediate and `addr` a 12-bit address.
#[derive(Clone, Copy, Debug, PartialEq, Eq, Structural)]
pub enum Instr {
    Cls,
    Ret,
    Jp { addr: u16 },
    Call { addr: u16 },
    SeByte { x: u8, kk: u8 },
    SneByte { x: u8, kk: u8 },
    SeReg { x: u8, y: u8 },
    LdByte { x: u8, kk: u8 },
    AddByte { x: u8, kk: u8 },
    LdReg { x: u8, y: u8 },
    Or { x: u8, y: u8 },
    And { x: u8, y: u8 },
    Xor { x: u8, y: u8 },
    AddReg { x: u8, y: u8 },
    Sub { x: u8, y: u8 },
    Shr { x: u8, y: u8 },
    Subn { x: u8, y: u8 },
    Shl { x: u8, y: u8 },
    SneReg { x: u8, y: u8 },
    LdI { addr: u16 },
    JpV0 { addr: u16 },
    Rnd { x: u8, kk: u8 },
    Drw { x: u8, y: u8, n: u8 },
    Skp { x: u8 },
    Sknp { x: u8 },
    LdFromDelay { x: u8 },
    WaitKey { x: u8 },
    LdDelay { x: u8 },
    LdSound { x: u8 },
    AddI { x: u8 },
    LdFont { x: u8 },
    Bcd { x: u8 },
    StoreRegs { x: u8 },
    LoadRegs { x: u8 },
    /// A byte pair that is not in the instruction table.
    Unknown { hi: u8, lo: u8 },
}

/// The opcode table: the instruction encoded by the byte pair `hi`, `lo`.
///
/// The high nibble of `hi` selects the family; families 0x0, 0xE and 0xF
/// dispatch further on the whole low byte, family 0x8 on its low nibble.
pub open spec fn instr_of(hi: u8, lo: u8) -> Instr {
    let family = hi / 16;
    let x = hi % 16;
    let y = lo / 16;
    let n = lo % 16;
    let addr = (x as int * 256 + lo as int) as u16;
    if family == 0x0 {
        if lo == 0xE0 {
            Instr::Cls
        } else if lo == 0xEE {
            Instr::Ret
        } else {
            Instr::Unknown { hi, lo }
        }
    } else if family == 0x1 {
        Instr::Jp { addr }
    } else if family == 0x2 {
        Instr::Call { addr }
    } else if family == 0x3 {
        Instr::SeByte { x, kk: lo }
    } else if family == 0x4 {
        Instr::SneByte { x, kk: lo }
    } else if family == 0x5 {
        Instr::SeReg { x, y }
    } else if family == 0x6 {
        Instr::LdByte { x, kk: lo }
    } else if family == 0x7 {
        Instr::AddByte { x, kk: lo }
    } else if family == 0x8 {
        if n == 0x0 {
            Instr::LdReg { x, y }
        } else if n == 0x1 {
            Instr::Or { x, y }
        } else if n == 0x2 {
            Instr::And { x, y }
        } else if n == 0x3 {
            Instr::Xor { x, y }
        } else if n == 0x4 {
            Instr::AddReg { x, y }
        } else if n == 0x5 {
            Instr::Sub { x, y }
        } else if n == 0x6 {
            Instr::Shr { x, y }
        } else if n == 0x7 {
            Instr::Subn { x, y }
        } else if n == 0xE {
            Instr::Shl { x, y }
        } else {
            Instr::Unknown { hi, lo }
        }
    } else if family == 0x9 {
        Instr::SneReg { x, y }
    } else if family == 0xA {
        Instr::LdI { addr }
    } else if family == 0xB {
        Instr::JpV0 { addr }
    } else if family == 0xC {
        Instr::Rnd { x, kk: lo }
    } else if family == 0xD {
        Instr::Drw { x, y, n }
    } else if family == 0xE {
        if lo == 0x9E {
            Instr::Skp { x }
        } else if lo == 0xA1 {
            Instr::Sknp { x }
        } else {
            Instr::Unknown { hi, lo }
        }
    } else {
        if lo == 0x07 {
            Instr::LdFromDelay { x }
        } else if lo == 0x0A {
            Instr::WaitKey { x }
        } else if lo == 0x15 {
            Instr::LdDelay { x }
        } else if lo == 0x18 {
            Instr::LdSound { x }
        } else if lo == 0x1E {
            Instr::AddI { x }
        } else if lo == 0x29 {
            Instr::LdFont { x }
        } else if lo == 0x33 {
            Instr::Bcd { x }
        } else if lo == 0x55 {
            Instr::StoreRegs { x }
        } else if lo == 0x65 {
            Instr::LoadRegs { x }
        } else {
            Instr::Unknown { hi, lo }
        }
    }
}

/// Every operand of a decoded instruction is in its field's range.
pub open spec fn operands_in_range(ins: Instr) -> bool {
    match ins {
        Instr::Jp { addr } | Instr::Call { addr } | Instr::LdI { addr } | Instr::JpV0 { addr } => addr
            < 0x1000,
        Instr::SeByte { x, .. } | Instr::SneByte { x, .. } | Instr::LdByte { x, .. }
        | Instr::AddByte { x, .. } | Instr::Rnd { x, .. } => x < 16,
        Instr::SeReg { x, y } | Instr::LdReg { x, y } | Instr::Or { x, y } | Instr::And { x, y }
        | Instr::Xor { x, y } | Instr::AddReg { x, y } | Instr::Sub { x, y } | Instr::Shr { x, y }
        | Instr::Subn { x, y } | Instr::Shl { x, y } | Instr::SneReg { x, y } => x < 16 && y < 16,
        Instr::Drw { x, y, n } => x < 16 && y < 16 && n < 16,
        Instr::Skp { x } | Instr::Sknp { x } | Instr::LdFromDelay { x } | Instr::WaitKey { x }
        | Instr::LdDelay { x } | Instr::LdSound { x } | Instr::AddI { x } | Instr::LdFont { x }
        | Instr::Bcd { x } | Instr::StoreRegs { x } | Instr::LoadRegs { x } => x < 16,
        _ => true,
    }
}

/// Decodes the two bytes of one instruction (`hi` first in memory).
pub fn decode(hi: u8, lo: u8) -> (r: Instr)
    ensures
        r == instr_of(hi, lo),
        operands_in_range(r),
{
    let family = hi / 16;
    let x = hi % 16;
    let y = lo / 16;
    let n = lo % 16;
    let addr: u16 = (x as u16) * 256 + lo as u16;
    match family {
        0x0 => match lo {
            0xE0 => Instr::Cls,
            0xEE => Instr::Ret,
            _ => Instr::Unknown { hi, lo },
        },
        0x1 => Instr::Jp { addr },
        0x2 => Instr::Call { addr },
        0x3 => Instr::SeByte { x, kk: lo },
        0x4 => Instr::SneByte { x, kk: lo },
        0x5 => Instr::SeReg { x, y },
        0x6 => Instr::LdByte { x, kk: lo },
        0x7 => Instr::AddByte { x, kk: lo },
        0x8 => match n {
            0x0 => Instr::LdReg { x, y },
            0x1 => Instr::Or { x, y },
            0x2 => Instr::And { x, y },
            0x3 => Instr::Xor { x, y },
            0x4 => Instr::AddReg { x, y },
            0x5 => Instr::Sub { x, y },
            0x6 => Instr::Shr { x, y },
            0x7 => Instr::Subn { x, y },
            0xE => Instr::Shl { x, y },
            _ => Instr::Unknown { hi, lo },
        },
        0x9 => Instr::SneReg { x, y },
        0xA => Instr::LdI { addr },
        0xB => Instr::JpV0 { addr },
        0xC => Instr::Rnd { x, kk: lo },
        0xD => Instr::Drw { x, y, n },
        0xE => match lo {
            0x9E => Instr::Skp { x },
            0xA1 => Instr::Sknp { x },
            _ => Instr::Unknown { hi, lo },
        },
        _ => match lo {
            0x07 => Instr::LdFromDelay { x },
            0x0A => Instr::WaitKey { x },
            0x15 => Instr::LdDelay { x },
            0x18 => Instr::LdSound { x },
            0x1E => Instr::AddI { x },
            0x29 => Instr::LdFont { x },
            0x33 => Instr::Bcd { x },
            0x55 => Instr::StoreRegs { x },
            0x65 => Instr::LoadRegs { x },
            _ => Instr::Unknown { hi, lo },
        },
    }
}

} // verus!
