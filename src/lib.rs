pub mod disasm;
pub mod exec;
pub mod font;
pub mod instr;
pub mod laws;
pub mod machine;
mod rng;
pub mod timer;

pub use font::get_font_sprite;
pub use instr::{decode, Instr, INSTR_SIZE};
pub use machine::{CpuState, Fault};
pub use disasm::{disassemble, disassemble_instr};
pub use timer::TimerClock;
