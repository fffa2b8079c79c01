use chip8::disasm::disassemble_instr;
use chip8::machine::{FLAG, H, PROGRAM_START, SCREEN_SIZE, STACK_TOP, W};
use chip8::{decode, disassemble, get_font_sprite, CpuState, Fault, Instr, TimerClock, INSTR_SIZE};

fn machine(program: &[u8]) -> CpuState {
    CpuState::new(&program.to_vec())
}

fn pixel(cpu: &CpuState, row: usize, col: usize) -> bool {
    cpu.screen_buffer[row * W + col]
}

#[test]
fn add_reg_sets_carry_on_overflow() {
    let mut cpu = machine(&[0x81, 0x24]);
    cpu.v[1] = 200;
    cpu.v[2] = 100;
    assert_eq!(cpu.step(0), Ok(()));
    assert_eq!(cpu.v[1], 44);
    assert_eq!(cpu.v[FLAG], 1);
    assert_eq!(cpu.pc, PROGRAM_START + 2);
}

#[test]
fn add_reg_clears_carry_without_overflow() {
    let mut cpu = machine(&[0x81, 0x24]);
    cpu.v[1] = 1;
    cpu.v[2] = 2;
    cpu.v[FLAG] = 7;
    cpu.step(0).unwrap();
    assert_eq!(cpu.v[1], 3);
    assert_eq!(cpu.v[FLAG], 0);
}

#[test]
fn add_reg_exact_boundary() {
    let mut cpu = machine(&[0x81, 0x24]);
    cpu.v[1] = 255;
    cpu.v[2] = 0;
    cpu.step(0).unwrap();
    assert_eq!(cpu.v[1], 255);
    assert_eq!(cpu.v[FLAG], 0);
}

#[test]
fn sub_wraps_and_reports_borrow() {
    let mut cpu = machine(&[0x81, 0x25]);
    cpu.v[1] = 0x01;
    cpu.v[2] = 0x02;
    cpu.step(0).unwrap();
    assert_eq!(cpu.v[1], 0xFF);
    assert_eq!(cpu.v[FLAG], 0);
}

#[test]
fn sub_without_borrow() {
    let mut cpu = machine(&[0x81, 0x25]);
    cpu.v[1] = 9;
    cpu.v[2] = 4;
    cpu.step(0).unwrap();
    assert_eq!(cpu.v[1], 5);
    assert_eq!(cpu.v[FLAG], 1);
}

#[test]
fn sub_equal_operands_gives_zero_flag() {
    let mut cpu = machine(&[0x81, 0x25]);
    cpu.v[1] = 9;
    cpu.v[2] = 9;
    cpu.step(0).unwrap();
    assert_eq!(cpu.v[1], 0);
    assert_eq!(cpu.v[FLAG], 0);
}

#[test]
fn subn_reverses_operands() {
    let mut cpu = machine(&[0x81, 0x27]);
    cpu.v[1] = 3;
    cpu.v[2] = 10;
    cpu.step(0).unwrap();
    assert_eq!(cpu.v[1], 7);
    assert_eq!(cpu.v[FLAG], 1);
}

#[test]
fn shifts_report_the_lost_bit() {
    let mut cpu = machine(&[0x81, 0x26, 0x82, 0x2E]);
    cpu.v[1] = 0b0000_0101;
    cpu.v[2] = 0b1000_0001;
    cpu.step(0).unwrap();
    assert_eq!(cpu.v[1], 0b0000_0010);
    assert_eq!(cpu.v[FLAG], 1);
    cpu.step(0).unwrap();
    assert_eq!(cpu.v[2], 0b0000_0010);
    assert_eq!(cpu.v[FLAG], 1);
}

#[test]
fn bitwise_ops() {
    let mut cpu = machine(&[0x81, 0x21, 0x83, 0x22, 0x84, 0x23]);
    cpu.v[1] = 0b1100;
    cpu.v[2] = 0b1010;
    cpu.v[3] = 0b1100;
    cpu.v[4] = 0b1100;
    cpu.step(0).unwrap();
    cpu.step(0).unwrap();
    cpu.step(0).unwrap();
    assert_eq!(cpu.v[1], 0b1110);
    assert_eq!(cpu.v[3], 0b1000);
    assert_eq!(cpu.v[4], 0b0110);
}

#[test]
fn add_byte_wraps_without_flag() {
    let mut cpu = machine(&[0x73, 0x10]);
    cpu.v[3] = 0xF8;
    cpu.v[FLAG] = 5;
    cpu.step(0).unwrap();
    assert_eq!(cpu.v[3], 0x08);
    assert_eq!(cpu.v[FLAG], 5);
}

#[test]
fn call_then_ret_comes_back() {
    let mut program = vec![0u8; 0x102];
    program[0] = 0x23;
    program[1] = 0x00;
    program[0x100] = 0x00;
    program[0x101] = 0xEE;
    let mut cpu = CpuState::new(&program);
    cpu.step(0).unwrap();
    assert_eq!(cpu.pc, 0x300);
    assert_eq!(cpu.sp, STACK_TOP - 2);
    cpu.step(0).unwrap();
    assert_eq!(cpu.pc, 0x202);
    assert_eq!(cpu.sp, STACK_TOP);
}

#[test]
fn nested_calls_return_in_order() {
    let mut program = vec![0u8; 0x202];
    program[0] = 0x23; // CALL 300
    program[1] = 0x00;
    program[0x100] = 0x24; // CALL 400
    program[0x101] = 0x00;
    program[0x102] = 0x00; // RET
    program[0x103] = 0xEE;
    program[0x200] = 0x00; // RET
    program[0x201] = 0xEE;
    let mut cpu = CpuState::new(&program);
    cpu.step(0).unwrap();
    cpu.step(0).unwrap();
    assert_eq!(cpu.pc, 0x400);
    cpu.step(0).unwrap();
    assert_eq!(cpu.pc, 0x302);
    cpu.step(0).unwrap();
    assert_eq!(cpu.pc, 0x202);
    assert_eq!(cpu.sp, STACK_TOP);
}

#[test]
fn call_whose_return_address_does_not_fit_faults() {
    let mut program = vec![0u8; 0xFE00];
    program[0xFDFE] = 0x23;
    program[0xFDFF] = 0x00;
    let mut cpu = CpuState::new(&program);
    cpu.pc = 0xFFFE;
    assert_eq!(cpu.step(0), Err(Fault::PcOutOfRange));
    assert_eq!(cpu.pc, 0xFFFE);
    assert_eq!(cpu.sp, STACK_TOP);

    cpu.pc = 0xFFFC;
    cpu.mem[0xFFFC] = 0x23;
    cpu.mem[0xFFFD] = 0x00;
    assert_eq!(cpu.step(0), Ok(()));
    assert_eq!(cpu.pc, 0x300);
    assert_eq!(&cpu.mem[STACK_TOP - 2..STACK_TOP], &[0xFF, 0xFE]);
}

#[test]
fn ret_on_empty_stack_faults() {
    let mut cpu = machine(&[0x00, 0xEE]);
    assert_eq!(cpu.step(0), Err(Fault::StackUnderflow));
    assert_eq!(cpu.pc, PROGRAM_START);
}

#[test]
fn call_with_full_stack_faults() {
    let mut cpu = machine(&[0x23, 0x00]);
    cpu.sp = 1;
    assert_eq!(cpu.step(0), Err(Fault::StackOverflow));
    assert_eq!(cpu.pc, PROGRAM_START);
}

#[test]
fn draw_on_then_off_sets_collision() {
    // LD I, 0 (glyph 0); DRW V0, V1, 5 twice
    let mut cpu = machine(&[0xA0, 0x00, 0xD0, 0x15, 0xD0, 0x15]);
    cpu.step(0).unwrap();
    cpu.step(0).unwrap();
    assert_eq!(cpu.v[FLAG], 0);
    assert!(pixel(&cpu, 0, 0));
    assert!(pixel(&cpu, 0, 3));
    assert!(!pixel(&cpu, 1, 1));
    cpu.step(0).unwrap();
    assert_eq!(cpu.v[FLAG], 1);
    assert!(cpu.screen_buffer.iter().all(|p| !*p));
}

#[test]
fn draw_wraps_around_both_edges() {
    let mut program = vec![0xA3, 0x00, 0xD0, 0x15];
    program.resize(0x100, 0);
    program.extend_from_slice(&[0xFF, 0xFF, 0xFF, 0xFF, 0xFF]);
    let mut cpu = CpuState::new(&program);
    cpu.v[0] = 60;
    cpu.v[1] = 30;
    cpu.step(0).unwrap();
    cpu.step(0).unwrap();
    assert_eq!(cpu.v[FLAG], 0);
    let rows = [30usize, 31, 0, 1, 2];
    let cols = [60usize, 61, 62, 63, 0, 1, 2, 3];
    for row in 0..H {
        for col in 0..W {
            let expected = rows.contains(&row) && cols.contains(&col);
            assert_eq!(pixel(&cpu, row, col), expected, "pixel ({}, {})", row, col);
        }
    }
}

#[test]
fn draw_reads_past_memory_faults() {
    let mut cpu = machine(&[0xD0, 0x15]);
    cpu.index = (cpu.mem.len() - 2) as u16;
    assert_eq!(cpu.step(0), Err(Fault::MemoryOutOfRange));
    assert_eq!(cpu.pc, PROGRAM_START);
}

#[test]
fn cls_turns_every_pixel_off() {
    let mut cpu = machine(&[0x00, 0xE0]);
    cpu.screen_buffer[5] = true;
    cpu.screen_buffer[SCREEN_SIZE - 1] = true;
    cpu.step(0).unwrap();
    assert!(cpu.screen_buffer.iter().all(|p| !*p));
    assert_eq!(cpu.pc, PROGRAM_START + 2);
}

#[test]
fn bcd_of_157() {
    let mut cpu = machine(&[0xF4, 0x33]);
    cpu.v[4] = 157;
    cpu.index = 0x400;
    cpu.step(0).unwrap();
    assert_eq!(&cpu.mem[0x400..0x403], &[1, 5, 7]);
}

#[test]
fn bcd_of_small_values() {
    let mut cpu = machine(&[0xF4, 0x33]);
    cpu.v[4] = 7;
    cpu.index = 0x400;
    cpu.step(0).unwrap();
    assert_eq!(&cpu.mem[0x400..0x403], &[0, 0, 7]);
}

#[test]
fn store_then_load_round_trip() {
    let mut cpu = machine(&[0xF3, 0x55]);
    cpu.v[0] = 11;
    cpu.v[1] = 22;
    cpu.v[2] = 33;
    cpu.v[3] = 44;
    cpu.v[4] = 55;
    cpu.index = 0x500;
    cpu.step(0).unwrap();
    assert_eq!(cpu.index, 0x504);
    assert_eq!(&cpu.mem[0x500..0x505], &[11, 22, 33, 44, 0]);

    let mut fresh = machine(&[0xF3, 0x65]);
    fresh.mem[0x500..0x504].copy_from_slice(&cpu.mem[0x500..0x504]);
    fresh.index = 0x500;
    fresh.step(0).unwrap();
    assert_eq!(&fresh.v[0..4], &[11, 22, 33, 44]);
    assert_eq!(fresh.v[4], 0);
    assert_eq!(fresh.index, 0x504);
}

#[test]
fn store_past_memory_faults() {
    let mut cpu = machine(&[0xFF, 0x55]);
    cpu.index = (cpu.mem.len() - 3) as u16;
    assert_eq!(cpu.step(0), Err(Fault::MemoryOutOfRange));
}

#[test]
fn skip_if_equal() {
    let mut cpu = machine(&[0x35, 0x42]);
    cpu.v[5] = 0x42;
    cpu.step(0).unwrap();
    assert_eq!(cpu.pc, PROGRAM_START + 4);

    let mut cpu = machine(&[0x35, 0x42]);
    cpu.v[5] = 0x41;
    cpu.step(0).unwrap();
    assert_eq!(cpu.pc, PROGRAM_START + 2);
}

#[test]
fn skip_if_not_equal_and_register_forms() {
    let mut cpu = machine(&[0x45, 0x42, 0x00, 0x00, 0x51, 0x20, 0x00, 0x00, 0x91, 0x20]);
    cpu.v[5] = 0x41;
    cpu.step(0).unwrap();
    assert_eq!(cpu.pc, PROGRAM_START + 4);
    cpu.v[1] = 3;
    cpu.v[2] = 3;
    cpu.step(0).unwrap();
    assert_eq!(cpu.pc, PROGRAM_START + 8);
    cpu.step(0).unwrap();
    assert_eq!(cpu.pc, PROGRAM_START + 10);
}

#[test]
fn key_skips() {
    let mut cpu = machine(&[0xE1, 0x9E, 0x00, 0x00, 0xE1, 0xA1]);
    cpu.v[1] = 0xA;
    cpu.update_key_down(0xA);
    cpu.step(0).unwrap();
    assert_eq!(cpu.pc, PROGRAM_START + 4);
    cpu.step(0).unwrap();
    assert_eq!(cpu.pc, PROGRAM_START + 6);
}

#[test]
fn key_skip_on_nonexistent_key_sees_it_released() {
    let mut cpu = machine(&[0xE1, 0x9E]);
    cpu.v[1] = 0x20;
    cpu.step(0).unwrap();
    assert_eq!(cpu.pc, PROGRAM_START + 2);
}

#[test]
fn wait_key_blocks_until_a_key_is_down() {
    let mut cpu = machine(&[0xF2, 0x0A]);
    cpu.step(0).unwrap();
    cpu.step(0).unwrap();
    assert_eq!(cpu.pc, PROGRAM_START);
    cpu.update_key_down(0xC);
    cpu.update_key_down(0x7);
    cpu.step(0).unwrap();
    assert_eq!(cpu.pc, PROGRAM_START + 2);
    assert_eq!(cpu.v[2], 0x7);
}

#[test]
fn keys_outside_the_pad_are_ignored() {
    let mut cpu = machine(&[]);
    cpu.update_key_down(0x10);
    assert!(cpu.key_state.iter().all(|k| !*k));
    cpu.update_key_down(0xF);
    assert!(cpu.key_state[0xF]);
    cpu.clear_keys();
    assert!(cpu.key_state.iter().all(|k| !*k));
}

#[test]
fn jumps() {
    let mut cpu = machine(&[0x1A, 0xBC]);
    cpu.step(0).unwrap();
    assert_eq!(cpu.pc, 0xABC);

    let mut cpu = machine(&[0xB3, 0x00]);
    cpu.v[0] = 0x10;
    cpu.step(0).unwrap();
    assert_eq!(cpu.pc, 0x310);
}

#[test]
fn index_register_forms() {
    let mut cpu = machine(&[0xA1, 0x23, 0xF2, 0x1E, 0xF3, 0x29]);
    cpu.v[2] = 0x10;
    cpu.v[3] = 0x1B;
    cpu.step(0).unwrap();
    assert_eq!(cpu.index, 0x123);
    cpu.step(0).unwrap();
    assert_eq!(cpu.index, 0x133);
    cpu.step(0).unwrap();
    assert_eq!(cpu.index, 5 * 0xB);
}

#[test]
fn add_index_wraps_at_16_bits() {
    let mut cpu = machine(&[0xF2, 0x1E]);
    cpu.index = 0xFFFF;
    cpu.v[2] = 2;
    cpu.step(0).unwrap();
    assert_eq!(cpu.index, 1);
}

#[test]
fn timer_registers() {
    let mut cpu = machine(&[0xF1, 0x15, 0xF2, 0x18, 0xF3, 0x07]);
    cpu.v[1] = 3;
    cpu.v[2] = 9;
    cpu.step(0).unwrap();
    cpu.step(0).unwrap();
    assert_eq!(cpu.delay, 3);
    assert_eq!(cpu.sound, 9);
    cpu.tick_timers();
    cpu.step(0).unwrap();
    assert_eq!(cpu.v[3], 2);
    for _ in 0..20 {
        cpu.tick_timers();
    }
    assert_eq!(cpu.delay, 0);
    assert_eq!(cpu.sound, 0);
}

#[test]
fn timer_clock_carries_remainder() {
    let mut clock = TimerClock::new();
    assert_eq!(clock.advance(10_000), 0);
    assert_eq!(clock.advance(10_000), 1);
    assert_eq!(clock.carried_micros, 20_000 - 16_667);
    assert_eq!(clock.advance(16_667 * 3), 3);
    assert_eq!(clock.carried_micros, 20_000 - 16_667);
}

#[test]
fn random_byte_is_masked() {
    let mut cpu = machine(&[0xC1, 0xAB]);
    cpu.step(0xFF).unwrap();
    assert_eq!(cpu.v[1], 0xAB);
    let mut cpu = machine(&[0xC1, 0x0F]);
    cpu.step(0x3C).unwrap();
    assert_eq!(cpu.v[1], 0x0C);
    let mut cpu = machine(&[0xC1, 0x0F]);
    cpu.emulate_chip8().unwrap();
    assert!(cpu.v[1] <= 0x0F);
    assert_eq!(cpu.pc, PROGRAM_START + 2);
}

#[test]
fn unknown_opcodes_advance_by_two() {
    for (hi, lo) in [(0x01u8, 0x23u8), (0x81, 0x2F), (0xE1, 0x00), (0xF1, 0x99)] {
        let mut cpu = machine(&[hi, lo]);
        assert_eq!(cpu.step(0), Ok(()));
        assert_eq!(cpu.pc, PROGRAM_START + INSTR_SIZE);
        assert!(matches!(decode(hi, lo), Instr::Unknown { .. }));
    }
}

#[test]
fn not_impl_moves_on() {
    let mut cpu = machine(&[]);
    cpu.not_impl(0);
    assert_eq!(cpu.pc, PROGRAM_START + 2);
}

#[test]
fn pc_past_memory_faults() {
    let mut cpu = machine(&[]);
    cpu.pc = cpu.mem.len() - 1;
    assert_eq!(cpu.step(0), Err(Fault::PcOutOfRange));
}

#[test]
fn new_lays_out_memory() {
    let cpu = machine(&[0x12, 0x34, 0x56]);
    let font = get_font_sprite();
    assert_eq!(font.len(), 80);
    assert_eq!(&cpu.mem[0..80], &font[..]);
    assert_eq!(&cpu.mem[0x200..0x203], &[0x12, 0x34, 0x56]);
    assert_eq!(cpu.mem.len(), 0x200 + 3 + 5000);
    assert_eq!(cpu.pc, 0x200);
    assert_eq!(cpu.sp, STACK_TOP);
    assert_eq!(cpu.v, vec![0; 16]);
    assert_eq!(cpu.screen_buffer.len(), SCREEN_SIZE);
}

#[test]
fn font_glyphs() {
    let font = get_font_sprite();
    assert_eq!(&font[0..5], &[0xF0, 0x90, 0x90, 0x90, 0xF0]);
    assert_eq!(&font[5..10], &[0x20, 0x60, 0x20, 0x20, 0x70]);
    assert_eq!(&font[75..80], &[0xF0, 0x80, 0xF0, 0x80, 0x80]);
}

#[test]
fn decode_extracts_fields() {
    assert_eq!(decode(0xD1, 0x25), Instr::Drw { x: 1, y: 2, n: 5 });
    assert_eq!(decode(0x2A, 0xBC), Instr::Call { addr: 0xABC });
    assert_eq!(decode(0x6E, 0x7F), Instr::LdByte { x: 0xE, kk: 0x7F });
    assert_eq!(decode(0xF7, 0x65), Instr::LoadRegs { x: 7 });
    assert_eq!(decode(0x00, 0xE0), Instr::Cls);
}

#[test]
fn disassembly_text() {
    assert_eq!(disassemble(0x12, 0xA4), ("JP $2a4".to_string(), 2));
    assert_eq!(disassemble(0xA2, 0x3F), ("LD I, $23f".to_string(), 2));
    assert_eq!(disassemble(0x63, 0x1F).0, "LD V03, #$001f");
    assert_eq!(disassemble(0xD1, 0x25).0, "DRW V01, V02, #$05");
    assert_eq!(disassemble(0x8A, 0xB4).0, "ADD V0a, V0b");
    assert_eq!(disassemble(0xF2, 0x0A).0, "LD V02, K");
    assert_eq!(disassemble(0xF5, 0x55).0, "LD [I], V05");
    assert_eq!(disassemble(0xE1, 0x9E).0, "SKP V01");
    assert_eq!(disassemble(0xB1, 0x00).0, "JP V0, $100");
    assert_eq!(disassemble(0x01, 0x23).0, "0123 not implemented");
    assert_eq!(disassemble(0xFF, 0xAB).0, "ffab not implemented");
    assert_eq!(disassemble_instr(Instr::Cls), "CLS");
}

#[test]
fn disassembler_and_executor_agree_on_size() {
    for hi in 0..=255u8 {
        for lo in 0..=255u8 {
            assert_eq!(disassemble(hi, lo).1, INSTR_SIZE);
        }
    }
    let mut cpu = machine(&[0x01, 0x23, 0x63, 0x01]);
    let (_, size) = cpu.disassemble_instruction();
    cpu.step(0).unwrap();
    assert_eq!(cpu.pc, PROGRAM_START + size);
}

#[test]
fn listing_covers_memory_from_pc() {
    let cpu = machine(&[0x00, 0xE0, 0x12, 0x00]);
    let listing = cpu.disassemble_chip8();
    assert_eq!(listing.len(), (cpu.mem.len() - PROGRAM_START) / 2);
    assert_eq!(listing[0], "CLS");
    assert_eq!(listing[1], "JP $200");
    assert_eq!(cpu.pc, PROGRAM_START);
}

#[test]
fn flag_register_as_operand_keeps_the_flag() {
    let mut cpu = machine(&[0x8F, 0x14]);
    cpu.v[FLAG] = 250;
    cpu.v[1] = 10;
    cpu.step(0).unwrap();
    assert_eq!(cpu.v[FLAG], 1);
}

#[test]
fn execute_runs_a_decoded_instruction() {
    let mut cpu = machine(&[]);
    cpu.v[2] = 0x30;
    assert_eq!(cpu.execute(Instr::LdReg { x: 1, y: 2 }, 0), Ok(()));
    assert_eq!(cpu.v[1], 0x30);
    assert_eq!(cpu.pc, PROGRAM_START + 2);
}
