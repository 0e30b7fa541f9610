use chip8::instruction::Instruction;
use chip8::machine::Chip8;
use chip8::semantics::StepError;

fn machine_with(program: &[u8]) -> Chip8 {
    let mut m = Chip8::new();
    for (k, byte) in program.iter().enumerate() {
        m.memory[0x200 + k] = *byte;
    }
    m
}

#[test]
fn new_machine_is_zeroed_with_font_and_pc_at_program_start() {
    let m = Chip8::new();
    assert_eq!(m.pc, 0x200);
    assert_eq!(m.i, 0);
    assert_eq!(m.sp, 0);
    assert_eq!(m.delay_timer, 0);
    assert_eq!(m.sound_timer, 0);
    assert!(!m.draw_flag);
    assert_eq!(m.v, [0u8; 16]);
    assert_eq!(m.stack, [0u16; 16]);
    assert_eq!(m.key, [0u8; 16]);
    assert!(m.gfx.iter().all(|p| *p == 0));
    assert_eq!(&m.memory[0..5], &[0xF0, 0x90, 0x90, 0x90, 0xF0]);
    assert_eq!(&m.memory[75..80], &[0xF0, 0x80, 0xF0, 0x80, 0x80]);
    assert!(m.memory[80..].iter().all(|b| *b == 0));
}

#[test]
fn fetch_reads_big_endian_word() {
    let m = machine_with(&[0x12, 0x34]);
    assert_eq!(m.fetch(), Ok(0x1234));
}

#[test]
fn fetch_past_end_of_memory_fails() {
    let mut m = Chip8::new();
    m.pc = 4095;
    assert_eq!(m.fetch(), Err(StepError::AddressOutOfRange));
    m.pc = 4094;
    m.memory[4094] = 0xAB;
    m.memory[4095] = 0xCD;
    assert_eq!(m.fetch(), Ok(0xABCD));
}

#[test]
fn step_past_end_of_memory_fails_and_changes_nothing() {
    let mut m = Chip8::new();
    m.pc = 0xFFFF;
    m.delay_timer = 9;
    assert_eq!(m.step_with(0), Err(StepError::AddressOutOfRange));
    assert_eq!(m.pc, 0xFFFF);
    assert_eq!(m.delay_timer, 9);
}

#[test]
fn same_state_gives_same_outcome() {
    let program = [0x6A, 0x42, 0x7A, 0xFF, 0x8A, 0xA4, 0xD0, 0x15, 0xF0, 0x33];
    let mut a = machine_with(&program);
    let mut b = machine_with(&program);
    for _ in 0..5 {
        assert_eq!(a.emulate_cycle(), b.emulate_cycle());
        assert_eq!(a, b);
    }
}

#[test]
fn random_byte_is_ignored_by_other_instructions() {
    let mut a = machine_with(&[0x6A, 0x42]);
    let mut b = machine_with(&[0x6A, 0x42]);
    assert_eq!(a.step_with(0x00), Ok(()));
    assert_eq!(b.step_with(0xFF), Ok(()));
    assert_eq!(a, b);
}

#[test]
fn unknown_opcode_is_reported_with_its_word() {
    let mut m = machine_with(&[0xF1, 0xFF]);
    m.delay_timer = 3;
    assert_eq!(m.emulate_cycle(), Err(StepError::UnknownOpcode(0xF1FF)));
    assert_eq!(m.pc, 0x200);
    assert_eq!(m.delay_timer, 3);
    let mut z = Chip8::new();
    assert_eq!(z.emulate_cycle(), Err(StepError::UnknownOpcode(0x0000)));
    let mut alu = machine_with(&[0x81, 0x28]);
    assert_eq!(alu.emulate_cycle(), Err(StepError::UnknownOpcode(0x8128)));
    let mut key = machine_with(&[0xE1, 0x00]);
    assert_eq!(key.emulate_cycle(), Err(StepError::UnknownOpcode(0xE100)));
}

#[test]
fn plain_instruction_advances_pc_by_two() {
    let mut m = machine_with(&[0x61, 0x07]);
    assert_eq!(m.emulate_cycle(), Ok(()));
    assert_eq!(m.pc, 0x202);
    assert_eq!(m.v[1], 0x07);
}

#[test]
fn clear_screen_zeroes_framebuffer_and_raises_draw_flag() {
    let mut m = machine_with(&[0x00, 0xE0]);
    m.gfx[0] = 1;
    m.gfx[2047] = 1;
    assert_eq!(m.emulate_cycle(), Ok(()));
    assert!(m.gfx.iter().all(|p| *p == 0));
    assert!(m.draw_flag);
    assert_eq!(m.pc, 0x202);
}

#[test]
fn jump_sets_pc() {
    let mut m = machine_with(&[0x1A, 0xBC]);
    assert_eq!(m.emulate_cycle(), Ok(()));
    assert_eq!(m.pc, 0xABC);
}

#[test]
fn jump_with_offset_adds_v0() {
    let mut m = machine_with(&[0xBF, 0xFF]);
    m.v[0] = 0xFF;
    assert_eq!(m.emulate_cycle(), Ok(()));
    assert_eq!(m.pc, 0x0FFF + 0xFF);
}

#[test]
fn call_then_return_restores_pc_and_sp() {
    let mut m = machine_with(&[0x23, 0x00]);
    m.memory[0x300] = 0x00;
    m.memory[0x301] = 0xEE;
    assert_eq!(m.emulate_cycle(), Ok(()));
    assert_eq!(m.pc, 0x300);
    assert_eq!(m.sp, 1);
    assert_eq!(m.stack[0], 0x202);
    assert_eq!(m.emulate_cycle(), Ok(()));
    assert_eq!(m.pc, 0x202);
    assert_eq!(m.sp, 0);
}

#[test]
fn call_with_full_stack_overflows() {
    let mut m = machine_with(&[0x23, 0x00]);
    m.sp = 16;
    assert_eq!(m.emulate_cycle(), Err(StepError::StackOverflow));
    assert_eq!(m.pc, 0x200);
    assert_eq!(m.sp, 16);
    m.sp = 15;
    assert_eq!(m.emulate_cycle(), Ok(()));
    assert_eq!(m.sp, 16);
    assert_eq!(m.stack[15], 0x202);
}

#[test]
fn return_with_empty_stack_underflows() {
    let mut m = machine_with(&[0x00, 0xEE]);
    assert_eq!(m.emulate_cycle(), Err(StepError::StackUnderflow));
    assert_eq!(m.pc, 0x200);
    assert_eq!(m.sp, 0);
}

#[test]
fn return_with_stack_pointer_beyond_stack_overflows() {
    let mut m = machine_with(&[0x00, 0xEE]);
    m.sp = 17;
    assert_eq!(m.emulate_cycle(), Err(StepError::StackOverflow));
    assert_eq!(m.sp, 17);
}

#[test]
fn skip_if_equal_immediate() {
    let mut m = machine_with(&[0x32, 0x11]);
    m.v[2] = 0x11;
    assert_eq!(m.emulate_cycle(), Ok(()));
    assert_eq!(m.pc, 0x204);
    let mut n = machine_with(&[0x32, 0x11]);
    n.v[2] = 0x10;
    assert_eq!(n.emulate_cycle(), Ok(()));
    assert_eq!(n.pc, 0x202);
}

#[test]
fn skip_if_not_equal_immediate() {
    let mut m = machine_with(&[0x42, 0x11]);
    m.v[2] = 0x11;
    assert_eq!(m.emulate_cycle(), Ok(()));
    assert_eq!(m.pc, 0x202);
    let mut n = machine_with(&[0x42, 0x11]);
    n.v[2] = 0x10;
    assert_eq!(n.emulate_cycle(), Ok(()));
    assert_eq!(n.pc, 0x204);
}

#[test]
fn skip_if_registers_equal_or_not() {
    let mut m = machine_with(&[0x51, 0x20, 0x00, 0x00, 0x91, 0x20]);
    m.v[1] = 5;
    m.v[2] = 5;
    assert_eq!(m.emulate_cycle(), Ok(()));
    assert_eq!(m.pc, 0x204);
    assert_eq!(m.emulate_cycle(), Ok(()));
    assert_eq!(m.pc, 0x206);
    let mut n = machine_with(&[0x91, 0x20]);
    n.v[1] = 5;
    n.v[2] = 6;
    assert_eq!(n.emulate_cycle(), Ok(()));
    assert_eq!(n.pc, 0x204);
}

#[test]
fn add_immediate_wraps_and_leaves_flag() {
    let mut m = machine_with(&[0x7A, 0x01]);
    m.v[0xA] = 0xFF;
    m.v[0xF] = 7;
    assert_eq!(m.emulate_cycle(), Ok(()));
    assert_eq!(m.v[0xA], 0x00);
    assert_eq!(m.v[0xF], 7);
}

#[test]
fn add_registers_overflow_clears_flag() {
    let mut m = machine_with(&[0x81, 0x24]);
    m.v[1] = 0xFF;
    m.v[2] = 0x01;
    m.v[0xF] = 9;
    assert_eq!(m.emulate_cycle(), Ok(()));
    assert_eq!(m.v[1], 0x00);
    assert_eq!(m.v[0xF], 0);
}

#[test]
fn add_registers_without_overflow_sets_flag() {
    let mut m = machine_with(&[0x81, 0x24]);
    m.v[1] = 0x10;
    m.v[2] = 0x22;
    assert_eq!(m.emulate_cycle(), Ok(()));
    assert_eq!(m.v[1], 0x32);
    assert_eq!(m.v[0xF], 1);
}

#[test]
fn subtract_with_borrow_clears_flag() {
    let mut m = machine_with(&[0x81, 0x25]);
    m.v[1] = 0x01;
    m.v[2] = 0x02;
    assert_eq!(m.emulate_cycle(), Ok(()));
    assert_eq!(m.v[1], 0xFF);
    assert_eq!(m.v[0xF], 0);
}

#[test]
fn subtract_without_borrow_sets_flag() {
    let mut m = machine_with(&[0x81, 0x25]);
    m.v[1] = 0x05;
    m.v[2] = 0x05;
    assert_eq!(m.emulate_cycle(), Ok(()));
    assert_eq!(m.v[1], 0x00);
    assert_eq!(m.v[0xF], 1);
}

#[test]
fn reverse_subtract_computes_vy_minus_vx() {
    let mut m = machine_with(&[0x81, 0x27]);
    m.v[1] = 0x03;
    m.v[2] = 0x0A;
    assert_eq!(m.emulate_cycle(), Ok(()));
    assert_eq!(m.v[1], 0x07);
    assert_eq!(m.v[0xF], 1);
    let mut n = machine_with(&[0x81, 0x27]);
    n.v[1] = 0x0A;
    n.v[2] = 0x03;
    assert_eq!(n.emulate_cycle(), Ok(()));
    assert_eq!(n.v[1], 0xF9);
    assert_eq!(n.v[0xF], 0);
}

#[test]
fn move_or_and_xor() {
    let mut m = machine_with(&[0x81, 0x20, 0x83, 0x41, 0x85, 0x62, 0x87, 0x83]);
    m.v[2] = 0x5A;
    m.v[3] = 0xF0;
    m.v[4] = 0x0F;
    m.v[5] = 0b1100;
    m.v[6] = 0b1010;
    m.v[7] = 0b1100;
    m.v[8] = 0b1010;
    m.v[0xF] = 3;
    for _ in 0..4 {
        assert_eq!(m.emulate_cycle(), Ok(()));
    }
    assert_eq!(m.v[1], 0x5A);
    assert_eq!(m.v[3], 0xFF);
    assert_eq!(m.v[5], 0b1000);
    assert_eq!(m.v[7], 0b0110);
    assert_eq!(m.v[0xF], 3);
}

#[test]
fn shift_right_moves_low_bit_into_flag() {
    let mut m = machine_with(&[0x81, 0x26]);
    m.v[1] = 0b0000_0101;
    assert_eq!(m.emulate_cycle(), Ok(()));
    assert_eq!(m.v[1], 0b0000_0010);
    assert_eq!(m.v[0xF], 1);
}

#[test]
fn shift_left_moves_high_bit_into_flag() {
    let mut m = machine_with(&[0x81, 0x2E]);
    m.v[1] = 0b1100_0001;
    assert_eq!(m.emulate_cycle(), Ok(()));
    assert_eq!(m.v[1], 0b1000_0010);
    assert_eq!(m.v[0xF], 1);
    let mut n = machine_with(&[0x81, 0x2E]);
    n.v[1] = 0b0100_0001;
    assert_eq!(n.emulate_cycle(), Ok(()));
    assert_eq!(n.v[1], 0b1000_0010);
    assert_eq!(n.v[0xF], 0);
}

#[test]
fn load_index_and_add_to_index() {
    let mut m = machine_with(&[0xA1, 0x23, 0xF2, 0x1E]);
    m.v[2] = 0x10;
    assert_eq!(m.emulate_cycle(), Ok(()));
    assert_eq!(m.i, 0x123);
    assert_eq!(m.emulate_cycle(), Ok(()));
    assert_eq!(m.i, 0x133);
}

#[test]
fn add_to_index_is_not_masked_to_twelve_bits() {
    let mut m = machine_with(&[0xF2, 0x1E]);
    m.i = 0x0FFF;
    m.v[2] = 0x02;
    assert_eq!(m.emulate_cycle(), Ok(()));
    assert_eq!(m.i, 0x1001);
}

#[test]
fn add_to_index_wraps_at_sixteen_bits() {
    let mut m = machine_with(&[0xF2, 0x1E]);
    m.i = 0xFFFF;
    m.v[2] = 0x02;
    assert_eq!(m.emulate_cycle(), Ok(()));
    assert_eq!(m.i, 0x0001);
}

#[test]
fn random_is_masked_by_immediate() {
    let mut m = machine_with(&[0xC3, 0x0F]);
    assert_eq!(m.step_with(0xAB), Ok(()));
    assert_eq!(m.v[3], 0x0B);
    assert_eq!(m.pc, 0x202);
    for _ in 0..64 {
        let mut n = machine_with(&[0xC3, 0x0F, 0xC4, 0x00]);
        n.v[4] = 0x77;
        assert_eq!(n.emulate_cycle(), Ok(()));
        assert!(n.v[3] <= 0x0F);
        assert_eq!(n.emulate_cycle(), Ok(()));
        assert_eq!(n.v[4], 0);
    }
}

#[test]
fn random_draws_more_than_one_value() {
    let mut seen = [false; 256];
    for _ in 0..512 {
        let mut m = machine_with(&[0xC0, 0xFF]);
        assert_eq!(m.emulate_cycle(), Ok(()));
        seen[m.v[0] as usize] = true;
    }
    assert!(seen.iter().filter(|s| **s).count() > 1);
}

#[test]
fn glyph_address_is_five_times_digit() {
    let mut m = machine_with(&[0xF1, 0x29]);
    m.v[1] = 0xA;
    assert_eq!(m.emulate_cycle(), Ok(()));
    assert_eq!(m.i, 50);
    assert_eq!(&m.memory[50..55], &[0xF0, 0x90, 0xF0, 0x90, 0x90]);
}

#[test]
fn bcd_stores_three_digits() {
    let mut m = machine_with(&[0xF1, 0x33]);
    m.v[1] = 0xFE;
    m.i = 0x300;
    assert_eq!(m.emulate_cycle(), Ok(()));
    assert_eq!(&m.memory[0x300..0x303], &[2, 5, 4]);
    assert_eq!(m.i, 0x300);
}

#[test]
fn bcd_past_end_of_memory_fails_and_writes_nothing() {
    let mut m = machine_with(&[0xF1, 0x33]);
    m.v[1] = 0xFE;
    m.i = 4094;
    assert_eq!(m.emulate_cycle(), Err(StepError::AddressOutOfRange));
    assert_eq!(m.memory[4094], 0);
    assert_eq!(m.memory[4095], 0);
    assert_eq!(m.pc, 0x200);
    m.i = 4093;
    assert_eq!(m.emulate_cycle(), Ok(()));
    assert_eq!(&m.memory[4093..4096], &[2, 5, 4]);
}

#[test]
fn register_dump_copies_v0_through_vx() {
    let mut m = machine_with(&[0xF2, 0x55]);
    m.v[0] = 0x11;
    m.v[1] = 0x22;
    m.v[2] = 0x33;
    m.v[3] = 0x44;
    m.i = 0x400;
    assert_eq!(m.emulate_cycle(), Ok(()));
    assert_eq!(&m.memory[0x400..0x404], &[0x11, 0x22, 0x33, 0x00]);
    assert_eq!(m.i, 0x400);
}

#[test]
fn register_load_copies_memory_into_v0_through_vx() {
    let mut m = machine_with(&[0xF2, 0x65]);
    m.memory[0x400] = 0x11;
    m.memory[0x401] = 0x22;
    m.memory[0x402] = 0x33;
    m.memory[0x403] = 0x44;
    m.v[3] = 0x99;
    m.i = 0x400;
    assert_eq!(m.emulate_cycle(), Ok(()));
    assert_eq!(&m.v[0..4], &[0x11, 0x22, 0x33, 0x99]);
    assert_eq!(m.i, 0x400);
}

#[test]
fn register_transfer_past_end_of_memory_fails() {
    let mut m = machine_with(&[0xF2, 0x55]);
    m.i = 4094;
    m.v[0] = 1;
    assert_eq!(m.emulate_cycle(), Err(StepError::AddressOutOfRange));
    assert_eq!(m.memory[4094], 0);
    let mut n = machine_with(&[0xF2, 0x65]);
    n.i = 4094;
    assert_eq!(n.emulate_cycle(), Err(StepError::AddressOutOfRange));
    let mut ok = machine_with(&[0xF2, 0x55]);
    ok.i = 4093;
    ok.v[2] = 7;
    assert_eq!(ok.emulate_cycle(), Ok(()));
    assert_eq!(ok.memory[4095], 7);
}

#[test]
fn skip_if_key_pressed_and_not_pressed() {
    let mut m = machine_with(&[0xE1, 0x9E, 0x00, 0x00, 0xE1, 0xA1]);
    m.v[1] = 0xB;
    m.key[0xB] = 1;
    assert_eq!(m.emulate_cycle(), Ok(()));
    assert_eq!(m.pc, 0x204);
    assert_eq!(m.emulate_cycle(), Ok(()));
    assert_eq!(m.pc, 0x206);
    let mut n = machine_with(&[0xE1, 0xA1]);
    n.v[1] = 0xB;
    assert_eq!(n.emulate_cycle(), Ok(()));
    assert_eq!(n.pc, 0x204);
}

#[test]
fn key_test_on_index_above_fifteen_fails() {
    let mut m = machine_with(&[0xE1, 0x9E]);
    m.v[1] = 16;
    assert_eq!(m.emulate_cycle(), Err(StepError::KeyOutOfRange));
    assert_eq!(m.pc, 0x200);
    let mut n = machine_with(&[0xE1, 0xA1]);
    n.v[1] = 0xFF;
    assert_eq!(n.emulate_cycle(), Err(StepError::KeyOutOfRange));
}

#[test]
fn wait_for_key_without_key_repeats_instruction() {
    let mut m = machine_with(&[0xF5, 0x0A]);
    m.v[5] = 0x77;
    assert_eq!(m.emulate_cycle(), Ok(()));
    assert_eq!(m.pc, 0x200);
    assert_eq!(m.v[5], 0x77);
    assert_eq!(m.emulate_cycle(), Ok(()));
    assert_eq!(m.pc, 0x200);
    m.key[3] = 1;
    assert_eq!(m.emulate_cycle(), Ok(()));
    assert_eq!(m.pc, 0x202);
    assert_eq!(m.v[5], 3);
}

#[test]
fn wait_for_key_takes_highest_pressed_key() {
    let mut m = machine_with(&[0xF5, 0x0A]);
    m.key[2] = 1;
    m.key[9] = 1;
    m.key[0xC] = 1;
    assert_eq!(m.emulate_cycle(), Ok(()));
    assert_eq!(m.v[5], 0xC);
    assert_eq!(m.pressed_key(), Some(0xC));
    assert_eq!(Chip8::new().pressed_key(), None);
}

#[test]
fn delay_timer_load_set_and_decay() {
    let mut m = machine_with(&[0xF1, 0x15, 0xF2, 0x07, 0x60, 0x00, 0x60, 0x00]);
    m.v[1] = 3;
    assert_eq!(m.emulate_cycle(), Ok(()));
    assert_eq!(m.delay_timer, 2);
    assert_eq!(m.emulate_cycle(), Ok(()));
    assert_eq!(m.v[2], 2);
    assert_eq!(m.delay_timer, 1);
    assert_eq!(m.emulate_cycle(), Ok(()));
    assert_eq!(m.delay_timer, 0);
    assert_eq!(m.emulate_cycle(), Ok(()));
    assert_eq!(m.delay_timer, 0);
}

#[test]
fn sound_timer_is_set_and_not_decayed_by_step() {
    let mut m = machine_with(&[0xF1, 0x18, 0x60, 0x00]);
    m.v[1] = 5;
    assert_eq!(m.emulate_cycle(), Ok(()));
    assert_eq!(m.sound_timer, 5);
    assert_eq!(m.emulate_cycle(), Ok(()));
    assert_eq!(m.sound_timer, 5);
}

#[test]
fn execute_runs_a_decoded_instruction() {
    let mut m = Chip8::new();
    m.delay_timer = 4;
    assert_eq!(m.execute(Instruction::LoadImm { x: 3, kk: 0x21 }, 0), Ok(()));
    assert_eq!(m.v[3], 0x21);
    assert_eq!(m.pc, 0x202);
    assert_eq!(m.delay_timer, 3);
    assert_eq!(m.fault_of(Instruction::Return), Some(StepError::StackUnderflow));
    assert_eq!(m.fault_of(Instruction::Jump { addr: 0x300 }), None);
}

#[test]
fn stepping_keeps_framebuffer_binary_and_stack_pointer_in_range() {
    let mut m = machine_with(&[0x22, 0x04, 0x00, 0x00, 0xA0, 0x00, 0xD0, 0x05, 0xD0, 0x05, 0x00, 0xEE]);
    for _ in 0..5 {
        assert_eq!(m.emulate_cycle(), Ok(()));
        assert!(m.sp <= 16);
        assert!(m.gfx.iter().all(|p| *p == 0 || *p == 1));
    }
    assert_eq!(m.pc, 0x202);
}
