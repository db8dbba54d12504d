use deep16::{
    decode, get_psw, get_registers, init, is_running, load_program, phys, reset, run_steps,
    set_segments, step, Cpu, Instr,
};

const LOAD_IMM_R1_MINUS_16: u16 = 0xFC30;
const LOAD_IMM_R1_15: u16 = 0xFC2F;
const LOAD_IMM_R1_5: u16 = 0xFC25;
const LOAD_IMM_R2_MINUS_1: u16 = 0xFC5F;
const ADD_R3_R2_1: u16 = 0xF8C9;
const STORE_R1_R0_20: u16 = 0xA214;
const LOAD_R4_R0_20: u16 = 0x8814;
const LOAD_R1_R0_0: u16 = 0x8200;
const LOAD_R2_R0_3: u16 = 0x8403;
const LOAD_R2_R0_4: u16 = 0x8404;
const LOAD_R2_R1_31: u16 = 0x843F;

fn machine_with(mem_words: usize, program: &[u16]) -> Cpu {
    let mut c = init(mem_words);
    load_program(&mut c, 0, program);
    c
}

#[test]
fn phys_shifts_segment_and_adds_offset() {
    assert_eq!(phys(0x1000, 5), 0x10005);
    assert_eq!(phys(0, 0), 0);
    assert_eq!(phys(0x0001, 0x0F), 0x1F);
}

#[test]
fn phys_boundary_values() {
    assert_eq!(phys(0xFFFF, 0xFFFF_FFFF) as u64, 0x1_000F_FFEF);
    assert_eq!(phys(0xFFFF, 0), 0xFFFF0);
}

#[test]
fn decode_formats() {
    assert!(matches!(
        decode(STORE_R1_R0_20),
        Instr::LoadStore { store: true, rd: 1, rb: 0, off: 20 }
    ));
    assert!(matches!(
        decode(LOAD_R4_R0_20),
        Instr::LoadStore { store: false, rd: 4, rb: 0, off: 20 }
    ));
    assert!(matches!(decode(LOAD_IMM_R1_MINUS_16), Instr::LoadImm { rd: 1, imm5: 0x10 }));
    assert!(matches!(decode(ADD_R3_R2_1), Instr::AddImm { rd: 3, rs: 2, imm2: 1 }));
    assert!(matches!(decode(0x0000), Instr::Unknown));
    assert!(matches!(decode(0xFFFF), Instr::Unknown));
}

#[test]
fn init_sets_default_registers() {
    let c = init(8);
    let regs = get_registers(&c);
    assert_eq!(regs.len(), 16);
    for (i, r) in regs.iter().enumerate() {
        let expected = if i == 13 { 0x7FFF } else { 0 };
        assert_eq!(*r, expected);
    }
    assert_eq!(get_psw(&c), 0);
    assert!(!is_running(&c));
}

#[test]
fn load_immediate_sign_extends_negative() {
    let mut c = machine_with(8, &[LOAD_IMM_R1_MINUS_16]);
    assert!(step(&mut c));
    let regs = get_registers(&c);
    assert_eq!(regs[1], 0xFFF0);
    assert_eq!(regs[15], 1);
    assert!(is_running(&c));
}

#[test]
fn load_immediate_positive_not_extended() {
    let mut c = machine_with(8, &[LOAD_IMM_R1_15]);
    assert!(step(&mut c));
    assert_eq!(get_registers(&c)[1], 0x000F);
}

#[test]
fn add_immediate_wraps_around() {
    let mut c = machine_with(8, &[LOAD_IMM_R2_MINUS_1, ADD_R3_R2_1]);
    assert!(run_steps(&mut c, 2));
    let regs = get_registers(&c);
    assert_eq!(regs[2], 0xFFFF);
    assert_eq!(regs[3], 0x0000);
    assert_eq!(get_psw(&c), 0);
}

#[test]
fn halt_word_stops_without_advancing_pc() {
    let mut c = init(4);
    assert!(!step(&mut c));
    assert_eq!(get_registers(&c)[15], 0);
    assert!(!is_running(&c));
    assert!(!step(&mut c));
    assert_eq!(get_registers(&c)[15], 0);
}

#[test]
fn halt_after_running_clears_flag() {
    let mut c = machine_with(4, &[0x0000]);
    assert!(step(&mut c));
    assert!(is_running(&c));
    assert!(!step(&mut c));
    assert!(!is_running(&c));
    assert_eq!(get_registers(&c)[15], 1);
}

#[test]
fn unknown_word_is_a_no_op() {
    let mut c = machine_with(4, &[0x0000, 0x4000]);
    let before = get_registers(&c);
    assert!(step(&mut c));
    assert!(step(&mut c));
    let after = get_registers(&c);
    for i in 0..15 {
        assert_eq!(before[i], after[i]);
    }
    assert_eq!(after[15], 2);
}

#[test]
fn store_then_load_round_trip() {
    let mut c = machine_with(64, &[LOAD_IMM_R1_5, STORE_R1_R0_20, LOAD_R4_R0_20]);
    set_segments(&mut c, 0, 0, 0, 0);
    assert!(run_steps(&mut c, 3));
    let regs = get_registers(&c);
    assert_eq!(regs[1], 5);
    assert_eq!(regs[4], 5);
    assert_eq!(regs[15], 3);
}

#[test]
fn store_through_data_segment() {
    let mut c = machine_with(64, &[LOAD_IMM_R1_5, STORE_R1_R0_20, LOAD_R4_R0_20]);
    set_segments(&mut c, 0, 1, 0, 0);
    assert!(run_steps(&mut c, 3));
    assert_eq!(get_registers(&c)[4], 5);
    set_segments(&mut c, 0, 0, 0, 0);
    load_program(&mut c, 0, &[LOAD_R2_R1_31]);
    assert!(step(&mut c));
    assert_eq!(get_registers(&c)[2], 5);
}

#[test]
fn out_of_range_access_is_dropped() {
    let mut c = machine_with(16, &[LOAD_R1_R0_0, STORE_R1_R0_20]);
    let before = get_registers(&c);
    assert!(step(&mut c));
    assert!(step(&mut c));
    let after = get_registers(&c);
    for i in 0..15 {
        assert_eq!(before[i], after[i]);
    }
    assert_eq!(after[15], 2);
    set_segments(&mut c, 0, 0, 0, 0);
    load_program(&mut c, 0, &[LOAD_R1_R0_0]);
    assert!(step(&mut c));
    assert_eq!(get_registers(&c)[1], LOAD_R1_R0_0);
}

#[test]
fn load_program_rejects_overflowing_image() {
    let mut c = machine_with(4, &[LOAD_IMM_R1_5]);
    assert!(step(&mut c));
    assert_eq!(get_registers(&c)[15], 1);
    load_program(&mut c, 3, &[1, 2]);
    assert_eq!(get_registers(&c)[15], 1);
    load_program(&mut c, usize::MAX, &[1]);
    assert_eq!(get_registers(&c)[15], 1);
    set_segments(&mut c, 0, 0, 0, 0);
    load_program(&mut c, 0, &[LOAD_R2_R0_3]);
    assert!(step(&mut c));
    assert_eq!(get_registers(&c)[2], 0xFFFF);
}

#[test]
fn load_program_at_offset_resets_pc() {
    let mut c = machine_with(8, &[LOAD_IMM_R1_5]);
    assert!(step(&mut c));
    load_program(&mut c, 4, &[LOAD_IMM_R1_15]);
    assert_eq!(get_registers(&c)[15], 0);
    set_segments(&mut c, 0, 0, 0, 0);
    load_program(&mut c, 1, &[LOAD_R2_R0_4]);
    assert_eq!(get_registers(&c)[15], 0);
    assert!(run_steps(&mut c, 2));
    assert_eq!(get_registers(&c)[2], LOAD_IMM_R1_15);
}

#[test]
fn reset_restores_defaults() {
    let mut c = machine_with(8, &[LOAD_IMM_R1_5, LOAD_IMM_R2_MINUS_1]);
    assert!(run_steps(&mut c, 2));
    reset(&mut c);
    let regs = get_registers(&c);
    assert_eq!(regs[13], 0x7FFF);
    assert_eq!(regs[15], 0);
    assert_eq!(regs[1], 0);
    assert_eq!(regs[2], 0);
    assert_eq!(get_psw(&c), 0);
    assert!(!is_running(&c));
    assert!(!step(&mut c));
}

#[test]
fn run_stops_at_halt() {
    let program = [LOAD_IMM_R1_5, LOAD_IMM_R2_MINUS_1];
    let mut a = machine_with(8, &program);
    assert!(run_steps(&mut a, 2));
    let after_two = get_registers(&a);
    let mut b = machine_with(8, &program);
    assert!(!run_steps(&mut b, 10));
    assert_eq!(get_registers(&b), after_two);
    assert!(!is_running(&b));
    assert!(!run_steps(&mut b, 10));
    assert_eq!(get_registers(&b), after_two);
}

#[test]
fn run_zero_steps_reports_true() {
    let mut c = init(4);
    assert!(run_steps(&mut c, 0));
    assert_eq!(get_registers(&c)[15], 0);
}

#[test]
fn pc_outside_memory_stops() {
    let mut c = machine_with(2, &[0x0000, 0x0000]);
    assert!(run_steps(&mut c, 2));
    assert_eq!(get_registers(&c)[15], 2);
    assert!(!step(&mut c));
    assert_eq!(get_registers(&c)[15], 2);
}

#[test]
fn pc_wraps_at_top_of_address_space() {
    let mut c = init(0x10000);
    load_program(&mut c, 0xFFFF, &[0x0000]);
    load_program(&mut c, 0, &[0xFDFF]);
    assert!(step(&mut c));
    assert_eq!(get_registers(&c)[15], 0xFFFF);
    assert!(step(&mut c));
    assert_eq!(get_registers(&c)[15], 0);
}
