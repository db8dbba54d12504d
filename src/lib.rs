//! Execution core of an emulator for a small 16-bit segmented machine:
//! machine state, segment:offset address translation, instruction decoding
//! and the fetch-decode-execute step driver.

mod addr;
mod decode;
mod laws;
mod machine;
mod model;

pub use addr::{phys, phys_spec};
pub use decode::{decode, decode_spec, field, lemma_decode_wf, Instr};
pub use laws::{
    lemma_halt_word, lemma_out_of_range_access, lemma_run_halts_early,
    lemma_step_keeps_status_word, lemma_store_load_round_trip,
};
pub use machine::{
    execute, get_psw, get_registers, init, is_running, load_program, reset, run_steps,
    set_segments, step, Cpu,
};
pub use model::{
    advance_pc, effective_address, exec_spec, initial_regs, initial_state, load_image, run_spec,
    sign_extend5, step_spec, CpuState, HALT_WORD, NUM_REGS, PC, SP,
};
