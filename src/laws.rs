use crate::decode::{decode_spec, Instr};
use crate::model::{
    advance_pc, effective_address, exec_spec, run_spec, step_spec, CpuState, HALT_WORD, PC,
};
use vstd::prelude::*;

verus! {

/// Storing a register to an in-bounds address and then loading that
/// address, through any base register and offset that reach it, into a
/// register gives back the stored value; memory is left as the store made
/// it.
pub proof fn lemma_store_load_round_trip(
    s: CpuState,
    rd: usize,
    rb: usize,
    off: u16,
    rd2: usize,
    rb2: usize,
    off2: u16,
)
    requires
        s.wf(),
        rd < 16,
        rb < 16,
        rd2 < 16,
        rb2 < 16,
        off < 32,
        off2 < 32,
        0 <= effective_address(s, rb, off) < s.mem.len(),
        effective_address(s, rb2, off2) == effective_address(s, rb, off),
    ensures
        ({
            let stored = exec_spec(s, Instr::LoadStore { store: true, rd, rb, off });
            let loaded = exec_spec(stored, Instr::LoadStore { store: false, rd: rd2, rb: rb2, off: off2 });
            &&& stored.mem[effective_address(s, rb, off)] == s.reg[rd as int]
            &&& loaded.reg[rd2 as int] == s.reg[rd as int]
            &&& loaded.mem == stored.mem
        }),
{
}

/// Fetching the halt word reports a stop, clears `running`, and leaves the
/// registers (the program counter included) and memory as they were.
pub proof fn lemma_halt_word(s: CpuState)
    requires
        s.wf(),
        0 <= s.pc() < s.mem.len(),
        s.mem[s.pc()] == HALT_WORD,
    ensures
        !step_spec(s).1,
        !step_spec(s).0.running,
        step_spec(s).0.reg == s.reg,
        step_spec(s).0.mem == s.mem,
{
}

/// A load or store whose address falls outside memory still counts as a
/// cycle: stepping goes on, memory is unchanged, and of the registers only
/// the program counter moves, by one.
pub proof fn lemma_out_of_range_access(s: CpuState)
    requires
        s.wf(),
        0 <= s.pc() < s.mem.len(),
        s.mem[s.pc()] != HALT_WORD,
        decode_spec(s.mem[s.pc()]) matches Instr::LoadStore { rb, off, .. } && effective_address(
            advance_pc(s),
            rb,
            off,
        ) >= s.mem.len(),
    ensures
        step_spec(s).1,
        step_spec(s).0.mem == s.mem,
        step_spec(s).0.reg == s.reg.update(PC as int, ((s.pc() + 1) % 0x10000) as u16),
{
}

/// No cycle writes the status word.
pub proof fn lemma_step_keeps_status_word(s: CpuState)
    ensures
        step_spec(s).0.psw == s.psw,
{
}

/// When the cycles after the first `k` of a run all went on and the next one
/// stops, a run of any longer length `n` ends with that stop: it reports
/// `false` and its registers and memory are those after the `k` cycles.
pub proof fn lemma_run_halts_early(s: CpuState, k: nat, n: nat)
    requires
        k < n,
        run_spec(s, k).1,
        !step_spec(run_spec(s, k).0).1,
    ensures
        run_spec(s, n) == step_spec(run_spec(s, k).0),
        !run_spec(s, n).1,
        run_spec(s, n).0.reg == run_spec(s, k).0.reg,
        run_spec(s, n).0.mem == run_spec(s, k).0.mem,
    decreases k,
{
    if k > 0 {
        let t = step_spec(s).0;
        lemma_run_halts_early(t, (k - 1) as nat, (n - 1) as nat);
    }
}

} // verus!
