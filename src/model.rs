use crate::addr::phys_spec;
use crate::decode::{decode_spec, Instr};
use vstd::prelude::*;

verus! {

/// The word that stops execution; memory is filled with it initially.
pub const HALT_WORD: u16 = 0xFFFF;

/// Index of the stack pointer in the register file.
pub const SP: usize = 13;

/// Index of the program counter in the register file.
pub const PC: usize = 15;

/// Number of general-purpose registers.
pub const NUM_REGS: usize = 16;

/// The machine's state as mathematical values.
pub struct CpuState {
    pub mem: Seq<u16>,
    pub reg: Seq<u16>,
    pub psw: u16,
    pub cs: u16,
    pub ds: u16,
    pub ss: u16,
    pub es: u16,
    pub running: bool,
}

impl CpuState {
    /// Exactly sixteen registers exist.
    pub open spec fn wf(self) -> bool {
        self.reg.len() == NUM_REGS
    }

    /// The program counter as a memory index.
    pub open spec fn pc(self) -> int {
        self.reg[PC as int] as int
    }
}

/// The register file after initialisation or reset: the stack pointer at
/// 0x7FFF and every other register, the program counter included, at zero.
pub open spec fn initial_regs() -> Seq<u16> {
    Seq::new(NUM_REGS as nat, |i: int| if i == SP { 0x7FFFu16 } else { 0u16 })
}

/// The state after initialisation with `mem_len` words of memory, and after
/// a reset of a machine with that much memory.
pub open spec fn initial_state(mem_len: nat) -> CpuState {
    CpuState {
        mem: Seq::new(mem_len, |i: int| HALT_WORD),
        reg: initial_regs(),
        psw: 0,
        cs: 0x0000,
        ds: 0x1000,
        ss: 0x8000,
        es: 0x2000,
        running: false,
    }
}

/// Memory with `data` copied in from index `start` on; the rest kept.
pub open spec fn load_image(mem: Seq<u16>, start: int, data: Seq<u16>) -> Seq<u16> {
    Seq::new(
        mem.len(),
        |i: int|
            if start <= i < start + data.len() {
                data[i - start]
            } else {
                mem[i]
            },
    )
}

/// Two's-complement sign extension of a five-bit field to sixteen bits.
pub open spec fn sign_extend5(imm5: u16) -> u16 {
    if imm5 < 16 {
        imm5
    } else {
        (imm5 + 0xFFE0) as u16
    }
}

/// The memory index that a load or store with base register `rb` and
/// offset `off` touches: the data segment with offset `reg[rb] + off`.
pub open spec fn effective_address(s: CpuState, rb: usize, off: u16) -> int {
    phys_spec(s.ds, (s.reg[rb as int] + off) as u32)
}

/// What executing `i` does to `s`. A load or store whose address lies
/// outside memory changes nothing.
pub open spec fn exec_spec(s: CpuState, i: Instr) -> CpuState {
    match i {
        Instr::LoadStore { store, rd, rb, off } => {
            let a = effective_address(s, rb, off);
            if a >= s.mem.len() {
                s
            } else if store {
                CpuState { mem: s.mem.update(a, s.reg[rd as int]), ..s }
            } else {
                CpuState { reg: s.reg.update(rd as int, s.mem[a]), ..s }
            }
        },
        Instr::LoadImm { rd, imm5 } => CpuState {
            reg: s.reg.update(rd as int, sign_extend5(imm5)),
            ..s
        },
        Instr::AddImm { rd, rs, imm2 } => CpuState {
            reg: s.reg.update(rd as int, ((s.reg[rs as int] + imm2) % 0x10000) as u16),
            ..s
        },
        Instr::Unknown => s,
    }
}

/// The state in which a fetched word is executed: the program counter one
/// further (modulo 2^16) and `running` set.
pub open spec fn advance_pc(s: CpuState) -> CpuState {
    CpuState { reg: s.reg.update(PC as int, ((s.pc() + 1) % 0x10000) as u16), running: true, ..s }
}

/// One fetch-decode-execute cycle: the next state, and whether stepping may
/// go on. With the program counter outside memory nothing changes; on the
/// halt word only `running` is cleared; otherwise the program counter
/// advances (modulo 2^16) before the fetched word is executed.
pub open spec fn step_spec(s: CpuState) -> (CpuState, bool) {
    if s.pc() >= s.mem.len() {
        (s, false)
    } else if s.mem[s.pc()] == HALT_WORD {
        (CpuState { running: false, ..s }, false)
    } else {
        (exec_spec(advance_pc(s), decode_spec(s.mem[s.pc()])), true)
    }
}

/// Up to `n` cycles, stopping after the first that reports a stop: the
/// final state and the report of the last cycle run (`true` when none ran).
pub open spec fn run_spec(s: CpuState, n: nat) -> (CpuState, bool)
    decreases n,
{
    if n == 0 {
        (s, true)
    } else {
        let (t, go_on) = step_spec(s);
        if go_on {
            run_spec(t, (n - 1) as nat)
        } else {
            (t, false)
        }
    }
}

} // verus!
