use crate::addr::phys;
use crate::decode::{decode, Instr};
use crate::model::{
    exec_spec, initial_regs, initial_state, load_image, run_spec, step_spec,
    CpuState, HALT_WORD, NUM_REGS, PC, SP,
};
use vstd::prelude::*;

verus! {

/// A machine instance: word-addressed memory of fixed length, sixteen
/// registers, the status word, four segment bases and the running flag.
pub struct Cpu {
    mem: Vec<u16>,
    reg: Vec<u16>,
    psw: u16,
    cs: u16,
    ds: u16,
    ss: u16,
    es: u16,
    running: bool,
}

impl View for Cpu {
    type V = CpuState;

    closed spec fn view(&self) -> CpuState {
        CpuState {
            mem: self.mem@,
            reg: self.reg@,
            psw: self.psw,
            cs: self.cs,
            ds: self.ds,
            ss: self.ss,
            es: self.es,
            running: self.running,
        }
    }
}

fn initial_registers() -> (r: Vec<u16>)
    ensures
        r@ == initial_regs(),
{
    let mut r = vec![0u16; NUM_REGS];
    r.set(SP, 0x7FFF);
    assert(r@ =~= initial_regs());
    r
}

/// Creates a machine with `mem_words` words of memory, all holding the halt
/// word, and the registers and segments at their defaults.
pub fn init(mem_words: usize) -> (c: Cpu)
    ensures
        c@ == initial_state(mem_words as nat),
{
    let mem = vec![HALT_WORD; mem_words];
    let c = Cpu {
        mem,
        reg: initial_registers(),
        psw: 0,
        cs: 0x0000,
        ds: 0x1000,
        ss: 0x8000,
        es: 0x2000,
        running: false,
    };
    assert(c@.mem =~= initial_state(mem_words as nat).mem);
    c
}

/// Brings the machine back to its initial state; the memory keeps its size.
pub fn reset(cpu: &mut Cpu)
    ensures
        final(cpu)@ == initial_state(old(cpu)@.mem.len()),
        final(cpu)@.reg[SP as int] == 0x7FFF,
        final(cpu)@.reg[PC as int] == 0,
        final(cpu)@.psw == 0,
{
    let n = cpu.mem.len();
    let mut i: usize = 0;
    while i < n
        invariant
            cpu.mem@.len() == n,
            i <= n,
            forall|j: int| 0 <= j < i ==> cpu.mem@[j] == HALT_WORD,
        decreases n - i,
    {
        cpu.mem.set(i, HALT_WORD);
        i += 1;
    }
    cpu.reg = initial_registers();
    cpu.psw = 0;
    cpu.cs = 0x0000;
    cpu.ds = 0x1000;
    cpu.ss = 0x8000;
    cpu.es = 0x2000;
    cpu.running = false;
    assert(cpu@.mem =~= initial_state(n as nat).mem);
}

/// Overwrites the four segment bases.
pub fn set_segments(cpu: &mut Cpu, cs: u16, ds: u16, ss: u16, es: u16)
    ensures
        final(cpu)@ == (CpuState { cs, ds, ss, es, ..old(cpu)@ }),
{
    cpu.cs = cs;
    cpu.ds = ds;
    cpu.ss = ss;
    cpu.es = es;
}

/// Copies `data` into memory from index `start` on and sets the program
/// counter to zero. When the image does not fit, nothing changes.
pub fn load_program(cpu: &mut Cpu, start: usize, data: &[u16])
    requires
        old(cpu)@.wf(),
    ensures
        final(cpu)@.wf(),
        start + data@.len() > old(cpu)@.mem.len() ==> final(cpu)@ == old(cpu)@,
        start + data@.len() <= old(cpu)@.mem.len() ==> final(cpu)@ == (CpuState {
            mem: load_image(old(cpu)@.mem, start as int, data@),
            reg: old(cpu)@.reg.update(PC as int, 0),
            ..old(cpu)@
        }),
{
    let len = data.len();
    if start > cpu.mem.len() || len > cpu.mem.len() - start {
        return;
    }
    let ghost old_mem = cpu.mem@;
    let n = cpu.mem.len();
    let mut i: usize = 0;
    while i < len
        invariant
            cpu.mem@.len() == n,
            n == old_mem.len(),
            start + len <= n,
            cpu@ == (CpuState { mem: cpu@.mem, ..old(cpu)@ }),
            len == data@.len(),
            i <= len,
            forall|j: int|
                0 <= j < old_mem.len() ==> cpu.mem@[j] == if start <= j < start + i {
                    data@[j - start]
                } else {
                    old_mem[j]
                },
        decreases len - i,
    {
        cpu.mem.set(start + i, data[i]);
        i += 1;
    }
    cpu.reg.set(PC, 0);
    assert(cpu.mem@ =~= load_image(old_mem, start as int, data@));
    assert(cpu.reg@ =~= old(cpu)@.reg.update(PC as int, 0));
}

/// A copy of the sixteen registers, in index order.
pub fn get_registers(cpu: &Cpu) -> (r: Vec<u16>)
    ensures
        r@ == cpu@.reg,
{
    let r = cpu.reg.clone();
    assert(r@ =~= cpu@.reg);
    r
}

/// The status word.
pub fn get_psw(cpu: &Cpu) -> (r: u16)
    ensures
        r == cpu@.psw,
{
    cpu.psw
}

/// Whether stepping has begun and no halt word has been met since.
pub fn is_running(cpu: &Cpu) -> (r: bool)
    ensures
        r == cpu@.running,
{
    cpu.running
}

/// Executes one decoded instruction (the program counter has already been
/// advanced past it).
pub fn execute(cpu: &mut Cpu, instr: Instr)
    requires
        old(cpu)@.wf(),
        instr.wf(),
    ensures
        final(cpu)@ == exec_spec(old(cpu)@, instr),
{
    match instr {
        Instr::LoadStore { store, rd, rb, off } => {
            let pa = phys(cpu.ds, cpu.reg[rb] as u32 + off as u32);
            if pa < cpu.mem.len() {
                if store {
                    let v = cpu.reg[rd];
                    cpu.mem.set(pa, v);
                } else {
                    let v = cpu.mem[pa];
                    cpu.reg.set(rd, v);
                }
            }
        },
        Instr::LoadImm { rd, imm5 } => {
            let v = if imm5 < 16 {
                imm5
            } else {
                imm5 + 0xFFE0
            };
            cpu.reg.set(rd, v);
        },
        Instr::AddImm { rd, rs, imm2 } => {
            let v = cpu.reg[rs].wrapping_add(imm2);
            cpu.reg.set(rd, v);
        },
        Instr::Unknown => {},
    }
}

/// One fetch-decode-execute cycle. Returns `false` when the program counter
/// lies outside memory or the halt word was fetched, `true` otherwise.
pub fn step(cpu: &mut Cpu) -> (r: bool)
    requires
        old(cpu)@.wf(),
    ensures
        final(cpu)@.wf(),
        (final(cpu)@, r) == step_spec(old(cpu)@),
{
    let pc = cpu.reg[PC] as usize;
    if pc >= cpu.mem.len() {
        return false;
    }
    let w = cpu.mem[pc];
    if w == HALT_WORD {
        cpu.running = false;
        return false;
    }
    cpu.running = true;
    let next = cpu.reg[PC].wrapping_add(1);
    cpu.reg.set(PC, next);
    let instr = decode(w);
    execute(cpu, instr);
    true
}

/// Runs up to `n` cycles, stopping at the first that reports `false`, and
/// returns the report of the last cycle run (`true` when `n` is zero).
pub fn run_steps(cpu: &mut Cpu, n: u32) -> (r: bool)
    requires
        old(cpu)@.wf(),
    ensures
        final(cpu)@.wf(),
        (final(cpu)@, r) == run_spec(old(cpu)@, n as nat),
{
    let mut i: u32 = 0;
    while i < n
        invariant
            i <= n,
            cpu@.wf(),
            run_spec(cpu@, (n - i) as nat) == run_spec(old(cpu)@, n as nat),
        decreases n - i,
    {
        if !step(cpu) {
            return false;
        }
        i += 1;
    }
    true
}

} // verus!
