use vstd::prelude::*;

verus! {

/// A decoded instruction word. Register fields are indices into the
/// register file; immediates keep the raw bits of their field.
pub enum Instr {
    /// Memory access through the data segment: `store` moves `reg[rd]` to
    /// memory, otherwise memory is read into `reg[rd]`. The offset inside the
    /// segment is `reg[rb] + off`.
    LoadStore { store: bool, rd: usize, rb: usize, off: u16 },
    /// `reg[rd] := imm5` sign-extended from five bits.
    LoadImm { rd: usize, imm5: u16 },
    /// `reg[rd] := reg[rs] + imm2`, modulo 2^16.
    AddImm { rd: usize, rs: usize, imm2: u16 },
    /// Any other word: executes as a no-op.
    Unknown,
}

impl Instr {
    /// Register indices lie in the register file and immediates fit their
    /// fields.
    pub open spec fn wf(self) -> bool {
        match self {
            Instr::LoadStore { store, rd, rb, off } => rd < 16 && rb < 16 && off < 32,
            Instr::LoadImm { rd, imm5 } => rd < 16 && imm5 < 32,
            Instr::AddImm { rd, rs, imm2 } => rd < 16 && rs < 16 && imm2 < 4,
            Instr::Unknown => true,
        }
    }
}

/// The bits of `w` from bit `lo` upwards, under `mask`.
pub open spec fn field(w: u16, lo: u16, mask: u16) -> u16 {
    (w >> lo) & mask
}

/// Classifies a word by its leading bits: `10` is a load or store, `1111110`
/// a load immediate, `111110` an add immediate; anything else is unknown.
pub open spec fn decode_spec(w: u16) -> Instr {
    if field(w, 14, 0x3) == 0x2 {
        Instr::LoadStore {
            store: field(w, 13, 0x1) == 1,
            rd: field(w, 9, 0xF) as usize,
            rb: field(w, 5, 0xF) as usize,
            off: field(w, 0, 0x1F),
        }
    } else if field(w, 9, 0x7F) == 0x7E {
        Instr::LoadImm { rd: field(w, 5, 0xF) as usize, imm5: field(w, 0, 0x1F) }
    } else if field(w, 10, 0x3F) == 0x3E {
        Instr::AddImm {
            rd: field(w, 6, 0xF) as usize,
            rs: field(w, 2, 0xF) as usize,
            imm2: field(w, 0, 0x3),
        }
    } else {
        Instr::Unknown
    }
}

/// Every decoded word names registers that exist.
pub proof fn lemma_decode_wf(w: u16)
    ensures
        decode_spec(w).wf(),
{
    assert(forall|lo: u16| #![auto] (w >> lo) & 0xF < 16) by (bit_vector);
    assert((w >> 0u16) & 0x1F < 32) by (bit_vector);
    assert((w >> 0u16) & 0x3 < 4) by (bit_vector);
}

/// Decodes one instruction word.
pub fn decode(w: u16) -> (r: Instr)
    ensures
        r == decode_spec(w),
        r.wf(),
{
    proof {
        lemma_decode_wf(w);
    }
    if (w >> 14) & 0x3 == 0x2 {
        Instr::LoadStore {
            store: (w >> 13) & 0x1 == 1,
            rd: ((w >> 9) & 0xF) as usize,
            rb: ((w >> 5) & 0xF) as usize,
            off: (w >> 0) & 0x1F,
        }
    } else if (w >> 9) & 0x7F == 0x7E {
        Instr::LoadImm { rd: ((w >> 5) & 0xF) as usize, imm5: (w >> 0) & 0x1F }
    } else if (w >> 10) & 0x3F == 0x3E {
        Instr::AddImm {
            rd: ((w >> 6) & 0xF) as usize,
            rs: ((w >> 2) & 0xF) as usize,
            imm2: (w >> 0) & 0x3,
        }
    } else {
        Instr::Unknown
    }
}

} // verus!
