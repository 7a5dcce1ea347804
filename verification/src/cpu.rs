//! Register provenance tracking for a single function lift.
//!
//! Every architectural register starts out `FromCaller`. The first read of a
//! register in that state promotes it to `Param(i)`, where `i` is the next
//! unused parameter index; any write forces the register to `Local`. Reads of
//! a `Param` or `Local` register leave the state unchanged.

use vstd::prelude::*;
use crate::disasm::{Operand, Param, Reg, reg_idx};

verus! {

/// The abstract provenance of one register's current value.
#[derive(Debug, Clone, Copy, PartialEq, Eq, Structural)]
pub enum ValueState {
    /// The incoming value has not yet been attributed to anything.
    FromCaller,
    /// The value at function entry was captured as formal parameter `i`.
    Param(usize),
    /// The register was overwritten inside the function.
    Local,
}

/// The mathematical model of a [`CpuState`]: one provenance entry per
/// architectural register, plus the parameters captured so far.
pub struct CpuSpec {
    pub regs: Seq<ValueState>,
    pub params: Seq<Param>,
}

/// The state every lift starts from: all sixteen registers `FromCaller`,
/// no parameters captured.
pub open spec fn cpu_init() -> CpuSpec {
    CpuSpec { regs: Seq::new(16, |i: int| ValueState::FromCaller), params: Seq::empty() }
}

/// What observing a write to `r` does: the register becomes `Local`,
/// whatever it was before.
pub open spec fn spec_write(c: CpuSpec, r: Reg) -> CpuSpec {
    CpuSpec { regs: c.regs.update(reg_idx(r), ValueState::Local), params: c.params }
}

/// What observing a read of `r` does and yields: a `FromCaller` register is
/// promoted to the next parameter index and a new parameter is appended; a
/// `Param` register yields its index; a `Local` register yields its own
/// identity.
pub open spec fn spec_read(c: CpuSpec, r: Reg) -> (CpuSpec, Operand) {
    match c.regs[reg_idx(r)] {
        ValueState::FromCaller => (
            CpuSpec {
                regs: c.regs.update(reg_idx(r), ValueState::Param(c.params.len() as usize)),
                params: c.params.push(Param::Int(64)),
            },
            Operand::Param(c.params.len() as usize),
        ),
        ValueState::Param(i) => (c, Operand::Param(i)),
        ValueState::Local => (c, Operand::Register(r, 64)),
    }
}

/// Per-register provenance state, scoped to exactly one function lift.
pub struct CpuState {
    regs: Vec<ValueState>,
    params: Vec<Param>,
}

impl View for CpuState {
    type V = CpuSpec;

    closed spec fn view(&self) -> CpuSpec {
        CpuSpec { regs: self.regs@, params: self.params@ }
    }
}

impl CpuState {
    /// The state is fully populated: one entry per architectural register.
    pub closed spec fn inv(&self) -> bool {
        self.regs@.len() == 16
    }

    /// A fresh state: every register `FromCaller`, no parameters.
    #[verifier::loop_isolation(false)]
    pub fn new() -> (c: CpuState)
        ensures
            c.inv(),
            c@ == cpu_init(),
    {
        let mut regs: Vec<ValueState> = Vec::new();
        let mut i: usize = 0;
        while i < 16
            invariant
                i <= 16,
                regs@.len() == i,
                forall|j: int| 0 <= j < i ==> regs@[j] == ValueState::FromCaller,
            decreases 16 - i,
        {
            regs.push(ValueState::FromCaller);
            i = i + 1;
        }
        let c = CpuState { regs, params: Vec::new() };
        proof {
            assert(c@.regs =~= cpu_init().regs);
            assert(c@.params =~= cpu_init().params);
        }
        c
    }

    /// Resolve a register read, promoting a `FromCaller` register to the next
    /// parameter index as a side effect.
    pub fn observe_read(&mut self, r: Reg) -> (o: Operand)
        requires
            old(self).inv(),
        ensures
            final(self).inv(),
            spec_read(old(self)@, r) == ((final(self)@, o)),
    {
        let idx = reg_index(r);
        match self.regs[idx] {
            ValueState::FromCaller => {
                let i = self.params.len();
                self.params.push(Param::Int(64));
                self.regs.set(idx, ValueState::Param(i));
                Operand::Param(i)
            },
            ValueState::Param(i) => Operand::Param(i),
            ValueState::Local => Operand::Register(r, 64),
        }
    }

    /// Record a register write: the register no longer carries the incoming
    /// value, regardless of its prior state.
    pub fn observe_write(&mut self, r: Reg)
        requires
            old(self).inv(),
        ensures
            final(self).inv(),
            final(self)@ == spec_write(old(self)@, r),
    {
        let idx = reg_index(r);
        self.regs.set(idx, ValueState::Local);
    }

    /// Hand out the captured parameter list, in capture order.
    pub fn into_params(self) -> (v: Vec<Param>)
        ensures
            v@ == self@.params,
    {
        self.params
    }
}

/// The index of a register in a [`CpuState`], equal to its hardware encoding
/// number.
pub fn reg_index(r: Reg) -> (n: usize)
    ensures
        n == reg_idx(r),
        n < 16,
{
    match r {
        Reg::Rax => 0,
        Reg::Rcx => 1,
        Reg::Rdx => 2,
        Reg::Rbx => 3,
        Reg::Rsp => 4,
        Reg::Rbp => 5,
        Reg::Rsi => 6,
        Reg::Rdi => 7,
        Reg::R8 => 8,
        Reg::R9 => 9,
        Reg::R10 => 10,
        Reg::R11 => 11,
        Reg::R12 => 12,
        Reg::R13 => 13,
        Reg::R14 => 14,
        Reg::R15 => 15,
    }
}

/// Distinct registers occupy distinct state entries.
pub proof fn lemma_reg_idx_injective(a: Reg, b: Reg)
    ensures
        a != b ==> reg_idx(a) != reg_idx(b),
        0 <= reg_idx(a) < 16,
{
}

/// Parameters are captured in the order their source registers are first
/// read: reading register `a`, then `b`, then `a` again from a fresh state
/// resolves to `Param(0)`, `Param(1)`, `Param(0)`, and captures exactly two
/// 64-bit integer parameters.
pub proof fn lemma_param_capture_order(a: Reg, b: Reg)
    requires
        a != b,
    ensures
        ({
            let (c1, o1) = spec_read(cpu_init(), a);
            let (c2, o2) = spec_read(c1, b);
            let (c3, o3) = spec_read(c2, a);
            o1 == Operand::Param(0usize) && o2 == Operand::Param(1usize) && o3
                == Operand::Param(0usize) && c3.params == seq![Param::Int(64), Param::Int(64)]
        }),
{
    lemma_reg_idx_injective(a, b);
    lemma_reg_idx_injective(b, a);
    let (c1, o1) = spec_read(cpu_init(), a);
    let (c2, o2) = spec_read(c1, b);
    let (c3, o3) = spec_read(c2, a);
    assert(c3.params =~= seq![Param::Int(64), Param::Int(64)]);
}

/// A register that was written never again resolves to a parameter: reading
/// it right after a write yields the register's own identity.
pub proof fn lemma_write_invalidates_provenance(c: CpuSpec, r: Reg)
    requires
        c.regs.len() == 16,
    ensures
        spec_read(spec_write(c, r), r).1 == Operand::Register(r, 64),
{
    lemma_reg_idx_injective(r, r);
}

} // verus!
