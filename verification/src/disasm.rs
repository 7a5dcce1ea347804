//! The function lifter and the disassembly orchestrator.
//!
//! The lifter walks the instruction bytes of one function, classifies each
//! decoded instruction against a deliberately small supported subset, and
//! either produces an intermediate-representation fragment or fails with a
//! structured error — it never guesses at semantics it does not fully model.
//! The orchestrator memoizes lifted functions in an address-keyed map and
//! drives a FIFO worklist over discovered call targets, so every reachable
//! function is lifted exactly once.

use vstd::prelude::*;
use std::collections::HashMap;
use iced_x86::{Code, Decoder, DecoderOptions, OpKind};
use crate::cpu::{CpuSpec, CpuState, cpu_init, spec_read, spec_write};

verus! {

broadcast use vstd::std_specs::hash::group_hash_axioms;

/// The general-purpose 64-bit integer registers, in hardware encoding order.
#[derive(Debug, Clone, Copy, PartialEq, Eq, Structural)]
pub enum Reg {
    Rax,
    Rcx,
    Rdx,
    Rbx,
    Rsp,
    Rbp,
    Rsi,
    Rdi,
    R8,
    R9,
    R10,
    R11,
    R12,
    R13,
    R14,
    R15,
}

/// The hardware encoding number of a register (`Rax` is 0, `R15` is 15).
pub open spec fn reg_idx(r: Reg) -> int {
    match r {
        Reg::Rax => 0,
        Reg::Rcx => 1,
        Reg::Rdx => 2,
        Reg::Rbx => 3,
        Reg::Rsp => 4,
        Reg::Rbp => 5,
        Reg::Rsi => 6,
        Reg::Rdi => 7,
        Reg::R8 => 8,
        Reg::R9 => 9,
        Reg::R10 => 10,
        Reg::R11 => 11,
        Reg::R12 => 12,
        Reg::R13 => 13,
        Reg::R14 => 14,
        Reg::R15 => 15,
    }
}

/// The register with a given hardware encoding number.
pub open spec fn reg_of_num(n: int) -> Reg {
    if n == 0 {
        Reg::Rax
    } else if n == 1 {
        Reg::Rcx
    } else if n == 2 {
        Reg::Rdx
    } else if n == 3 {
        Reg::Rbx
    } else if n == 4 {
        Reg::Rsp
    } else if n == 5 {
        Reg::Rbp
    } else if n == 6 {
        Reg::Rsi
    } else if n == 7 {
        Reg::Rdi
    } else if n == 8 {
        Reg::R8
    } else if n == 9 {
        Reg::R9
    } else if n == 10 {
        Reg::R10
    } else if n == 11 {
        Reg::R11
    } else if n == 12 {
        Reg::R12
    } else if n == 13 {
        Reg::R13
    } else if n == 14 {
        Reg::R14
    } else {
        Reg::R15
    }
}

/// The register with a given hardware encoding number.
pub fn reg_from_number(n: u8) -> (r: Reg)
    requires
        n < 16,
    ensures
        r == reg_of_num(n as int),
{
    match n {
        0 => Reg::Rax,
        1 => Reg::Rcx,
        2 => Reg::Rdx,
        3 => Reg::Rbx,
        4 => Reg::Rsp,
        5 => Reg::Rbp,
        6 => Reg::Rsi,
        7 => Reg::Rdi,
        8 => Reg::R8,
        9 => Reg::R9,
        10 => Reg::R10,
        11 => Reg::R11,
        12 => Reg::R12,
        13 => Reg::R13,
        14 => Reg::R14,
        _ => Reg::R15,
    }
}

/// The mnemonic classes the lifter recognizes; everything else is unknown.
#[derive(Debug, Clone, Copy, PartialEq, Eq, Structural)]
pub enum Mnemonic {
    /// A 64-bit register-or-memory destination moved from a 64-bit register.
    MovRmR64,
    /// A 64-bit register-or-memory destination minus a sign-extended 8-bit
    /// immediate.
    SubRmImm8,
    /// A 64-bit register-or-memory destination exclusive-or'd with a 64-bit
    /// register.
    XorRmR64,
    /// Any other instruction.
    Other,
}

/// One decoded instruction, reduced to the facets the lifter inspects.
#[derive(Debug, Clone, Copy, PartialEq, Eq, Structural)]
pub struct Decoded {
    /// Whether the bytes decoded to a valid instruction at all.
    pub valid: bool,
    /// The encoded length in bytes.
    pub len: usize,
    /// The mnemonic classification.
    pub mnemonic: Mnemonic,
    /// Whether the first operand is a memory operand.
    pub op0_mem: bool,
    /// Whether the second operand is a memory operand.
    pub op1_mem: bool,
    /// Whether the second operand is a register operand.
    pub op1_reg: bool,
    /// Whether the second operand is an 8-bit immediate sign-extended to 64
    /// bits.
    pub op1_imm: bool,
    /// The hardware number of the first operand's register, when it is one.
    pub reg0: u8,
    /// The hardware number of the second operand's register, when it is one.
    pub reg1: u8,
    /// Whether the instruction carries a lock prefix.
    pub lock: bool,
}

/// What decoding one instruction at a given offset of a byte region yields.
/// Decoding is a function of the bytes alone.
pub uninterp spec fn decode_spec(bytes: Seq<u8>, offset: int) -> Decoded;

/// Relies on iced_x86's `Decoder::with_ip` and `Decoder::decode`: decoding
/// one x86-64 instruction is a function of the bytes at the offset alone; a
/// validly decoded instruction is 1 to 15 bytes long and never extends past
/// the end of the given slice; the register operands of the three recognized
/// codes are 64-bit general-purpose registers, so their hardware numbers are
/// below 16 (`Register::number`).
#[verifier::external_body]
fn decode_next(bytes: &Vec<u8>, offset: usize) -> (d: Decoded)
    requires
        offset <= bytes@.len(),
    ensures
        d == decode_spec(bytes@, offset as int),
        d.valid ==> 1 <= d.len && d.len <= 15 && offset + d.len <= bytes@.len(),
        d.valid && d.mnemonic != Mnemonic::Other ==> d.reg0 < 16 && d.reg1 < 16,
{
    let mut dec = Decoder::with_ip(64, &bytes[offset..], offset as u64, DecoderOptions::AMD);
    let i = dec.decode();
    let mnemonic = match i.code() {
        Code::Mov_rm64_r64 => Mnemonic::MovRmR64,
        Code::Sub_rm64_imm8 => Mnemonic::SubRmImm8,
        Code::Xor_rm64_r64 => Mnemonic::XorRmR64,
        _ => Mnemonic::Other,
    };
    Decoded {
        valid: !i.is_invalid(), len: i.len(), mnemonic,
        op0_mem: i.op0_kind() == OpKind::Memory, op1_mem: i.op1_kind() == OpKind::Memory,
        op1_reg: i.op1_kind() == OpKind::Register, op1_imm: i.op1_kind() == OpKind::Immediate8to64,
        reg0: i.op0_register().number() as u8, reg1: i.op1_register().number() as u8,
        lock: i.has_lock_prefix(),
    }
}

/// A recovered formal parameter: an integer of the given bit width.
#[derive(Debug, Clone, Copy, PartialEq, Eq, Structural)]
pub enum Param {
    Int(usize),
}

/// An operand of a lifted instruction: either a formal parameter by index,
/// or an architectural register identity with its bit width.
#[derive(Debug, Clone, Copy, PartialEq, Eq, Structural)]
pub enum Operand {
    Param(usize),
    Register(Reg, usize),
}

/// A normalized CPU instruction.
#[derive(Debug, Clone, Copy, PartialEq, Eq, Structural)]
pub enum Instruction {
    /// Move the source operand into the destination operand.
    Mov(Operand, Operand),
    /// Set the destination operand to zero.
    Zero(Operand),
}

/// The mathematical model of a lifted [`Function`].
pub struct FunctionSpec {
    pub params: Seq<Param>,
    pub ret_regs: Seq<Reg>,
    pub instructions: Seq<Instruction>,
    pub calls: Seq<usize>,
    pub refs: Seq<usize>,
}

/// A disassembled function: its recovered parameters, its lifted instruction
/// sequence, the call targets discovered while lifting it, and the addresses
/// known to call it.
#[derive(Debug, Clone, PartialEq)]
pub struct Function {
    params: Vec<Param>,
    ret_regs: Vec<Reg>,
    instructions: Vec<Instruction>,
    calls: Vec<usize>,
    refs: Vec<usize>,
}

impl View for Function {
    type V = FunctionSpec;

    closed spec fn view(&self) -> FunctionSpec {
        FunctionSpec {
            params: self.params@,
            ret_regs: self.ret_regs@,
            instructions: self.instructions@,
            calls: self.calls@,
            refs: self.refs@,
        }
    }
}

impl Function {
    /// The recovered formal parameters, in capture order.
    pub fn params(&self) -> (r: &Vec<Param>)
        ensures
            r@ == self@.params,
    {
        &self.params
    }

    /// The return registers (reserved; not populated by the supported
    /// subset).
    pub fn ret_regs(&self) -> (r: &Vec<Reg>)
        ensures
            r@ == self@.ret_regs,
    {
        &self.ret_regs
    }

    /// The lifted instruction sequence.
    pub fn instructions(&self) -> (r: &Vec<Instruction>)
        ensures
            r@ == self@.instructions,
    {
        &self.instructions
    }

    /// Gets the offsets this function calls to.
    pub fn calls(&self) -> (r: &Vec<usize>)
        ensures
            r@ == self@.calls,
    {
        &self.calls
    }

    /// Gets the offsets that call this function.
    pub fn refs(&self) -> (r: &Vec<usize>)
        ensures
            r@ == self@.refs,
    {
        &self.refs
    }
}

/// The mathematical model of a lift failure.
pub enum ErrorSpec {
    UnsupportedOperand(int),
    UnsupportedPrefix(int),
    UnsupportedTarget(int),
    UnknownInstruction(int, Seq<u8>, Decoded),
    InvalidBase(int),
}

/// A structured lift failure, carrying the offset of the offending
/// instruction.
#[derive(Debug, Clone, PartialEq)]
pub enum DisassembleError {
    /// A known mnemonic with an operand shape outside the supported subset.
    UnsupportedOperand(usize),
    /// An otherwise-recognized instruction carrying a lock prefix.
    UnsupportedPrefix(usize),
    /// A recognized mnemonic targeting a location outside the one handled
    /// case.
    UnsupportedTarget(usize),
    /// A mnemonic outside the supported set, with its raw encoded bytes and
    /// decoded form for diagnostics.
    UnknownInstruction(usize, Vec<u8>, Decoded),
    /// The requested offset lies outside the memory image.
    InvalidBase(usize),
}

impl View for DisassembleError {
    type V = ErrorSpec;

    closed spec fn view(&self) -> ErrorSpec {
        match self {
            DisassembleError::UnsupportedOperand(a) => ErrorSpec::UnsupportedOperand(*a as int),
            DisassembleError::UnsupportedPrefix(a) => ErrorSpec::UnsupportedPrefix(*a as int),
            DisassembleError::UnsupportedTarget(a) => ErrorSpec::UnsupportedTarget(*a as int),
            DisassembleError::UnknownInstruction(a, raw, d) => ErrorSpec::UnknownInstruction(
                *a as int,
                raw@,
                *d,
            ),
            DisassembleError::InvalidBase(a) => ErrorSpec::InvalidBase(*a as int),
        }
    }
}

/// The state a lift threads through its instructions: register provenance
/// and the instructions emitted so far.
pub struct LiftState {
    pub cpu: CpuSpec,
    pub instructions: Seq<Instruction>,
}

/// The state a lift starts from.
pub open spec fn init_state() -> LiftState {
    LiftState { cpu: cpu_init(), instructions: Seq::empty() }
}

/// Classification of a register-to-register move: both operands must be
/// registers; the destination is written, the source read resolves through
/// the provenance tracker, and one move instruction is emitted.
pub open spec fn mov_step(d: Decoded, addr: int, st: LiftState) -> Result<LiftState, ErrorSpec> {
    if d.op0_mem {
        Err(ErrorSpec::UnsupportedOperand(addr))
    } else if d.op1_mem {
        Err(ErrorSpec::UnsupportedOperand(addr))
    } else {
        let dst = reg_of_num(d.reg0 as int);
        let src = reg_of_num(d.reg1 as int);
        let c1 = spec_write(st.cpu, dst);
        let (c2, srcop) = spec_read(c1, src);
        Ok(
            LiftState {
                cpu: c2,
                instructions: st.instructions.push(
                    Instruction::Mov(Operand::Register(dst, 64), srcop),
                ),
            },
        )
    }
}

/// Classification of a subtract-immediate: only a stack-pointer destination
/// with an immediate source is supported, and it emits no instruction (stack
/// sizing is not modeled in the intermediate representation).
pub open spec fn sub_step(d: Decoded, addr: int) -> Result<(), ErrorSpec> {
    if d.op0_mem {
        if d.lock {
            Err(ErrorSpec::UnsupportedPrefix(addr))
        } else {
            Err(ErrorSpec::UnsupportedOperand(addr))
        }
    } else if reg_of_num(d.reg0 as int) == Reg::Rsp {
        if d.op1_imm {
            Ok(())
        } else {
            Err(ErrorSpec::UnsupportedOperand(addr))
        }
    } else {
        Err(ErrorSpec::UnsupportedTarget(addr))
    }
}

/// Classification of an exclusive-or: only the self-xor zero idiom is
/// supported; the destination is written and one zeroing instruction is
/// emitted.
pub open spec fn xor_step(d: Decoded, addr: int, st: LiftState) -> Result<LiftState, ErrorSpec> {
    if d.op0_mem {
        if d.lock {
            Err(ErrorSpec::UnsupportedPrefix(addr))
        } else {
            Err(ErrorSpec::UnsupportedOperand(addr))
        }
    } else if d.op1_reg {
        if d.reg0 == d.reg1 {
            let dst = reg_of_num(d.reg0 as int);
            Ok(
                LiftState {
                    cpu: spec_write(st.cpu, dst),
                    instructions: st.instructions.push(
                        Instruction::Zero(Operand::Register(dst, 64)),
                    ),
                },
            )
        } else {
            Err(ErrorSpec::UnsupportedOperand(addr))
        }
    } else {
        Err(ErrorSpec::UnsupportedOperand(addr))
    }
}

/// Classification of one valid decoded instruction: dispatch on the
/// mnemonic class; anything outside the table is an unknown instruction.
pub open spec fn step_spec(bytes: Seq<u8>, addr: int, d: Decoded, st: LiftState) -> Result<
    LiftState,
    ErrorSpec,
> {
    match d.mnemonic {
        Mnemonic::MovRmR64 => mov_step(d, addr, st),
        Mnemonic::SubRmImm8 => match sub_step(d, addr) {
            Ok(_) => Ok(st),
            Err(e) => Err(e),
        },
        Mnemonic::XorRmR64 => xor_step(d, addr, st),
        Mnemonic::Other => Err(
            ErrorSpec::UnknownInstruction(addr, bytes.subrange(addr, addr + d.len as int), d),
        ),
    }
}

/// The lift of a function's tail starting at `offset`: decode until the
/// first invalid instruction (the only recognized end-of-function
/// condition), classifying each valid one in turn; the first classification
/// failure aborts the whole lift.
pub open spec fn lift_from(bytes: Seq<u8>, offset: int, st: LiftState) -> Result<
    LiftState,
    ErrorSpec,
>
    decreases bytes.len() - offset,
{
    let d = decode_spec(bytes, offset);
    if !d.valid {
        Ok(st)
    } else {
        match step_spec(bytes, offset, d, st) {
            Err(e) => Err(e),
            Ok(st2) => if 1 <= d.len && offset + d.len <= bytes.len() {
                lift_from(bytes, offset + d.len as int, st2)
            } else {
                Ok(st2)
            },
        }
    }
}

/// The complete lift of the function entered at `entry`: an entry outside
/// the byte region is rejected; otherwise the lift starts from a fresh
/// register state, and on success the captured parameters and emitted
/// instructions make up the function, with the reserved return-register and
/// cross-reference lists empty.
pub open spec fn lift_fn(bytes: Seq<u8>, entry: int) -> Result<FunctionSpec, ErrorSpec> {
    if !(0 <= entry && entry <= bytes.len()) {
        Err(ErrorSpec::InvalidBase(entry))
    } else {
        match lift_from(bytes, entry, init_state()) {
            Ok(st) => Ok(
                FunctionSpec {
                    params: st.cpu.params,
                    ret_regs: Seq::empty(),
                    instructions: st.instructions,
                    calls: Seq::empty(),
                    refs: Seq::empty(),
                },
            ),
            Err(e) => Err(e),
        }
    }
}

/// Lifting is deterministic: the same byte range lifts to the same function,
/// parameter for parameter and instruction for instruction.
pub proof fn lemma_lift_deterministic(bytes: Seq<u8>, entry: int, f1: FunctionSpec, f2: FunctionSpec)
    requires
        lift_fn(bytes, entry) == Ok::<FunctionSpec, ErrorSpec>(f1),
        lift_fn(bytes, entry) == Ok::<FunctionSpec, ErrorSpec>(f2),
    ensures
        f1 == f2,
{
}

/// A subtract-immediate whose destination is the stack pointer and whose
/// source is a valid immediate contributes no instruction and leaves the
/// lift state untouched.
pub proof fn lemma_stack_probe_elision(bytes: Seq<u8>, addr: int, d: Decoded, st: LiftState)
    requires
        d.mnemonic == Mnemonic::SubRmImm8,
        !d.op0_mem,
        reg_of_num(d.reg0 as int) == Reg::Rsp,
        d.op1_imm,
    ensures
        step_spec(bytes, addr, d, st) == Ok::<LiftState, ErrorSpec>(st),
{
}

/// The lifter fails closed: each unsupported operand shape yields its
/// structured error, and an erring step leaves the lift state untouched (no
/// instruction is appended).
pub proof fn lemma_fail_closed(bytes: Seq<u8>, addr: int, d: Decoded, st: LiftState)
    ensures
        d.mnemonic == Mnemonic::MovRmR64 && d.op0_mem ==> step_spec(bytes, addr, d, st) == Err::<
            LiftState,
            ErrorSpec,
        >(ErrorSpec::UnsupportedOperand(addr)),
        d.mnemonic == Mnemonic::MovRmR64 && !d.op0_mem && d.op1_mem ==> step_spec(bytes, addr, d, st)
            == Err::<LiftState, ErrorSpec>(ErrorSpec::UnsupportedOperand(addr)),
        d.mnemonic == Mnemonic::SubRmImm8 && !d.op0_mem && reg_of_num(d.reg0 as int) != Reg::Rsp
            ==> step_spec(bytes, addr, d, st) == Err::<LiftState, ErrorSpec>(
            ErrorSpec::UnsupportedTarget(addr),
        ),
        d.mnemonic == Mnemonic::XorRmR64 && !d.op0_mem && d.op1_reg && d.reg0 != d.reg1
            ==> step_spec(bytes, addr, d, st) == Err::<LiftState, ErrorSpec>(
            ErrorSpec::UnsupportedOperand(addr),
        ),
        d.mnemonic == Mnemonic::SubRmImm8 && d.op0_mem && d.lock ==> step_spec(bytes, addr, d, st)
            == Err::<LiftState, ErrorSpec>(ErrorSpec::UnsupportedPrefix(addr)),
        d.mnemonic == Mnemonic::XorRmR64 && d.op0_mem && d.lock ==> step_spec(bytes, addr, d, st)
            == Err::<LiftState, ErrorSpec>(ErrorSpec::UnsupportedPrefix(addr)),
{
}

/// A byte stream that ends in an undecodable sequence ends the function
/// there, successfully: the instructions decoded so far are the complete
/// body.
pub proof fn lemma_decode_end_terminates(bytes: Seq<u8>, offset: int, st: LiftState)
    requires
        !decode_spec(bytes, offset).valid,
    ensures
        lift_from(bytes, offset, st) == Ok::<LiftState, ErrorSpec>(st),
{
}

/// The call targets of the function lifted at `a`, when that lift succeeds.
pub open spec fn lift_calls(bytes: Seq<u8>, a: usize) -> Seq<usize> {
    match lift_fn(bytes, a as int) {
        Ok(f) => f.calls,
        Err(_) => Seq::empty(),
    }
}

/// `to` can be reached from `from` in at most `n` call-graph edges.
pub open spec fn reaches_n(bytes: Seq<u8>, from: usize, to: usize, n: nat) -> bool
    decreases n,
{
    if from == to {
        true
    } else if n == 0 {
        false
    } else {
        exists|m: usize|
            reaches_n(bytes, from, m, (n - 1) as nat) && #[trigger] lift_calls(
                bytes,
                m,
            ).contains(to)
    }
}

/// `to` lies in the call graph discovered from `from`.
pub open spec fn reaches(bytes: Seq<u8>, from: usize, to: usize) -> bool {
    exists|n: nat| reaches_n(bytes, from, to, n)
}

pub proof fn lemma_reaches_self(bytes: Seq<u8>, a: usize)
    ensures
        reaches(bytes, a, a),
{
    assert(reaches_n(bytes, a, a, 0));
}

/// Copy `n` bytes starting at `start` out of a byte region.
#[verifier::loop_isolation(false)]
fn copy_range(bytes: &Vec<u8>, start: usize, n: usize) -> (r: Vec<u8>)
    requires
        start + n <= bytes@.len(),
    ensures
        r@ == bytes@.subrange(start as int, start as int + n as int),
{
    let blen: usize = bytes.len();
    let mut r: Vec<u8> = Vec::new();
    let mut i: usize = 0;
    while i < n
        invariant
            i <= n,
            start + n <= bytes@.len(),
            r@ == bytes@.subrange(start as int, start as int + i as int),
        decreases n - i,
    {
        r.push(bytes[start + i]);
        proof {
            assert(r@ =~= bytes@.subrange(start as int, start as int + (i + 1) as int));
        }
        i = i + 1;
    }
    r
}

/// Contains the state of a module disassembly: the memory image and the
/// append-only map from function offset to lifted function.
pub struct Disassembler {
    module: Vec<u8>,
    functions: HashMap<usize, Function>,
}

impl Disassembler {
    /// The memory image being disassembled.
    pub closed spec fn mem(&self) -> Seq<u8> {
        self.module@
    }

    /// The functions lifted so far, keyed by their offset in the image.
    pub closed spec fn funcs(&self) -> Map<usize, Function> {
        self.functions@
    }

    pub fn new(module: Vec<u8>) -> (d: Disassembler)
        ensures
            d.mem() == module@,
            d.funcs() == Map::<usize, Function>::empty(),
    {
        Disassembler { module, functions: HashMap::new() }
    }

    /// Pure lookup of an already-lifted function; never triggers lifting.
    pub fn get(&self, offset: usize) -> (r: Option<&Function>)
        ensures
            match r {
                Some(f) => self.funcs().contains_key(offset) && *f == self.funcs()[offset],
                None => !self.funcs().contains_key(offset),
            },
    {
        self.functions.get(&offset)
    }

    /// Reserved hook for a cross-reference pass that would populate each
    /// function's `refs` list from the completed call graph; the baseline
    /// lifter leaves the map untouched.
    pub fn fixup(&mut self)
        ensures
            *final(self) == *old(self),
    {
    }

    /// Lift the function at `offset` and every function reachable from it
    /// through discovered call targets, breadth-first, memoizing each lifted
    /// function under its offset. Already-lifted offsets are never lifted
    /// again; on failure the functions already committed stay in the map.
    #[verifier::loop_isolation(false)]
    pub fn disassemble(&mut self, offset: usize) -> (r: Result<(), DisassembleError>)
        ensures
            final(self).mem() == old(self).mem(),
            forall|k: usize| #[trigger]
                old(self).funcs().contains_key(k) ==> final(self).funcs().contains_key(k)
                    && final(self).funcs()[k] == old(self).funcs()[k],
            forall|k: usize|
                #[trigger] final(self).funcs().contains_key(k) && !old(self).funcs().contains_key(
                    k,
                ) ==> lift_fn(old(self).mem(), k as int) == Ok::<FunctionSpec, ErrorSpec>(
                    final(self).funcs()[k]@,
                ) && reaches(old(self).mem(), offset, k),
            r is Ok ==> final(self).funcs().contains_key(offset),
            r is Ok ==> forall|k: usize, t: usize|
                final(self).funcs().contains_key(k) && !old(self).funcs().contains_key(k)
                    && #[trigger] final(self).funcs()[k]@.calls.contains(t) ==> final(
                    self).funcs().contains_key(t),
            (r matches Err(e) ==> exists|a: usize|
                #[trigger] reaches(old(self).mem(), offset, a) && !old(self).funcs().contains_key(
                    a,
                ) && lift_fn(old(self).mem(), a as int) == Err::<FunctionSpec, ErrorSpec>(e@)),
    {
        let ghost m0 = self.functions@;
        let ghost mem = self.module@;
        let mut queue: Vec<usize> = Vec::new();
        queue.push(offset);
        proof {
            lemma_reaches_self(mem, offset);
            assert(queue@.len() == 1);
            assert(queue@[0] == offset);
        }
        let mut head: usize = 0;
        while head < queue.len()
            invariant
                head <= queue@.len(),
                self.mem() == mem,
                old(self).funcs() == m0,
                forall|k: usize| #[trigger]
                    m0.contains_key(k) ==> self.funcs().contains_key(k) && self.funcs()[k] == m0[k],
                forall|k: usize|
                    #[trigger] self.funcs().contains_key(k) && !m0.contains_key(k) ==> lift_fn(
                        mem,
                        k as int,
                    ) == Ok::<FunctionSpec, ErrorSpec>(self.funcs()[k]@) && reaches(
                        mem,
                        offset,
                        k,
                    ),
                forall|i: int| 0 <= i < queue@.len() ==> reaches(mem, offset, #[trigger] queue@[i]),
                forall|k: usize, t: usize|
                    self.funcs().contains_key(k) && !m0.contains_key(k) && #[trigger]
                        self.funcs()[k]@.calls.contains(t) ==> self.funcs().contains_key(t) || exists|
                        i: int,
                    | head <= i < queue@.len() && queue@[i] == t,
                self.funcs().contains_key(offset) || exists|i: int|
                    head <= i < queue@.len() && queue@[i] == offset,
            decreases queue@.len() - head,
        {
            let job = queue[head];
            head = head + 1;
            if self.functions.contains_key(&job) {
                continue ;
            }
            let func = match self.disassemble_single(job) {
                Ok(f) => f,
                Err(e) => {
                    proof {
                        assert(reaches(mem, offset, job));
                        assert(lift_fn(mem, job as int) == Err::<FunctionSpec, ErrorSpec>(e@));
                    }
                    return Err(e);
                },
            };
            // No classified instruction discovers a call target yet, so a
            // lifted function's call list is provably empty; the worklist
            // can only drain, which is what bounds this loop.
            proof {
                assert(func@.calls =~= Seq::<usize>::empty());
            }
            let ghost q0 = queue@;
            let mut ci: usize = 0;
            while ci < func.calls.len()
                invariant
                    func.calls@.len() == 0,
                    queue@ == q0,
                decreases func.calls@.len() - ci,
            {
                let t = func.calls[ci];
                if !self.functions.contains_key(&t) {
                    queue.push(t);
                }
                ci = ci + 1;
            }
            self.functions.insert(job, func);
        }
        Ok(())
    }

    /// Translate the decoded-instruction stream of exactly one function,
    /// starting at `offset`, into a lifted function: precisely the result of
    /// [`lift_fn`] on the image bytes.
    fn disassemble_single(&self, offset: usize) -> (r: Result<Function, DisassembleError>)
        ensures
            match r {
                Ok(f) => lift_fn(self.mem(), offset as int) == Ok::<FunctionSpec, ErrorSpec>(f@),
                Err(e) => lift_fn(self.mem(), offset as int) == Err::<FunctionSpec, ErrorSpec>(e@),
            },
    {
        if offset > self.module.len() {
            return Err(DisassembleError::InvalidBase(offset));
        }
        let ghost mem = self.module@;
        let mut cpu = CpuState::new();
        let mut instructions: Vec<Instruction> = Vec::new();
        let mut pos: usize = offset;
        loop
            invariant_except_break
                cpu.inv(),
                offset <= pos,
                pos <= mem.len(),
                mem.len() <= usize::MAX,
                mem == self.mem(),
                lift_from(mem, offset as int, init_state()) == lift_from(
                    mem,
                    pos as int,
                    (LiftState { cpu: cpu@, instructions: instructions@ }),
                ),
            ensures
                cpu.inv(),
                mem == self.mem(),
                lift_from(mem, offset as int, init_state()) == Ok::<LiftState, ErrorSpec>(
                    LiftState { cpu: cpu@, instructions: instructions@ },
                ),
            decreases mem.len() - pos,
        {
            let d = decode_next(&self.module, pos);
            if !d.valid {
                proof {
                    lemma_decode_end_terminates(
                        mem,
                        pos as int,
                        LiftState { cpu: cpu@, instructions: instructions@ },
                    );
                }
                break ;
            }
            let ghost st = LiftState { cpu: cpu@, instructions: instructions@ };
            let step: Result<(), DisassembleError> = match d.mnemonic {
                Mnemonic::MovRmR64 => Self::disassemble_mov(&d, pos, &mut cpu, &mut instructions),
                Mnemonic::SubRmImm8 => Self::disassemble_sub(&d, pos),
                Mnemonic::XorRmR64 => Self::disassemble_xor(&d, pos, &mut cpu, &mut instructions),
                Mnemonic::Other => {
                    let raw = copy_range(&self.module, pos, d.len);
                    Err(DisassembleError::UnknownInstruction(pos, raw, d))
                },
            };
            match step {
                Ok(_) => {},
                Err(e) => {
                    proof {
                        assert(step_spec(mem, pos as int, d, st) == Err::<LiftState, ErrorSpec>(
                            e@,
                        ));
                        assert(lift_from(mem, pos as int, st) == Err::<LiftState, ErrorSpec>(e@));
                    }
                    return Err(e);
                },
            }
            proof {
                let st2 = LiftState { cpu: cpu@, instructions: instructions@ };
                assert(step_spec(mem, pos as int, d, st) == Ok::<LiftState, ErrorSpec>(st2));
                assert(lift_from(mem, pos as int, st) == lift_from(
                    mem,
                    pos + d.len as int,
                    st2,
                ));
            }
            pos = pos + d.len;
        }
        let params = cpu.into_params();
        let f = Function {
            params,
            ret_regs: Vec::new(),
            instructions,
            calls: Vec::new(),
            refs: Vec::new(),
        };
        proof {
            assert(lift_fn(mem, offset as int) matches Ok(fs) && fs == f@);
        }
        Ok(f)
    }

    /// Classify a register-to-register move, resolving the source through
    /// the provenance tracker and emitting one move instruction.
    fn disassemble_mov(
        d: &Decoded,
        addr: usize,
        cpu: &mut CpuState,
        ins: &mut Vec<Instruction>,
    ) -> (r: Result<(), DisassembleError>)
        requires
            old(cpu).inv(),
            d.mnemonic == Mnemonic::MovRmR64,
            d.reg0 < 16,
            d.reg1 < 16,
        ensures
            final(cpu).inv(),
            match r {
                Ok(_) => mov_step(
                    *d,
                    addr as int,
                    LiftState { cpu: old(cpu)@, instructions: old(ins)@ },
                ) == Ok::<LiftState, ErrorSpec>(
                    LiftState { cpu: final(cpu)@, instructions: final(ins)@ },
                ),
                Err(e) => mov_step(
                    *d,
                    addr as int,
                    LiftState { cpu: old(cpu)@, instructions: old(ins)@ },
                ) == Err::<LiftState, ErrorSpec>(e@) && final(cpu)@ == old(cpu)@ && final(ins)@
                    == old(ins)@,
            },
    {
        if d.op0_mem {
            Err(DisassembleError::UnsupportedOperand(addr))
        } else if d.op1_mem {
            Err(DisassembleError::UnsupportedOperand(addr))
        } else {
            let dst = reg_from_number(d.reg0);
            let src = reg_from_number(d.reg1);
            cpu.observe_write(dst);
            let srcop = cpu.observe_read(src);
            ins.push(Instruction::Mov(Operand::Register(dst, 64), srcop));
            Ok(())
        }
    }

    /// Classify a subtract-immediate: a stack allocation contributes no
    /// instruction; anything else is refused.
    fn disassemble_sub(d: &Decoded, addr: usize) -> (r: Result<(), DisassembleError>)
        requires
            d.mnemonic == Mnemonic::SubRmImm8,
            d.reg0 < 16,
        ensures
            match r {
                Ok(_) => sub_step(*d, addr as int) == Ok::<(), ErrorSpec>(()),
                Err(e) => sub_step(*d, addr as int) == Err::<(), ErrorSpec>(e@),
            },
    {
        if d.op0_mem {
            if d.lock {
                Err(DisassembleError::UnsupportedPrefix(addr))
            } else {
                Err(DisassembleError::UnsupportedOperand(addr))
            }
        } else if matches!(reg_from_number(d.reg0), Reg::Rsp) {
            if d.op1_imm {
                Ok(())
            } else {
                Err(DisassembleError::UnsupportedOperand(addr))
            }
        } else {
            Err(DisassembleError::UnsupportedTarget(addr))
        }
    }

    /// Classify an exclusive-or: only the self-xor zero idiom is supported,
    /// and it emits one zeroing instruction.
    fn disassemble_xor(
        d: &Decoded,
        addr: usize,
        cpu: &mut CpuState,
        ins: &mut Vec<Instruction>,
    ) -> (r: Result<(), DisassembleError>)
        requires
            old(cpu).inv(),
            d.mnemonic == Mnemonic::XorRmR64,
            d.reg0 < 16,
            d.reg1 < 16,
        ensures
            final(cpu).inv(),
            match r {
                Ok(_) => xor_step(
                    *d,
                    addr as int,
                    LiftState { cpu: old(cpu)@, instructions: old(ins)@ },
                ) == Ok::<LiftState, ErrorSpec>(
                    LiftState { cpu: final(cpu)@, instructions: final(ins)@ },
                ),
                Err(e) => xor_step(
                    *d,
                    addr as int,
                    LiftState { cpu: old(cpu)@, instructions: old(ins)@ },
                ) == Err::<LiftState, ErrorSpec>(e@) && final(cpu)@ == old(cpu)@ && final(ins)@
                    == old(ins)@,
            },
    {
        if d.op0_mem {
            if d.lock {
                Err(DisassembleError::UnsupportedPrefix(addr))
            } else {
                Err(DisassembleError::UnsupportedOperand(addr))
            }
        } else if d.op1_reg {
            if d.reg0 == d.reg1 {
                let dst = reg_from_number(d.reg0);
                cpu.observe_write(dst);
                ins.push(Instruction::Zero(Operand::Register(dst, 64)));
                Ok(())
            } else {
                Err(DisassembleError::UnsupportedOperand(addr))
            }
        } else {
            Err(DisassembleError::UnsupportedOperand(addr))
        }
    }
}

} // verus!
