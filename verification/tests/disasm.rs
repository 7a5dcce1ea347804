use lifter::disasm::{DisassembleError, Disassembler, Instruction, Operand, Param, Reg};

// Encodings used below (64-bit mode):
//   48 89 F8    MOV RAX, RDI      (MOV r/m64, r64)
//   48 89 F9    MOV RCX, RDI
//   48 89 F2    MOV RDX, RSI
//   48 89 FB    MOV RBX, RDI
//   48 89 C1    MOV RCX, RAX
//   48 89 07    MOV [RDI], RAX
//   48 83 EC 20 SUB RSP, 0x20     (SUB r/m64, imm8)
//   48 83 EB 20 SUB RBX, 0x20
//   48 83 2F 10 SUB [RDI], 0x10
//   48 31 C0    XOR RAX, RAX      (XOR r/m64, r64)
//   48 31 C8    XOR RAX, RCX
//   48 31 07    XOR [RDI], RAX
//   F0          LOCK prefix
//   06          invalid in 64-bit mode (ends the function)

#[test]
fn entry_mov_then_undecodable() {
    // MOV RAX, RDI followed by an undecodable byte: one captured parameter,
    // one move whose source resolves to it, no call targets.
    let bytes = vec![0x48, 0x89, 0xF8, 0x06];
    let mut d = Disassembler::new(bytes);
    d.disassemble(0).unwrap();
    let f = d.get(0).unwrap();
    assert_eq!(f.params(), &vec![Param::Int(64)]);
    assert_eq!(
        f.instructions(),
        &vec![Instruction::Mov(Operand::Register(Reg::Rax, 64), Operand::Param(0))]
    );
    assert_eq!(f.calls(), &Vec::<usize>::new());
    assert_eq!(f.refs(), &Vec::<usize>::new());
    assert!(d.get(1).is_none());
    assert!(d.get(4).is_none());
}

#[test]
fn stack_probe_then_zero_idiom() {
    // SUB RSP, 0x20 contributes no instruction; XOR RAX, RAX becomes a zero.
    let bytes = vec![0x48, 0x83, 0xEC, 0x20, 0x48, 0x31, 0xC0, 0x06];
    let mut d = Disassembler::new(bytes);
    d.disassemble(0).unwrap();
    let f = d.get(0).unwrap();
    assert_eq!(f.params(), &Vec::<Param>::new());
    assert_eq!(f.instructions(), &vec![Instruction::Zero(Operand::Register(Reg::Rax, 64))]);
}

#[test]
fn parameter_capture_order() {
    // Reads of RDI, RSI, RDI resolve to Param(0), Param(1), Param(0); the
    // parameter list records the two source registers in first-read order.
    let bytes = vec![0x48, 0x89, 0xF9, 0x48, 0x89, 0xF2, 0x48, 0x89, 0xFB, 0x06];
    let mut d = Disassembler::new(bytes);
    d.disassemble(0).unwrap();
    let f = d.get(0).unwrap();
    assert_eq!(f.params(), &vec![Param::Int(64), Param::Int(64)]);
    assert_eq!(
        f.instructions(),
        &vec![
            Instruction::Mov(Operand::Register(Reg::Rcx, 64), Operand::Param(0)),
            Instruction::Mov(Operand::Register(Reg::Rdx, 64), Operand::Param(1)),
            Instruction::Mov(Operand::Register(Reg::Rbx, 64), Operand::Param(0)),
        ]
    );
}

#[test]
fn write_then_read_is_not_a_param() {
    // RAX is written by the first move; the later read of RAX resolves to
    // the register identity, never to a parameter.
    let bytes = vec![0x48, 0x89, 0xF8, 0x48, 0x89, 0xC1, 0x06];
    let mut d = Disassembler::new(bytes);
    d.disassemble(0).unwrap();
    let f = d.get(0).unwrap();
    assert_eq!(f.params(), &vec![Param::Int(64)]);
    assert_eq!(
        f.instructions(),
        &vec![
            Instruction::Mov(Operand::Register(Reg::Rax, 64), Operand::Param(0)),
            Instruction::Mov(Operand::Register(Reg::Rcx, 64), Operand::Register(Reg::Rax, 64)),
        ]
    );
}

#[test]
fn deterministic_lift() {
    let bytes = vec![0x48, 0x83, 0xEC, 0x20, 0x48, 0x89, 0xF8, 0x48, 0x31, 0xC9, 0x06];
    let mut d1 = Disassembler::new(bytes.clone());
    let mut d2 = Disassembler::new(bytes);
    let r1 = d1.disassemble(0);
    let r2 = d2.disassemble(0);
    assert_eq!(r1, r2);
    assert_eq!(d1.get(0), d2.get(0));
}

#[test]
fn disassemble_twice_is_memoized() {
    let bytes = vec![0x48, 0x89, 0xF8, 0x06];
    let mut d = Disassembler::new(bytes);
    d.disassemble(0).unwrap();
    let first = d.get(0).unwrap().clone();
    d.disassemble(0).unwrap();
    assert_eq!(d.get(0).unwrap(), &first);
}

#[test]
fn lookup_before_and_after() {
    let bytes = vec![0x48, 0x89, 0xF8, 0x06];
    let mut d = Disassembler::new(bytes);
    assert!(d.get(0).is_none());
    d.disassemble(0).unwrap();
    assert!(d.get(0).is_some());
}

#[test]
fn mov_memory_destination_fails() {
    let bytes = vec![0x48, 0x89, 0x07];
    let mut d = Disassembler::new(bytes);
    assert_eq!(d.disassemble(0), Err(DisassembleError::UnsupportedOperand(0)));
    assert!(d.get(0).is_none());
}

#[test]
fn sub_non_stack_pointer_fails() {
    let bytes = vec![0x48, 0x83, 0xEB, 0x20];
    let mut d = Disassembler::new(bytes);
    assert_eq!(d.disassemble(0), Err(DisassembleError::UnsupportedTarget(0)));
}

#[test]
fn sub_memory_destination_fails() {
    let bytes = vec![0x48, 0x83, 0x2F, 0x10];
    let mut d = Disassembler::new(bytes);
    assert_eq!(d.disassemble(0), Err(DisassembleError::UnsupportedOperand(0)));
}

#[test]
fn sub_locked_memory_destination_fails_as_prefix() {
    let bytes = vec![0xF0, 0x48, 0x83, 0x2F, 0x10];
    let mut d = Disassembler::new(bytes);
    assert_eq!(d.disassemble(0), Err(DisassembleError::UnsupportedPrefix(0)));
}

#[test]
fn xor_register_pair_mismatch_fails() {
    let bytes = vec![0x48, 0x31, 0xC8];
    let mut d = Disassembler::new(bytes);
    assert_eq!(d.disassemble(0), Err(DisassembleError::UnsupportedOperand(0)));
}

#[test]
fn xor_memory_destination_fails() {
    let bytes = vec![0x48, 0x31, 0x07];
    let mut d = Disassembler::new(bytes);
    assert_eq!(d.disassemble(0), Err(DisassembleError::UnsupportedOperand(0)));
}

#[test]
fn xor_locked_memory_destination_fails_as_prefix() {
    let bytes = vec![0xF0, 0x48, 0x31, 0x07];
    let mut d = Disassembler::new(bytes);
    assert_eq!(d.disassemble(0), Err(DisassembleError::UnsupportedPrefix(0)));
}

#[test]
fn unknown_instruction_carries_diagnostics() {
    // NOP is valid x86 but outside the supported table.
    let bytes = vec![0x48, 0x89, 0xF8, 0x90];
    let mut d = Disassembler::new(bytes);
    match d.disassemble(0) {
        Err(DisassembleError::UnknownInstruction(addr, raw, dec)) => {
            assert_eq!(addr, 3);
            assert_eq!(raw, vec![0x90]);
            assert!(dec.valid);
        }
        other => panic!("expected an unknown-instruction error, got {:?}", other),
    }
    assert!(d.get(0).is_none());
}

#[test]
fn undecodable_entry_is_an_empty_function() {
    // A function whose stream ends immediately is complete, not an error.
    let bytes = vec![0x06];
    let mut d = Disassembler::new(bytes);
    d.disassemble(0).unwrap();
    let f = d.get(0).unwrap();
    assert_eq!(f.params(), &Vec::<Param>::new());
    assert_eq!(f.instructions(), &Vec::<Instruction>::new());
}

#[test]
fn truncated_instruction_ends_the_function() {
    // A lone REX prefix cannot complete an instruction: decode end, not an
    // error.
    let bytes = vec![0x48, 0x89, 0xF8, 0x48];
    let mut d = Disassembler::new(bytes);
    d.disassemble(0).unwrap();
    assert_eq!(d.get(0).unwrap().instructions().len(), 1);
}

#[test]
fn out_of_range_entry_is_invalid_base() {
    let bytes = vec![0x48, 0x89, 0xF8, 0x06];
    let mut d = Disassembler::new(bytes);
    assert_eq!(d.disassemble(9), Err(DisassembleError::InvalidBase(9)));
    assert!(d.get(9).is_none());
}

#[test]
fn failure_preserves_earlier_functions() {
    // Offset 0 lifts fine; offset 4 hits an unsupported instruction. The
    // function committed first stays in the map.
    let bytes = vec![0x48, 0x89, 0xF8, 0x06, 0x90];
    let mut d = Disassembler::new(bytes);
    d.disassemble(0).unwrap();
    assert!(d.disassemble(4).is_err());
    assert!(d.get(0).is_some());
    assert!(d.get(4).is_none());
}

#[test]
fn fixup_changes_nothing() {
    let bytes = vec![0x48, 0x89, 0xF8, 0x06];
    let mut d = Disassembler::new(bytes);
    d.disassemble(0).unwrap();
    let before = d.get(0).unwrap().clone();
    d.fixup();
    assert_eq!(d.get(0).unwrap(), &before);
}

#[test]
fn self_move_reads_the_written_register() {
    // The classification sequence records the destination write before
    // resolving the source read, so MOV RAX, RAX reads an already-local
    // register and captures no parameter.
    let bytes = vec![0x48, 0x89, 0xC0, 0x06];
    let mut d = Disassembler::new(bytes);
    d.disassemble(0).unwrap();
    let f = d.get(0).unwrap();
    assert_eq!(f.params(), &Vec::<Param>::new());
    assert_eq!(
        f.instructions(),
        &vec![Instruction::Mov(
            Operand::Register(Reg::Rax, 64),
            Operand::Register(Reg::Rax, 64)
        )]
    );
}

#[test]
fn entry_at_end_of_image_is_empty() {
    let bytes = vec![0x48, 0x89, 0xF8, 0x06];
    let mut d = Disassembler::new(bytes);
    d.disassemble(4).unwrap();
    let f = d.get(4).unwrap();
    assert_eq!(f.instructions(), &Vec::<Instruction>::new());
    assert_eq!(f.params(), &Vec::<Param>::new());
}
