use brig::assembly::{
    encode_block, encode_instruction, encode_mov, AsmArg, AsmCall, AsmMem, AsmMnemonic, AsmReg, EncodeError,
};
use brig::encoder::{BlockRef, Instruction, Opcode, Operand, PhysicalRegister, Register};
use brig::width::Width;

fn preg(width: Width, reg: PhysicalRegister) -> Operand {
    Operand::preg(width, reg)
}

fn reg(reg: PhysicalRegister, width: Width) -> AsmArg {
    AsmArg::Reg(AsmReg { reg, width })
}

fn call2(mnemonic: AsmMnemonic, a: AsmArg, b: AsmArg) -> AsmCall {
    AsmCall { mnemonic, a: Some(a), b: Some(b), c: None }
}

fn rbx_mem(width: Width, displacement: i32) -> Operand {
    Operand::mem_base_displ(width, Register::PhysicalRegister(PhysicalRegister::RBX), displacement)
}

#[test]
fn register_move_names_the_destination_first() {
    let r = encode_mov(preg(Width::_64, PhysicalRegister::RAX), preg(Width::_64, PhysicalRegister::RCX));
    assert_eq!(r, Ok(vec![call2(AsmMnemonic::Mov, reg(PhysicalRegister::RCX, Width::_64), reg(PhysicalRegister::RAX, Width::_64))]));
}

#[test]
fn wide_immediate_store_is_split_in_halves() {
    let r = encode_mov(Operand::imm(Width::_64, 0x1122_3344_5566_7788), rbx_mem(Width::_64, 8));
    let lo = AsmMem { base: PhysicalRegister::RBX, index: None, displacement: 8, size: Some(Width::_32) };
    let hi = AsmMem { displacement: 12, ..lo };
    assert_eq!(
        r,
        Ok(vec![
            call2(AsmMnemonic::Mov, AsmArg::Mem(lo), AsmArg::U32(0x5566_7788)),
            call2(AsmMnemonic::Mov, AsmArg::Mem(hi), AsmArg::U32(0x1122_3344)),
        ])
    );
}

#[test]
fn wide_immediate_store_at_the_last_displacement_overflows() {
    let r = encode_mov(Operand::imm(Width::_64, 1), rbx_mem(Width::_64, i32::MAX - 2));
    assert_eq!(r, Err(EncodeError::DisplacementOverflow));
}

#[test]
fn byte_immediate_to_wide_register_goes_through_the_32_bit_register() {
    let r = encode_mov(Operand::imm(Width::_8, 7), preg(Width::_64, PhysicalRegister::RDX));
    assert_eq!(r, Ok(vec![call2(AsmMnemonic::Mov, reg(PhysicalRegister::RDX, Width::_32), AsmArg::I32(7))]));
    let r = encode_mov(Operand::imm(Width::_8, 0x8000_0000), preg(Width::_64, PhysicalRegister::RDX));
    assert_eq!(r, Err(EncodeError::ImmediateOutOfRange));
}

#[test]
fn moves_between_widths_are_refused() {
    let r = encode_mov(preg(Width::_32, PhysicalRegister::RAX), preg(Width::_64, PhysicalRegister::RCX));
    assert_eq!(r, Err(EncodeError::Unsupported));
}

#[test]
fn addition_takes_a_negative_immediate() {
    let i = Instruction(Opcode::ADD(Operand::imm(Width::_64, -8i64 as u64), preg(Width::_64, PhysicalRegister::RSP)));
    assert_eq!(encode_instruction(&i), Ok(vec![call2(AsmMnemonic::Add, reg(PhysicalRegister::RSP, Width::_64), AsmArg::I32(-8))]));
    let s = Instruction(Opcode::SUB(Operand::imm(Width::_64, -8i64 as u64), preg(Width::_64, PhysicalRegister::RSP)));
    assert_eq!(encode_instruction(&s), Err(EncodeError::ImmediateOutOfRange));
}

#[test]
fn set_below_is_emitted_as_set_not_equal() {
    let i = Instruction(Opcode::SETB(preg(Width::_8, PhysicalRegister::RAX)));
    assert_eq!(
        encode_instruction(&i),
        Ok(vec![AsmCall { mnemonic: AsmMnemonic::Setne, a: Some(reg(PhysicalRegister::RAX, Width::_8)), b: None, c: None }])
    );
}

#[test]
fn division_needs_rdx_rax() {
    let i = Instruction(Opcode::IDIV(
        preg(Width::_64, PhysicalRegister::RAX),
        preg(Width::_64, PhysicalRegister::RDX),
        preg(Width::_64, PhysicalRegister::RCX),
    ));
    assert_eq!(encode_instruction(&i), Err(EncodeError::DividendNotInRdxRax));
}

#[test]
fn dead_instructions_emit_nothing() {
    assert_eq!(encode_instruction(&Instruction(Opcode::DEAD)), Ok(vec![]));
}

#[test]
fn block_ends_fall_through_to_the_next_block() {
    let order = vec![BlockRef { index: 0 }, BlockRef { index: 3 }];
    let code = vec![Instruction(Opcode::NOP), Instruction(Opcode::JMP(Operand::target(BlockRef { index: 3 })))];
    let marker = AsmCall {
        mnemonic: AsmMnemonic::Nop1,
        a: Some(AsmArg::Mem(AsmMem { base: PhysicalRegister::RAX, index: None, displacement: 0, size: Some(Width::_64) })),
        b: None,
        c: None,
    };
    let nop = AsmCall { mnemonic: AsmMnemonic::Nop, a: None, b: None, c: None };
    assert_eq!(encode_block(&code, &order, 0), Ok(vec![marker, nop]));
    let jump = AsmCall { mnemonic: AsmMnemonic::Jmp, a: Some(AsmArg::Label(BlockRef { index: 3 })), b: None, c: None };
    let marker3 = AsmCall {
        a: Some(AsmArg::Mem(AsmMem { base: PhysicalRegister::RAX, index: None, displacement: 3, size: Some(Width::_64) })),
        ..marker
    };
    assert_eq!(encode_block(&code, &order, 1), Ok(vec![marker3, nop, jump]));
}

#[test]
fn blocks_must_end_in_a_jump() {
    let order = vec![BlockRef { index: 0 }];
    assert_eq!(encode_block(&vec![], &order, 0), Err(EncodeError::EmptyBlock));
    assert_eq!(encode_block(&vec![Instruction(Opcode::NOP)], &order, 0), Err(EncodeError::BlockNotEnded));
}

#[test]
fn translation_holds_its_code() {
    let t = brig::assembly::Translation::new(vec![0x90, 0xc3]);
    assert_eq!(t.code, vec![0x90, 0xc3]);
}
