use brig::encoder::{Instruction, Opcode, Operand, OperandDirection, PhysicalRegister, Register, UseDef, UseDefMut};
use brig::guest_mmu::{
    entry_index, get_exception_class, get_psr_from_pstate, take_arm_exception, walk_root, walk_step,
    ExceptionRegisters, PState, WalkFault, WalkStep,
};
use brig::irq::{reserve_vector, setup_vectors, IrqError, UsedInterruptVectors};
use brig::regalloc::SolidStateRegisterAllocator;
use brig::register_file::{RegisterDescriptor, RegisterFile};
use brig::sysreg::{lookup_handler, read_sysreg, SysRegHandler, REG_CNTVCT_EL0};
use brig::trampoline::ExecutionResult;
use brig::value::Value;
use brig::width::Width;

fn register_file() -> RegisterFile {
    RegisterFile::new(
        32,
        vec![
            RegisterDescriptor { name: 1, offset: 0, size: 8 },
            RegisterDescriptor { name: 2, offset: 8, size: 8 },
            RegisterDescriptor { name: 3, offset: 16, size: 4 },
        ],
    )
}

#[test]
fn register_file_reads_back_writes() {
    let mut rf = register_file();
    rf.write::<u64>(1, 0x1122_3344_5566_7788);
    rf.write::<u32>(3, 0xdead_beef);
    rf.write::<i64>(2, -2);
    assert_eq!(rf.read::<u64>(1), 0x1122_3344_5566_7788);
    assert_eq!(rf.read::<u32>(3), 0xdead_beef);
    assert_eq!(rf.read::<i64>(2), -2);
    assert_eq!(rf.read_raw::<u16>(0), 0x7788);
    assert_eq!(rf.read_raw::<u8>(7), 0x11);
    assert_eq!(rf.len(), 32);
}

#[test]
fn register_file_write_keeps_other_registers() {
    let mut rf = register_file();
    rf.write::<u64>(1, u64::MAX);
    rf.write::<u64>(2, 7);
    rf.write_raw::<u16>(8, 0x0102);
    assert_eq!(rf.read::<u64>(1), u64::MAX);
    assert_eq!(rf.read::<u64>(2), 0x0102);
    rf.write::<bool>(3, true);
    assert!(rf.read::<bool>(3));
    rf.write::<i16>(3, -3);
    assert_eq!(rf.read::<i16>(3), -3);
    rf.write::<i32>(3, -70000);
    assert_eq!(rf.read::<i32>(3), -70000);
}

#[test]
fn register_file_lookup_by_offset() {
    let rf = register_file();
    assert_eq!(rf.lookup(0), 1);
    assert_eq!(rf.lookup(12), 2);
    assert_eq!(rf.lookup(17), 3);
}

#[test]
fn interrupt_vectors_are_reserved_once() {
    let mut used = UsedInterruptVectors::new();
    assert!(!used.get(0x60));
    assert_eq!(reserve_vector(&mut used, 0x60), Ok(()));
    assert!(used.get(0x60));
    assert!(!used.get(0x61));
    assert_eq!(reserve_vector(&mut used, 0x60), Err(IrqError::IrqAlreadyReserved(0x60)));
    used.set(200);
    assert!(used.get(200));
}

#[test]
fn setup_reserves_exception_and_translator_vectors() {
    let mut used = UsedInterruptVectors::new();
    assert_eq!(setup_vectors(&mut used), Ok(()));
    for v in [14u8, 13, 3, 1, 8, 0, 0x50, 0x51, 0x52, 0x53] {
        assert!(used.get(v));
    }
    assert!(!used.get(2));
    assert!(!used.get(0x54));
}

#[test]
fn allocator_serves_reads_and_frees_on_writes() {
    let mut allocator = SolidStateRegisterAllocator::new(2);
    // instructions are processed last first
    let mut read = Instruction(Opcode::MOV(Operand::vreg(Width::_64, 0), Operand::preg(Width::_64, PhysicalRegister::RCX)));
    allocator.process(&mut read);
    assert_eq!(
        read,
        Instruction(Opcode::MOV(Operand::preg(Width::_64, PhysicalRegister::RAX), Operand::preg(Width::_64, PhysicalRegister::RCX)))
    );
    let mut write = Instruction(Opcode::MOV(Operand::imm(Width::_64, 5), Operand::vreg(Width::_64, 0)));
    allocator.process(&mut write);
    assert_eq!(
        write,
        Instruction(Opcode::MOV(Operand::imm(Width::_64, 5), Operand::preg(Width::_64, PhysicalRegister::RAX)))
    );
    // the register is free again
    assert_eq!(allocator.lookup_or_allocate(1), 0);
    assert_eq!(allocator.lookup_and_deallocate(1), 0);
}

#[test]
fn use_defs_of_instructions() {
    let i = Instruction(Opcode::ADD(Operand::vreg(Width::_64, 1), Operand::vreg(Width::_64, 2)));
    assert_eq!(
        i.get_use_defs(),
        vec![UseDef::Use(Register::VirtualRegister(1)), UseDef::UseDef(Register::VirtualRegister(2))]
    );
    assert_eq!(PhysicalRegister::from_index(PhysicalRegister::R12.index()), PhysicalRegister::R12);
}

#[test]
fn guest_walk_steps() {
    assert_eq!(walk_root(0, 0xabcd_1000, 0x2000), 0xabcd_1000);
    assert_eq!(walk_root(1 << 39, 0x1000, 0xffff_0000_0000_2fff), 0x2000);
    assert_eq!(entry_index(1, 0x4000_0000), 1);
    assert_eq!(entry_index(3, 0x5000), 5);
    assert_eq!(walk_step(1, 0, 0), WalkStep::Fault(WalkFault::GuestPageFault));
    assert_eq!(walk_step(1, 0x1234_5003, 0), WalkStep::Descend(0x1234_5000));
    assert_eq!(walk_step(1, 0x4000_0001, 0), WalkStep::Fault(WalkFault::UnsupportedBlock));
    assert_eq!(walk_step(2, 0x20_0001, 0x1_2345), WalkStep::Translated(0x21_2345));
    assert_eq!(walk_step(2, 0, 0), WalkStep::Fault(WalkFault::InvalidEntry));
    assert_eq!(walk_step(3, 0x7000_0003, 0xabc), WalkStep::Translated(0x7000_0abc));
    assert_eq!(walk_step(3, 0x7000_0001, 0xabc), WalkStep::Fault(WalkFault::GuestPageFault));
}

fn pstate() -> PState {
    PState { n: 1, z: 0, c: 1, v: 0, d: 0, a: 0, i: 0, f: 0, el: 1, sp: 1 }
}

#[test]
fn exception_classes_and_psr() {
    assert_eq!(get_exception_class(1, 1, 1), 0x25);
    assert_eq!(get_exception_class(0, 1, 1), 0x24);
    assert_eq!(get_exception_class(1, 1, 3), 0x15);
    assert_eq!(get_exception_class(1, 1, 0), 0x3c);
    assert_eq!(get_psr_from_pstate(&pstate()), 0xa000_0005);
}

#[test]
fn taking_a_data_abort() {
    let mut regs = ExceptionRegisters {
        pstate: pstate(),
        spsr_el1: 0,
        elr_el1: 0,
        esr_el1: 0,
        far_el1: 0,
        vbar_el1: 0x8000,
        vbar_el2: 0,
        vbar_el3: 0,
        pc: 0x1234,
    };
    take_arm_exception(&mut regs, 1, 1, 0x47, 0xdead_0000, 0x1234, 0);
    assert_eq!(regs.spsr_el1, 0xa000_0005);
    assert_eq!(regs.elr_el1, 0x1234);
    assert_eq!(regs.esr_el1, (0x25 << 26) | (1 << 25) | 0x47);
    assert_eq!(regs.far_el1, 0xdead_0000);
    assert_eq!(regs.pc, 0x8200);
    assert_eq!((regs.pstate.d, regs.pstate.a, regs.pstate.i, regs.pstate.f), (1, 1, 1, 1));
}

#[test]
fn system_registers_and_results() {
    assert_eq!(lookup_handler(REG_CNTVCT_EL0), Some(SysRegHandler::GenericTimer));
    assert_eq!(lookup_handler((3, 3, 14, 0, 1)), None);
    assert_eq!(read_sysreg(SysRegHandler::GenericTimer, REG_CNTVCT_EL0), 0x6789);
    assert_eq!(ExecutionResult::NeedTLBInvalidate.as_u64(), 1);
    assert_eq!(ExecutionResult::from_u64(2), ExecutionResult::InterruptPending);
}

#[test]
fn value_arithmetic() {
    let a = Value::UnsignedInteger { value: 7, length: 8 };
    let b = Value::UnsignedInteger { value: 3, length: 16 };
    match a.sub(b) {
        Value::UnsignedInteger { value, length } => assert_eq!((value, length), (4, 16)),
        v => panic!("{v:?}"),
    }
    let s = Value::SignedInteger { value: -7, length: 64 };
    let t = Value::SignedInteger { value: 2, length: 64 };
    match s.div(t) {
        Value::SignedInteger { value, .. } => assert_eq!(value, -3),
        v => panic!("{v:?}"),
    }
    let x = Value::SignedInteger { value: -1, length: 64 };
    let y = Value::SignedInteger { value: 1, length: 64 };
    assert_eq!(x.compare(&y), -1);
    assert_eq!(y.compare(&x), 1);
}

#[test]
fn usedef_mut_rewrites_the_register_in_place() {
    let mut reg = Register::VirtualRegister(3);
    match UseDefMut::from_operand_direction(OperandDirection::InOut, &mut reg) {
        Some(UseDefMut::UseDef(r)) => *r = Register::PhysicalRegister(PhysicalRegister::RAX),
        _ => panic!("expected a use and a definition"),
    }
    assert_eq!(reg, Register::PhysicalRegister(PhysicalRegister::RAX));
    let mut other = Register::VirtualRegister(1);
    let u = UseDefMut::from_operand_direction(OperandDirection::In, &mut other).unwrap();
    assert!(u.has_use() && !u.has_def() && !u.is_usedef());
    let d = UseDefMut::from_operand_direction(OperandDirection::Out, &mut other).unwrap();
    assert!(!d.has_use() && d.has_def());
    assert!(UseDefMut::from_operand_direction(OperandDirection::Unused, &mut other).is_none());
}
