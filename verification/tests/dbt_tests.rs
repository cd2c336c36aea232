use brig::bits::{add_with_carry, bit_extract, bit_insert, mask, sign_extend, sign_extend_constant};
use brig::emitter::{X86Emitter, X86Error, X86TranslationContext};
use brig::encoder::{BlockRef, Instruction, MemoryScale, Opcode, Operand, OperandKind, PhysicalRegister, Register};
use brig::lowering::PanicReason;
use brig::nodes::{BinaryOperationKind, NodeKind, TernaryOperationKind, Type, X86Node, X86NodeRef};
use brig::width::Width;

fn harness(x: u64, y: u64, carry: bool) -> (u64, u8) {
    add_with_carry(x, y, if carry { 1 } else { 0 })
}

#[test]
fn add_with_carry_helper_negative() {
    let (sum, flags) = harness(0, -5i64 as u64, false);
    assert_eq!(sum, -5i64 as u64);
    assert_eq!(flags, 0b1000);
}

#[test]
fn add_with_carry_helper_zero() {
    let (sum, flags) = harness(0, 0, false);
    assert_eq!(sum, 0);
    assert_eq!(flags, 0b0100);
}

#[test]
fn add_with_carry_helper_carry() {
    let (sum, flags) = harness(u64::MAX, 1, false);
    assert_eq!(sum, 0);
    assert_eq!(flags, 0b0110);
}

#[test]
fn add_with_carry_helper_overflow() {
    let (sum, flags) = harness(u64::MAX / 2, u64::MAX / 2, false);
    assert_eq!(sum, !1);
    assert_eq!(flags, 0b1001);
}

#[test]
fn add_with_carry_helper_early_4880_loop() {
    let (sum, flags) = harness(0x425a6004, !0x425a6020, false);
    assert_eq!(sum, 0xffffffffffffffe3);
    assert_eq!(flags, 0b1000);
}

#[test]
fn add_with_carry_helper_linux_regression() {
    let (sum, flags) = harness(0xffffffc0082b3cd0, 0xffffffffffffffd8, false);
    assert_eq!(sum, 0xffffffc0082b3ca8);
    assert_eq!(flags, 0b1010);
}

fn compare_flags(x: u64, y: u64) -> u8 {
    add_with_carry(x, !y, 1).1
}

#[test]
fn compare_flags_helper_first_greater() {
    assert_eq!(compare_flags(10, 5), 0b0010);
}

#[test]
fn compare_flags_helper_second_greater() {
    assert_eq!(compare_flags(5, 10), 0b1000);
}

#[test]
fn compare_flags_helper_zero() {
    assert_eq!(compare_flags(0, 0), 0b0110);
}

#[test]
fn compare_flags_helper_equal() {
    assert_eq!(compare_flags(u64::MAX, u64::MAX), 0b0110);
}

#[test]
fn compare_flags_helper_signed_overflow() {
    assert_eq!(compare_flags(0x7fffffffffffffff, 0xffffffffffffffff), 0b1001);
}

#[test]
fn compare_flags_helper_positive_overflow() {
    assert_eq!(compare_flags(0x7FFF_FFFF_FFFF_FFFF, 1), 0b0010);
}

#[test]
fn compare_flags_helper_negative_overflow() {
    assert_eq!(compare_flags(0, 0x8000000000000000), 0b1001);
}

#[test]
fn compare_flags_helper_signed_underflow() {
    assert_eq!(compare_flags(0x8000000000000000, u64::MAX), 0b1000);
}

#[test]
fn compare_flags_helper_something() {
    assert_eq!(compare_flags(u64::MAX, 0), 0b1010);
}

#[test]
fn signextend_64() {
    assert_eq!(sign_extend_constant(64, 8, 64), 64);
    assert_eq!(sign_extend_constant(0x80, 8, 64), 0xffff_ffff_ffff_ff80);
    // the value is extended to the full 64 bits whatever the target width
    assert_eq!(sign_extend_constant(0xff, 8, 16), u64::MAX);
}

#[test]
fn sign_extend_values() {
    assert_eq!(sign_extend(-1, 8, 64), -1);
    assert_eq!(sign_extend(0x7f, 8, 64), 0x7f);
}

#[test]
fn mask_values() {
    assert_eq!(mask(0), 0);
    assert_eq!(mask(1), 1);
    assert_eq!(mask(12), 0xfff);
    assert_eq!(mask(64), u64::MAX);
}

#[test]
fn bit_insert_then_extract() {
    let v = bit_insert(0xffff_0000, 0xab, 4, 8);
    assert_eq!(v, 0xffff_0ab0);
    assert_eq!(bit_extract(v, 4, 8), 0xab);
    assert_eq!(bit_extract(v, 16, 16), 0xffff);
    assert_eq!(bit_insert(0, u64::MAX, 0, 64), u64::MAX);
}

#[test]
fn width_canonicalisation() {
    assert_eq!(Width::from_uncanonicalized(1), Ok(Width::_8));
    assert_eq!(Width::from_uncanonicalized(9), Ok(Width::_16));
    assert_eq!(Width::from_uncanonicalized(32), Ok(Width::_32));
    assert_eq!(Width::from_uncanonicalized(33), Ok(Width::_64));
    assert!(Width::from_uncanonicalized(0).is_err());
    assert_eq!(Width::_16.as_u16(), 16);
}

fn rbp(width: Width, displacement: i32) -> Operand {
    Operand::mem_base_displ(width, Register::PhysicalRegister(PhysicalRegister::RBP), displacement)
}

#[test]
fn new_context_has_panic_block() {
    let ctx = X86TranslationContext::new(0x10, 0x20, 0x30, 0x40, false);
    assert_eq!(ctx.allocator_blocks(), 2);
    assert_eq!(ctx.initial_block(), BlockRef { index: 0 });
    assert_eq!(ctx.panic_block(), BlockRef { index: 1 });
    assert!(ctx.block(BlockRef { index: 0 }).instructions().is_empty());
    assert_eq!(
        ctx.block(BlockRef { index: 1 }).instructions(),
        &vec![Instruction(Opcode::INT(Operand::imm(Width::_8, 0x53)))]
    );
    assert_eq!(PanicReason::Match.vector(), 0x54);
}

#[test]
fn lower_register_add_constant() {
    let ctx = X86TranslationContext::new(0x10, 0x20, 0x30, 0x40, false);
    let mut emitter = X86Emitter::new(ctx);
    let r = emitter.read_register(0x100, Type::Unsigned(64));
    let c = emitter.constant(5, Type::Unsigned(64));
    let sum = emitter.binary_operation(BinaryOperationKind::Add(r, c));
    assert_eq!(emitter.write_register(0x108, sum), Ok(()));
    emitter.leave();
    let ctx = emitter.into_ctx();
    let v0 = Operand::vreg(Width::_64, 0);
    let v1 = Operand::vreg(Width::_64, 1);
    assert_eq!(
        ctx.block(BlockRef { index: 0 }).instructions(),
        &vec![
            Instruction(Opcode::MOV(rbp(Width::_64, 0x100), v0)),
            Instruction(Opcode::MOV(v0, v1)),
            Instruction(Opcode::ADD(Operand::imm(Width::_64, 5), v1)),
            Instruction(Opcode::MOV(v1, rbp(Width::_64, 0x108))),
            Instruction(Opcode::RET),
        ]
    );
    assert!(!ctx.get_mmu_write_flag());
}

#[test]
fn write_to_sctlr_sets_flag() {
    let ctx = X86TranslationContext::new(0x10, 0x20, 0x30, 0x40, false);
    let mut emitter = X86Emitter::new(ctx);
    let c = emitter.constant(1, Type::Unsigned(64));
    assert_eq!(emitter.write_register(0x20, c), Ok(()));
    let c = emitter.constant(2, Type::Unsigned(64));
    assert_eq!(emitter.write_register(0x30, c), Ok(()));
    let ctx = emitter.into_ctx();
    assert!(ctx.get_mmu_write_flag());
    assert!(ctx.get_mmu_needs_invalidate_flag());
    assert_eq!(
        ctx.block(BlockRef { index: 0 }).instructions()[0],
        Instruction(Opcode::MOV(Operand::imm(Width::_64, 1), rbp(Width::_64, 0x20)))
    );
}

#[test]
fn node_is_lowered_once_per_block() {
    let ctx = X86TranslationContext::new(0x10, 0x20, 0x30, 0x40, false);
    let mut emitter = X86Emitter::new(ctx);
    let r = emitter.read_register(0x100, Type::Unsigned(32));
    let first = emitter.to_operand(&r).unwrap();
    let second = emitter.to_operand(&r).unwrap();
    assert_eq!(first, second);
    assert_eq!(first, Operand::vreg(Width::_32, 0));
    let ctx = emitter.into_ctx();
    assert_eq!(ctx.block(BlockRef { index: 0 }).instructions().len(), 1);
}

#[test]
fn compare_sets_byte() {
    let ctx = X86TranslationContext::new(0x10, 0x20, 0x30, 0x40, false);
    let mut emitter = X86Emitter::new(ctx);
    let r = emitter.read_register(0x100, Type::Unsigned(64));
    let c = emitter.constant(7, Type::Unsigned(64));
    let cmp = emitter.binary_operation(BinaryOperationKind::CompareLessThan(r, c));
    let op = emitter.to_operand(&cmp).unwrap();
    assert_eq!(op, Operand::vreg(Width::_8, 1));
    let ctx = emitter.into_ctx();
    let v0 = Operand::vreg(Width::_64, 0);
    // the right operand is lowered as the comparison's first operand:
    // `cmp $7, v0` then `setb` gives v0 < 7
    assert_eq!(
        ctx.block(BlockRef { index: 0 }).instructions(),
        &vec![
            Instruction(Opcode::MOV(rbp(Width::_64, 0x100), v0)),
            Instruction(Opcode::CMP(Operand::imm(Width::_64, 7), v0)),
            Instruction(Opcode::SETB(Operand::vreg(Width::_8, 1))),
        ]
    );
}

#[test]
fn read_memory_through_immediate_address_fails() {
    let ctx = X86TranslationContext::new(0x10, 0x20, 0x30, 0x40, false);
    let mut emitter = X86Emitter::new(ctx);
    let a = emitter.constant(0x1000, Type::Unsigned(64));
    let m = emitter.read_memory(a, Type::Unsigned(64));
    assert_eq!(emitter.to_operand(&m), Err(X86Error::AddressNotInRegister));
}

#[test]
fn masked_memory_write() {
    let ctx = X86TranslationContext::new(0x10, 0x20, 0x30, 0x40, true);
    let mut emitter = X86Emitter::new(ctx);
    let a = emitter.read_register(0x100, Type::Unsigned(64));
    let v = emitter.constant(3, Type::Unsigned(32));
    assert_eq!(emitter.write_memory(a, v), Ok(()));
    let ctx = emitter.into_ctx();
    let v0 = Operand::vreg(Width::_64, 0);
    let v1 = Operand::vreg(Width::_64, 1);
    assert_eq!(
        ctx.block(BlockRef { index: 0 }).instructions(),
        &vec![
            Instruction(Opcode::MOV(rbp(Width::_64, 0x100), v0)),
            Instruction(Opcode::MOV(Operand::imm(Width::_64, 0xff_ffff_ffff), v1)),
            Instruction(Opcode::AND(v1, v0)),
            Instruction(Opcode::MOV(
                Operand::imm(Width::_32, 3),
                Operand::mem_base_displ(Width::_32, Register::VirtualRegister(0), 0)
            )),
        ]
    );
}

#[test]
fn branch_ends_block() {
    let ctx = X86TranslationContext::new(0x10, 0x20, 0x30, 0x40, false);
    let mut emitter = X86Emitter::new(ctx);
    let r = emitter.read_register(0x100, Type::Unsigned(1));
    let t = BlockRef { index: 1 };
    let f = BlockRef { index: 0 };
    assert_eq!(emitter.branch(r, t, f), Ok(()));
    let ctx = emitter.into_ctx();
    let v0 = Operand::vreg(Width::_8, 0);
    let block = ctx.block(BlockRef { index: 0 });
    assert_eq!(
        block.instructions(),
        &vec![
            Instruction(Opcode::MOV(rbp(Width::_8, 0x100), v0)),
            Instruction(Opcode::TEST(v0, v0)),
            Instruction(Opcode::JNE(Operand::target(t))),
            Instruction(Opcode::JMP(Operand::target(f))),
        ]
    );
    assert_eq!(block.next_blocks(), &vec![t, f]);
}

#[test]
fn constant_assert() {
    let ctx = X86TranslationContext::new(0x10, 0x20, 0x30, 0x40, false);
    let mut emitter = X86Emitter::new(ctx);
    let yes = emitter.constant(1, Type::Unsigned(1));
    assert_eq!(emitter.assert_condition(yes, 7), Ok(()));
    let no = emitter.constant(0, Type::Unsigned(1));
    assert_eq!(emitter.assert_condition(no, 7), Ok(()));
    let ctx = emitter.into_ctx();
    assert_eq!(
        ctx.block(BlockRef { index: 0 }).instructions(),
        &vec![Instruction(Opcode::INT(Operand::imm(Width::_8, 0x52)))]
    );
}

#[test]
fn stack_variable_round_trip() {
    let ctx = X86TranslationContext::new(0x10, 0x20, 0x30, 0x40, false);
    let mut emitter = X86Emitter::new(ctx);
    let c = emitter.constant(9, Type::Unsigned(16));
    assert_eq!(emitter.write_stack_variable(8, c), Ok(()));
    let read = emitter.read_stack_variable(8, Type::Unsigned(16));
    let op = emitter.to_operand(&read).unwrap();
    let ctx = emitter.into_ctx();
    let slot = Operand::mem_base_displ(Width::_16, Register::PhysicalRegister(PhysicalRegister::R14), -8);
    assert_eq!(
        ctx.block(BlockRef { index: 0 }).instructions(),
        &vec![Instruction(Opcode::MOV(Operand::imm(Width::_16, 9), slot)), Instruction(Opcode::MOV(slot, op))]
    );
    let _ = MemoryScale::S1;
    let _ = OperandKind::Immediate(0);
    let _ = X86NodeRef::new(99, X86Node { typ: Type::Bits, kind: NodeKind::Constant { value: 0, width: 64 } });
}

#[test]
fn local_variable_reads_back_last_write() {
    let ctx = X86TranslationContext::new(0x10, 0x20, 0x30, 0x40, false);
    let mut emitter = X86Emitter::new(ctx);
    let a = emitter.create_symbol();
    let b = emitter.create_symbol();
    let one = emitter.constant(1, Type::Unsigned(8));
    let two = emitter.constant(2, Type::Unsigned(8));
    emitter.write_virt_variable(a, one);
    emitter.write_virt_variable(b, two);
    let three = emitter.constant(3, Type::Unsigned(8));
    emitter.write_virt_variable(a, three);
    assert_eq!(emitter.read_virt_variable(a).as_constant(), Some((3, 8)));
    assert_eq!(emitter.read_virt_variable(b).as_constant(), Some((2, 8)));
}

fn context_with_jumps() -> X86TranslationContext {
    // initial -> a (only a jump to b) -> b (returns)
    let mut ctx = X86TranslationContext::new(0x10, 0x20, 0x30, 0x40, false);
    let a = ctx.create_block();
    let b = ctx.create_block();
    let mut emitter = X86Emitter::new(ctx);
    emitter.jump(a);
    emitter.set_current_block(a);
    emitter.jump(b);
    emitter.set_current_block(b);
    emitter.leave();
    emitter.into_ctx()
}

#[test]
fn jump_threading_skips_lone_jumps() {
    let mut ctx = context_with_jumps();
    let initial = ctx.initial_block();
    ctx.empty_block_jump_threading(initial);
    let b = BlockRef { index: 3 };
    assert_eq!(ctx.block(initial).next_blocks(), &vec![b]);
    assert_eq!(ctx.block(initial).instructions(), &vec![Instruction(Opcode::JMP(Operand::target(b)))]);
}

#[test]
fn linking_orders_each_block_once() {
    let mut ctx = context_with_jumps();
    let order = ctx.link_blocks();
    // the initial block is taken first (last pushed), threads past `a` to
    // `b`; then `b`, then the panic block
    assert_eq!(order, vec![BlockRef { index: 0 }, BlockRef { index: 3 }, BlockRef { index: 1 }]);
    assert!(ctx.block(BlockRef { index: 3 }).is_linked());
    assert!(!ctx.block(BlockRef { index: 2 }).is_linked());
}

#[test]
fn fallthrough_jump_is_elided() {
    let order = vec![BlockRef { index: 0 }, BlockRef { index: 3 }, BlockRef { index: 1 }];
    let jump = Instruction(Opcode::JMP(Operand::target(BlockRef { index: 3 })));
    assert!(!brig::emitter::needs_final_jump(&order, 0, &jump));
    assert!(brig::emitter::needs_final_jump(&order, 1, &jump));
    assert!(brig::emitter::needs_final_jump(&order, 2, &jump));
    assert!(brig::emitter::needs_final_jump(&order, 0, &Instruction(Opcode::RET)));
}

#[test]
fn flags_are_read_right_after_the_add_with_carry() {
    let ctx = X86TranslationContext::new(0x10, 0x20, 0x30, 0x40, false);
    let mut emitter = X86Emitter::new(ctx);
    let x = emitter.read_register(0x100, Type::Unsigned(64));
    let y = emitter.read_register(0x108, Type::Unsigned(64));
    let c = emitter.read_register(0x110, Type::Unsigned(1));
    let sum = emitter.ternary_operation(TernaryOperationKind::AddWithCarry(x, y, c));
    let sum_op = emitter.to_operand(&sum).unwrap();
    let flags = emitter.get_flags(sum);
    let flags_op = emitter.to_operand(&flags).unwrap();
    assert_eq!(flags_op.width(), Width::_8);
    let ctx = emitter.into_ctx();
    let code = ctx.block(BlockRef { index: 0 }).instructions();
    let adc = code.iter().position(|i| matches!(i.0, Opcode::ADC(_, _, _))).unwrap();
    assert!(matches!(code[adc].0, Opcode::ADC(_, d, _) if d == sum_op));
    assert!(matches!(code[adc + 1].0, Opcode::SETS(_)));
    assert!(matches!(code[adc + 2].0, Opcode::SETE(_)));
    assert!(matches!(code[adc + 3].0, Opcode::SETC(_)));
    assert!(matches!(code[adc + 4].0, Opcode::SETO(_)));
    assert_eq!(code.len(), adc + 13);
}

#[test]
fn arithmetic_lowering_ends_with_the_operation() {
    let ctx = X86TranslationContext::new(0x10, 0x20, 0x30, 0x40, false);
    let mut emitter = X86Emitter::new(ctx);
    let a = emitter.read_register(0x100, Type::Unsigned(32));
    let b = emitter.read_register(0x104, Type::Unsigned(32));
    let x = emitter.binary_operation(BinaryOperationKind::Xor(a, b));
    let op = emitter.to_operand(&x).unwrap();
    let ctx = emitter.into_ctx();
    let code = ctx.block(BlockRef { index: 0 }).instructions();
    let n = code.len();
    assert!(matches!(code[n - 1].0, Opcode::XOR(_, d) if d == op));
    assert!(matches!(code[n - 2].0, Opcode::MOV(_, d) if d == op));
}

#[test]
fn subtraction_moves_left_then_subtracts_right() {
    let ctx = X86TranslationContext::new(0x10, 0x20, 0x30, 0x40, false);
    let mut emitter = X86Emitter::new(ctx);
    let a = emitter.read_register(0x100, Type::Unsigned(64));
    let b = emitter.read_register(0x108, Type::Unsigned(64));
    let d = emitter.binary_operation(BinaryOperationKind::Sub(a, b));
    let op = emitter.to_operand(&d).unwrap();
    assert_eq!(op, Operand::vreg(Width::_64, 2));
    let ctx = emitter.into_ctx();
    let v0 = Operand::vreg(Width::_64, 0);
    let v1 = Operand::vreg(Width::_64, 1);
    assert_eq!(
        ctx.block(BlockRef { index: 0 }).instructions(),
        &vec![
            Instruction(Opcode::MOV(rbp(Width::_64, 0x100), v0)),
            Instruction(Opcode::MOV(rbp(Width::_64, 0x108), v1)),
            Instruction(Opcode::MOV(v0, op)),
            Instruction(Opcode::SUB(v1, op)),
        ]
    );
}

#[test]
fn narrower_unsigned_operand_is_zero_extended() {
    let ctx = X86TranslationContext::new(0x10, 0x20, 0x30, 0x40, false);
    let mut emitter = X86Emitter::new(ctx);
    let a = emitter.read_register(0x100, Type::Unsigned(32));
    let b = emitter.read_register(0x108, Type::Unsigned(64));
    let s = emitter.binary_operation(BinaryOperationKind::Add(a, b));
    let op = emitter.to_operand(&s).unwrap();
    let ctx = emitter.into_ctx();
    let v0 = Operand::vreg(Width::_32, 0);
    let v1 = Operand::vreg(Width::_64, 1);
    let v2 = Operand::vreg(Width::_64, 2);
    assert_eq!(op, Operand::vreg(Width::_64, 3));
    assert_eq!(
        ctx.block(BlockRef { index: 0 }).instructions(),
        &vec![
            Instruction(Opcode::MOV(rbp(Width::_32, 0x100), v0)),
            Instruction(Opcode::MOV(rbp(Width::_64, 0x108), v1)),
            Instruction(Opcode::MOVZX(v0, v2)),
            Instruction(Opcode::MOV(v1, op)),
            Instruction(Opcode::ADD(v2, op)),
        ]
    );
}

#[test]
fn memory_write_through_constant_address_fails() {
    let ctx = X86TranslationContext::new(0x10, 0x20, 0x30, 0x40, false);
    let mut emitter = X86Emitter::new(ctx);
    let a = emitter.constant(0x1000, Type::Unsigned(64));
    let v = emitter.constant(3, Type::Unsigned(32));
    assert_eq!(emitter.write_memory(a, v), Err(X86Error::AddressNotInRegister));
}

#[test]
fn linking_threads_the_jumps_of_each_linked_block() {
    let mut ctx = context_with_jumps();
    ctx.link_blocks();
    let b = BlockRef { index: 3 };
    assert_eq!(ctx.block(BlockRef { index: 0 }).next_blocks(), &vec![b]);
    assert_eq!(ctx.block(BlockRef { index: 0 }).instructions(), &vec![Instruction(Opcode::JMP(Operand::target(b)))]);
    // the block holding only a jump was never reached, and stays as it was
    assert_eq!(ctx.block(BlockRef { index: 2 }).instructions(), &vec![Instruction(Opcode::JMP(Operand::target(b)))]);
}

#[test]
fn constant_sums_wrap_at_their_width() {
    let ctx = X86TranslationContext::new(0x10, 0x20, 0x30, 0x40, false);
    let mut emitter = X86Emitter::new(ctx);
    let a = emitter.constant(0xff, Type::Unsigned(8));
    let b = emitter.constant(1, Type::Unsigned(8));
    let s = emitter.binary_operation(BinaryOperationKind::Add(a, b));
    assert_eq!(s.as_constant(), Some((0, 8)));
    assert_eq!(*s.typ(), Type::Unsigned(8));
    let z = emitter.constant(0, Type::Unsigned(16));
    let one = emitter.constant(1, Type::Unsigned(16));
    let d = emitter.binary_operation(BinaryOperationKind::Sub(z, one));
    assert_eq!(d.as_constant(), Some((0xffff, 16)));
    let big = emitter.constant(u64::MAX, Type::Unsigned(64));
    let one64 = emitter.constant(1, Type::Unsigned(64));
    let w = emitter.binary_operation(BinaryOperationKind::Add(big, one64));
    assert_eq!(w.as_constant(), Some((0, 64)));
}
