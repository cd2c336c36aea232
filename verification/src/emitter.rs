//! The x86 emitter: builds the value graph of a translated block, folding
//! constants as it goes, and lowers it to x86 instructions held in blocks.
use vstd::prelude::*;
use crate::bits::{mask, mask_spec, bit_extract, bit_extract_spec, bit_insert, bit_insert_spec, sign_extend_constant, sign_extend_spec};
use crate::encoder::{BlockRef, Instruction, Opcode, Operand, OperandKind, PhysicalRegister, Register};
use crate::nodes::{
    BinaryOperationKind, CastOperationKind, NodeKind, ShiftOperationKind, TernaryOperationKind, Type,
    UnaryOperationKind, X86BlockMark, X86Node, X86NodeRef,
};
use crate::width::Width;

verus! {

/// A block of translated code: its instructions and the blocks it may jump to.
pub struct X86Block {
    instructions: Vec<Instruction>,
    next: Vec<BlockRef>,
    linked: bool,
    mark: X86BlockMark,
}

impl X86Block {
    pub closed spec fn instructions_spec(&self) -> Seq<Instruction> {
        self.instructions@
    }

    pub closed spec fn next_spec(&self) -> Seq<BlockRef> {
        self.next@
    }

    pub closed spec fn linked_spec(&self) -> bool {
        self.linked
    }

    pub closed spec fn mark_spec(&self) -> X86BlockMark {
        self.mark
    }

    /// An empty, unlinked, unmarked block.
    pub fn new() -> (r: X86Block)
        ensures
            r.instructions_spec() == Seq::<Instruction>::empty(),
            r.next_spec() == Seq::<BlockRef>::empty(),
            !r.linked_spec(),
            r.mark_spec() == X86BlockMark::Unmarked,
    {
        X86Block { instructions: Vec::new(), next: Vec::new(), linked: false, mark: X86BlockMark::Unmarked }
    }

    pub fn set_linked(&mut self)
        ensures
            final(self).linked_spec(),
            final(self).instructions_spec() == old(self).instructions_spec(),
            final(self).next_spec() == old(self).next_spec(),
            final(self).mark_spec() == old(self).mark_spec(),
    {
        self.linked = true;
    }

    pub fn is_linked(&self) -> (r: bool)
        ensures
            r == self.linked_spec(),
    {
        self.linked
    }

    pub fn set_mark(&mut self, mark: X86BlockMark)
        ensures
            final(self).mark_spec() == mark,
            final(self).instructions_spec() == old(self).instructions_spec(),
            final(self).next_spec() == old(self).next_spec(),
            final(self).linked_spec() == old(self).linked_spec(),
    {
        self.mark = mark;
    }

    pub fn get_mark(&self) -> (r: X86BlockMark)
        ensures
            r == self.mark_spec(),
    {
        self.mark
    }

    /// Adds an instruction at the end of the block.
    pub fn append(&mut self, instruction: Instruction)
        ensures
            final(self).instructions_spec() == old(self).instructions_spec().push(instruction),
            final(self).next_spec() == old(self).next_spec(),
            final(self).linked_spec() == old(self).linked_spec(),
            final(self).mark_spec() == old(self).mark_spec(),
    {
        self.instructions.push(instruction);
    }

    pub fn instructions(&self) -> (r: &Vec<Instruction>)
        ensures
            r@ == self.instructions_spec(),
    {
        &self.instructions
    }

    /// Replaces the last instruction of a non-empty block.
    pub fn set_last_instruction(&mut self, instruction: Instruction)
        requires
            old(self).instructions_spec().len() > 0,
        ensures
            final(self).instructions_spec() == old(self).instructions_spec().update(
                old(self).instructions_spec().len() - 1,
                instruction,
            ),
            final(self).next_spec() == old(self).next_spec(),
            final(self).linked_spec() == old(self).linked_spec(),
            final(self).mark_spec() == old(self).mark_spec(),
    {
        let last = self.instructions.len() - 1;
        self.instructions.set(last, instruction);
    }

    pub fn next_blocks(&self) -> (r: &Vec<BlockRef>)
        ensures
            r@ == self.next_spec(),
    {
        &self.next
    }

    pub fn clear_next_blocks(&mut self)
        ensures
            final(self).next_spec() == Seq::<BlockRef>::empty(),
            final(self).instructions_spec() == old(self).instructions_spec(),
            final(self).linked_spec() == old(self).linked_spec(),
            final(self).mark_spec() == old(self).mark_spec(),
    {
        self.next.clear();
    }

    /// Records that the block may jump to `target`.
    pub fn push_next(&mut self, target: BlockRef)
        ensures
            final(self).next_spec() == old(self).next_spec().push(target),
            final(self).instructions_spec() == old(self).instructions_spec(),
            final(self).linked_spec() == old(self).linked_spec(),
            final(self).mark_spec() == old(self).mark_spec(),
    {
        self.next.push(target);
    }
}

/// A local variable of a translation, by its index in the context.
#[derive(Debug, Clone, Copy, PartialEq, Eq, Structural)]
pub struct X86SymbolRef {
    pub index: usize,
}

/// The blocks of a translation and what its code was seen to write.
pub struct X86TranslationContext {
    blocks: Vec<X86Block>,
    initial_block: BlockRef,
    panic_block: BlockRef,
    writes_to_pc: bool,
    writes_to_sctlr: bool,
    mmu_invalidate: bool,
    pc_offset: u64,
    sctlr_el1_offset: u64,
    ttbr0_el1_offset: u64,
    ttbr1_el1_offset: u64,
    memory_mask: bool,
    symbols: Vec<Option<X86NodeRef>>,
}

impl X86TranslationContext {
    pub closed spec fn blocks_spec(&self) -> Seq<X86Block> {
        self.blocks@
    }

    pub closed spec fn initial_spec(&self) -> BlockRef {
        self.initial_block
    }

    pub closed spec fn panic_spec(&self) -> BlockRef {
        self.panic_block
    }

    pub closed spec fn memory_mask_spec(&self) -> bool {
        self.memory_mask
    }

    pub closed spec fn pc_write_spec(&self) -> bool {
        self.writes_to_pc
    }

    pub closed spec fn mmu_write_spec(&self) -> bool {
        self.writes_to_sctlr
    }

    pub closed spec fn mmu_invalidate_spec(&self) -> bool {
        self.mmu_invalidate
    }

    pub closed spec fn offsets_spec(&self) -> (u64, u64, u64, u64) {
        (self.pc_offset, self.sctlr_el1_offset, self.ttbr0_el1_offset, self.ttbr1_el1_offset)
    }

    /// The local variables of the translation: the value each was last
    /// written, if any.
    pub closed spec fn symbols_spec(&self) -> Seq<Option<X86NodeRef>> {
        self.symbols@
    }

    /// A new local variable, not yet written.
    pub fn create_symbol(&mut self) -> (r: X86SymbolRef)
        ensures
            r.index == old(self).symbols_spec().len(),
            final(self).symbols_spec() == old(self).symbols_spec().push(None),
            final(self).blocks_spec() == old(self).blocks_spec(),
            final(self).initial_spec() == old(self).initial_spec(),
            final(self).panic_spec() == old(self).panic_spec(),
    {
        let index = self.symbols.len();
        self.symbols.push(None);
        X86SymbolRef { index }
    }

    /// The context's blocks exist: the initial and the panic block are among
    /// them.
    pub open spec fn wf(&self) -> bool {
        &&& self.initial_spec().index < self.blocks_spec().len()
        &&& self.panic_spec().index < self.blocks_spec().len()
    }

    pub fn allocator_blocks(&self) -> (r: usize)
        ensures
            r == self.blocks_spec().len(),
    {
        self.blocks.len()
    }

    pub fn initial_block(&self) -> (r: BlockRef)
        ensures
            r == self.initial_spec(),
    {
        self.initial_block
    }

    pub fn panic_block(&self) -> (r: BlockRef)
        ensures
            r == self.panic_spec(),
    {
        self.panic_block
    }

    /// Adds a new empty block.
    pub fn create_block(&mut self) -> (r: BlockRef)
        ensures
            r.index == old(self).blocks_spec().len(),
            final(self).blocks_spec().len() == old(self).blocks_spec().len() + 1,
            forall|i: int| 0 <= i < old(self).blocks_spec().len() ==> #[trigger] final(self).blocks_spec()[i]
                == old(self).blocks_spec()[i],
            final(self).initial_spec() == old(self).initial_spec(),
            final(self).panic_spec() == old(self).panic_spec(),
            final(self).memory_mask_spec() == old(self).memory_mask_spec(),
            final(self).offsets_spec() == old(self).offsets_spec(),
            final(self).pc_write_spec() == old(self).pc_write_spec(),
            final(self).mmu_write_spec() == old(self).mmu_write_spec(),
            final(self).mmu_invalidate_spec() == old(self).mmu_invalidate_spec(),
    {
        let index = self.blocks.len();
        self.blocks.push(X86Block::new());
        BlockRef { index }
    }

    /// Sets the "PC was written to" flag
    pub fn set_pc_write_flag(&mut self)
        ensures
            final(self).pc_write_spec(),
            final(self).blocks_spec() == old(self).blocks_spec(),
    {
        self.writes_to_pc = true;
    }

    /// Gets the value of the "PC was written to" flag
    pub fn get_pc_write_flag(&self) -> (r: bool)
        ensures
            r == self.pc_write_spec(),
    {
        self.writes_to_pc
    }

    /// Sets the "SCTLR register was written to" flag
    pub fn set_mmu_config_flag(&mut self)
        ensures
            final(self).mmu_write_spec(),
            final(self).blocks_spec() == old(self).blocks_spec(),
    {
        self.writes_to_sctlr = true;
    }

    /// Gets the value of the "SCTLR register was written to" flag
    pub fn get_mmu_write_flag(&self) -> (r: bool)
        ensures
            r == self.mmu_write_spec(),
    {
        self.writes_to_sctlr
    }

    /// Sets the "translation tables were written to" flag
    pub fn set_mmu_needs_invalidate_flag(&mut self)
        ensures
            final(self).mmu_invalidate_spec(),
            final(self).blocks_spec() == old(self).blocks_spec(),
    {
        self.mmu_invalidate = true;
    }

    /// Gets the "translation tables were written to" flag
    pub fn get_mmu_needs_invalidate_flag(&self) -> (r: bool)
        ensures
            r == self.mmu_invalidate_spec(),
    {
        self.mmu_invalidate
    }

    pub fn pc_offset(&self) -> (r: u64)
        ensures
            r == self.offsets_spec().0,
    {
        self.pc_offset
    }

    /// A context with an empty initial block and an empty panic block, and
    /// none of its flags set.
    pub(crate) fn with_empty_blocks(
        pc_offset: u64,
        sctlr_el1_offset: u64,
        ttbr0_el1_offset: u64,
        ttbr1_el1_offset: u64,
        memory_mask: bool,
    ) -> (r: X86TranslationContext)
        ensures
            r.wf(),
            r.blocks_spec().len() == 2,
            r.initial_spec().index == 0,
            r.panic_spec().index == 1,
            forall|i: int| 0 <= i < 2 ==> (#[trigger] r.blocks_spec()[i]).instructions_spec() == Seq::<Instruction>::empty()
                && r.blocks_spec()[i].next_spec() == Seq::<BlockRef>::empty() && !r.blocks_spec()[i].linked_spec()
                && r.blocks_spec()[i].mark_spec() == X86BlockMark::Unmarked,
            r.offsets_spec() == (pc_offset, sctlr_el1_offset, ttbr0_el1_offset, ttbr1_el1_offset),
            r.memory_mask_spec() == memory_mask,
            !r.pc_write_spec(),
            !r.mmu_write_spec(),
            !r.mmu_invalidate_spec(),
            r.symbols_spec() == Seq::<Option<X86NodeRef>>::empty(),
    {
        let mut blocks: Vec<X86Block> = Vec::new();
        blocks.push(X86Block::new());
        blocks.push(X86Block::new());
        X86TranslationContext {
            blocks,
            initial_block: BlockRef { index: 0 },
            panic_block: BlockRef { index: 1 },
            writes_to_pc: false,
            writes_to_sctlr: false,
            mmu_invalidate: false,
            pc_offset,
            sctlr_el1_offset,
            ttbr0_el1_offset,
            ttbr1_el1_offset,
            memory_mask,
            symbols: Vec::new(),
        }
    }

    /// The block with reference `block`.
    pub fn block(&self, block: BlockRef) -> (r: &X86Block)
        requires
            block.index < self.blocks_spec().len(),
        ensures
            *r == self.blocks_spec()[block.index as int],
    {
        &self.blocks[block.index]
    }

    /// The register file offset of SCTLR_EL1.
    pub fn sctlr_el1_offset(&self) -> (r: u64)
        ensures
            r == self.offsets_spec().1,
    {
        self.sctlr_el1_offset
    }

    /// The register file offset of TTBR0_EL1.
    pub fn ttbr0_el1_offset(&self) -> (r: u64)
        ensures
            r == self.offsets_spec().2,
    {
        self.ttbr0_el1_offset
    }

    /// The register file offset of TTBR1_EL1.
    pub fn ttbr1_el1_offset(&self) -> (r: u64)
        ensures
            r == self.offsets_spec().3,
    {
        self.ttbr1_el1_offset
    }
}

} // verus!

verus! {

/// The virtual registers an operand names are all below `n`.
pub open spec fn operand_vregs_below(op: Operand, n: nat) -> bool {
    match op.kind {
        OperandKind::Register(Register::VirtualRegister(v)) => v < n,
        OperandKind::Memory { base, index, .. } => (base matches Some(Register::VirtualRegister(v)) ==> v < n)
            && (index matches Some(Register::VirtualRegister(v)) ==> v < n),
        _ => true,
    }
}

/// The virtual registers an instruction names are all below `n`.
pub open spec fn instruction_vregs_below(i: Instruction, n: nat) -> bool {
    forall|k: int| 0 <= k < crate::encoder::operands_spec(i.0).len() ==> operand_vregs_below(
        #[trigger] crate::encoder::operands_spec(i.0)[k].1,
        n,
    )
}

/// The virtual registers every instruction of every block names are below `n`.
pub open spec fn blocks_vregs_below(blocks: Seq<X86Block>, n: nat) -> bool {
    forall|b: int, k: int|
        0 <= b < blocks.len() && 0 <= k < blocks[b].instructions_spec().len() ==> instruction_vregs_below(
            #[trigger] blocks[b].instructions_spec()[k],
            n,
        )
}

/// Whether a node is a constant.
pub open spec fn is_const(n: X86NodeRef) -> bool {
    n.node().kind is Constant
}

/// The value of a constant node.
pub open spec fn cval(n: X86NodeRef) -> u64 {
    n.node().kind->Constant_value
}

/// The width of a constant node.
pub open spec fn cwidth(n: X86NodeRef) -> u16 {
    n.node().kind->Constant_width
}

/// The emitter of one translation: it appends instructions to the current
/// block and hands out virtual registers and node identifiers.
pub struct X86Emitter {
    ctx: X86TranslationContext,
    current_block: BlockRef,
    current_block_operands: Vec<(u64, Operand)>,
    panic_block: BlockRef,
    next_vreg: usize,
    next_node_id: u64,
}

impl X86Emitter {
    pub closed spec fn ctx_spec(&self) -> X86TranslationContext {
        self.ctx
    }

    pub closed spec fn current_spec(&self) -> BlockRef {
        self.current_block
    }

    pub closed spec fn next_vreg_spec(&self) -> nat {
        self.next_vreg as nat
    }

    pub closed spec fn cache_spec(&self) -> Seq<(u64, Operand)> {
        self.current_block_operands@
    }

    /// The emitter is usable: its blocks exist and every virtual register
    /// named in the code so far, or in an operand it remembers, was handed out.
    pub closed spec fn wf(&self) -> bool {
        &&& self.ctx.wf()
        &&& self.current_block.index < self.ctx.blocks_spec().len()
        &&& self.panic_block == self.ctx.panic_spec()
        &&& blocks_vregs_below(self.ctx.blocks_spec(), self.next_vreg as nat)
        &&& forall|k: int| 0 <= k < self.current_block_operands@.len() ==> operand_vregs_below(
            (#[trigger] self.current_block_operands@[k]).1,
            self.next_vreg as nat,
        )
    }

    /// Only node identifiers were handed out: the code and the counters of
    /// `other` are those of `self`.
    pub closed spec fn same_code(&self, other: &X86Emitter) -> bool {
        &&& self.ctx == other.ctx
        &&& self.current_block == other.current_block
        &&& self.current_block_operands == other.current_block_operands
        &&& self.panic_block == other.panic_block
        &&& self.next_vreg == other.next_vreg
    }

    /// A new node with a fresh identifier.
    fn node(&mut self, node: X86Node) -> (r: X86NodeRef)
        ensures
            r.node() == node,
            final(self).same_code(&*old(self)),
            old(self).wf() ==> final(self).wf(),
    {
        let id = self.next_node_id;
        self.next_node_id = self.next_node_id.wrapping_add(1);
        X86NodeRef::new(id, node)
    }

    /// Hands out a fresh virtual register.
    pub fn next_vreg(&mut self) -> (r: usize)
        requires
            old(self).next_vreg_spec() < usize::MAX,
        ensures
            r == old(self).next_vreg_spec(),
            final(self).next_vreg_spec() == old(self).next_vreg_spec() + 1,
            final(self).ctx_spec() == old(self).ctx_spec(),
            final(self).current_spec() == old(self).current_spec(),
            final(self).cache_spec() == old(self).cache_spec(),
            old(self).wf() ==> final(self).wf(),
    {
        let vreg = self.next_vreg;
        self.next_vreg = self.next_vreg + 1;
        proof {
            assert forall|b: int, k: int|
                0 <= b < self.ctx.blocks_spec().len() && 0 <= k < self.ctx.blocks_spec()[b].instructions_spec().len()
                    && blocks_vregs_below(old(self).ctx.blocks_spec(), old(self).next_vreg as nat)
                implies instruction_vregs_below(#[trigger] self.ctx.blocks_spec()[b].instructions_spec()[k], self.next_vreg as nat) by {
                let i = self.ctx.blocks_spec()[b].instructions_spec()[k];
                assert(instruction_vregs_below(i, old(self).next_vreg as nat));
            }
        }
        vreg
    }

    /// The block instructions are currently appended to.
    pub fn get_current_block(&self) -> (r: BlockRef)
        ensures
            r == self.current_spec(),
    {
        self.current_block
    }

    /// An emitter that appends to the initial block of `ctx`, whose code
    /// names no virtual register yet.
    pub fn new(ctx: X86TranslationContext) -> (r: X86Emitter)
        requires
            ctx.wf(),
            blocks_vregs_below(ctx.blocks_spec(), 0),
        ensures
            r.wf(),
            r.ctx_spec() == ctx,
            r.current_spec() == ctx.initial_spec(),
            r.next_vreg_spec() == 0,
            r.cache_spec() == Seq::<(u64, Operand)>::empty(),
    {
        let current_block = ctx.initial_block();
        let panic_block = ctx.panic_block();
        X86Emitter { ctx, current_block, current_block_operands: Vec::new(), panic_block, next_vreg: 0, next_node_id: 0 }
    }

    /// The context, with the code emitted into it.
    pub fn into_ctx(self) -> (r: X86TranslationContext)
        ensures
            r == self.ctx_spec(),
    {
        self.ctx
    }

    /// A new local variable, not yet written.
    pub fn create_symbol(&mut self) -> (r: X86SymbolRef)
        requires
            old(self).wf(),
        ensures
            final(self).wf(),
            r.index == old(self).ctx_spec().symbols_spec().len(),
            final(self).ctx_spec().symbols_spec() == old(self).ctx_spec().symbols_spec().push(None),
            final(self).current_spec() == old(self).current_spec(),
            final(self).next_vreg_spec() == old(self).next_vreg_spec(),
            final(self).current_instructions() == old(self).current_instructions(),
    {
        self.ctx.create_symbol()
    }

    /// The value last written to a local variable.
    pub fn read_virt_variable(&self, symbol: X86SymbolRef) -> (r: X86NodeRef)
        requires
            symbol.index < self.ctx_spec().symbols_spec().len(),
            self.ctx_spec().symbols_spec()[symbol.index as int] is Some,
        ensures
            r == self.ctx_spec().symbols_spec()[symbol.index as int]->Some_0,
    {
        match &self.ctx.symbols[symbol.index] {
            Some(value) => value.share(),
            None => {
                proof {
                    assert(false);
                }
                X86NodeRef::new(0, X86Node { typ: Type::Bits, kind: NodeKind::Constant { value: 0, width: 64 } })
            },
        }
    }

    /// Writes a local variable.
    pub fn write_virt_variable(&mut self, symbol: X86SymbolRef, value: X86NodeRef)
        requires
            old(self).wf(),
            symbol.index < old(self).ctx_spec().symbols_spec().len(),
        ensures
            final(self).wf(),
            final(self).ctx_spec().symbols_spec() == old(self).ctx_spec().symbols_spec().update(symbol.index as int, Some(value)),
            final(self).current_spec() == old(self).current_spec(),
            final(self).next_vreg_spec() == old(self).next_vreg_spec(),
            final(self).current_instructions() == old(self).current_instructions(),
    {
        self.ctx.symbols.set(symbol.index, Some(value));
    }

    /// The context the emitter appends to.
    pub fn ctx(&self) -> (r: &X86TranslationContext)
        ensures
            *r == self.ctx_spec(),
    {
        &self.ctx
    }

    /// Records that the code writes SCTLR_EL1.
    pub(crate) fn flag_mmu_config(&mut self)
        requires
            old(self).wf(),
        ensures
            final(self).wf(),
            final(self).ctx_spec().mmu_write_spec(),
            final(self).ctx_spec().mmu_invalidate_spec() == old(self).ctx_spec().mmu_invalidate_spec(),
            final(self).ctx_spec().blocks_spec() == old(self).ctx_spec().blocks_spec(),
            final(self).ctx_spec().panic_spec() == old(self).ctx_spec().panic_spec(),
            final(self).ctx_spec().initial_spec() == old(self).ctx_spec().initial_spec(),
            final(self).current_spec() == old(self).current_spec(),
            final(self).next_vreg_spec() == old(self).next_vreg_spec(),
            final(self).cache_spec() == old(self).cache_spec(),
            final(self).current_instructions() == old(self).current_instructions(),
    {
        self.ctx.writes_to_sctlr = true;
    }

    /// Records that the code writes a translation table base register.
    pub(crate) fn flag_mmu_invalidate(&mut self)
        requires
            old(self).wf(),
        ensures
            final(self).wf(),
            final(self).ctx_spec().mmu_invalidate_spec(),
            final(self).ctx_spec().mmu_write_spec() == old(self).ctx_spec().mmu_write_spec(),
            final(self).ctx_spec().blocks_spec() == old(self).ctx_spec().blocks_spec(),
            final(self).ctx_spec().panic_spec() == old(self).ctx_spec().panic_spec(),
            final(self).ctx_spec().initial_spec() == old(self).ctx_spec().initial_spec(),
            final(self).current_spec() == old(self).current_spec(),
            final(self).next_vreg_spec() == old(self).next_vreg_spec(),
            final(self).cache_spec() == old(self).cache_spec(),
            final(self).current_instructions() == old(self).current_instructions(),
    {
        self.ctx.mmu_invalidate = true;
    }

    /// Makes `block` the current block; what was known of the operands of
    /// nodes in the previous block is forgotten.
    pub fn set_current_block(&mut self, block: BlockRef)
        requires
            old(self).wf(),
            block.index < old(self).ctx_spec().blocks_spec().len(),
        ensures
            final(self).wf(),
            final(self).current_spec() == block,
            final(self).cache_spec() == Seq::<(u64, Operand)>::empty(),
            final(self).ctx_spec() == old(self).ctx_spec(),
            final(self).next_vreg_spec() == old(self).next_vreg_spec(),
    {
        self.current_block = block;
        self.current_block_operands = Vec::new();
    }
}

} // verus!

verus! {

/// The value of a constant after a cast from `original_width` to
/// `target_width` bits.
pub open spec fn cast_fold(value: u64, original_width: u16, target_width: u16, kind: CastOperationKind) -> u64 {
    match kind {
        CastOperationKind::ZeroExtend => if original_width == 64 {
            value
        } else {
            value & mask_spec(original_width as u64)
        },
        CastOperationKind::SignExtend => sign_extend_spec(value, original_width as u64),
        CastOperationKind::Truncate => value & mask_spec(target_width as u64),
        _ => value,
    }
}

/// The value of a constant shifted by a constant amount.
pub open spec fn shift_fold(value: u64, width: u16, amount: u64, kind: ShiftOperationKind) -> u64 {
    match kind {
        ShiftOperationKind::LogicalShiftLeft => (if value == 0 {
            0
        } else if amount == 0 {
            value
        } else {
            value << amount
        }) & mask_spec(width as u64),
        ShiftOperationKind::LogicalShiftRight => if amount < 64 {
            value >> amount
        } else {
            0
        },
        _ => ((value as i64) >> amount) as u64,
    }
}

/// When a shift of constants can be folded without a fault.
pub open spec fn shift_fold_ok(value: u64, width: u16, amount: u64, kind: ShiftOperationKind) -> bool {
    match kind {
        ShiftOperationKind::LogicalShiftLeft => value != 0 && amount != 0 ==> amount < 64,
        ShiftOperationKind::LogicalShiftRight => amount <= u32::MAX,
        ShiftOperationKind::ArithmeticShiftRight => width == 64 && amount < 64,
        _ => false,
    }
}

impl X86Emitter {
    /// A constant of type `typ`, whose width it takes.
    pub fn constant(&mut self, value: u64, typ: Type) -> (r: X86NodeRef)
        requires
            !(typ is Tuple),
            typ.width_spec() != 0,
        ensures
            r.node() == (X86Node { typ, kind: NodeKind::Constant { value, width: typ.width_spec() } }),
            final(self).same_code(&*old(self)),
            old(self).wf() ==> final(self).wf(),
    {
        let width = typ.width();
        self.node(X86Node { typ, kind: NodeKind::Constant { value, width } })
    }

    /// Reads the guest register at `offset` of the register file.
    pub fn read_register(&mut self, offset: u64, typ: Type) -> (r: X86NodeRef)
        ensures
            r.node() == (X86Node { typ, kind: NodeKind::GuestRegister { offset } }),
            final(self).same_code(&*old(self)),
            old(self).wf() ==> final(self).wf(),
    {
        self.node(X86Node { typ, kind: NodeKind::GuestRegister { offset } })
    }

    /// Reads guest memory at `address`.
    pub fn read_memory(&mut self, address: X86NodeRef, typ: Type) -> (r: X86NodeRef)
        ensures
            r.node() == (X86Node { typ, kind: NodeKind::ReadMemory { address } }),
            final(self).same_code(&*old(self)),
            old(self).wf() ==> final(self).wf(),
    {
        self.node(X86Node { typ, kind: NodeKind::ReadMemory { address } })
    }

    /// Reads the stack variable `offset` bytes below the frame base.
    pub fn read_stack_variable(&mut self, offset: usize, typ: Type) -> (r: X86NodeRef)
        requires
            !(typ is Tuple),
        ensures
            r.node() == (X86Node { typ, kind: NodeKind::ReadStackVariable { offset, width: typ.width_spec() } }),
            final(self).same_code(&*old(self)),
            old(self).wf() ==> final(self).wf(),
    {
        let width = typ.width();
        self.node(X86Node { typ, kind: NodeKind::ReadStackVariable { offset, width } })
    }

    /// The NZCV flags of `operation`, as a 4-bit value.
    pub fn get_flags(&mut self, operation: X86NodeRef) -> (r: X86NodeRef)
        ensures
            r.node() == (X86Node { typ: Type::Unsigned(4), kind: NodeKind::GetFlags { operation } }),
            final(self).same_code(&*old(self)),
            old(self).wf() ==> final(self).wf(),
    {
        self.node(X86Node { typ: Type::Unsigned(4), kind: NodeKind::GetFlags { operation } })
    }

    /// A tuple of values.
    pub fn create_tuple(&mut self, values: Vec<X86NodeRef>) -> (r: X86NodeRef)
        ensures
            r.node() == (X86Node { typ: Type::Tuple, kind: NodeKind::Tuple(values) }),
            final(self).same_code(&*old(self)),
            old(self).wf() ==> final(self).wf(),
    {
        self.node(X86Node { typ: Type::Tuple, kind: NodeKind::Tuple(values) })
    }

    /// The element `index` of a tuple.
    pub fn access_tuple(&mut self, tuple: X86NodeRef, index: usize) -> (r: X86NodeRef)
        requires
            tuple.node().kind is Tuple,
            index < tuple.node().kind->Tuple_0@.len(),
        ensures
            r == tuple.node().kind->Tuple_0@[index as int],
    {
        match tuple.kind() {
            NodeKind::Tuple(values) => values[index].share(),
            _ => tuple.share(),
        }
    }

    /// `value` cast to `target_type`; a constant is cast at once.
    pub fn cast(&mut self, value: X86NodeRef, target_type: Type, cast_kind: CastOperationKind) -> (r: X86NodeRef)
        requires
            is_const(value) ==> {
                &&& !(target_type is Tuple)
                &&& !(target_type is Bits)
                &&& target_type.width_spec() != 0
                &&& !(value.node().typ is Tuple)
                &&& (cast_kind == CastOperationKind::SignExtend && cval(value) != 0 ==> 1
                    <= value.node().typ.width_spec() <= 64)
            },
        ensures
            is_const(value) ==> r.node() == (X86Node {
                typ: target_type,
                kind: NodeKind::Constant {
                    value: cast_fold(cval(value), value.node().typ.width_spec(), target_type.width_spec(), cast_kind),
                    width: target_type.width_spec(),
                },
            }),
            !is_const(value) ==> r.node() == (X86Node { typ: target_type, kind: NodeKind::Cast { value, kind: cast_kind } }),
            final(self).same_code(&*old(self)),
            old(self).wf() ==> final(self).wf(),
    {
        match value.as_constant() {
            Some((constant_value, _)) => {
                let original_width = value.typ().width();
                let target_width = target_type.width();
                let casted_value = match cast_kind {
                    CastOperationKind::ZeroExtend => {
                        if original_width == 64 {
                            constant_value
                        } else {
                            constant_value & mask(original_width as u32)
                        }
                    },
                    CastOperationKind::SignExtend => sign_extend_constant(constant_value, original_width, target_width),
                    CastOperationKind::Truncate => constant_value & mask(target_width as u32),
                    _ => constant_value,
                };
                self.constant(casted_value, target_type)
            },
            None => self.node(X86Node { typ: target_type, kind: NodeKind::Cast { value, kind: cast_kind } }),
        }
    }

    /// `value` shifted by `amount`; constants are shifted at once.
    pub fn shift(&mut self, value: X86NodeRef, amount: X86NodeRef, kind: ShiftOperationKind) -> (r: X86NodeRef)
        requires
            is_const(value) && is_const(amount) ==> {
                &&& shift_fold_ok(cval(value), cwidth(value), cval(amount), kind)
                &&& !(value.node().typ is Tuple)
                &&& value.node().typ.width_spec() != 0
            },
        ensures
            is_const(value) && is_const(amount) ==> r.node() == (X86Node {
                typ: value.node().typ,
                kind: NodeKind::Constant {
                    value: shift_fold(cval(value), cwidth(value), cval(amount), kind),
                    width: value.node().typ.width_spec(),
                },
            }),
            !(is_const(value) && is_const(amount)) ==> r.node() == (X86Node {
                typ: value.node().typ,
                kind: NodeKind::Shift { value, amount, kind },
            }),
            final(self).same_code(&*old(self)),
            old(self).wf() ==> final(self).wf(),
    {
        let typ = *value.typ();
        match (value.as_constant(), amount.as_constant()) {
            (Some((v, w)), Some((a, _))) => {
                let shifted = match kind {
                    ShiftOperationKind::LogicalShiftLeft => {
                        let s = if v == 0 {
                            0
                        } else if a == 0 {
                            v
                        } else {
                            v << a
                        };
                        s & mask(w as u32)
                    },
                    ShiftOperationKind::LogicalShiftRight => {
                        if a < 64 {
                            v >> a
                        } else {
                            0
                        }
                    },
                    _ => ((v as i64) >> a) as u64,
                };
                self.constant(shifted, typ)
            },
            _ => self.node(X86Node { typ, kind: NodeKind::Shift { value, amount, kind } }),
        }
    }

    /// A bit vector made from `value` and a length; with a constant length it
    /// is `value` truncated to that length.
    pub fn create_bits(&mut self, value: X86NodeRef, length: X86NodeRef) -> (r: X86NodeRef)
        requires
            is_const(length) ==> {
                &&& cval(length) <= u16::MAX
                &&& (value.node().typ is Unsigned || value.node().typ is Signed)
                &&& (is_const(value) ==> cval(length) != 0)
            },
        ensures
            is_const(length) ==> {
                let target = if value.node().typ is Unsigned {
                    Type::Unsigned(cval(length) as u16)
                } else {
                    Type::Signed(cval(length) as u16)
                };
                &&& is_const(value) ==> r.node() == (X86Node {
                    typ: target,
                    kind: NodeKind::Constant {
                        value: cval(value) & mask_spec(cval(length)),
                        width: cval(length) as u16,
                    },
                })
                &&& !is_const(value) ==> r.node() == (X86Node {
                    typ: target,
                    kind: NodeKind::Cast { value, kind: CastOperationKind::Truncate },
                })
            },
            !is_const(length) ==> r == value,
            final(self).same_code(&*old(self)),
            old(self).wf() ==> final(self).wf(),
    {
        match length.as_constant() {
            Some((l, _)) => {
                let len: u16 = l as u16;
                let target_type = match value.typ() {
                    Type::Unsigned(_) => Type::Unsigned(len),
                    _ => Type::Signed(len),
                };
                self.cast(value, target_type, CastOperationKind::Truncate)
            },
            None => value,
        }
    }

    /// `value` when `condition` is nonzero, else `false_value`; with a
    /// constant condition the choice is made at once.
    pub fn select(&mut self, condition: X86NodeRef, true_value: X86NodeRef, false_value: X86NodeRef) -> (r: X86NodeRef)
        ensures
            is_const(condition) && cval(condition) == 0 ==> r == false_value,
            is_const(condition) && cval(condition) != 0 ==> r == true_value,
            !is_const(condition) ==> r.node() == (X86Node {
                typ: true_value.node().typ,
                kind: NodeKind::Select { condition, true_value, false_value },
            }),
            final(self).same_code(&*old(self)),
            old(self).wf() ==> final(self).wf(),
    {
        match condition.as_constant() {
            Some((v, _)) => {
                if v == 0 {
                    false_value
                } else {
                    true_value
                }
            },
            None => {
                let typ = *true_value.typ();
                self.node(X86Node { typ, kind: NodeKind::Select { condition, true_value, false_value } })
            },
        }
    }

    /// `length` bits of `target` from bit `start` replaced by `source`; all
    /// constants are combined at once.
    pub fn bit_insert(&mut self, target: X86NodeRef, source: X86NodeRef, start: X86NodeRef, length: X86NodeRef) -> (r: X86NodeRef)
        requires
            is_const(target) && is_const(source) && is_const(start) && is_const(length) ==> {
                &&& (cval(start) >= 64 ==> cval(source) == 0)
                &&& cval(length) <= u32::MAX
                &&& cwidth(target) != 0
            },
        ensures
            is_const(target) && is_const(source) && is_const(start) && is_const(length) ==> r.node() == (X86Node {
                typ: Type::Unsigned(cwidth(target)),
                kind: NodeKind::Constant {
                    value: bit_insert_spec(cval(target), cval(source), cval(start), cval(length)),
                    width: cwidth(target),
                },
            }),
            !(is_const(target) && is_const(source) && is_const(start) && is_const(length)) ==> r.node() == (X86Node {
                typ: target.node().typ,
                kind: NodeKind::BitInsert { target, source, start, length },
            }),
            final(self).same_code(&*old(self)),
            old(self).wf() ==> final(self).wf(),
    {
        match (target.as_constant(), source.as_constant(), start.as_constant(), length.as_constant()) {
            (Some((t, tw)), Some((s, _)), Some((st, _)), Some((l, _))) => {
                let v = bit_insert(t, s, st, l);
                self.constant(v, Type::Unsigned(tw))
            },
            _ => {
                let typ = *target.typ();
                self.node(X86Node { typ, kind: NodeKind::BitInsert { target, source, start, length } })
            },
        }
    }
}

} // verus!

verus! {

/// The node a multiplication gives: the product of constants, or the
/// operation itself.
pub open spec fn mul_node(l: X86NodeRef, r: X86NodeRef) -> X86Node {
    if is_const(l) && is_const(r) {
        X86Node { typ: l.node().typ, kind: NodeKind::Constant { value: (cval(l) * cval(r)) as u64, width: cwidth(l) } }
    } else {
        X86Node { typ: l.node().typ, kind: NodeKind::BinaryOperation(BinaryOperationKind::Multiply(l, r)) }
    }
}

/// A multiplication of constants does not overflow.
pub open spec fn mul_ok(l: X86NodeRef, r: X86NodeRef) -> bool {
    is_const(l) && is_const(r) ==> cval(l) * cval(r) <= u64::MAX
}

/// The two operands of a binary operation.
pub open spec fn operands_of(op: BinaryOperationKind) -> (X86NodeRef, X86NodeRef) {
    match op {
        BinaryOperationKind::Add(l, r) => (l, r),
        BinaryOperationKind::Sub(l, r) => (l, r),
        BinaryOperationKind::Multiply(l, r) => (l, r),
        BinaryOperationKind::Divide(l, r) => (l, r),
        BinaryOperationKind::Modulo(l, r) => (l, r),
        BinaryOperationKind::And(l, r) => (l, r),
        BinaryOperationKind::Or(l, r) => (l, r),
        BinaryOperationKind::Xor(l, r) => (l, r),
        BinaryOperationKind::PowI(l, r) => (l, r),
        BinaryOperationKind::CompareEqual(l, r) => (l, r),
        BinaryOperationKind::CompareNotEqual(l, r) => (l, r),
        BinaryOperationKind::CompareLessThan(l, r) => (l, r),
        BinaryOperationKind::CompareLessThanOrEqual(l, r) => (l, r),
        BinaryOperationKind::CompareGreaterThan(l, r) => (l, r),
        BinaryOperationKind::CompareGreaterThanOrEqual(l, r) => (l, r),
    }
}

/// Whether the operation orders its operands.
pub open spec fn is_ordering(op: BinaryOperationKind) -> bool {
    op is CompareLessThan || op is CompareLessThanOrEqual || op is CompareGreaterThan
        || op is CompareGreaterThanOrEqual
}

/// The outcome of an ordering comparison of two 64-bit patterns read as
/// signed integers.
pub open spec fn order_holds(op: BinaryOperationKind, l: u64, r: u64) -> bool {
    let a = l as i64;
    let b = r as i64;
    match op {
        BinaryOperationKind::CompareLessThan(_, _) => a < b,
        BinaryOperationKind::CompareLessThanOrEqual(_, _) => a <= b,
        BinaryOperationKind::CompareGreaterThan(_, _) => a > b,
        _ => a >= b,
    }
}

/// Two constants can be ordered: both signed or both unsigned, of 64 bits.
pub open spec fn orderable(l: X86NodeRef, r: X86NodeRef) -> bool {
    (l.node().typ == Type::Signed(64) && r.node().typ == Type::Signed(64)) || (l.node().typ
        == Type::Unsigned(64) && r.node().typ == Type::Unsigned(64))
}

/// Whether both operands are pairs of constants (rationals).
pub open spec fn constant_pairs(l: X86NodeRef, r: X86NodeRef) -> bool {
    &&& l.node().kind is Tuple
    &&& r.node().kind is Tuple
    &&& l.node().kind->Tuple_0@.len() == 2
    &&& r.node().kind->Tuple_0@.len() == 2
    &&& forall|k: int| 0 <= k < 2 ==> is_const(#[trigger] l.node().kind->Tuple_0@[k])
    &&& forall|k: int| 0 <= k < 2 ==> is_const(#[trigger] r.node().kind->Tuple_0@[k])
}

/// The pair `(numerator, denominator)` of a rational node.
pub open spec fn pair_of(n: X86NodeRef) -> (X86NodeRef, X86NodeRef) {
    (n.node().kind->Tuple_0@[0], n.node().kind->Tuple_0@[1])
}

/// The cross products `(ln * rd, ld * rn)` of two rationals, as constants.
pub open spec fn cross_products(l: X86NodeRef, r: X86NodeRef) -> (X86Node, X86Node) {
    (mul_node(pair_of(l).0, pair_of(r).1), mul_node(pair_of(l).1, pair_of(r).0))
}

/// When a binary operation can be built without a fault.
pub open spec fn binary_ok(op: BinaryOperationKind) -> bool {
    let (l, r) = operands_of(op);
    &&& !(op is PowI)
    &&& (op is Multiply ==> mul_ok(l, r))
    &&& ((op is Divide || op is Modulo) && is_const(l) && is_const(r) ==> cval(r) != 0)
    &&& (op is Divide && l.node().kind is Tuple && r.node().kind is Tuple ==> {
        &&& l.node().kind->Tuple_0@.len() == 2
        &&& r.node().kind->Tuple_0@.len() == 2
        &&& mul_ok(pair_of(l).0, pair_of(r).1)
        &&& mul_ok(pair_of(l).1, pair_of(r).0)
    })
    &&& (op is And && is_const(l) && !is_const(r) && cval(l) == 0 ==> !(r.node().typ is Tuple)
        && r.node().typ.width_spec() != 0)
    &&& (op is And && !is_const(l) && is_const(r) && cval(r) == 0 ==> !(l.node().typ is Tuple)
        && l.node().typ.width_spec() != 0)
    &&& (is_ordering(op) && is_const(l) && is_const(r) ==> orderable(l, r))
    &&& (is_ordering(op) && l.node().kind is Tuple && r.node().kind is Tuple ==> {
        &&& l.node().kind->Tuple_0@.len() == 2
        &&& r.node().kind->Tuple_0@.len() == 2
        &&& (constant_pairs(l, r) ==> {
            &&& mul_ok(pair_of(l).0, pair_of(r).1)
            &&& mul_ok(pair_of(l).1, pair_of(r).0)
            &&& ((pair_of(l).0.node().typ == Type::Signed(64) && pair_of(l).1.node().typ == Type::Signed(64))
                || (pair_of(l).0.node().typ == Type::Unsigned(64) && pair_of(l).1.node().typ == Type::Unsigned(64)))
        })
    })
}

/// The constant a binary operation of constants folds to: its type, value
/// and width. Additions and subtractions wrap at the width of the left
/// constant (at 64 bits for wider ones); comparisons give 1
/// or 0 of width 1, ordering comparisons reading both sides as signed.
pub open spec fn binary_fold(op: BinaryOperationKind) -> Option<(Type, u64, u16)> {
    let (l, r) = operands_of(op);
    let lt = l.node().typ;
    if is_const(l) && is_const(r) {
        let (a, b, w) = (cval(l), cval(r), cwidth(l));
        match op {
            BinaryOperationKind::Add(_, _) => Some((lt, vstd::wrapping::u64_specs::wrapping_add(a, b) & mask_spec(w as u64), w)),
            BinaryOperationKind::Sub(_, _) => Some((lt, vstd::wrapping::u64_specs::wrapping_sub(a, b) & mask_spec(w as u64), w)),
            BinaryOperationKind::Multiply(_, _) => Some((lt, (a * b) as u64, w)),
            BinaryOperationKind::Divide(_, _) => Some((lt, a / b, w)),
            BinaryOperationKind::Modulo(_, _) => Some((lt, a % b, w)),
            BinaryOperationKind::Or(_, _) => Some((lt, a | b, w)),
            BinaryOperationKind::Xor(_, _) => Some((lt, a ^ b, w)),
            BinaryOperationKind::And(_, _) => Some((lt, a & b, w)),
            BinaryOperationKind::CompareEqual(_, _) => Some((lt, if a == b { 1 } else { 0 }, 1)),
            BinaryOperationKind::CompareNotEqual(_, _) => Some((lt, if a != b { 1 } else { 0 }, 1)),
            BinaryOperationKind::PowI(_, _) => None,
            _ => Some((lt, if order_holds(op, a, b) { 1 } else { 0 }, 1)),
        }
    } else if op is And && is_const(l) && cval(l) == 0 {
        Some((r.node().typ, 0, r.node().typ.width_spec()))
    } else if op is And && is_const(r) && cval(r) == 0 {
        Some((lt, 0, lt.width_spec()))
    } else if is_ordering(op) && constant_pairs(l, r) {
        let (x, y) = cross_products(l, r);
        Some((x.typ, if order_holds(op, x.kind->Constant_value, y.kind->Constant_value) { 1 } else { 0 }, 1))
    } else {
        None
    }
}

/// The type of a binary operation node that is not folded.
pub open spec fn binary_type(op: BinaryOperationKind) -> Type {
    let (l, r) = operands_of(op);
    match op {
        BinaryOperationKind::And(_, _) => if !is_const(l) && is_const(r) {
            r.node().typ
        } else {
            l.node().typ
        },
        BinaryOperationKind::CompareEqual(_, _) | BinaryOperationKind::CompareNotEqual(_, _)
        | BinaryOperationKind::CompareLessThan(_, _) | BinaryOperationKind::CompareLessThanOrEqual(_, _)
        | BinaryOperationKind::CompareGreaterThan(_, _) | BinaryOperationKind::CompareGreaterThanOrEqual(_, _) => Type::Unsigned(1),
        _ => l.node().typ,
    }
}

} // verus!

verus! {

pub(crate) fn operand_pair(op: &BinaryOperationKind) -> (r: (&X86NodeRef, &X86NodeRef))
    ensures
        (*r.0, *r.1) == operands_of(*op),
{
    match op {
        BinaryOperationKind::Add(l, r) => (l, r),
        BinaryOperationKind::Sub(l, r) => (l, r),
        BinaryOperationKind::Multiply(l, r) => (l, r),
        BinaryOperationKind::Divide(l, r) => (l, r),
        BinaryOperationKind::Modulo(l, r) => (l, r),
        BinaryOperationKind::And(l, r) => (l, r),
        BinaryOperationKind::Or(l, r) => (l, r),
        BinaryOperationKind::Xor(l, r) => (l, r),
        BinaryOperationKind::PowI(l, r) => (l, r),
        BinaryOperationKind::CompareEqual(l, r) => (l, r),
        BinaryOperationKind::CompareNotEqual(l, r) => (l, r),
        BinaryOperationKind::CompareLessThan(l, r) => (l, r),
        BinaryOperationKind::CompareLessThanOrEqual(l, r) => (l, r),
        BinaryOperationKind::CompareGreaterThan(l, r) => (l, r),
        BinaryOperationKind::CompareGreaterThanOrEqual(l, r) => (l, r),
    }
}

/// The first two elements of a tuple node.
fn pair(n: &X86NodeRef) -> (r: (X86NodeRef, X86NodeRef))
    requires
        n.node().kind is Tuple,
        n.node().kind->Tuple_0@.len() == 2,
    ensures
        r == pair_of(*n),
{
    match n.kind() {
        NodeKind::Tuple(values) => (values[0].share(), values[1].share()),
        _ => (n.share(), n.share()),
    }
}

fn order_exec(op: &BinaryOperationKind, l: u64, r: u64) -> (b: bool)
    requires
        is_ordering(*op),
    ensures
        b == order_holds(*op, l, r),
{
    let a = l as i64;
    let b = r as i64;
    match op {
        BinaryOperationKind::CompareLessThan(_, _) => a < b,
        BinaryOperationKind::CompareLessThanOrEqual(_, _) => a <= b,
        BinaryOperationKind::CompareGreaterThan(_, _) => a > b,
        _ => a >= b,
    }
}

impl X86Emitter {
    /// The product of two values; constants are multiplied at once.
    fn multiply(&mut self, l: X86NodeRef, r: X86NodeRef) -> (n: X86NodeRef)
        requires
            mul_ok(l, r),
        ensures
            n.node() == mul_node(l, r),
            final(self).same_code(&*old(self)),
            old(self).wf() ==> final(self).wf(),
    {
        match (l.as_constant(), r.as_constant()) {
            (Some((a, w)), Some((b, _))) => {
                let typ = *l.typ();
                self.node(X86Node { typ, kind: NodeKind::Constant { value: a * b, width: w } })
            },
            _ => {
                let typ = *l.typ();
                self.node(X86Node { typ, kind: NodeKind::BinaryOperation(BinaryOperationKind::Multiply(l, r)) })
            },
        }
    }

    /// A binary operation; constant operands are combined at once, and so
    /// are rationals (pairs of constants) in divisions and comparisons.
    pub fn binary_operation(&mut self, op: BinaryOperationKind) -> (n: X86NodeRef)
        requires
            binary_ok(op),
        ensures
            binary_fold(op) matches Some((t, v, w)) ==> n.node() == (X86Node { typ: t, kind: NodeKind::Constant { value: v, width: w } }),
            binary_fold(op) is None && op is Divide && operands_of(op).0.node().kind is Tuple && operands_of(op).1.node().kind is Tuple
                ==> {
                let (l, r) = operands_of(op);
                &&& n.node().typ == Type::Tuple
                &&& n.node().kind is Tuple
                &&& n.node().kind->Tuple_0@.len() == 2
                &&& n.node().kind->Tuple_0@[0].node() == mul_node(pair_of(l).0, pair_of(r).1)
                &&& n.node().kind->Tuple_0@[1].node() == mul_node(pair_of(l).1, pair_of(r).0)
            },
            binary_fold(op) is None && !(op is Divide && operands_of(op).0.node().kind is Tuple && operands_of(op).1.node().kind is Tuple)
                ==> n.node() == (X86Node { typ: binary_type(op), kind: NodeKind::BinaryOperation(op) }),
            final(self).same_code(&*old(self)),
            old(self).wf() ==> final(self).wf(),
    {
        let (lref, rref) = operand_pair(&op);
        let l = lref.share();
        let r = rref.share();
        let lt = *l.typ();
        let lc = l.as_constant();
        let rc = r.as_constant();
        if let (Some((a, w)), Some((b, _))) = (lc, rc) {
            let folded: Option<(u64, u16)> = match &op {
                BinaryOperationKind::Add(_, _) => Some((a.wrapping_add(b) & mask(w as u32), w)),
                BinaryOperationKind::Sub(_, _) => Some((a.wrapping_sub(b) & mask(w as u32), w)),
                BinaryOperationKind::Multiply(_, _) => Some((a * b, w)),
                BinaryOperationKind::Divide(_, _) => Some((a / b, w)),
                BinaryOperationKind::Modulo(_, _) => Some((a % b, w)),
                BinaryOperationKind::Or(_, _) => Some((a | b, w)),
                BinaryOperationKind::Xor(_, _) => Some((a ^ b, w)),
                BinaryOperationKind::And(_, _) => Some((a & b, w)),
                BinaryOperationKind::CompareEqual(_, _) => Some((if a == b { 1 } else { 0 }, 1)),
                BinaryOperationKind::CompareNotEqual(_, _) => Some((if a != b { 1 } else { 0 }, 1)),
                BinaryOperationKind::PowI(_, _) => None,
                _ => Some((if order_exec(&op, a, b) { 1 } else { 0 }, 1)),
            };
            match folded {
                Some((v, fw)) => {
                    return self.node(X86Node { typ: lt, kind: NodeKind::Constant { value: v, width: fw } });
                },
                None => {},
            }
        }
        let is_and = match &op {
            BinaryOperationKind::And(_, _) => true,
            _ => false,
        };
        if is_and {
            if let Some((a, _)) = lc {
                if a == 0 {
                    let rt = *r.typ();
                    return self.constant(0, rt);
                }
            }
            if let Some((b, _)) = rc {
                if b == 0 {
                    return self.constant(0, lt);
                }
            }
        }
        let ordering = match &op {
            BinaryOperationKind::CompareLessThan(_, _) | BinaryOperationKind::CompareLessThanOrEqual(_, _)
            | BinaryOperationKind::CompareGreaterThan(_, _) | BinaryOperationKind::CompareGreaterThanOrEqual(_, _) => true,
            _ => false,
        };
        let is_div = match &op {
            BinaryOperationKind::Divide(_, _) => true,
            _ => false,
        };
        let l_tuple = match l.kind() {
            NodeKind::Tuple(_) => true,
            _ => false,
        };
        let r_tuple = match r.kind() {
            NodeKind::Tuple(_) => true,
            _ => false,
        };
        if is_div && l_tuple && r_tuple {
            let (ln, ld) = pair(&l);
            let (rn, rd) = pair(&r);
            let num = self.multiply(ln, rd);
            let den = self.multiply(ld, rn);
            let mut tuple: Vec<X86NodeRef> = Vec::new();
            tuple.push(num);
            tuple.push(den);
            return self.create_tuple(tuple);
        }
        if ordering && l_tuple && r_tuple {
            let (ln, ld) = pair(&l);
            let (rn, rd) = pair(&r);
            if ln.as_constant().is_some() && ld.as_constant().is_some() && rn.as_constant().is_some() && rd.as_constant().is_some() {
                let x = self.multiply(ln, rd);
                let y = self.multiply(ld, rn);
                let xt = *x.typ();
                let (xv, yv) = match (x.as_constant(), y.as_constant()) {
                    (Some((xv, _)), Some((yv, _))) => (xv, yv),
                    _ => (0, 0),
                };
                let v: u64 = if order_exec(&op, xv, yv) { 1 } else { 0 };
                proof {
                    assert(constant_pairs(l, r)) by {
                        assert(l.node().kind->Tuple_0@[0] == ln && l.node().kind->Tuple_0@[1] == ld);
                        assert(r.node().kind->Tuple_0@[0] == rn && r.node().kind->Tuple_0@[1] == rd);
                    }
                }
                return self.node(X86Node { typ: xt, kind: NodeKind::Constant { value: v, width: 1 } });
            }
            proof {
                assert(!constant_pairs(l, r)) by {
                    if constant_pairs(l, r) {
                        assert(is_const(l.node().kind->Tuple_0@[0]));
                        assert(is_const(l.node().kind->Tuple_0@[1]));
                        assert(is_const(r.node().kind->Tuple_0@[0]));
                        assert(is_const(r.node().kind->Tuple_0@[1]));
                    }
                }
            }
        }
        let typ = if is_and && lc.is_none() && rc.is_some() {
            *r.typ()
        } else if ordering || match &op {
            BinaryOperationKind::CompareEqual(_, _) | BinaryOperationKind::CompareNotEqual(_, _) => true,
            _ => false,
        } {
            Type::Unsigned(1)
        } else {
            lt
        };
        self.node(X86Node { typ, kind: NodeKind::BinaryOperation(op) })
    }
}

} // verus!

verus! {

/// The operand of a unary operation.
pub open spec fn unary_operand(op: UnaryOperationKind) -> X86NodeRef {
    match op {
        UnaryOperationKind::Not(v) => v,
        UnaryOperationKind::Negate(v) => v,
        UnaryOperationKind::Complement(v) => v,
        UnaryOperationKind::Power2(v) => v,
        UnaryOperationKind::Absolute(v) => v,
        UnaryOperationKind::Ceil(v) => v,
        UnaryOperationKind::Floor(v) => v,
        UnaryOperationKind::SquareRoot(v) => v,
    }
}

/// Rounding toward negative infinity of `n / d`: the quotient of the
/// magnitudes when the signs agree, and minus the rounded-up quotient of the
/// magnitudes when they differ.
pub open spec fn floor_div(n: i64, d: i64) -> int {
    let an: int = if n >= 0 { n as int } else { -n };
    let ad: int = if d >= 0 { d as int } else { -d };
    if (n >= 0) == (d > 0) {
        an / ad
    } else {
        -((an + ad - 1) / ad)
    }
}

/// When a unary operation can be built without a fault: logical not,
/// complement, ceiling or floor, the latter two of a rational (pair); a
/// rational of constants has a ceiling only if not constant, and a constant
/// floor needs 64-bit signed parts and a nonzero denominator.
pub open spec fn unary_ok(op: UnaryOperationKind) -> bool {
    let v = unary_operand(op);
    match op {
        UnaryOperationKind::Not(_) | UnaryOperationKind::Complement(_) => true,
        UnaryOperationKind::Ceil(_) | UnaryOperationKind::Floor(_) => {
            &&& v.node().kind is Tuple
            &&& op is Ceil ==> !(forall|k: int| 0 <= k < v.node().kind->Tuple_0@.len() ==> is_const(#[trigger] v.node().kind->Tuple_0@[k]))
            &&& (op is Floor && (forall|k: int| 0 <= k < v.node().kind->Tuple_0@.len() ==> is_const(#[trigger] v.node().kind->Tuple_0@[k]))) ==> {
                &&& v.node().kind->Tuple_0@.len() == 2
                &&& pair_of(v).0.node().typ == Type::Signed(64)
                &&& pair_of(v).1.node().typ == Type::Signed(64)
                &&& cval(pair_of(v).1) != 0
                &&& !(cval(pair_of(v).0) as i64 == i64::MIN && cval(pair_of(v).1) as i64 == -1)
            }
        },
        _ => false,
    }
}

/// The constant a unary operation of a constant folds to.
pub open spec fn unary_fold(op: UnaryOperationKind) -> Option<(Type, u64, u16)> {
    let v = unary_operand(op);
    match op {
        UnaryOperationKind::Not(_) => if is_const(v) {
            Some((v.node().typ, if cval(v) == 0 { 1 } else { 0 }, cwidth(v)))
        } else {
            None
        },
        UnaryOperationKind::Complement(_) => if is_const(v) {
            Some((v.node().typ, !cval(v) & mask_spec(cwidth(v) as u64), cwidth(v)))
        } else {
            None
        },
        UnaryOperationKind::Floor(_) => if forall|k: int| 0 <= k < v.node().kind->Tuple_0@.len() ==> is_const(#[trigger] v.node().kind->Tuple_0@[k]) {
            Some((Type::Signed(64), floor_div(cval(pair_of(v).0) as i64, cval(pair_of(v).1) as i64) as i64 as u64, 64))
        } else {
            None
        },
        _ => None,
    }
}

/// The type of a unary operation node that is not folded.
pub open spec fn unary_type(op: UnaryOperationKind) -> Type {
    match op {
        UnaryOperationKind::Ceil(_) | UnaryOperationKind::Floor(_) => Type::Signed(64),
        _ => unary_operand(op).node().typ,
    }
}

fn unary_operand_ref(op: &UnaryOperationKind) -> (r: &X86NodeRef)
    ensures
        *r == unary_operand(*op),
{
    match op {
        UnaryOperationKind::Not(v) => v,
        UnaryOperationKind::Negate(v) => v,
        UnaryOperationKind::Complement(v) => v,
        UnaryOperationKind::Power2(v) => v,
        UnaryOperationKind::Absolute(v) => v,
        UnaryOperationKind::Ceil(v) => v,
        UnaryOperationKind::Floor(v) => v,
        UnaryOperationKind::SquareRoot(v) => v,
    }
}

fn all_constant(values: &Vec<X86NodeRef>) -> (r: bool)
    ensures
        r == forall|k: int| 0 <= k < values@.len() ==> is_const(#[trigger] values@[k]),
{
    let mut i: usize = 0;
    while i < values.len()
        invariant
            i <= values@.len(),
            forall|k: int| 0 <= k < i ==> is_const(#[trigger] values@[k]),
        decreases values@.len() - i,
    {
        if values[i].as_constant().is_none() {
            return false;
        }
        i = i + 1;
    }
    true
}

fn floor_div_exec(n: i64, d: i64) -> (r: i64)
    requires
        d != 0,
        !(n == i64::MIN && d == -1),
    ensures
        r == floor_div(n, d),
{
    let an: u64 = if n >= 0 {
        n as u64
    } else {
        (0i128 - n as i128) as u64
    };
    let ad: u64 = if d >= 0 {
        d as u64
    } else {
        (0i128 - d as i128) as u64
    };
    if (n >= 0) == (d > 0) {
        let q = an / ad;
        assert(q <= i64::MAX) by (nonlinear_arith)
            requires
                q == an / ad,
                ad >= 1,
                n >= 0 ==> an <= i64::MAX,
                n < 0 ==> an <= 0x8000_0000_0000_0000u64,
                n < 0 && an == 0x8000_0000_0000_0000u64 ==> ad >= 2,
        ;
        q as i64
    } else {
        let q: u128 = (an as u128 + ad as u128 - 1) / (ad as u128);
        assert(q <= 0x8000_0000_0000_0000u128) by (nonlinear_arith)
            requires
                q == (an + ad - 1) / (ad as int),
                ad >= 1,
                an <= 0x8000_0000_0000_0000u64,
        ;
        (0i128 - q as i128) as i64
    }
}

impl X86Emitter {
    /// A unary operation; a constant operand is operated on at once.
    pub fn unary_operation(&mut self, op: UnaryOperationKind) -> (n: X86NodeRef)
        requires
            unary_ok(op),
        ensures
            unary_fold(op) matches Some((t, v, w)) ==> n.node() == (X86Node { typ: t, kind: NodeKind::Constant { value: v, width: w } }),
            unary_fold(op) is None ==> n.node() == (X86Node { typ: unary_type(op), kind: NodeKind::UnaryOperation(op) }),
            final(self).same_code(&*old(self)),
            old(self).wf() ==> final(self).wf(),
    {
        let v = unary_operand_ref(&op).share();
        let vt = *v.typ();
        match &op {
            UnaryOperationKind::Not(_) => {
                if let Some((c, w)) = v.as_constant() {
                    return self.node(X86Node { typ: vt, kind: NodeKind::Constant { value: if c == 0 { 1 } else { 0 }, width: w } });
                }
                self.node(X86Node { typ: vt, kind: NodeKind::UnaryOperation(op) })
            },
            UnaryOperationKind::Complement(_) => {
                if let Some((c, w)) = v.as_constant() {
                    return self.node(X86Node { typ: vt, kind: NodeKind::Constant { value: !c & mask(w as u32), width: w } });
                }
                self.node(X86Node { typ: vt, kind: NodeKind::UnaryOperation(op) })
            },
            UnaryOperationKind::Floor(_) => {
                let all = match v.kind() {
                    NodeKind::Tuple(values) => all_constant(values),
                    _ => false,
                };
                if all {
                    let (num, den) = pair(&v);
                    let (nv, dv) = match (num.as_constant(), den.as_constant()) {
                        (Some((a, _)), Some((b, _))) => (a, b),
                        _ => (0, 1),
                    };
                    assert(dv != 0 ==> dv as i64 != 0) by (bit_vector);
                    let value = floor_div_exec(nv as i64, dv as i64) as u64;
                    return self.node(X86Node { typ: Type::Signed(64), kind: NodeKind::Constant { value, width: 64 } });
                }
                self.node(X86Node { typ: Type::Signed(64), kind: NodeKind::UnaryOperation(op) })
            },
            _ => self.node(X86Node { typ: Type::Signed(64), kind: NodeKind::UnaryOperation(op) }),
        }
    }

    /// A ternary operation: add with carry, typed as its first operand.
    pub fn ternary_operation(&mut self, op: TernaryOperationKind) -> (n: X86NodeRef)
        ensures
            n.node() == (X86Node {
                typ: match op {
                    TernaryOperationKind::AddWithCarry(src, _, _) => src.node().typ,
                },
                kind: NodeKind::TernaryOperation(op),
            }),
            final(self).same_code(&*old(self)),
            old(self).wf() ==> final(self).wf(),
    {
        let typ = match &op {
            TernaryOperationKind::AddWithCarry(src, _, _) => *src.typ(),
        };
        self.node(X86Node { typ, kind: NodeKind::TernaryOperation(op) })
    }
}

} // verus!

verus! {

impl X86Emitter {
    /// `length` bits of `value` from bit `start`. With all three constant the
    /// bits are extracted at once; with a constant start and length the value
    /// is shifted right, truncated and masked.
    pub fn bit_extract(&mut self, value: X86NodeRef, start: X86NodeRef, length: X86NodeRef) -> (n: X86NodeRef)
        requires
            is_const(start) && is_const(length) ==> 1 <= cval(length) <= u16::MAX,
            is_const(value) && is_const(start) && is_const(length) ==> cval(start) < 64,
        ensures
            is_const(value) && is_const(start) && is_const(length) ==> n.node() == (X86Node {
                typ: Type::Unsigned(cval(length) as u16),
                kind: NodeKind::Constant {
                    value: bit_extract_spec(cval(value), cval(start), cval(length)),
                    width: cval(length) as u16,
                },
            }),
            !is_const(value) && is_const(start) && is_const(length) ==> {
                let t = Type::Unsigned(cval(length) as u16);
                &&& n.node().typ == t
                &&& n.node().kind matches NodeKind::BinaryOperation(BinaryOperationKind::And(c, m)) && {
                    &&& c.node().typ == t
                    &&& c.node().kind matches NodeKind::Cast { value: s, kind: CastOperationKind::Truncate } && s.node() == (X86Node {
                        typ: value.node().typ,
                        kind: NodeKind::Shift { value, amount: start, kind: ShiftOperationKind::LogicalShiftRight },
                    })
                    &&& m.node() == (X86Node { typ: t, kind: NodeKind::Constant { value: mask_spec(cval(length)), width: cval(length) as u16 } })
                }
            },
            !(is_const(start) && is_const(length)) ==> n.node() == (X86Node {
                typ: value.node().typ,
                kind: NodeKind::BitExtract { value, start, length },
            }),
            final(self).same_code(&*old(self)),
            old(self).wf() ==> final(self).wf(),
    {
        let typ = *value.typ();
        match (value.as_constant(), start.as_constant(), length.as_constant()) {
            (Some((v, _)), Some((s, _)), Some((l, _))) => {
                let e = bit_extract(v, s, l);
                self.constant(e, Type::Unsigned(l as u16))
            },
            (_, Some((_, _)), Some((l, _))) => {
                let shifted = self.shift(value, start, ShiftOperationKind::LogicalShiftRight);
                let cast = self.cast(shifted, Type::Unsigned(l as u16), CastOperationKind::Truncate);
                let ct = *cast.typ();
                let m = mask(l as u32);
                let mask_node = self.constant(m, ct);
                proof {
                    assert(m != 0) by {
                        let ll = l;
                        assert(1 <= ll < 64 ==> ((1u64 << ll) - 1) as u64 != 0) by (bit_vector);
                    }
                }
                self.binary_operation(BinaryOperationKind::And(cast, mask_node))
            },
            _ => self.node(X86Node { typ, kind: NodeKind::BitExtract { value, start, length } }),
        }
    }
}

} // verus!

verus! {

/// The size in bits of a value, where the emitter knows it.
pub open spec fn size_of_spec(value: X86NodeRef) -> Option<u64> {
    match value.node().typ {
        Type::Unsigned(w) | Type::Signed(w) | Type::Floating(w) => Some(w as u64),
        Type::Bits => match value.node().kind {
            NodeKind::Constant { width, .. } => Some(width as u64),
            NodeKind::Cast { value: inner, kind: CastOperationKind::ZeroExtend } => match inner.node().typ {
                Type::Unsigned(w) => Some(w as u64),
                _ => None,
            },
            NodeKind::ReadStackVariable { .. } => Some(64),
            _ => None,
        },
        Type::Tuple => None,
    }
}

/// The type a constant bit-vector cast of `value` to `length` bits has.
pub open spec fn bits_cast_type(value: X86NodeRef, length: u16) -> Type {
    match value.node().typ {
        Type::Signed(_) => Type::Signed(length),
        _ => Type::Unsigned(length),
    }
}

impl X86Emitter {
    /// The size in bits of `value`, as a 16-bit constant.
    pub fn size_of(&mut self, value: X86NodeRef) -> (n: X86NodeRef)
        requires
            size_of_spec(value) is Some,
        ensures
            n.node() == (X86Node {
                typ: Type::Unsigned(16),
                kind: NodeKind::Constant { value: size_of_spec(value)->0, width: 16 },
            }),
            final(self).same_code(&*old(self)),
            old(self).wf() ==> final(self).wf(),
    {
        let size: u64 = match value.typ() {
            Type::Unsigned(w) | Type::Signed(w) | Type::Floating(w) => *w as u64,
            _ => match value.kind() {
                NodeKind::Constant { width, .. } => *width as u64,
                NodeKind::Cast { value: inner, .. } => match inner.typ() {
                    Type::Unsigned(w) => *w as u64,
                    _ => 0,
                },
                _ => 64,
            },
        };
        self.constant(size, Type::Unsigned(16))
    }

    /// A bit vector cast of `value` to `length` bits. Constants are truncated,
    /// zero- or sign-extended at once; with a constant length a sign extension
    /// becomes a cast to a signed type; anything else leaves `value` as it is.
    pub fn bits_cast(&mut self, value: X86NodeRef, length: X86NodeRef, typ: Type, kind: CastOperationKind) -> (n: X86NodeRef)
        requires
            is_const(length) ==> cval(length) <= u16::MAX,
            is_const(value) && is_const(length) && (kind == CastOperationKind::Truncate || kind == CastOperationKind::SignExtend
                || kind == CastOperationKind::ZeroExtend) ==> {
                &&& (value.node().typ is Unsigned || value.node().typ is Bits || value.node().typ is Signed)
                &&& cval(length) != 0
                &&& kind == CastOperationKind::Truncate ==> cval(length) <= cwidth(value)
                &&& kind != CastOperationKind::Truncate ==> cval(length) >= cwidth(value)
                &&& kind == CastOperationKind::SignExtend ==> 1 <= cwidth(value) <= 64
            },
            !is_const(value) && is_const(length) && kind == CastOperationKind::SignExtend ==> cval(length) != 0,
        ensures
            is_const(value) && is_const(length) && (kind == CastOperationKind::Truncate || kind == CastOperationKind::SignExtend
                || kind == CastOperationKind::ZeroExtend) ==> n.node() == (X86Node {
                typ: bits_cast_type(value, cval(length) as u16),
                kind: NodeKind::Constant {
                    value: match kind {
                        CastOperationKind::Truncate => cval(value) & mask_spec(cval(length)),
                        CastOperationKind::SignExtend => sign_extend_spec(cval(value), cwidth(value) as u64) & mask_spec(cval(length)),
                        _ => cval(value),
                    },
                    width: cval(length) as u16,
                },
            }),
            !is_const(value) && is_const(length) && kind == CastOperationKind::SignExtend ==> n.node() == (X86Node {
                typ: Type::Signed(cval(length) as u16),
                kind: NodeKind::Cast { value, kind: CastOperationKind::SignExtend },
            }),
            !(is_const(value) && is_const(length) && (kind == CastOperationKind::Truncate || kind == CastOperationKind::SignExtend
                || kind == CastOperationKind::ZeroExtend)) && !(is_const(length) && kind == CastOperationKind::SignExtend) ==> n == value,
            final(self).same_code(&*old(self)),
            old(self).wf() ==> final(self).wf(),
    {
        match (value.as_constant(), length.as_constant()) {
            (Some((v, vw)), Some((l, _))) => {
                let target_length = l as u16;
                let t = match value.typ() {
                    Type::Signed(_) => Type::Signed(target_length),
                    _ => Type::Unsigned(target_length),
                };
                match kind {
                    CastOperationKind::Truncate => self.constant(v & mask(target_length as u32), t),
                    CastOperationKind::SignExtend => {
                        let extended = sign_extend_constant(v, vw, target_length);
                        self.constant(extended & mask(target_length as u32), t)
                    },
                    CastOperationKind::ZeroExtend => self.constant(v, t),
                    _ => value,
                }
            },
            (None, Some((l, _))) => {
                match kind {
                    CastOperationKind::SignExtend => self.cast(value, Type::Signed(l as u16), CastOperationKind::SignExtend),
                    _ => value,
                }
            },
            _ => value,
        }
    }
}

} // verus!

verus! {

/// X86 emitter error
#[derive(Debug, Clone, Copy, PartialEq, Eq, Structural)]
pub enum X86Error {
    /// Left and right types do not match in binary operation
    BinaryOperationTypeMismatch,
    /// Register allocation failed
    RegisterAllocation,
    /// An instruction was asked for with operands of widths it cannot take
    OperandWidthMismatch,
    /// A memory access through an address that is not in a register
    AddressNotInRegister,
    /// Flags were asked for of an operation no add-with-carry computed
    MissingCarryOperation,
    /// Operands of kinds the instruction cannot take, such as two immediates
    /// in a comparison
    InvalidOperandKinds,
}


impl X86Block {
    /// Inserts an instruction before position `index`.
    pub fn insert_at(&mut self, index: usize, instruction: Instruction)
        requires
            index <= old(self).instructions_spec().len(),
        ensures
            final(self).instructions_spec() == old(self).instructions_spec().insert(index as int, instruction),
            final(self).next_spec() == old(self).next_spec(),
            final(self).linked_spec() == old(self).linked_spec(),
            final(self).mark_spec() == old(self).mark_spec(),
    {
        self.instructions.insert(index, instruction);
    }
}

impl X86Emitter {
    /// Everything but the current block's instructions, the remembered
    /// operands, the counters and the flags of `other` is that of `self`.
    pub closed spec fn frame_same(&self, other: &X86Emitter) -> bool {
        &&& self.current_block == other.current_block
        &&& self.panic_block == other.panic_block
        &&& self.ctx.blocks@.len() == other.ctx.blocks@.len()
        &&& forall|i: int| 0 <= i < self.ctx.blocks@.len() && i != self.current_block.index ==> #[trigger] self.ctx.blocks@[i]
            == other.ctx.blocks@[i]
        &&& self.ctx.blocks@[self.current_block.index as int].next_spec() == other.ctx.blocks@[other.current_block.index as int].next_spec()
        &&& self.ctx.initial_block == other.ctx.initial_block
        &&& self.ctx.panic_block == other.ctx.panic_block
        &&& self.ctx.memory_mask == other.ctx.memory_mask
        &&& self.ctx.pc_offset == other.ctx.pc_offset
        &&& self.ctx.sctlr_el1_offset == other.ctx.sctlr_el1_offset
        &&& self.ctx.ttbr0_el1_offset == other.ctx.ttbr0_el1_offset
        &&& self.ctx.ttbr1_el1_offset == other.ctx.ttbr1_el1_offset
        &&& self.ctx.writes_to_pc == other.ctx.writes_to_pc
        &&& self.ctx.writes_to_sctlr == other.ctx.writes_to_sctlr
        &&& self.ctx.mmu_invalidate == other.ctx.mmu_invalidate
    }

    /// The blocks the current block may jump to.
    pub open spec fn current_next(&self) -> Seq<BlockRef> {
        self.ctx_spec().blocks_spec()[self.current_spec().index as int].next_spec()
    }

    /// The instructions of the current block.
    pub open spec fn current_instructions(&self) -> Seq<Instruction> {
        self.ctx_spec().blocks_spec()[self.current_spec().index as int].instructions_spec()
    }


    /// Appends an instruction to the current block.
    pub fn push_instruction(&mut self, instr: Instruction)
        requires
            old(self).wf(),
            instruction_vregs_below(instr, old(self).next_vreg_spec()),
        ensures
            final(self).wf(),
            final(self).frame_same(&*old(self)),
            final(self).next_vreg_spec() == old(self).next_vreg_spec(),
            final(self).cache_spec() == old(self).cache_spec(),
            final(self).current_instructions() == old(self).current_instructions().push(instr),
    {
        let i = self.current_block.index;
        self.ctx.blocks[i].append(instr);
        proof {
            let blocks = self.ctx.blocks@;
            assert forall|b: int, k: int|
                0 <= b < blocks.len() && 0 <= k < blocks[b].instructions_spec().len() implies instruction_vregs_below(
                #[trigger] blocks[b].instructions_spec()[k],
                self.next_vreg as nat,
            ) by {
                if b == i as int {
                    if k < old(self).ctx.blocks@[b].instructions_spec().len() {
                        assert(blocks[b].instructions_spec()[k] == old(self).ctx.blocks@[b].instructions_spec()[k]);
                    }
                } else {
                    assert(blocks[b] == old(self).ctx.blocks@[b]);
                }
            }
        }
    }

    /// Records that the current block may jump to `target`.
    pub fn push_target(&mut self, target: BlockRef)
        requires
            old(self).wf(),
        ensures
            final(self).wf(),
            final(self).ctx_spec().blocks_spec().len() == old(self).ctx_spec().blocks_spec().len(),
            final(self).ctx_spec().panic_spec() == old(self).ctx_spec().panic_spec(),
            final(self).ctx_spec().initial_spec() == old(self).ctx_spec().initial_spec(),
            final(self).current_next() == old(self).current_next().push(target),
            final(self).next_vreg_spec() == old(self).next_vreg_spec(),
            final(self).cache_spec() == old(self).cache_spec(),
            final(self).current_instructions() == old(self).current_instructions(),
            final(self).current_spec() == old(self).current_spec(),
    {
        let i = self.current_block.index;
        self.ctx.blocks[i].push_next(target);
        proof {
            let blocks = self.ctx.blocks@;
            assert forall|b: int, k: int|
                0 <= b < blocks.len() && 0 <= k < blocks[b].instructions_spec().len() implies instruction_vregs_below(
                #[trigger] blocks[b].instructions_spec()[k],
                self.next_vreg as nat,
            ) by {
                assert(blocks[b].instructions_spec() == old(self).ctx.blocks@[b].instructions_spec());
            }
        }
    }

    /// A fresh virtual register operand of the given width.
    pub(crate) fn fresh(&mut self, width: Width) -> (r: Operand)
        requires
            old(self).wf(),
            old(self).next_vreg_spec() < usize::MAX,
        ensures
            final(self).wf(),
            final(self).frame_same(&*old(self)),
            final(self).next_vreg_spec() == old(self).next_vreg_spec() + 1,
            final(self).cache_spec() == old(self).cache_spec(),
            final(self).current_instructions() == old(self).current_instructions(),
            r == (Operand { kind: OperandKind::Register(Register::VirtualRegister(old(self).next_vreg_spec() as usize)), width_in_bits: width }),
            operand_vregs_below(r, final(self).next_vreg_spec()),
    {
        let v = self.next_vreg();
        Operand::vreg(width, v)
    }

    /// The operand remembered for the node with identifier `id` in the
    /// current block.
    pub(crate) fn cached(&self, id: u64) -> (r: Option<Operand>)
        requires
            self.wf(),
        ensures
            r == cache_lookup(self.cache_spec(), id),
            r matches Some(op) ==> operand_vregs_below(op, self.next_vreg_spec()),
    {
        let mut i: usize = self.current_block_operands.len();
        assert(self.current_block_operands@.take(i as int) =~= self.current_block_operands@);
        while i > 0
            invariant
                i <= self.current_block_operands@.len(),
                self.wf(),
                cache_lookup(self.current_block_operands@, id) == cache_lookup(self.current_block_operands@.take(i as int), id),
            decreases i,
        {
            let ghost s = self.current_block_operands@;
            assert(s.take(i as int).drop_last() =~= s.take(i - 1));
            i = i - 1;
            if self.current_block_operands[i].0 == id {
                proof {
                    lemma_cache_lookup_found(s, id, i as int);
                }
                return Some(self.current_block_operands[i].1);
            }
        }
        assert(self.current_block_operands@.take(0) =~= Seq::<(u64, Operand)>::empty());
        None
    }

    /// Remembers the operand of the node with identifier `id`.
    pub(crate) fn remember(&mut self, id: u64, op: Operand)
        requires
            old(self).wf(),
            operand_vregs_below(op, old(self).next_vreg_spec()),
        ensures
            final(self).wf(),
            final(self).frame_same(&*old(self)),
            final(self).next_vreg_spec() == old(self).next_vreg_spec(),
            final(self).current_instructions() == old(self).current_instructions(),
            final(self).cache_spec() == old(self).cache_spec().push((id, op)),
    {
        self.current_block_operands.push((id, op));
    }

    /// Whether translated code should mask guest addresses.
    pub fn memory_mask(&self) -> (r: bool)
        ensures
            r == self.ctx_spec().memory_mask_spec(),
    {
        self.ctx.memory_mask
    }

    /// The position and destination of the last add-with-carry of the
    /// current block.
    pub(crate) fn last_adc(&self) -> (r: Option<(usize, Operand)>)
        requires
            self.wf(),
        ensures
            r matches Some((i, d)) ==> (i < self.current_instructions().len() && i < usize::MAX && (self.current_instructions()[i as int].0 matches Opcode::ADC(_, dd, _) && dd == d)),
            r matches Some((i, d)) ==> forall|k: int|
                i < k < self.current_instructions().len() ==> !(#[trigger] self.current_instructions()[k].0 is ADC),
            r is None ==> forall|k: int|
                0 <= k < self.current_instructions().len() ==> !(#[trigger] self.current_instructions()[k].0 is ADC),
    {
        let instrs = self.ctx.blocks[self.current_block.index].instructions();
        let mut i: usize = instrs.len();
        while i > 0
            invariant
                i <= instrs@.len(),
                instrs@ == self.current_instructions(),
                forall|k: int| i <= k < instrs@.len() ==> !(#[trigger] instrs@[k].0 is ADC),
            decreases i,
        {
            i = i - 1;
            if let Opcode::ADC(_, d, _) = &instrs[i].0 {
                return Some((i, *d));
            }
        }
        None
    }

    /// Whether the last instruction of the current block is an add-with-carry.
    pub(crate) fn ends_with_adc(&self) -> (r: bool)
        requires
            self.wf(),
        ensures
            r == (self.current_instructions().len() > 0 && self.current_instructions().last().0 is ADC),
    {
        let instrs = self.ctx.blocks[self.current_block.index].instructions();
        let n = instrs.len();
        if n == 0 {
            false
        } else {
            matches!(instrs[n - 1].0, Opcode::ADC(_, _, _))
        }
    }

    /// Inserts an instruction into the current block before position `index`.
    pub(crate) fn insert_instruction(&mut self, index: usize, instr: Instruction)
        requires
            old(self).wf(),
            index <= old(self).current_instructions().len(),
            instruction_vregs_below(instr, old(self).next_vreg_spec()),
        ensures
            final(self).wf(),
            final(self).frame_same(&*old(self)),
            final(self).next_vreg_spec() == old(self).next_vreg_spec(),
            final(self).cache_spec() == old(self).cache_spec(),
            final(self).current_instructions() == old(self).current_instructions().insert(index as int, instr),
    {
        let i = self.current_block.index;
        self.ctx.blocks[i].insert_at(index, instr);
        proof {
            let blocks = self.ctx.blocks@;
            assert forall|b: int, k: int|
                0 <= b < blocks.len() && 0 <= k < blocks[b].instructions_spec().len() implies instruction_vregs_below(
                #[trigger] blocks[b].instructions_spec()[k],
                self.next_vreg as nat,
            ) by {
                if b == i as int {
                    let olds = old(self).ctx.blocks@[b].instructions_spec();
                    if k < index {
                        assert(blocks[b].instructions_spec()[k] == olds[k]);
                    } else if k > index {
                        assert(blocks[b].instructions_spec()[k] == olds[k - 1]);
                    }
                } else {
                    assert(blocks[b] == old(self).ctx.blocks@[b]);
                }
            }
        }
    }

    /// Handing out node identifiers leaves the code and the counters as
    /// they were.
    pub proof fn lemma_same_code(a: &X86Emitter, b: &X86Emitter)
        requires
            b.same_code(a),
        ensures
            b.frame_same(a),
            b.next_vreg_spec() == a.next_vreg_spec(),
            b.cache_spec() == a.cache_spec(),
            b.current_instructions() == a.current_instructions(),
            b.ctx_spec() == a.ctx_spec(),
            b.wf() == a.wf(),
    {
    }

    /// `same_code` holds of an emitter and itself.
    pub proof fn lemma_same_code_refl(a: &X86Emitter)
        ensures
            a.same_code(a),
    {
    }

    /// `same_code` is transitive.
    pub proof fn lemma_same_code_trans(a: &X86Emitter, b: &X86Emitter, c: &X86Emitter)
        requires
            b.same_code(a),
            c.same_code(b),
        ensures
            c.same_code(a),
    {
    }

    /// `frame_same` holds of an emitter and itself.
    pub proof fn lemma_frame_same_refl(a: &X86Emitter)
        ensures
            a.frame_same(a),
    {
    }
}

/// `frame_same` is transitive.
pub broadcast proof fn lemma_frame_same_trans(a: &X86Emitter, b: &X86Emitter, c: &X86Emitter)
    requires
        #[trigger] b.frame_same(a),
        #[trigger] c.frame_same(b),
    ensures
        c.frame_same(a),
{
}

/// What `frame_same` keeps that can be seen from outside.
pub broadcast proof fn lemma_frame_same_facts(a: &X86Emitter, b: &X86Emitter)
    requires
        #[trigger] b.frame_same(a),
    ensures
        b.current_spec() == a.current_spec(),
        b.ctx_spec().blocks_spec().len() == a.ctx_spec().blocks_spec().len(),
        b.ctx_spec().panic_spec() == a.ctx_spec().panic_spec(),
        b.ctx_spec().initial_spec() == a.ctx_spec().initial_spec(),
        b.ctx_spec().memory_mask_spec() == a.ctx_spec().memory_mask_spec(),
        b.ctx_spec().offsets_spec() == a.ctx_spec().offsets_spec(),
        b.ctx_spec().pc_write_spec() == a.ctx_spec().pc_write_spec(),
        b.ctx_spec().mmu_write_spec() == a.ctx_spec().mmu_write_spec(),
        b.ctx_spec().mmu_invalidate_spec() == a.ctx_spec().mmu_invalidate_spec(),
        forall|i: int|
            0 <= i < b.ctx_spec().blocks_spec().len() && i != b.current_spec().index ==> #[trigger] b.ctx_spec().blocks_spec()[i]
                == a.ctx_spec().blocks_spec()[i],
{
}

/// The operand last remembered for identifier `id`, if any.
pub open spec fn cache_lookup(s: Seq<(u64, Operand)>, id: u64) -> Option<Operand>
    decreases s.len(),
{
    if s.len() == 0 {
        None
    } else if s.last().0 == id {
        Some(s.last().1)
    } else {
        cache_lookup(s.drop_last(), id)
    }
}

proof fn lemma_cache_lookup_found(s: Seq<(u64, Operand)>, id: u64, i: int)
    requires
        0 <= i < s.len(),
        s[i].0 == id,
    ensures
        cache_lookup(s.take(i + 1), id) == Some(s[i].1),
{
    assert(s.take(i + 1).last() == s[i]);
}

/// A mov between operands of the same width, or an error.
pub(crate) fn mov(src: Operand, dst: Operand) -> (r: Result<Instruction, X86Error>)
    ensures
        src.width_in_bits == dst.width_in_bits ==> r == Ok::<Instruction, X86Error>(Instruction(Opcode::MOV(src, dst))),
        src.width_in_bits != dst.width_in_bits ==> r == Err::<Instruction, X86Error>(X86Error::OperandWidthMismatch),
{
    match Instruction::mov(src, dst) {
        Ok(i) => Ok(i),
        Err(_) => Err(X86Error::OperandWidthMismatch),
    }
}

} // verus!

verus! {

/// The control flow of the blocks is sound: every successor a block names
/// exists, every jump targets an existing block, and a block with a
/// successor holds an instruction.
pub open spec fn control_ok(blocks: Seq<X86Block>) -> bool {
    &&& forall|b: int, k: int|
        0 <= b < blocks.len() && 0 <= k < blocks[b].next_spec().len() ==> (#[trigger] blocks[b].next_spec()[k]).index
            < blocks.len()
    &&& forall|b: int, k: int|
        0 <= b < blocks.len() && 0 <= k < blocks[b].instructions_spec().len() ==> ((#[trigger] blocks[b].instructions_spec()[k]).0 matches Opcode::JMP(
            op,
        ) ==> (op.kind matches OperandKind::Target(t) && t.index < blocks.len()))
    &&& forall|b: int| 0 <= b < blocks.len() && (#[trigger] blocks[b].next_spec()).len() > 0 ==> blocks[b].instructions_spec().len() > 0
}

/// The jump a block consists of, where it holds nothing but one jump.
pub open spec fn lone_jump(block: X86Block) -> Option<Operand> {
    if block.instructions_spec().len() == 1 && block.instructions_spec()[0].0 is JMP {
        Some(block.instructions_spec()[0].0->JMP_0)
    } else {
        None
    }
}

/// The number of blocks not yet linked.
pub open spec fn unlinked_count(blocks: Seq<X86Block>) -> nat
    decreases blocks.len(),
{
    if blocks.len() == 0 {
        0
    } else {
        unlinked_count(blocks.drop_last()) + if blocks.last().linked_spec() {
            0nat
        } else {
            1nat
        }
    }
}

proof fn lemma_unlinked_count_update(blocks: Seq<X86Block>, i: int, b: X86Block)
    requires
        0 <= i < blocks.len(),
        !blocks[i].linked_spec(),
        b.linked_spec(),
    ensures
        unlinked_count(blocks.update(i, b)) + 1 == unlinked_count(blocks),
    decreases blocks.len(),
{
    let u = blocks.update(i, b);
    if i == blocks.len() - 1 {
        assert(u.drop_last() =~= blocks.drop_last());
    } else {
        assert(u.drop_last() =~= blocks.drop_last().update(i, b));
        lemma_unlinked_count_update(blocks.drop_last(), i, b);
    }
}

/// One step of jump threading on block `cur`, whose instructions and
/// successors are `code` and `next` (every other block being as in
/// `blocks`): where the block has a single successor that holds nothing but
/// a jump, its last instruction becomes that jump and its successor the
/// jump's target. `None` where the step does not apply.
pub open spec fn threading_step(blocks: Seq<X86Block>, cur: int, code: Seq<Instruction>, next: Seq<BlockRef>) -> Option<
    (Seq<Instruction>, Seq<BlockRef>),
> {
    if next.len() == 1 && code.len() > 0 {
        let child = next[0].index as int;
        let child_code = if child == cur {
            code
        } else {
            blocks[child].instructions_spec()
        };
        if child_code.len() == 1 && child_code[0].0 is JMP {
            let op = child_code[0].0->JMP_0;
            let target = match op.kind {
                OperandKind::Target(t) => t,
                _ => next[0],
            };
            Some((code.update(code.len() - 1, Instruction(Opcode::JMP(op))), seq![target]))
        } else {
            None
        }
    } else {
        None
    }
}

/// Up to `fuel` steps of jump threading on block `cur`, stopping where no
/// step applies: the block's instructions and successors afterwards.
pub open spec fn threaded(blocks: Seq<X86Block>, cur: int, code: Seq<Instruction>, next: Seq<BlockRef>, fuel: nat) -> (
    Seq<Instruction>,
    Seq<BlockRef>,
)
    decreases fuel,
{
    if fuel == 0 {
        (code, next)
    } else {
        match threading_step(blocks, cur, code, next) {
            Some((c, n)) => threaded(blocks, cur, c, n, (fuel - 1) as nat),
            None => (code, next),
        }
    }
}

/// `now` is `before`, or `before` with its last instruction replaced by a
/// jump: what threading may make of a block's instructions.
pub open spec fn threading_form(now: Seq<Instruction>, before: Seq<Instruction>) -> bool {
    ||| now == before
    ||| (now.len() == before.len() && now.len() > 0 && now.drop_last() == before.drop_last() && now.last().0 is JMP)
}

/// Blocks `s` are blocks `orig` as threading may have left them: as many,
/// each with the instructions of `threading_form`.
pub open spec fn threading_snapshot(s: Seq<X86Block>, orig: Seq<X86Block>) -> bool {
    &&& s.len() == orig.len()
    &&& forall|j: int| 0 <= j < s.len() ==> threading_form(#[trigger] s[j].instructions_spec(), orig[j].instructions_spec())
}

/// Block `now` is block `i` of `orig` after jump threading run on it while
/// the blocks stood as `s`.
pub open spec fn threaded_from(now: X86Block, orig: Seq<X86Block>, s: Seq<X86Block>, i: int) -> bool {
    &&& threading_snapshot(s, orig)
    &&& (now.instructions_spec(), now.next_spec()) == threaded(
        s,
        i,
        orig[i].instructions_spec(),
        orig[i].next_spec(),
        orig.len(),
    )
}

/// Each block that `order` names is that block of `orig` after jump
/// threading, run on it while the blocks stood as some snapshot.
pub open spec fn linked_blocks_threaded(now: Seq<X86Block>, orig: Seq<X86Block>, order: Seq<BlockRef>) -> bool {
    forall|k: int| 0 <= k < order.len() ==> threaded_somehow(now[#[trigger] order[k].index as int], orig, order[k].index as int)
}

/// Block `now` is block `i` of `orig` after jump threading, run on it while
/// the blocks stood as some snapshot.
pub open spec fn threaded_somehow(now: X86Block, orig: Seq<X86Block>, i: int) -> bool {
    exists|s: Seq<X86Block>| #[trigger] threaded_from(now, orig, s, i)
}

proof fn lemma_linked_blocks_threaded(now: Seq<X86Block>, orig: Seq<X86Block>, order: Seq<BlockRef>, snaps: Seq<Seq<X86Block>>)
    requires
        snaps.len() == order.len(),
        forall|k: int| 0 <= k < order.len() ==> threaded_from(now[order[k].index as int], orig, #[trigger] snaps[k], order[k].index as int),
    ensures
        linked_blocks_threaded(now, orig, order),
{
    assert forall|k: int| 0 <= k < order.len() implies threaded_somehow(now[#[trigger] order[k].index as int], orig, order[k].index as int) by {
        assert(threaded_from(now[order[k].index as int], orig, snaps[k], order[k].index as int));
    }
}

proof fn lemma_threaded_form(blocks: Seq<X86Block>, cur: int, code: Seq<Instruction>, next: Seq<BlockRef>, fuel: nat)
    ensures
        threading_form(threaded(blocks, cur, code, next, fuel).0, code),
    decreases fuel,
{
    if fuel > 0 {
        if let Some((c, nn)) = threading_step(blocks, cur, code, next) {
            lemma_threaded_form(blocks, cur, c, nn, (fuel - 1) as nat);
            assert(c.drop_last() =~= code.drop_last());
        }
    }
}

impl X86TranslationContext {
    /// Threads the jump that ends a block through blocks that hold nothing
    /// but a jump: while the block has a single successor that is such a
    /// block, its last instruction becomes that jump and its successor the
    /// jump's target. A cycle of such blocks is followed at most as many
    /// times as there are blocks.
    pub fn empty_block_jump_threading(&mut self, current_block: BlockRef)
        requires
            old(self).wf(),
            current_block.index < old(self).blocks_spec().len(),
            control_ok(old(self).blocks_spec()),
        ensures
            final(self).wf(),
            control_ok(final(self).blocks_spec()),
            final(self).blocks_spec().len() == old(self).blocks_spec().len(),
            final(self).initial_spec() == old(self).initial_spec(),
            final(self).panic_spec() == old(self).panic_spec(),
            forall|i: int| 0 <= i < final(self).blocks_spec().len() && i != current_block.index ==> #[trigger] final(self).blocks_spec()[i]
                == old(self).blocks_spec()[i],
            ({
                let (ob, fb) = (old(self).blocks_spec()[current_block.index as int], final(self).blocks_spec()[current_block.index as int]);
                &&& fb.instructions_spec().len() == ob.instructions_spec().len()
                &&& fb.instructions_spec().drop_last() == ob.instructions_spec().drop_last()
                &&& fb.linked_spec() == ob.linked_spec()
                &&& fb.mark_spec() == ob.mark_spec()
                &&& fb.next_spec() != ob.next_spec() ==> (fb.next_spec().len() == 1 && (fb.instructions_spec().last().0 matches Opcode::JMP(
                    op,
                ) && op.kind == OperandKind::Target(fb.next_spec()[0])))
            }),
            ({
                let ob = old(self).blocks_spec()[current_block.index as int];
                let fb = final(self).blocks_spec()[current_block.index as int];
                (fb.instructions_spec(), fb.next_spec()) == threaded(
                    old(self).blocks_spec(),
                    current_block.index as int,
                    ob.instructions_spec(),
                    ob.next_spec(),
                    old(self).blocks_spec().len(),
                )
            }),
    {
        let cur = current_block.index;
        let n = self.blocks.len();
        let mut steps: usize = 0;
        let mut done = false;
        let ghost ob = self.blocks@[cur as int];
        while !done && steps < n
            invariant
                self.wf(),
                n == self.blocks@.len(),
                cur < n,
                control_ok(self.blocks@),
                self.blocks@.len() == old(self).blocks@.len(),
                self.initial_block == old(self).initial_block,
                self.panic_block == old(self).panic_block,
                forall|i: int| 0 <= i < n && i != cur ==> #[trigger] self.blocks@[i] == old(self).blocks@[i],
                ({
                    let fb = self.blocks@[cur as int];
                    &&& fb.instructions_spec().len() == ob.instructions_spec().len()
                    &&& fb.instructions_spec().drop_last() == ob.instructions_spec().drop_last()
                    &&& fb.linked_spec() == ob.linked_spec()
                    &&& fb.mark_spec() == ob.mark_spec()
                    &&& fb.next_spec() != ob.next_spec() ==> (fb.next_spec().len() == 1 && (fb.instructions_spec().last().0 matches Opcode::JMP(
                        op,
                    ) && op.kind == OperandKind::Target(fb.next_spec()[0])))
                }),
                ob == old(self).blocks@[cur as int],
                steps <= n,
                threaded(old(self).blocks@, cur as int, ob.instructions_spec(), ob.next_spec(), n as nat) == threaded(
                    old(self).blocks@,
                    cur as int,
                    self.blocks@[cur as int].instructions_spec(),
                    self.blocks@[cur as int].next_spec(),
                    (n - steps) as nat,
                ),
                done ==> threading_step(
                    old(self).blocks@,
                    cur as int,
                    self.blocks@[cur as int].instructions_spec(),
                    self.blocks@[cur as int].next_spec(),
                ) is None,
            decreases n - steps, if done { 0nat } else { 1nat },
        {
            let ghost fb0 = self.blocks@[cur as int];
            proof {
                if fb0.next_spec().len() > 0 {
                    assert(self.blocks@[cur as int].instructions_spec().len() > 0);
                }
            }
            let next_len = self.blocks[cur].next_blocks().len();
            if next_len != 1 {
                done = true;
            } else {
                let child = self.blocks[cur].next_blocks()[0];
                let child_instrs = self.blocks[child.index].instructions();
                proof {
                    if child.index != cur {
                        assert(self.blocks@[child.index as int] == old(self).blocks@[child.index as int]);
                    }
                }
                if child_instrs.len() == 1 {
                    if let Opcode::JMP(op) = child_instrs[0].0 {
                        let grandchild = match op.kind {
                            OperandKind::Target(t) => t,
                            _ => child,
                        };
                        let ghost before = self.blocks@;
                        proof {
                            assert(before[child.index as int].instructions_spec()[0] == child_instrs@[0]);
                        }
                        self.blocks[cur].set_last_instruction(Instruction(Opcode::JMP(op)));
                        self.blocks[cur].clear_next_blocks();
                        self.blocks[cur].push_next(grandchild);
                        proof {
                            let blocks = self.blocks@;
                            let fb = blocks[cur as int];
                            assert(fb.next_spec() =~= seq![grandchild]);
                            assert(fb.instructions_spec().drop_last() =~= before[cur as int].instructions_spec().drop_last());
                            assert forall|b: int, k: int|
                                0 <= b < blocks.len() && 0 <= k < blocks[b].instructions_spec().len() implies ((#[trigger] blocks[b].instructions_spec()[k]).0 matches Opcode::JMP(
                                o,
                            ) ==> (o.kind matches OperandKind::Target(t) && t.index < blocks.len())) by {
                                if b == cur && k == blocks[b].instructions_spec().len() - 1 {
                                } else if b == cur {
                                    assert(blocks[b].instructions_spec()[k] == before[b].instructions_spec()[k]);
                                } else {
                                    assert(blocks[b] == before[b]);
                                }
                            }
                            assert forall|b: int, k: int|
                                0 <= b < blocks.len() && 0 <= k < blocks[b].next_spec().len() implies (#[trigger] blocks[b].next_spec()[k]).index
                                < blocks.len() by {
                                if b != cur {
                                    assert(blocks[b] == before[b]);
                                }
                            }
                            assert forall|b: int| 0 <= b < blocks.len() && (#[trigger] blocks[b].next_spec()).len() > 0 implies blocks[b].instructions_spec().len() > 0 by {
                                if b != cur {
                                    assert(blocks[b] == before[b]);
                                }
                            }
                        }
                        proof {
                            let fb = self.blocks@[cur as int];
                            let st = threading_step(old(self).blocks@, cur as int, fb0.instructions_spec(), fb0.next_spec());
                            assert(fb.instructions_spec() =~= fb0.instructions_spec().update(
                                fb0.instructions_spec().len() - 1,
                                Instruction(Opcode::JMP(op)),
                            ));
                            assert(st == Some((fb.instructions_spec(), fb.next_spec())));
                        }
                        steps = steps + 1;
                    } else {
                        done = true;
                    }
                } else {
                    done = true;
                }
            }
        }
    }

    /// Links the blocks reachable from the panic block and the initial
    /// block: a work list, started with those two and taken from its end,
    /// gives each block not yet linked its place in the order, threads its
    /// jumps and adds its successors. No block is linked twice; each linked
    /// block is what jump threading made of it, run on the blocks as they
    /// stood when it was taken; the blocks not linked are left as they were.
    pub fn link_blocks(&mut self) -> (r: Vec<BlockRef>)
        requires
            old(self).wf(),
            control_ok(old(self).blocks_spec()),
            forall|b: int| 0 <= b < old(self).blocks_spec().len() ==> !(#[trigger] old(self).blocks_spec()[b]).linked_spec(),
        ensures
            final(self).wf(),
            control_ok(final(self).blocks_spec()),
            final(self).blocks_spec().len() == old(self).blocks_spec().len(),
            final(self).initial_spec() == old(self).initial_spec(),
            final(self).panic_spec() == old(self).panic_spec(),
            r@.no_duplicates(),
            forall|k: int| 0 <= k < r@.len() ==> (#[trigger] r@[k]).index < final(self).blocks_spec().len(),
            r@.len() > 0 && r@[0] == old(self).initial_spec(),
            r@.contains(old(self).panic_spec()),
            forall|b: int|
                0 <= b < final(self).blocks_spec().len() ==> ((#[trigger] final(self).blocks_spec()[b]).linked_spec() <==> r@.contains(
                    BlockRef { index: b as usize },
                )),
            forall|k: int, j: int|
                0 <= k < r@.len() && 0 <= j < final(self).blocks_spec()[r@[k].index as int].next_spec().len() ==> r@.contains(
                    #[trigger] final(self).blocks_spec()[r@[k].index as int].next_spec()[j],
                ),
            linked_blocks_threaded(final(self).blocks_spec(), old(self).blocks_spec(), r@),
            forall|b: int|
                0 <= b < final(self).blocks_spec().len() && !(#[trigger] final(self).blocks_spec()[b]).linked_spec()
                    ==> final(self).blocks_spec()[b] == old(self).blocks_spec()[b],
    {
        let n = self.blocks.len();
        let ghost mut snaps: Seq<Seq<X86Block>> = Seq::empty();
        let mut all_blocks: Vec<BlockRef> = Vec::new();
        let mut work_queue: Vec<BlockRef> = Vec::new();
        work_queue.push(self.panic_block);
        work_queue.push(self.initial_block);
        proof {
            assert(work_queue@[0] == self.panic_block);
            assert(work_queue@[1] == self.initial_block);
            assert(unlinked_count(self.blocks@) == n) by {
                lemma_unlinked_all(self.blocks@);
            }
        }
        while work_queue.len() > 0
            invariant
                self.wf(),
                n == self.blocks@.len(),
                control_ok(self.blocks@),
                self.initial_block == old(self).initial_block,
                self.panic_block == old(self).panic_block,
                all_blocks@.no_duplicates(),
                all_blocks@.len() + unlinked_count(self.blocks@) == n,
                forall|k: int| 0 <= k < all_blocks@.len() ==> (#[trigger] all_blocks@[k]).index < n,
                forall|k: int| 0 <= k < work_queue@.len() ==> (#[trigger] work_queue@[k]).index < n,
                forall|b: int|
                    0 <= b < n ==> ((#[trigger] self.blocks@[b]).linked_spec() <==> all_blocks@.contains(BlockRef { index: b as usize })),
                all_blocks@.contains(self.initial_block) || work_queue@.contains(self.initial_block),
                all_blocks@.len() == 0 ==> work_queue@.len() == 2 && work_queue@[1] == self.initial_block,
                all_blocks@.len() > 0 ==> all_blocks@[0] == self.initial_block,
                all_blocks@.contains(self.panic_block) || work_queue@.contains(self.panic_block),
                forall|k: int, j: int|
                    0 <= k < all_blocks@.len() && 0 <= j < self.blocks@[all_blocks@[k].index as int].next_spec().len() ==> (all_blocks@.contains(
                        #[trigger] self.blocks@[all_blocks@[k].index as int].next_spec()[j],
                    ) || work_queue@.contains(self.blocks@[all_blocks@[k].index as int].next_spec()[j])),
                snaps.len() == all_blocks@.len(),
                threading_snapshot(self.blocks@, old(self).blocks@),
                forall|b: int| 0 <= b < n && !(#[trigger] self.blocks@[b]).linked_spec() ==> self.blocks@[b] == old(self).blocks@[b],
                forall|k: int|
                    0 <= k < all_blocks@.len() ==> threaded_from(
                        self.blocks@[all_blocks@[k].index as int],
                        old(self).blocks@,
                        #[trigger] snaps[k],
                        all_blocks@[k].index as int,
                    ),
            decreases unlinked_count(self.blocks@), work_queue@.len(),
        {
            let ghost q0 = work_queue@;
            let ghost prev_all = all_blocks@;
            let ghost before = self.blocks@;
            let block = work_queue.pop().unwrap();
            proof {
                assert(q0 == work_queue@.push(block));
                assert forall|x: BlockRef| q0.contains(x) && x != block implies work_queue@.contains(x) by {
                    let k = choose|k: int| 0 <= k < q0.len() && q0[k] == x;
                    assert(k < work_queue@.len());
                    assert(work_queue@[k] == x);
                }
            }
            if !self.blocks[block.index].is_linked() {
                self.blocks[block.index].set_linked();
                proof {
                    lemma_unlinked_count_update(before, block.index as int, self.blocks@[block.index as int]);
                    assert(self.blocks@ == before.update(block.index as int, self.blocks@[block.index as int]));
                    assert(!all_blocks@.contains(block));
                }
                all_blocks.push(block);
                proof {
                    assert forall|x: BlockRef| prev_all.contains(x) implies all_blocks@.contains(x) by {
                        let k = choose|k: int| 0 <= k < prev_all.len() && prev_all[k] == x;
                        assert(all_blocks@[k] == x);
                    }
                    assert(all_blocks@[all_blocks@.len() - 1] == block);
                    assert forall|b: int| 0 <= b < n implies ((#[trigger] self.blocks@[b]).linked_spec() <==> all_blocks@.contains(
                        BlockRef { index: b as usize },
                    )) by {
                        if b == block.index {
                        } else {
                            assert(self.blocks@[b] == before[b]);
                            if all_blocks@.contains(BlockRef { index: b as usize }) {
                                let k = choose|k: int| 0 <= k < all_blocks@.len() && all_blocks@[k] == BlockRef { index: b as usize };
                                if k < prev_all.len() {
                                    assert(prev_all[k] == all_blocks@[k]);
                                }
                            }
                        }
                    }
                }
                let ghost linked_before = self.blocks@;
                self.empty_block_jump_threading(block);
                proof {
                    lemma_unlinked_count_eq(linked_before, self.blocks@);
                    let bi = block.index as int;
                    let ob = linked_before[bi];
                    assert(before[bi] == old(self).blocks@[bi]);
                    assert(ob.instructions_spec() == old(self).blocks@[bi].instructions_spec());
                    assert(ob.next_spec() == old(self).blocks@[bi].next_spec());
                    assert forall|j: int| 0 <= j < n implies threading_form(
                        #[trigger] linked_before[j].instructions_spec(),
                        old(self).blocks@[j].instructions_spec(),
                    ) by {
                        if j != bi {
                            assert(linked_before[j] == before[j]);
                        }
                        assert(threading_form(before[j].instructions_spec(), old(self).blocks@[j].instructions_spec()));
                    }
                    lemma_threaded_form(linked_before, bi, ob.instructions_spec(), ob.next_spec(), n as nat);
                    assert forall|j: int| 0 <= j < n implies threading_form(
                        #[trigger] self.blocks@[j].instructions_spec(),
                        old(self).blocks@[j].instructions_spec(),
                    ) by {
                        if j != bi {
                            assert(self.blocks@[j] == linked_before[j]);
                            assert(threading_form(linked_before[j].instructions_spec(), old(self).blocks@[j].instructions_spec()));
                        }
                    }
                    assert forall|b: int| 0 <= b < n && !(#[trigger] self.blocks@[b]).linked_spec() implies self.blocks@[b]
                        == old(self).blocks@[b] by {
                        assert(b != bi);
                        assert(self.blocks@[b] == linked_before[b]);
                        assert(linked_before[b] == before[b]);
                    }
                    let old_snaps = snaps;
                    snaps = snaps.push(linked_before);
                    assert(threaded_from(self.blocks@[bi], old(self).blocks@, linked_before, bi));
                    assert forall|k: int| 0 <= k < all_blocks@.len() implies threaded_from(
                        self.blocks@[all_blocks@[k].index as int],
                        old(self).blocks@,
                        #[trigger] snaps[k],
                        all_blocks@[k].index as int,
                    ) by {
                        if k < prev_all.len() {
                            assert(all_blocks@[k] == prev_all[k]);
                            assert(prev_all[k] != block);
                            assert(snaps[k] == old_snaps[k]);
                            assert(self.blocks@[prev_all[k].index as int] == before[prev_all[k].index as int]);
                        } else {
                            assert(all_blocks@[k] == block);
                        }
                    }
                }
                let m = self.blocks[block.index].next_blocks().len();
                let mut i: usize = 0;
                let ghost queue_start = work_queue@;
                while i < m
                    invariant
                        self.wf(),
                        n == self.blocks@.len(),
                        block.index < n,
                        m == self.blocks@[block.index as int].next_spec().len(),
                        i <= m,
                        control_ok(self.blocks@),
                        work_queue@ == queue_start + self.blocks@[block.index as int].next_spec().take(i as int),
                        forall|k: int| 0 <= k < queue_start.len() ==> (#[trigger] queue_start[k]).index < n,
                    decreases m - i,
                {
                    let next = self.blocks[block.index].next_blocks()[i];
                    work_queue.push(next);
                    i = i + 1;
                    proof {
                        assert(work_queue@ =~= queue_start + self.blocks@[block.index as int].next_spec().take(i as int));
                    }
                }
                proof {
                    let succ = self.blocks@[block.index as int].next_spec();
                    assert(succ.take(m as int) =~= succ);
                    assert forall|k: int| 0 <= k < work_queue@.len() implies (#[trigger] work_queue@[k]).index < n by {
                        if k >= queue_start.len() {
                            assert(work_queue@[k] == succ[k - queue_start.len()]);
                        }
                    }
                    assert forall|x: BlockRef| queue_start.contains(x) implies work_queue@.contains(x) by {
                        let k = choose|k: int| 0 <= k < queue_start.len() && queue_start[k] == x;
                        assert(work_queue@[k] == x);
                    }
                    assert forall|j: int| 0 <= j < succ.len() implies work_queue@.contains(#[trigger] succ[j]) by {
                        assert(work_queue@[queue_start.len() + j] == succ[j]);
                    }
                    assert forall|k: int, j: int|
                        0 <= k < all_blocks@.len() && 0 <= j < self.blocks@[all_blocks@[k].index as int].next_spec().len() implies (all_blocks@.contains(
                            #[trigger] self.blocks@[all_blocks@[k].index as int].next_spec()[j],
                        ) || work_queue@.contains(self.blocks@[all_blocks@[k].index as int].next_spec()[j])) by {
                        let sx = self.blocks@[all_blocks@[k].index as int].next_spec()[j];
                        if all_blocks@[k] == block {
                            assert(work_queue@.contains(succ[j]));
                        } else {
                            assert(k < prev_all.len());
                            assert(prev_all[k] == all_blocks@[k]);
                            assert(self.blocks@[all_blocks@[k].index as int] == before[prev_all[k].index as int]);
                            let t = before[prev_all[k].index as int].next_spec()[j];
                            assert(t == sx);
                            assert(prev_all.contains(t) || q0.contains(t));
                            if prev_all.contains(t) {
                            } else if t == block {
                            } else {
                                assert(work_queue@.contains(t));
                            }
                        }
                    }
                    if all_blocks@.contains(self.initial_block) {
                    } else {
                        assert(!prev_all.contains(self.initial_block));
                        assert(self.initial_block != block);
                    }
                    if all_blocks@.contains(self.panic_block) {
                    } else {
                        assert(!prev_all.contains(self.panic_block));
                        assert(self.panic_block != block);
                    }
                }
            } else {
                proof {
                    assert(all_blocks@.contains(block));
                    assert forall|k: int, j: int|
                        0 <= k < all_blocks@.len() && 0 <= j < self.blocks@[all_blocks@[k].index as int].next_spec().len() implies (all_blocks@.contains(
                            #[trigger] self.blocks@[all_blocks@[k].index as int].next_spec()[j],
                        ) || work_queue@.contains(self.blocks@[all_blocks@[k].index as int].next_spec()[j])) by {
                        let t = self.blocks@[all_blocks@[k].index as int].next_spec()[j];
                        if t != block && !all_blocks@.contains(t) {
                            assert(q0.contains(t));
                        }
                    }
                }
            }
        }
        proof {
            lemma_linked_blocks_threaded(self.blocks@, old(self).blocks@, all_blocks@, snaps);
        }
        all_blocks
    }
}

proof fn lemma_unlinked_count_eq(a: Seq<X86Block>, b: Seq<X86Block>)
    requires
        a.len() == b.len(),
        forall|i: int| 0 <= i < a.len() ==> (#[trigger] a[i]).linked_spec() == b[i].linked_spec(),
    ensures
        unlinked_count(a) == unlinked_count(b),
    decreases a.len(),
{
    if a.len() > 0 {
        assert forall|i: int| 0 <= i < a.drop_last().len() implies (#[trigger] a.drop_last()[i]).linked_spec() == b.drop_last()[i].linked_spec() by {
            assert(a.drop_last()[i] == a[i]);
            assert(b.drop_last()[i] == b[i]);
        }
        lemma_unlinked_count_eq(a.drop_last(), b.drop_last());
    }
}

proof fn lemma_unlinked_all(blocks: Seq<X86Block>)
    requires
        forall|b: int| 0 <= b < blocks.len() ==> !(#[trigger] blocks[b]).linked_spec(),
    ensures
        unlinked_count(blocks) == blocks.len(),
    decreases blocks.len(),
{
    if blocks.len() > 0 {
        assert forall|b: int| 0 <= b < blocks.drop_last().len() implies !(#[trigger] blocks.drop_last()[b]).linked_spec() by {
            assert(blocks.drop_last()[b] == blocks[b]);
        }
        lemma_unlinked_all(blocks.drop_last());
    }
}

} // verus!

verus! {

/// Whether the jump that ends block `order[i]` must be encoded: a jump to
/// the block that comes next in `order` falls through instead.
pub fn needs_final_jump(order: &Vec<BlockRef>, i: usize, last: &Instruction) -> (r: bool)
    ensures
        r == !(last.0 matches Opcode::JMP(op) && (op.kind matches OperandKind::Target(t) && i + 1 < order@.len() && order@[i + 1] == t)),
{
    if let Opcode::JMP(op) = last.0 {
        if let OperandKind::Target(target) = op.kind {
            let n = order.len();
            if n > 0 && i < n - 1 && order[i + 1] == target {
                return false;
            }
        }
    }
    true
}

} // verus!

verus! {

/// A local variable reads back the value last written to it; writing one
/// variable leaves the values of the others.
pub proof fn lemma_symbol_read_after_write(symbols: Seq<Option<X86NodeRef>>, written: int, value: X86NodeRef, read: int)
    requires
        0 <= written < symbols.len(),
        0 <= read < symbols.len(),
    ensures
        symbols.update(written, Some(value))[read] == (if read == written {
            Some(value)
        } else {
            symbols[read]
        }),
{
}

} // verus!

verus! {

/// Every virtual register that emitted code names was handed out by the
/// emitter: below its counter, so an allocator made for as many virtual
/// registers as the emitter handed out has a slot for each.
pub proof fn lemma_emitted_vregs_handed_out(e: &X86Emitter, b: int, k: int, j: int)
    requires
        e.wf(),
        0 <= b < e.ctx_spec().blocks_spec().len(),
        0 <= k < e.ctx_spec().blocks_spec()[b].instructions_spec().len(),
        0 <= j < crate::encoder::operands_spec(e.ctx_spec().blocks_spec()[b].instructions_spec()[k].0).len(),
    ensures
        operand_vregs_below(
            crate::encoder::operands_spec(e.ctx_spec().blocks_spec()[b].instructions_spec()[k].0)[j].1,
            e.next_vreg_spec(),
        ),
{
    assert(instruction_vregs_below(e.ctx_spec().blocks_spec()[b].instructions_spec()[k], e.next_vreg_spec()));
}

/// Bit `k` of `x`.
pub open spec fn bit_of(x: u64, k: u64) -> bool {
    (x >> k) & 1 == 1
}

/// The modulus a sum or difference of constants of width `w` wraps at:
/// `2^w`, or `2^64` for widths of 64 bits and more.
pub open spec fn wrap_modulus(w: u16) -> int {
    if w >= 64 {
        vstd::arithmetic::power2::pow2(64) as int
    } else {
        vstd::arithmetic::power2::pow2(w as nat) as int
    }
}

proof fn lemma_mask_is_mod(x: u64, w: u16)
    requires
        w < 64,
    ensures
        x & mask_spec(w as u64) == x % (vstd::arithmetic::power2::pow2(w as nat) as u64),
        vstd::arithmetic::power2::pow2(w as nat) <= u64::MAX,
        0 < vstd::arithmetic::power2::pow2(w as nat),
{
    vstd::bits::lemma_u64_pow2_no_overflow(w as nat);
    vstd::bits::lemma_u64_shl_is_mul(1, w as u64);
    vstd::bits::lemma_u64_low_bits_mask_is_mod(x, w as nat);
    vstd::arithmetic::power2::lemma_pow2_pos(w as nat);
}

/// A value `x` that differs from `y` by `2^64` (or not at all) has the same
/// remainder modulo the wrap modulus of any width.
proof fn lemma_wrap_same_mod(x: int, y: int, w: u16)
    requires
        x == y || x == y + vstd::arithmetic::power2::pow2(64) || x == y - vstd::arithmetic::power2::pow2(64),
    ensures
        x % wrap_modulus(w) == y % wrap_modulus(w),
{
    let n: nat = if w >= 64 { 64 } else { w as nat };
    let p = vstd::arithmetic::power2::pow2(n) as int;
    let q = vstd::arithmetic::power2::pow2((64 - n) as nat) as int;
    vstd::arithmetic::power2::lemma_pow2_adds(n, (64 - n) as nat);
    vstd::arithmetic::power2::lemma_pow2_pos(n);
    assert(p * q == vstd::arithmetic::power2::pow2(64));
    if x == y + vstd::arithmetic::power2::pow2(64) {
        vstd::arithmetic::div_mod::lemma_mod_multiples_vanish(q, y, p);
    } else if x == y - vstd::arithmetic::power2::pow2(64) {
        vstd::arithmetic::div_mod::lemma_mod_multiples_vanish(q, x, p);
    }
}

/// What folding a binary operation of two constants `a` and `b` (the left
/// one of width `w`) computes: a sum or difference wrapped at `2^w` (at
/// `2^64` for 64 bits and more), a product, quotient or remainder; bitwise
/// and, or and exclusive or bit by bit; an equality test 1 or 0 of width 1;
/// an ordering 1 or 0 of width 1 by the signed order of the two values.
pub proof fn lemma_fold_of_constants(op: BinaryOperationKind)
    requires
        is_const(operands_of(op).0),
        is_const(operands_of(op).1),
        binary_ok(op),
    ensures
        binary_fold(op) matches Some((t, v, w)) && {
            let (l, r) = operands_of(op);
            let (a, b) = (cval(l), cval(r));
            &&& t == l.node().typ
            &&& (op is Add ==> w == cwidth(l) && v as int == (a + b) % wrap_modulus(cwidth(l)))
            &&& (op is Sub ==> w == cwidth(l) && v as int == (a - b) % wrap_modulus(cwidth(l)))
            &&& (op is Multiply ==> w == cwidth(l) && v == a * b)
            &&& (op is Divide ==> w == cwidth(l) && v == a / b)
            &&& (op is Modulo ==> w == cwidth(l) && v == a % b)
            &&& (op is And ==> w == cwidth(l) && forall|k: u64| k < 64 ==> bit_of(v, k) == (bit_of(a, k) && bit_of(b, k)))
            &&& (op is Or ==> w == cwidth(l) && forall|k: u64| k < 64 ==> bit_of(v, k) == (bit_of(a, k) || bit_of(b, k)))
            &&& (op is Xor ==> w == cwidth(l) && forall|k: u64| k < 64 ==> bit_of(v, k) == (bit_of(a, k) != bit_of(b, k)))
            &&& (op is CompareEqual ==> w == 1 && (v == 1 <==> a == b) && v <= 1)
            &&& (op is CompareNotEqual ==> w == 1 && (v == 1 <==> a != b) && v <= 1)
            &&& (op is CompareLessThan ==> w == 1 && (v == 1 <==> (a as i64) < (b as i64)) && v <= 1)
            &&& (op is CompareLessThanOrEqual ==> w == 1 && (v == 1 <==> (a as i64) <= (b as i64)) && v <= 1)
            &&& (op is CompareGreaterThan ==> w == 1 && (v == 1 <==> (a as i64) > (b as i64)) && v <= 1)
            &&& (op is CompareGreaterThanOrEqual ==> w == 1 && (v == 1 <==> (a as i64) >= (b as i64)) && v <= 1)
        },
{
    let (l, r) = operands_of(op);
    let (a, b) = (cval(l), cval(r));
    let w = cwidth(l);
    vstd::arithmetic::power2::lemma2_to64();
    assert forall|k: u64| k < 64 implies bit_of(a & b, k) == (bit_of(a, k) && bit_of(b, k)) && bit_of(a | b, k) == (bit_of(a, k)
        || bit_of(b, k)) && bit_of(a ^ b, k) == (bit_of(a, k) != bit_of(b, k)) by {
        crate::bits::lemma_bitwise_at(a, b, k);
    }
    if op is Add || op is Sub {
        let x: u64 = if op is Add {
            vstd::wrapping::u64_specs::wrapping_add(a, b)
        } else {
            vstd::wrapping::u64_specs::wrapping_sub(a, b)
        };
        let y: int = if op is Add {
            a + b
        } else {
            a - b
        };
        assert(x as int == y || x as int == y + vstd::arithmetic::power2::pow2(64) || x as int == y - vstd::arithmetic::power2::pow2(64));
        if w >= 64 {
            assert(mask_spec(w as u64) == 0xffff_ffff_ffff_ffffu64);
            crate::bits::lemma_bitwise_at(x, 0, 0);
            vstd::arithmetic::div_mod::lemma_small_mod(x as nat, vstd::arithmetic::power2::pow2(64));
        } else {
            lemma_mask_is_mod(x, w);
        }
        lemma_wrap_same_mod(x as int, y, w);
        if w < 64 {
            vstd::arithmetic::power2::lemma_pow2_pos(w as nat);
            vstd::arithmetic::div_mod::lemma_mod_twice(x as int, vstd::arithmetic::power2::pow2(w as nat) as int);
        }
    }
}

/// Casting a constant: a zero extension keeps the bits below the original
/// width and clears the others, a truncation keeps the bits below the
/// target width, and a sign extension copies bit `original_width - 1`
/// upwards.
pub proof fn lemma_cast_fold_bits(value: u64, original_width: u16, target_width: u16, k: u64)
    requires
        k < 64,
    ensures
        bit_of(cast_fold(value, original_width, target_width, CastOperationKind::ZeroExtend), k) == (k < original_width
            && bit_of(value, k)),
        bit_of(cast_fold(value, original_width, target_width, CastOperationKind::Truncate), k) == (k < target_width && bit_of(
            value,
            k,
        )),
        1 <= original_width < 64 ==> bit_of(cast_fold(value, original_width, target_width, CastOperationKind::SignExtend), k)
            == (if k < original_width {
            bit_of(value, k)
        } else {
            bit_of(value, (original_width - 1) as u64)
        }),
{
    crate::bits::lemma_mask_bits(original_width as u64, k);
    crate::bits::lemma_mask_bits(target_width as u64, k);
    let mo = mask_spec(original_width as u64);
    let mt = mask_spec(target_width as u64);
    crate::bits::lemma_bitwise_at(value, mo, k);
    crate::bits::lemma_bitwise_at(value, mt, k);
    crate::bits::lemma_sign_extend_bits(value, original_width as u64, k);
}

/// Shifting a constant: a left shift moves bit `k - amount` to bit `k` and
/// keeps only the bits below the width; a logical right shift moves bit
/// `k + amount` to bit `k`, filling with zeros; an arithmetic right shift
/// fills with copies of bit 63.
pub proof fn lemma_shift_fold_bits(value: u64, width: u16, amount: u64, k: u64)
    requires
        k < 64,
        amount < 64,
    ensures
        bit_of(shift_fold(value, width, amount, ShiftOperationKind::LogicalShiftLeft), k) == (k < width && k >= amount
            && bit_of(value, (k - amount) as u64)),
        bit_of(shift_fold(value, width, amount, ShiftOperationKind::LogicalShiftRight), k) == (k + amount < 64 && bit_of(
            value,
            (k + amount) as u64,
        )),
        bit_of(shift_fold(value, width, amount, ShiftOperationKind::ArithmeticShiftRight), k) == bit_of(
            value,
            if k + amount < 64 {
                (k + amount) as u64
            } else {
                63
            },
        ),
{
    crate::bits::lemma_mask_bits(width as u64, k);
    let m = mask_spec(width as u64);
    let sh = value << amount;
    assert(((sh >> k) & 1 == 1) == (k >= amount && (value >> ((k - amount) as u64)) & 1 == 1)) by (bit_vector)
        requires
            k < 64,
            amount < 64,
            sh == value << amount,
    ;
    if value == 0 {
        crate::bits::lemma_bitwise_at(0, m, k);
        if k >= amount {
            crate::bits::lemma_bitwise_at(0, 0, (k - amount) as u64);
        }
    } else if amount == 0 {
        crate::bits::lemma_bitwise_at(value, m, k);
    } else {
        crate::bits::lemma_bitwise_at(sh, m, k);
    }
    assert(((value >> amount) >> k) & 1 == 1 <==> (k + amount < 64 && (value >> ((k + amount) as u64)) & 1 == 1)) by (bit_vector)
        requires
            k < 64,
            amount < 64,
    ;
    let j: u64 = if k + amount < 64 {
        (k + amount) as u64
    } else {
        63
    };
    assert(((((value as i64) >> amount) as u64) >> k) & 1 == 1 <==> (value >> j) & 1 == 1) by (bit_vector)
        requires
            k < 64,
            amount < 64,
            j == (if k + amount < 64 {
                (k + amount) as u64
            } else {
                63u64
            }),
    ;
}

/// Folding a unary operation of a constant `a` of width `w`: a logical
/// not gives 1 exactly for 0 and 0 otherwise; a complement inverts the bits
/// below `w` and clears the others.
pub proof fn lemma_unary_fold_of_constant(op: UnaryOperationKind)
    requires
        is_const(unary_operand(op)),
        op is Not || op is Complement,
    ensures
        unary_fold(op) matches Some((t, v, w)) && {
            let x = unary_operand(op);
            &&& t == x.node().typ
            &&& w == cwidth(x)
            &&& (op is Not ==> v <= 1 && (v == 1 <==> cval(x) == 0))
            &&& (op is Complement ==> forall|k: u64| k < 64 ==> bit_of(v, k) == (k < w && !bit_of(cval(x), k)))
        },
{
    let x = unary_operand(op);
    let a = cval(x);
    let m = mask_spec(cwidth(x) as u64);
    if op is Complement {
        assert(unary_fold(op) == Some((x.node().typ, !a & m, cwidth(x))));
    } else {
        assert(unary_fold(op) == Some((x.node().typ, if a == 0 { 1u64 } else { 0u64 }, cwidth(x))));
    }
    if op is Complement {
        let v = unary_fold(op)->Some_0.1;
        assert forall|k: u64| k < 64 implies bit_of(v, k) == (k < cwidth(x) && !bit_of(a, k)) by {
            crate::bits::lemma_mask_bits(cwidth(x) as u64, k);
            crate::bits::lemma_bitwise_at(a, m, k);
        }
    }
}

} // verus!
