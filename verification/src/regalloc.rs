//! Solid-state register allocation: instructions are visited from last to
//! first; the read of a virtual register takes (or keeps) a free hardware
//! register, and its write ends its live range and frees the register.
use vstd::prelude::*;
use vstd::std_specs::bits::u16_trailing_ones;
use bitset_core::BitSet;
use crate::encoder::{
    Instruction, Opcode, Operand, OperandDirection, OperandKind, PhysicalRegister, Register,
    operands_spec, slots_spec, with_slots_spec, lemma_slots_prefix_operands,
};

verus! {

broadcast use vstd::std_specs::bits::axiom_u16_trailing_ones;

/// Sets bit `bit` of a 16-bit set through `bitset_core`.
///
/// `BitSet::bit_set` on `u16` computes `*self |= 1 << bit as u32`; a bit
/// number of 16 or more overflows the shift, so it is not admitted.
#[verifier::external_body]
fn u16_bit_set(set: &mut u16, bit: usize)
    requires
        bit < 16,
    ensures
        *final(set) == *old(set) | (1u16 << bit),
{
    set.bit_set(bit);
}

/// Clears bit `bit` of a 16-bit set through `bitset_core`.
///
/// `BitSet::bit_reset` on `u16` computes `*self &= !(1 << bit as u32)`; a bit
/// number of 16 or more overflows the shift, so it is not admitted.
#[verifier::external_body]
fn u16_bit_reset(set: &mut u16, bit: usize)
    requires
        bit < 16,
    ensures
        *final(set) == *old(set) & !(1u16 << bit),
{
    set.bit_reset(bit);
}

/// The allocator's state: the set of hardware registers in use, and for each
/// virtual register the number of the hardware register it holds, if any.
pub struct AllocView {
    pub used: u16,
    pub allocs: Seq<Option<usize>>,
}

/// Whether hardware register number `p` is in the set `used`.
pub open spec fn in_use(used: u16, p: usize) -> bool {
    (used >> (p as u16)) & 1u16 == 1u16
}

/// The first free hardware register: the number of trailing ones of the set.
pub open spec fn first_free(used: u16) -> usize {
    u16_trailing_ones(used) as usize
}

/// Every hardware register held by a virtual register has a valid number.
pub open spec fn allocs_valid(st: AllocView) -> bool {
    forall|v: int| 0 <= v < st.allocs.len() && (#[trigger] st.allocs[v]) is Some ==> st.allocs[v]->0
        < 16
}

/// The read of register `r`: a hardware register is marked in use; a virtual
/// register keeps the hardware register it holds, or takes the first free one.
/// The second component is the register the read is rewritten to.
pub open spec fn use_step(st: AllocView, r: Register) -> (AllocView, Register) {
    match r {
        Register::PhysicalRegister(p) => (
            AllocView { used: st.used | (1u16 << (p.index_spec() as u16)), allocs: st.allocs },
            r,
        ),
        Register::VirtualRegister(v) => match st.allocs[v as int] {
            Some(p) => (st, Register::PhysicalRegister(PhysicalRegister::from_index_spec(p))),
            None => {
                let p = first_free(st.used);
                (
                    AllocView {
                        used: st.used | (1u16 << (p as u16)),
                        allocs: st.allocs.update(v as int, Some(p)),
                    },
                    Register::PhysicalRegister(PhysicalRegister::from_index_spec(p)),
                )
            },
        },
    }
}

/// The write of register `r`: a hardware register is marked free; a virtual
/// register gives up the hardware register it holds, which becomes free.
pub open spec fn def_step(st: AllocView, r: Register) -> (AllocView, Register) {
    match r {
        Register::PhysicalRegister(p) => (
            AllocView { used: st.used & !(1u16 << (p.index_spec() as u16)), allocs: st.allocs },
            r,
        ),
        Register::VirtualRegister(v) => {
            let p = st.allocs[v as int]->0;
            (
                AllocView { used: st.used & !(1u16 << (p as u16)), allocs: st.allocs.update(v as int, None) },
                Register::PhysicalRegister(PhysicalRegister::from_index_spec(p)),
            )
        },
    }
}

/// When a read can be served: the virtual register is one the allocator was
/// made for, and it holds a register or one is free.
pub open spec fn use_ok(st: AllocView, r: Register) -> bool {
    match r {
        Register::PhysicalRegister(_) => true,
        Register::VirtualRegister(v) => v < st.allocs.len() && (st.allocs[v as int] is Some
            || st.used != 0xffffu16),
    }
}

/// When a write can be served: the virtual register holds a register.
pub open spec fn def_ok(st: AllocView, r: Register) -> bool {
    match r {
        Register::PhysicalRegister(_) => true,
        Register::VirtualRegister(v) => v < st.allocs.len() && st.allocs[v as int] is Some,
    }
}

/// Allocation for one operand: a memory operand reads its base and then its
/// index register; a register operand is read, written or both as its
/// direction says (a read-write counts as a read). The second component is
/// the rewritten operand.
pub open spec fn operand_step(st: AllocView, entry: (OperandDirection, Operand)) -> (
    AllocView,
    Operand,
) {
    let op = entry.1;
    match op.kind {
        OperandKind::Memory { base: Some(b), index: None, scale, displacement, segment_override } => {
            let (s1, b2) = use_step(st, b);
            (
                s1,
                Operand {
                    kind: OperandKind::Memory { base: Some(b2), index: None, scale, displacement, segment_override },
                    width_in_bits: op.width_in_bits,
                },
            )
        },
        OperandKind::Memory { base: Some(b), index: Some(x), scale, displacement, segment_override } => {
            let (s1, b2) = use_step(st, b);
            let (s2, x2) = use_step(s1, x);
            (
                s2,
                Operand {
                    kind: OperandKind::Memory { base: Some(b2), index: Some(x2), scale, displacement, segment_override },
                    width_in_bits: op.width_in_bits,
                },
            )
        },
        OperandKind::Register(r) => match entry.0 {
            OperandDirection::Unused => (st, op),
            OperandDirection::Out => {
                let (s1, r2) = def_step(st, r);
                (s1, Operand { kind: OperandKind::Register(r2), width_in_bits: op.width_in_bits })
            },
            _ => {
                let (s1, r2) = use_step(st, r);
                (s1, Operand { kind: OperandKind::Register(r2), width_in_bits: op.width_in_bits })
            },
        },
        _ => (st, op),
    }
}

/// When the allocation for one operand can be served.
pub open spec fn operand_ok(st: AllocView, entry: (OperandDirection, Operand)) -> bool {
    match entry.1.kind {
        OperandKind::Memory { base: Some(b), index: None, .. } => use_ok(st, b),
        OperandKind::Memory { base: Some(b), index: Some(x), .. } => use_ok(st, b) && use_ok(
            use_step(st, b).0,
            x,
        ),
        OperandKind::Register(r) => match entry.0 {
            OperandDirection::Unused => true,
            OperandDirection::Out => def_ok(st, r),
            _ => use_ok(st, r),
        },
        _ => true,
    }
}

/// Allocation over a list of operands, first to last: the final state and
/// the rewritten operands.
pub open spec fn operands_step(st: AllocView, ops: Seq<(OperandDirection, Operand)>) -> (
    AllocView,
    Seq<Operand>,
)
    decreases ops.len(),
{
    if ops.len() == 0 {
        (st, seq![])
    } else {
        let (s1, prefix) = operands_step(st, ops.drop_last());
        let (s2, o) = operand_step(s1, ops.last());
        (s2, prefix.push(o))
    }
}

/// When allocation over a list of operands can be served, operand by operand.
pub open spec fn operands_ok(st: AllocView, ops: Seq<(OperandDirection, Operand)>) -> bool
    decreases ops.len(),
{
    if ops.len() == 0 {
        true
    } else {
        operands_ok(st, ops.drop_last()) && operand_ok(operands_step(st, ops.drop_last()).0, ops.last())
    }
}

#[derive(Debug, Clone, Copy, PartialEq, Eq, Structural)]
struct VirtualRegisterIndex(usize);

#[derive(Debug, Clone, Copy, PartialEq, Eq, Structural)]
struct PhysicalRegisterIndex(usize);

struct Allocations(Vec<Option<PhysicalRegisterIndex>>);

impl Allocations {
    spec fn view_allocs(&self) -> Seq<Option<usize>> {
        self.0@.map_values(|o: Option<PhysicalRegisterIndex>| match o {
            Some(p) => Some(p.0),
            None => None,
        })
    }

    fn new(num_virtual_registers: usize) -> (r: Allocations)
        ensures
            r.view_allocs() == Seq::new(num_virtual_registers as nat, |i: int| None::<usize>),
    {
        let mut v: Vec<Option<PhysicalRegisterIndex>> = Vec::new();
        let mut i: usize = 0;
        while i < num_virtual_registers
            invariant
                i <= num_virtual_registers,
                v@.len() == i,
                forall|k: int| 0 <= k < i ==> v@[k] is None,
            decreases num_virtual_registers - i,
        {
            v.push(None);
            i = i + 1;
        }
        let r = Allocations(v);
        assert(r.view_allocs() =~= Seq::new(num_virtual_registers as nat, |i: int| None::<usize>));
        r
    }

    fn lookup(&self, virtual_register: VirtualRegisterIndex) -> (r: Option<PhysicalRegisterIndex>)
        ensures
            virtual_register.0 < self.view_allocs().len() ==> (match r {
                Some(p) => self.view_allocs()[virtual_register.0 as int] == Some(p.0),
                None => self.view_allocs()[virtual_register.0 as int] is None,
            }),
            virtual_register.0 >= self.view_allocs().len() ==> r is None,
    {
        if virtual_register.0 < self.0.len() {
            self.0[virtual_register.0]
        } else {
            None
        }
    }

    fn insert(&mut self, virtual_register: VirtualRegisterIndex, physical_register: PhysicalRegisterIndex)
        requires
            virtual_register.0 < old(self).view_allocs().len(),
        ensures
            final(self).view_allocs() == old(self).view_allocs().update(
                virtual_register.0 as int,
                Some(physical_register.0),
            ),
    {
        self.0.set(virtual_register.0, Some(physical_register));
        assert(self.view_allocs() =~= old(self).view_allocs().update(
            virtual_register.0 as int,
            Some(physical_register.0),
        ));
    }

    fn remove(&mut self, virtual_register: VirtualRegisterIndex) -> (r: PhysicalRegisterIndex)
        requires
            virtual_register.0 < old(self).view_allocs().len(),
            old(self).view_allocs()[virtual_register.0 as int] is Some,
        ensures
            Some(r.0) == old(self).view_allocs()[virtual_register.0 as int],
            final(self).view_allocs() == old(self).view_allocs().update(virtual_register.0 as int, None),
    {
        let p = match self.0[virtual_register.0] {
            Some(p) => p,
            None => PhysicalRegisterIndex(0),
        };
        self.0.set(virtual_register.0, None);
        assert(self.view_allocs() =~= old(self).view_allocs().update(virtual_register.0 as int, None));
        p
    }
}

/// A register allocator for one block of instructions visited in reverse.
pub struct SolidStateRegisterAllocator {
    register_allocations: Allocations,
    physical_used: u16,
}

impl SolidStateRegisterAllocator {
    /// The allocator's state.
    pub closed spec fn view_state(&self) -> AllocView {
        AllocView { used: self.physical_used, allocs: self.register_allocations.view_allocs() }
    }

    /// The state is usable: every held register has a valid number.
    pub closed spec fn wf(&self) -> bool {
        allocs_valid(self.view_state())
    }

    /// An allocator for `num_virtual_registers` virtual registers, with the
    /// stack pointer, the frame pointer (which holds the guest register
    /// file) and R15 reserved. Upon construction virtual register 0 (where
    /// there is one) is bound to hardware register 0, RAX, which is then in
    /// use: it is best used as the output of the code. Every other virtual
    /// register holds no register.
    pub fn new(num_virtual_registers: usize) -> (r: SolidStateRegisterAllocator)
        ensures
            r.wf(),
            r.view_state().allocs == Seq::new(
                num_virtual_registers as nat,
                |i: int|
                    if i == 0 {
                        Some(0usize)
                    } else {
                        None::<usize>
                    },
            ),
            num_virtual_registers > 0 ==> r.view_state().used == 1u16 | (1u16 << 6u16) | (1u16 << 7u16) | (1u16 << 15u16),
            num_virtual_registers == 0 ==> r.view_state().used == (1u16 << 6u16) | (1u16 << 7u16) | (1u16 << 15u16),
    {
        let mut physical_used: u16 = 0;
        u16_bit_set(&mut physical_used, PhysicalRegister::RSP.index());
        u16_bit_set(&mut physical_used, PhysicalRegister::RBP.index());
        u16_bit_set(&mut physical_used, PhysicalRegister::R15.index());
        assert(((0u16 | (1u16 << 6u16)) | (1u16 << 7u16)) | (1u16 << 15u16) == (1u16 << 6u16) | (
        1u16 << 7u16) | (1u16 << 15u16)) by (bit_vector);
        let mut register_allocations = Allocations::new(num_virtual_registers);
        if num_virtual_registers > 0 {
            let ghost before = physical_used;
            register_allocations.insert(VirtualRegisterIndex(0), PhysicalRegisterIndex(PhysicalRegister::RAX.index()));
            u16_bit_set(&mut physical_used, PhysicalRegister::RAX.index());
            let after = physical_used;
            assert(after == 1u16 | (1u16 << 6u16) | (1u16 << 7u16) | (1u16 << 15u16)) by (bit_vector)
                requires
                    after == before | (1u16 << 0usize),
                    before == (1u16 << 6u16) | (1u16 << 7u16) | (1u16 << 15u16),
            ;
        }
        let r = SolidStateRegisterAllocator { register_allocations, physical_used };
        assert(r.view_state().allocs =~= Seq::new(
            num_virtual_registers as nat,
            |i: int|
                if i == 0 {
                    Some(0usize)
                } else {
                    None::<usize>
                },
        ));
        r
    }

    /// The hardware register number a read of virtual register `v` is served
    /// with: the one it holds, or else the first free one, which it then holds.
    pub fn lookup_or_allocate(&mut self, v: usize) -> (r: usize)
        requires
            old(self).wf(),
            use_ok(old(self).view_state(), Register::VirtualRegister(v)),
        ensures
            final(self).wf(),
            r < 16,
            (final(self).view_state(), Register::PhysicalRegister(PhysicalRegister::from_index_spec(r)))
                == use_step(old(self).view_state(), Register::VirtualRegister(v)),
            old(self).view_state().allocs[v as int] is None ==> r == first_free(old(self).view_state().used),
            old(self).view_state().allocs[v as int] is Some ==> Some(r) == old(self).view_state().allocs[v as int],
    {
        match self.register_allocations.lookup(VirtualRegisterIndex(v)) {
            Some(phys) => phys.0,
            None => {
                let first_empty = self.physical_used.trailing_ones();
                let phys_index: usize = first_empty as usize;
                u16_bit_set(&mut self.physical_used, phys_index);
                self.register_allocations.insert(VirtualRegisterIndex(v), PhysicalRegisterIndex(phys_index));
                proof {
                    let st = old(self).view_state();
                    assert(self.view_state().allocs =~= st.allocs.update(v as int, Some(phys_index)));
                    assert(self.wf());
                }
                phys_index
            },
        }
    }

    /// The hardware register number a write of virtual register `v` is served
    /// with: the one it holds, which becomes free.
    pub fn lookup_and_deallocate(&mut self, v: usize) -> (r: usize)
        requires
            old(self).wf(),
            def_ok(old(self).view_state(), Register::VirtualRegister(v)),
        ensures
            final(self).wf(),
            r < 16,
            Some(r) == old(self).view_state().allocs[v as int],
            (final(self).view_state(), Register::PhysicalRegister(PhysicalRegister::from_index_spec(r)))
                == def_step(old(self).view_state(), Register::VirtualRegister(v)),
    {
        let phys = self.register_allocations.remove(VirtualRegisterIndex(v));
        u16_bit_reset(&mut self.physical_used, phys.0);
        proof {
            let st = old(self).view_state();
            assert(self.view_state().allocs =~= st.allocs.update(v as int, None));
            assert(self.wf());
        }
        phys.0
    }

    fn use_register(&mut self, r: Register) -> (r2: Register)
        requires
            old(self).wf(),
            use_ok(old(self).view_state(), r),
        ensures
            final(self).wf(),
            (final(self).view_state(), r2) == use_step(old(self).view_state(), r),
    {
        match r {
            Register::PhysicalRegister(preg) => {
                u16_bit_set(&mut self.physical_used, preg.index());
                r
            },
            Register::VirtualRegister(vreg) => {
                let phys = self.lookup_or_allocate(vreg);
                Register::PhysicalRegister(PhysicalRegister::from_index(phys))
            },
        }
    }

    fn def_register(&mut self, r: Register) -> (r2: Register)
        requires
            old(self).wf(),
            def_ok(old(self).view_state(), r),
        ensures
            final(self).wf(),
            (final(self).view_state(), r2) == def_step(old(self).view_state(), r),
    {
        match r {
            Register::PhysicalRegister(preg) => {
                u16_bit_reset(&mut self.physical_used, preg.index());
                r
            },
            Register::VirtualRegister(vreg) => {
                let phys = self.lookup_and_deallocate(vreg);
                Register::PhysicalRegister(PhysicalRegister::from_index(phys))
            },
        }
    }

    fn process_operand(&mut self, direction: OperandDirection, op: Operand) -> (r: Operand)
        requires
            old(self).wf(),
            operand_ok(old(self).view_state(), (direction, op)),
        ensures
            final(self).wf(),
            (final(self).view_state(), r) == operand_step(old(self).view_state(), (direction, op)),
    {
        match op.kind {
            OperandKind::Memory { base: Some(b), index: None, scale, displacement, segment_override } => {
                let b2 = self.use_register(b);
                Operand {
                    kind: OperandKind::Memory { base: Some(b2), index: None, scale, displacement, segment_override },
                    width_in_bits: op.width_in_bits,
                }
            },
            OperandKind::Memory { base: Some(b), index: Some(x), scale, displacement, segment_override } => {
                let b2 = self.use_register(b);
                let x2 = self.use_register(x);
                Operand {
                    kind: OperandKind::Memory { base: Some(b2), index: Some(x2), scale, displacement, segment_override },
                    width_in_bits: op.width_in_bits,
                }
            },
            OperandKind::Register(r) => match direction {
                OperandDirection::Unused => op,
                OperandDirection::Out => {
                    let r2 = self.def_register(r);
                    Operand { kind: OperandKind::Register(r2), width_in_bits: op.width_in_bits }
                },
                _ => {
                    let r2 = self.use_register(r);
                    Operand { kind: OperandKind::Register(r2), width_in_bits: op.width_in_bits }
                },
            },
            _ => op,
        }
    }

    /// Allocates hardware registers for one instruction: every virtual
    /// register it names is rewritten to the hardware register that serves
    /// it, operand by operand as `operands_step` says.
    pub fn process(&mut self, instruction: &mut Instruction)
        requires
            old(self).wf(),
            !(old(instruction).0 is DEAD),
            operands_ok(old(self).view_state(), operands_spec(old(instruction).0)),
        ensures
            final(self).wf(),
            final(self).view_state() == operands_step(old(self).view_state(), operands_spec(old(instruction).0)).0,
            *final(instruction) == Instruction(with_slots_spec(
                old(instruction).0,
                operands_step(old(self).view_state(), operands_spec(old(instruction).0)).1.take(
                    slots_spec(old(instruction).0).len() as int,
                ),
            )),
    {
        let ops = instruction.get_operands_copy();
        let n_slots: usize = match instruction.0 {
            Opcode::CALL { .. } => 1,
            _ => ops.len(),
        };
        proof {
            lemma_slots_prefix_operands(instruction.0);
        }
        assert(n_slots == slots_spec(instruction.0).len());
        let ghost st0 = self.view_state();
        let mut rewritten: Vec<Operand> = Vec::new();
        let ghost mut all_rewritten: Seq<Operand> = Seq::empty();
        let mut i: usize = 0;
        while i < ops.len()
            invariant
                ops@ == operands_spec(instruction.0),
                n_slots <= ops.len(),
                i <= ops.len(),
                self.wf(),
                operands_ok(st0, ops@),
                (self.view_state(), all_rewritten) == operands_step(st0, ops@.take(i as int)),
                rewritten@ == all_rewritten.take(if i < n_slots { i as int } else { n_slots as int }),
                all_rewritten.len() == i,
            decreases ops.len() - i,
        {
            proof {
                lemma_operands_ok_prefix(st0, ops@, i as int + 1);
                assert(ops@.take(i as int + 1).drop_last() =~= ops@.take(i as int));
            }
            let (direction, operand) = ops[i];
            let new_operand = self.process_operand(direction, operand);
            if i < n_slots {
                rewritten.push(new_operand);
            }
            proof {
                all_rewritten = all_rewritten.push(new_operand);
            }
            i = i + 1;
            assert(rewritten@ =~= all_rewritten.take(if i < n_slots { i as int } else { n_slots as int }));
        }
        assert(ops@.take(ops.len() as int) =~= ops@);
        let new_instruction = instruction.with_slots(&rewritten);
        *instruction = new_instruction;
    }
}

proof fn lemma_operands_ok_prefix(st: AllocView, ops: Seq<(OperandDirection, Operand)>, k: int)
    requires
        0 <= k <= ops.len(),
        operands_ok(st, ops),
    ensures
        operands_ok(st, ops.take(k)),
    decreases ops.len(),
{
    if k < ops.len() {
        assert(ops.drop_last().take(k) =~= ops.take(k));
        lemma_operands_ok_prefix(st, ops.drop_last(), k);
    } else {
        assert(ops.take(k) =~= ops);
    }
}


/// The state is coherent: every held register is valid and marked in use,
/// and no two virtual registers hold the same one.
pub open spec fn coherent(st: AllocView) -> bool {
    &&& allocs_valid(st)
    &&& forall|v: int| 0 <= v < st.allocs.len() && (#[trigger] st.allocs[v]) is Some ==> in_use(st.used, st.allocs[v]->0)
    &&& forall|v: int, w: int|
        0 <= v < st.allocs.len() && 0 <= w < st.allocs.len() && v != w && (#[trigger] st.allocs[v]) is Some
            && (#[trigger] st.allocs[w]) is Some ==> st.allocs[v]->0 != st.allocs[w]->0
}

proof fn lemma_bit_facts(used: u16, p: u16, q: u16)
    requires
        p < 16,
        q < 16,
    ensures
        in_use(used | (1u16 << p), p as usize),
        p != q ==> (in_use(used | (1u16 << p), q as usize) == in_use(used, q as usize)),
        !in_use(used & !(1u16 << p), p as usize),
        p != q ==> (in_use(used & !(1u16 << p), q as usize) == in_use(used, q as usize)),
        !in_use(used, p as usize) ==> (used | (1u16 << p)) & !(1u16 << p) == used,
{
    assert(((used | (1u16 << p)) >> p) & 1u16 == 1u16) by (bit_vector)
        requires
            p < 16,
    ;
    assert(p != q ==> (((used | (1u16 << p)) >> q) & 1u16 == 1u16) == ((used >> q) & 1u16 == 1u16))
        by (bit_vector)
        requires
            p < 16,
            q < 16,
    ;
    assert(((used & !(1u16 << p)) >> p) & 1u16 != 1u16) by (bit_vector)
        requires
            p < 16,
    ;
    assert(p != q ==> (((used & !(1u16 << p)) >> q) & 1u16 == 1u16) == ((used >> q) & 1u16 == 1u16))
        by (bit_vector)
        requires
            p < 16,
            q < 16,
    ;
    assert(((used >> p) & 1u16 != 1u16) ==> (used | (1u16 << p)) & !(1u16 << p) == used) by (bit_vector)
        requires
            p < 16,
    ;
}

/// A virtual register that holds no register is served with one that is
/// free: its bit in the set of registers in use is clear.
pub proof fn lemma_fresh_register_is_free(used: u16)
    requires
        used != 0xffffu16,
    ensures
        first_free(used) < 16,
        !in_use(used, first_free(used)),
{
}

/// Registers reserved in the set of registers in use (the stack pointer, the
/// frame pointer and R15 after `new`) are never handed to a virtual register.
pub proof fn lemma_reserved_never_allocated(st: AllocView, v: usize, reserved: usize)
    requires
        reserved < 16,
        allocs_valid(st),
        in_use(st.used, reserved),
        use_ok(st, Register::VirtualRegister(v)),
    ensures
        use_step(st, Register::VirtualRegister(v)).1 != Register::PhysicalRegister(
            PhysicalRegister::from_index_spec(reserved),
        ) || st.allocs[v as int] == Some(reserved),
{
    if st.allocs[v as int] is None {
        let p = first_free(st.used);
        assert(p != reserved);
        crate::encoder::lemma_register_index_roundtrip(PhysicalRegister::from_index_spec(p), p);
        crate::encoder::lemma_register_index_roundtrip(PhysicalRegister::from_index_spec(reserved), reserved);
    } else {
        let q = st.allocs[v as int]->0;
        crate::encoder::lemma_register_index_roundtrip(PhysicalRegister::from_index_spec(q), q);
        crate::encoder::lemma_register_index_roundtrip(PhysicalRegister::from_index_spec(reserved), reserved);
    }
}

/// A second read of a virtual register is served with the register of the
/// first, and changes nothing.
pub proof fn lemma_use_is_stable(st: AllocView, v: usize)
    requires
        use_ok(st, Register::VirtualRegister(v)),
    ensures
        use_step(use_step(st, Register::VirtualRegister(v)).0, Register::VirtualRegister(v))
            == (use_step(st, Register::VirtualRegister(v)).0, use_step(st, Register::VirtualRegister(v)).1),
{
}

/// Freeing a virtual register right after it was given a fresh register
/// restores the state as it was before.
pub proof fn lemma_allocate_then_free_restores(st: AllocView, v: usize)
    requires
        v < st.allocs.len(),
        st.allocs[v as int] is None,
        st.used != 0xffffu16,
    ensures
        def_step(use_step(st, Register::VirtualRegister(v)).0, Register::VirtualRegister(v)).0 == st,
{
    let p = first_free(st.used);
    lemma_bit_facts(st.used, p as u16, p as u16);
    let s1 = use_step(st, Register::VirtualRegister(v)).0;
    assert(s1.allocs.update(v as int, None) =~= st.allocs);
}

/// The register a read of `v` is served with is the one a later write of
/// `v` returns, in any state `later` where `v` still holds it (after reads
/// and writes of other registers): the write gives that register back,
/// leaves `v` without a register and clears the register's bit.
pub proof fn lemma_write_returns_the_register_of_the_read(st: AllocView, v: usize, later: AllocView)
    requires
        allocs_valid(st),
        use_ok(st, Register::VirtualRegister(v)),
        later.allocs.len() == st.allocs.len(),
        later.allocs[v as int] == use_step(st, Register::VirtualRegister(v)).0.allocs[v as int],
    ensures
        ({
            let (s1, read) = use_step(st, Register::VirtualRegister(v));
            let (s2, written) = def_step(later, Register::VirtualRegister(v));
            &&& def_ok(later, Register::VirtualRegister(v))
            &&& written == read
            &&& s2.allocs[v as int] is None
            &&& read matches Register::PhysicalRegister(p) && !in_use(s2.used, p.index_spec())
        }),
{
    let q = use_step(st, Register::VirtualRegister(v)).0.allocs[v as int]->0;
    if st.allocs[v as int] is None {
        lemma_fresh_register_is_free(st.used);
    }
    assert(q < 16);
    lemma_bit_facts(later.used, q as u16, q as u16);
    crate::encoder::lemma_register_index_roundtrip(PhysicalRegister::from_index_spec(q), q);
}

/// A read of hardware register `p` marks it in use and leaves every other
/// register's mark and every virtual register's assignment as they were;
/// a write of it marks it free, also touching nothing else.
pub proof fn lemma_hardware_access_marks(st: AllocView, p: PhysicalRegister, q: usize)
    requires
        q < 16,
    ensures
        in_use(use_step(st, Register::PhysicalRegister(p)).0.used, p.index_spec()),
        !in_use(def_step(st, Register::PhysicalRegister(p)).0.used, p.index_spec()),
        q != p.index_spec() ==> in_use(use_step(st, Register::PhysicalRegister(p)).0.used, q) == in_use(st.used, q),
        q != p.index_spec() ==> in_use(def_step(st, Register::PhysicalRegister(p)).0.used, q) == in_use(st.used, q),
        use_step(st, Register::PhysicalRegister(p)).0.allocs == st.allocs,
        def_step(st, Register::PhysicalRegister(p)).0.allocs == st.allocs,
        use_step(st, Register::PhysicalRegister(p)).1 == Register::PhysicalRegister(p),
        def_step(st, Register::PhysicalRegister(p)).1 == Register::PhysicalRegister(p),
{
    lemma_bit_facts(st.used, p.index_spec() as u16, q as u16);
}

/// A hardware register that is read is not handed to a virtual register
/// read after it: once `p` was read, a virtual register that holds no
/// register is served with another one.
pub proof fn lemma_read_register_is_not_reused(st: AllocView, p: PhysicalRegister, v: usize)
    requires
        use_ok(use_step(st, Register::PhysicalRegister(p)).0, Register::VirtualRegister(v)),
        st.allocs[v as int] is None,
    ensures
        use_step(use_step(st, Register::PhysicalRegister(p)).0, Register::VirtualRegister(v)).1 != Register::PhysicalRegister(p),
{
    let s1 = use_step(st, Register::PhysicalRegister(p)).0;
    lemma_hardware_access_marks(st, p, 0);
    lemma_fresh_register_is_free(s1.used);
    let f = first_free(s1.used);
    crate::encoder::lemma_register_index_roundtrip(p, f);
    crate::encoder::lemma_register_index_roundtrip(PhysicalRegister::from_index_spec(f), f);
}

/// A read of a virtual register that holds none is served with a register
/// that was free and is marked in use from then on, which the virtual
/// register holds; a read of one that holds a register is served with that
/// register and changes nothing.
pub proof fn lemma_virtual_read_serves_a_free_register(st: AllocView, v: usize)
    requires
        use_ok(st, Register::VirtualRegister(v)),
        coherent(st),
    ensures
        ({
            let (s1, read) = use_step(st, Register::VirtualRegister(v));
            read matches Register::PhysicalRegister(p) && {
                &&& s1.allocs[v as int] == Some(p.index_spec())
                &&& in_use(s1.used, p.index_spec())
                &&& (st.allocs[v as int] is None ==> !in_use(st.used, p.index_spec()) && s1.allocs == st.allocs.update(
                    v as int,
                    Some(p.index_spec()),
                ))
                &&& (st.allocs[v as int] matches Some(q) ==> q == p.index_spec() && s1 == st)
            }
        }),
{
    let (s1, read) = use_step(st, Register::VirtualRegister(v));
    if st.allocs[v as int] is None {
        lemma_fresh_register_is_free(st.used);
        let f = first_free(st.used);
        lemma_bit_facts(st.used, f as u16, f as u16);
        crate::encoder::lemma_register_index_roundtrip(PhysicalRegister::from_index_spec(f), f);
    } else {
        let q = st.allocs[v as int]->0;
        crate::encoder::lemma_register_index_roundtrip(PhysicalRegister::from_index_spec(q), q);
        assert(in_use(st.used, q));
    }
}

/// A read keeps the state coherent.
pub proof fn lemma_use_keeps_coherent(st: AllocView, r: Register)
    requires
        coherent(st),
        use_ok(st, r),
    ensures
        coherent(use_step(st, r).0),
{
    let s1 = use_step(st, r).0;
    match r {
        Register::PhysicalRegister(preg) => {
            let p = preg.index_spec();
            assert forall|v: int| 0 <= v < s1.allocs.len() && (#[trigger] s1.allocs[v]) is Some implies in_use(
                s1.used,
                s1.allocs[v]->0,
            ) by {
                let q = st.allocs[v]->0;
                lemma_bit_facts(st.used, p as u16, q as u16);
            }
        },
        Register::VirtualRegister(x) => {
            if st.allocs[x as int] is None {
                let p = first_free(st.used);
                assert forall|v: int| 0 <= v < s1.allocs.len() && (#[trigger] s1.allocs[v]) is Some implies in_use(
                    s1.used,
                    s1.allocs[v]->0,
                ) by {
                    let q = s1.allocs[v]->0;
                    lemma_bit_facts(st.used, p as u16, q as u16);
                }
                assert forall|v: int, w: int|
                    0 <= v < s1.allocs.len() && 0 <= w < s1.allocs.len() && v != w && (#[trigger] s1.allocs[v]) is Some
                        && (#[trigger] s1.allocs[w]) is Some implies s1.allocs[v]->0 != s1.allocs[w]->0 by {
                    if v == x as int {
                        assert(in_use(st.used, st.allocs[w]->0));
                    } else if w == x as int {
                        assert(in_use(st.used, st.allocs[v]->0));
                    }
                }
            }
        },
    }
}

/// A write of a virtual register keeps the state coherent, and so does the
/// write of a hardware register that no virtual register holds.
pub proof fn lemma_def_keeps_coherent(st: AllocView, r: Register)
    requires
        coherent(st),
        def_ok(st, r),
        r matches Register::PhysicalRegister(preg) ==> forall|v: int|
            0 <= v < st.allocs.len() ==> #[trigger] st.allocs[v] != Some(preg.index_spec()),
    ensures
        coherent(def_step(st, r).0),
{
    let s1 = def_step(st, r).0;
    match r {
        Register::PhysicalRegister(preg) => {
            let p = preg.index_spec();
            assert forall|v: int| 0 <= v < s1.allocs.len() && (#[trigger] s1.allocs[v]) is Some implies in_use(
                s1.used,
                s1.allocs[v]->0,
            ) by {
                let q = st.allocs[v]->0;
                lemma_bit_facts(st.used, p as u16, q as u16);
            }
        },
        Register::VirtualRegister(x) => {
            let p = st.allocs[x as int]->0;
            assert forall|v: int| 0 <= v < s1.allocs.len() && (#[trigger] s1.allocs[v]) is Some implies in_use(
                s1.used,
                s1.allocs[v]->0,
            ) by {
                let q = s1.allocs[v]->0;
                assert(v != x as int);
                assert(st.allocs[v] is Some);
                lemma_bit_facts(st.used, p as u16, q as u16);
            }
        },
    }
}

} // verus!
