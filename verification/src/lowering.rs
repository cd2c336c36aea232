//! Lowering of value-graph nodes to x86 operands: each node becomes an
//! operand, and the instructions that compute it are appended to the
//! current block.
use vstd::prelude::*;
use crate::emitter::{
    X86TranslationContext, blocks_vregs_below, X86Emitter, X86Error, cache_lookup, instruction_vregs_below, lemma_frame_same_trans, mov, mul_node,
    operand_pair, operand_vregs_below, operands_of,
};
use crate::encoder::{BlockRef, Instruction, Opcode, Operand, OperandKind, PhysicalRegister, Register};
use crate::lowering_spec::{
    arith_types_ok, compare_types_ok, lower_budget, lower_ok, node_size, seq_budget, seq_size, sized,
};
use crate::nodes::{
    BinaryOperationKind, CastOperationKind, NodeKind, ShiftOperationKind, TernaryOperationKind, Type,
    UnaryOperationKind, X86Node, X86NodeRef,
};
use crate::width::Width;

verus! {

broadcast use lemma_frame_same_trans, crate::emitter::lemma_frame_same_facts;

/// What lowering keeps: the emitter stays usable, nothing but the current
/// block's code, the remembered operands and the counters changes, and at
/// most `budget` virtual registers are handed out.
pub open spec fn lowering_step(before: X86Emitter, after: X86Emitter, budget: nat) -> bool {
    &&& after.wf()
    &&& after.frame_same(&before)
    &&& before.next_vreg_spec() <= after.next_vreg_spec()
    &&& after.next_vreg_spec() <= before.next_vreg_spec() + budget
}

/// The faults lowering reports: operands whose kinds or widths the
/// instruction that needs them cannot take.
pub open spec fn lowering_error(e: X86Error) -> bool {
    e is OperandWidthMismatch || e is AddressNotInRegister || e is MissingCarryOperation || e is InvalidOperandKinds
}

/// A lowering from `before` to `after` with result `r`: an operand that
/// names only virtual registers handed out, or one of the lowering faults.
pub open spec fn lowers(before: X86Emitter, after: X86Emitter, budget: nat, r: Result<Operand, X86Error>) -> bool {
    &&& lowering_step(before, after, budget)
    &&& (r matches Ok(op) ==> operand_vregs_below(op, after.next_vreg_spec()))
    &&& (r matches Err(e) ==> lowering_error(e))
}

/// A node whose lowering cannot fail: a constant, a guest register or a
/// stack variable.
pub open spec fn leaf_node(n: X86Node) -> bool {
    n.kind is Constant || n.kind is GuestRegister || n.kind is ReadStackVariable
}

/// An arithmetic or logic operation: a move of the left operand, then the
/// operation with the right one.
pub open spec fn arith_kind(kind: BinaryOperationKind) -> bool {
    kind is Add || kind is Sub || kind is Or || kind is Xor || kind is And || kind is Multiply
}

/// An immediate above `i32::MAX`, which an arithmetic operand first moves
/// to a register.
pub open spec fn wide_immediate(op: Operand) -> bool {
    op.kind matches OperandKind::Immediate(v) && v > i32::MAX
}

/// The operands `(a, b)` an arithmetic or logic operation takes from the
/// operands `cl` and `cr` of its left and right nodes, of types `lt` and
/// `rt`, with `code` the instructions so far: an unsigned operand narrower
/// than the other is zero-extended into `b` (and the wider one goes first),
/// a signed left operand of a narrower type is sign-extended into `a`, and
/// otherwise the operands are taken as they are.
pub open spec fn operand_pair_form(lt: Type, rt: Type, cl: Operand, cr: Operand, a: Operand, b: Operand, code: Seq<Instruction>) -> bool {
    match (lt, rt) {
        (Type::Unsigned(_), Type::Unsigned(_)) => if cl.width_in_bits.bits() < cr.width_in_bits.bits() {
            a == cr && b.width_in_bits == cr.width_in_bits && code.len() > 0 && code.last() == Instruction(Opcode::MOVZX(cl, b))
        } else if cl.width_in_bits == cr.width_in_bits {
            a == cl && b == cr
        } else {
            a == cl && b.width_in_bits == cl.width_in_bits && code.len() > 0 && code.last() == Instruction(Opcode::MOVZX(cr, b))
        },
        (Type::Signed(x), Type::Signed(y)) => if x < y {
            b == cr && a.width_in_bits == cr.width_in_bits && code.len() > 0 && code.last() == Instruction(Opcode::MOVSX(cl, a))
        } else {
            a == cl && b == cr
        },
        _ => a == cl && b == cr,
    }
}

/// The instruction of an arithmetic or logic operation from `src` into `dst`.
pub open spec fn arith_opcode(kind: BinaryOperationKind, src: Operand, dst: Operand) -> Opcode {
    match kind {
        BinaryOperationKind::Add(_, _) => Opcode::ADD(src, dst),
        BinaryOperationKind::Sub(_, _) => Opcode::SUB(src, dst),
        BinaryOperationKind::Or(_, _) => Opcode::OR(src, dst),
        BinaryOperationKind::Xor(_, _) => Opcode::XOR(src, dst),
        BinaryOperationKind::And(_, _) => Opcode::AND(src, dst),
        _ => Opcode::IMUL(src, dst),
    }
}

/// A node whose lowering succeeds in any state: a leaf, or an arithmetic or
/// logic operation of two unsigned leaves.
pub open spec fn lowers_infallibly(n: X86Node) -> bool {
    ||| leaf_node(n)
    ||| (n.kind matches NodeKind::BinaryOperation(k) && arith_kind(k) && operands_of(k).0.node().typ is Unsigned
        && operands_of(k).1.node().typ is Unsigned && leaf_node(operands_of(k).0.node()) && leaf_node(operands_of(k).1.node()))
}

/// A comparison.
pub open spec fn compare_kind(kind: BinaryOperationKind) -> bool {
    kind is CompareEqual || kind is CompareNotEqual || kind is CompareLessThan || kind is CompareLessThanOrEqual
        || kind is CompareGreaterThan || kind is CompareGreaterThanOrEqual
}

/// How the code that computes the binary operation `kind` into `dst` ends,
/// over the operands `cache` records for its left and right nodes: an
/// arithmetic or logic operation with a right operand that is a leaf moves
/// its left operand and applies the operation with its right one (as
/// `operand_pair_form` arranges them); a comparison of nodes that are not
/// rationals, whose left one is a leaf, ends as `compare_code` says.
pub open spec fn binary_lowering_ends_as(kind: BinaryOperationKind, dst: Operand, cache: Seq<(u64, Operand)>, code: Seq<Instruction>) -> bool {
    let (l, rn) = operands_of(kind);
    let k = code.len();
    &&& (arith_kind(kind) && leaf_node(rn.node()) ==> (cache_lookup(cache, l.id_spec()) matches Some(cl) && cache_lookup(
        cache,
        rn.id_spec(),
    ) matches Some(cr) && (!wide_immediate(cl) && !wide_immediate(cr) ==> k >= 2 && exists|a: Operand, b: Operand|
        #[trigger] operand_pair_form(l.node().typ, rn.node().typ, cl, cr, a, b, code.take(k - 2)) && code[k - 2] == Instruction(
            Opcode::MOV(a, dst),
        ) && code[k - 1] == Instruction(arith_opcode(kind, b, dst)))))
    &&& (compare_kind(kind) && !(l.node().kind is Tuple && rn.node().kind is Tuple) && leaf_node(l.node()) ==> (cache_lookup(
        cache,
        rn.id_spec(),
    ) matches Some(a) && cache_lookup(cache, l.id_spec()) matches Some(b) && compare_code(kind, a, b, dst, code)))
}

/// The binary operation `op` as a node; its type plays no part in lowering.
pub open spec fn binary_node(op: BinaryOperationKind) -> X86Node {
    X86Node { typ: Type::Bits, kind: NodeKind::BinaryOperation(op) }
}

proof fn lemma_pair_sizes(s: Seq<X86NodeRef>)
    requires
        s.len() == 2,
    ensures
        seq_size(s) == node_size(s[0].node()) + node_size(s[1].node()),
        seq_budget(s) == lower_budget(s[0].node()) + lower_budget(s[1].node()),
{
    let a = s.drop_last();
    assert(a.len() == 1);
    assert(a.last() == s[0]);
    assert(s.last() == s[1]);
    assert(a.drop_last() =~= Seq::<X86NodeRef>::empty());
    assert(seq_size(a.drop_last()) == 0);
    assert(seq_budget(a.drop_last()) == 0);
    assert(seq_size(a) == seq_size(a.drop_last()) + node_size(*a.last().node));
    assert(seq_budget(a) == seq_budget(a.drop_last()) + lower_budget(*a.last().node));
    assert(seq_size(s) == seq_size(a) + node_size(*s.last().node));
    assert(seq_budget(s) == seq_budget(a) + lower_budget(*s.last().node));
}

/// The width an instruction uses for a value of `bits` bits.
fn width_of(bits: u16) -> (w: Width)
    requires
        bits != 0,
    ensures
        w == Width::canonical(bits),
{
    match Width::from_uncanonicalized(bits) {
        Ok(w) => w,
        Err(_) => Width::_64,
    }
}

/// Whether `a` is narrower than `b`.
fn narrower(a: Width, b: Width) -> (r: bool)
    ensures
        r == (a.bits() < b.bits()),
{
    a.as_u16() < b.as_u16()
}

/// The set instruction of a comparison of kind `kind`, unsigned (below,
/// above) or signed (less, greater); with `swapped` the operands were
/// compared the other way round, so the condition is the converse.
pub open spec fn setcc_spec(kind: BinaryOperationKind, is_signed: bool, swapped: bool, dst: Operand) -> Opcode {
    match (kind, is_signed, swapped) {
        (BinaryOperationKind::CompareEqual(_, _), _, _) => Opcode::SETE(dst),
        (BinaryOperationKind::CompareNotEqual(_, _), _, _) => Opcode::SETNE(dst),
        (BinaryOperationKind::CompareLessThan(_, _), false, false) => Opcode::SETB(dst),
        (BinaryOperationKind::CompareLessThanOrEqual(_, _), false, false) => Opcode::SETBE(dst),
        (BinaryOperationKind::CompareGreaterThan(_, _), false, false) => Opcode::SETA(dst),
        (BinaryOperationKind::CompareGreaterThanOrEqual(_, _), false, false) => Opcode::SETAE(dst),
        (BinaryOperationKind::CompareLessThan(_, _), true, false) => Opcode::SETL(dst),
        (BinaryOperationKind::CompareLessThanOrEqual(_, _), true, false) => Opcode::SETLE(dst),
        (BinaryOperationKind::CompareGreaterThan(_, _), true, false) => Opcode::SETG(dst),
        (BinaryOperationKind::CompareGreaterThanOrEqual(_, _), true, false) => Opcode::SETGE(dst),
        (BinaryOperationKind::CompareLessThan(_, _), false, true) => Opcode::SETAE(dst),
        (BinaryOperationKind::CompareLessThanOrEqual(_, _), false, true) => Opcode::SETA(dst),
        (BinaryOperationKind::CompareGreaterThan(_, _), false, true) => Opcode::SETBE(dst),
        (BinaryOperationKind::CompareGreaterThanOrEqual(_, _), false, true) => Opcode::SETB(dst),
        (BinaryOperationKind::CompareLessThan(_, _), true, true) => Opcode::SETGE(dst),
        (BinaryOperationKind::CompareLessThanOrEqual(_, _), true, true) => Opcode::SETG(dst),
        (BinaryOperationKind::CompareGreaterThan(_, _), true, true) => Opcode::SETLE(dst),
        (BinaryOperationKind::CompareGreaterThanOrEqual(_, _), true, true) => Opcode::SETL(dst),
        _ => Opcode::SETE(dst),
    }
}

/// Whether a comparison compares signed values: the operands (of a
/// rational, its numerators and denominators) are signed integers.
pub open spec fn compare_is_signed(kind: BinaryOperationKind) -> bool {
    let (l, r) = operands_of(kind);
    if l.node().kind is Tuple && r.node().kind is Tuple {
        r.node().kind->Tuple_0@[0].node().typ is Signed
    } else {
        r.node().typ is Signed
    }
}

/// Whether a comparison's operand types can be compared: both signed, or
/// both unsigned or untyped bits.
pub open spec fn compare_kinds_agree(a: Type, b: Type) -> bool {
    ||| (a is Signed && b is Signed)
    ||| ((a is Unsigned || a is Bits) && (b is Unsigned || b is Bits))
}

/// How the code of a comparison of operands `a` (of the right node) and `b`
/// (of the left node) into `dst` ends: against an immediate `b` the
/// operands are compared the other way round; two memory operands are
/// compared through a register; then the byte is set.
pub open spec fn compare_code(kind: BinaryOperationKind, a: Operand, b: Operand, dst: Operand, code: Seq<Instruction>) -> bool {
    let k = code.len();
    if b.kind is Immediate {
        &&& k >= 2
        &&& code[k - 2] == Instruction(Opcode::CMP(b, a))
        &&& code[k - 1] == Instruction(setcc_spec(kind, compare_is_signed(kind), true, dst))
    } else if a.kind is Memory && b.kind is Memory {
        &&& k >= 3
        &&& code[k - 3].0 matches Opcode::MOV(s, t) && s == a && t.kind is Register
        &&& code[k - 2] == Instruction(Opcode::CMP(code[k - 3].0->MOV_1, b))
        &&& code[k - 1] == Instruction(setcc_spec(kind, compare_is_signed(kind), false, dst))
    } else {
        &&& k >= 2
        &&& code[k - 2] == Instruction(Opcode::CMP(a, b))
        &&& code[k - 1] == Instruction(setcc_spec(kind, compare_is_signed(kind), false, dst))
    }
}

/// Whether a set instruction stores 1 after a `CMP` whose flags are those
/// of `x - y` (for `CMP(a, b)`, `x` is the value of `b` and `y` that of
/// `a`): by the x86 condition codes, unsigned for below and above, signed
/// for less and greater.
pub open spec fn set_condition(op: Opcode, x: u64, y: u64) -> bool {
    let (sx, sy) = (x as i64, y as i64);
    match op {
        Opcode::SETE(_) => x == y,
        Opcode::SETNE(_) => x != y,
        Opcode::SETB(_) => x < y,
        Opcode::SETBE(_) => x <= y,
        Opcode::SETA(_) => x > y,
        Opcode::SETAE(_) => x >= y,
        Opcode::SETL(_) => sx < sy,
        Opcode::SETLE(_) => sx <= sy,
        Opcode::SETG(_) => sx > sy,
        Opcode::SETGE(_) => sx >= sy,
        _ => false,
    }
}

/// Whether a comparison of kind `kind` holds of the values `l` and `r` of
/// its left and right nodes, read as signed or unsigned.
pub open spec fn compare_holds(kind: BinaryOperationKind, signed: bool, l: u64, r: u64) -> bool {
    let (a, b) = if signed {
        ((l as i64) as int, (r as i64) as int)
    } else {
        (l as int, r as int)
    };
    match kind {
        BinaryOperationKind::CompareEqual(_, _) => l == r,
        BinaryOperationKind::CompareNotEqual(_, _) => l != r,
        BinaryOperationKind::CompareLessThan(_, _) => a < b,
        BinaryOperationKind::CompareLessThanOrEqual(_, _) => a <= b,
        BinaryOperationKind::CompareGreaterThan(_, _) => a > b,
        BinaryOperationKind::CompareGreaterThanOrEqual(_, _) => a >= b,
        _ => false,
    }
}

/// The set instruction of a comparison computes it. Where the operands
/// are compared in order (`CMP` of the right value against the left, flags
/// of `l - r`), the byte is 1 exactly when the comparison holds of `l` and
/// `r`. Where they are compared the other way round (an immediate left
/// value: flags of `r - l`), an equality test still gives its result, and
/// an ordering gives the negation of the same ordering of `r` and `l`.
pub proof fn lemma_setcc_computes_the_comparison(kind: BinaryOperationKind, signed: bool, dst: Operand, l: u64, r: u64)
    requires
        compare_kind(kind),
    ensures
        set_condition(setcc_spec(kind, signed, false, dst), l, r) == compare_holds(kind, signed, l, r),
        (kind is CompareEqual || kind is CompareNotEqual) ==> set_condition(setcc_spec(kind, signed, true, dst), r, l)
            == compare_holds(kind, signed, r, l),
        !(kind is CompareEqual || kind is CompareNotEqual) ==> set_condition(setcc_spec(kind, signed, true, dst), r, l)
            == !compare_holds(kind, signed, r, l),
{
}

/// The value an arithmetic or logic instruction leaves in its destination,
/// which held `d`, given the value `s` of its source (64-bit, wrapping):
/// by the x86 instruction set. `None` for other instructions.
pub open spec fn alu_result(op: Opcode, d: u64, s: u64) -> Option<u64> {
    match op {
        Opcode::ADD(_, _) => Some(((d + s) % 0x1_0000_0000_0000_0000) as u64),
        Opcode::SUB(_, _) => Some(((d - s) % 0x1_0000_0000_0000_0000) as u64),
        Opcode::IMUL(_, _) => Some(((d * s) % 0x1_0000_0000_0000_0000) as u64),
        Opcode::AND(_, _) => Some(d & s),
        Opcode::OR(_, _) => Some(d | s),
        Opcode::XOR(_, _) => Some(d ^ s),
        _ => None,
    }
}

/// The value an arithmetic or logic node computes of the values `l` and
/// `r` of its left and right operands (64-bit, wrapping).
pub open spec fn arith_value(kind: BinaryOperationKind, l: u64, r: u64) -> u64 {
    match kind {
        BinaryOperationKind::Add(_, _) => ((l + r) % 0x1_0000_0000_0000_0000) as u64,
        BinaryOperationKind::Sub(_, _) => ((l - r) % 0x1_0000_0000_0000_0000) as u64,
        BinaryOperationKind::Multiply(_, _) => ((l * r) % 0x1_0000_0000_0000_0000) as u64,
        BinaryOperationKind::And(_, _) => l & r,
        BinaryOperationKind::Or(_, _) => l | r,
        _ => l ^ r,
    }
}

/// The code of an arithmetic or logic node computes it: the destination
/// first receives the left value, and the instruction that ends the code,
/// applied to it and the right value, leaves the node's value.
pub proof fn lemma_arith_code_computes(kind: BinaryOperationKind, src: Operand, dst: Operand, op: Operand, code: Seq<Instruction>, l: u64, r: u64)
    requires
        arith_kind(kind),
    ensures
        alu_result(arith_opcode(kind, src, dst), l, r) == Some(arith_value(kind, l, r)),
        lowering_ends_as(binary_node(kind), op, code) ==> alu_result(code.last().0, l, r) == Some(arith_value(kind, l, r)),
{
}

/// The code of a comparison computes it: where `a` holds the value `va` of
/// the right node and `b` the value `vb` of the left node, the `CMP` sets
/// the flags of its second operand's value less its first's, and the set
/// instruction after it stores 1 exactly when the comparison holds of `vb`
/// and `va`; against an immediate left value, compared the other way
/// round, an equality test still gives its result and an ordering the
/// negation of that ordering of `va` and `vb`.
pub proof fn lemma_compare_code_computes(kind: BinaryOperationKind, a: Operand, b: Operand, dst: Operand, code: Seq<Instruction>, va: u64, vb: u64)
    requires
        compare_kind(kind),
        compare_code(kind, a, b, dst, code),
    ensures
        ({
            let k = code.len();
            let cs = compare_is_signed(kind);
            &&& k >= 2
            &&& !(b.kind is Immediate) ==> (code[k - 2].0 matches Opcode::CMP(p, q) && q == b && (p == a || (k >= 3
                && code[k - 3].0 == Opcode::MOV(a, p))) && set_condition(code[k - 1].0, vb, va) == compare_holds(kind, cs, vb, va))
            &&& b.kind is Immediate ==> (code[k - 2] == Instruction(Opcode::CMP(b, a)) && set_condition(code[k - 1].0, va, vb) == (if kind
                is CompareEqual || kind is CompareNotEqual {
                compare_holds(kind, cs, va, vb)
            } else {
                !compare_holds(kind, cs, va, vb)
            }))
        }),
{
    lemma_setcc_computes_the_comparison(kind, compare_is_signed(kind), dst, vb, va);
}

/// The set instruction of a comparison: with `swapped` the operands were
/// compared the other way round.
fn compare_setcc(kind: &BinaryOperationKind, is_signed: bool, swapped: bool, dst: Operand) -> (r: Instruction)
    ensures
        forall|n: nat| operand_vregs_below(dst, n) ==> #[trigger] instruction_vregs_below(r, n),
        is_set_byte(r, dst),
        r == Instruction(setcc_spec(*kind, is_signed, swapped, dst)),
{
    let r = match (kind, is_signed, swapped) {
        (BinaryOperationKind::CompareEqual(_, _), _, _) => Instruction::sete(dst),
        (BinaryOperationKind::CompareNotEqual(_, _), _, _) => Instruction::setne(dst),
        (BinaryOperationKind::CompareLessThan(_, _), false, false) => Instruction::setb(dst),
        (BinaryOperationKind::CompareLessThanOrEqual(_, _), false, false) => Instruction::setbe(dst),
        (BinaryOperationKind::CompareGreaterThan(_, _), false, false) => Instruction::seta(dst),
        (BinaryOperationKind::CompareGreaterThanOrEqual(_, _), false, false) => Instruction::setae(dst),
        (BinaryOperationKind::CompareLessThan(_, _), true, false) => Instruction::setl(dst),
        (BinaryOperationKind::CompareLessThanOrEqual(_, _), true, false) => Instruction::setle(dst),
        (BinaryOperationKind::CompareGreaterThan(_, _), true, false) => Instruction::setg(dst),
        (BinaryOperationKind::CompareGreaterThanOrEqual(_, _), true, false) => Instruction::setge(dst),
        (BinaryOperationKind::CompareLessThan(_, _), false, true) => Instruction::setae(dst),
        (BinaryOperationKind::CompareLessThanOrEqual(_, _), false, true) => Instruction::seta(dst),
        (BinaryOperationKind::CompareGreaterThan(_, _), false, true) => Instruction::setbe(dst),
        (BinaryOperationKind::CompareGreaterThanOrEqual(_, _), false, true) => Instruction::setb(dst),
        (BinaryOperationKind::CompareLessThan(_, _), true, true) => Instruction::setge(dst),
        (BinaryOperationKind::CompareLessThanOrEqual(_, _), true, true) => Instruction::setg(dst),
        (BinaryOperationKind::CompareGreaterThan(_, _), true, true) => Instruction::setle(dst),
        (BinaryOperationKind::CompareGreaterThanOrEqual(_, _), true, true) => Instruction::setl(dst),
        _ => Instruction::sete(dst),
    };
    r
}

/// Whether an instruction sets a byte from the flags.
pub open spec fn is_set_byte(i: Instruction, dst: Operand) -> bool {
    match i.0 {
        Opcode::SETE(d) | Opcode::SETNE(d) | Opcode::SETB(d) | Opcode::SETBE(d) | Opcode::SETA(d) | Opcode::SETAE(d)
        | Opcode::SETL(d) | Opcode::SETLE(d) | Opcode::SETG(d) | Opcode::SETGE(d) => d == dst,
        _ => false,
    }
}

/// How the code that computes a node into `op` ends, for the kinds whose
/// last instructions are fixed: a complement moves the value and inverts
/// it; a logical negation compares with zero, sets the byte on equality and
/// keeps its low bit; an arithmetic or logic operation moves its left
/// operand and applies the operation with its right; a comparison compares
/// and sets the byte; a division divides RDX:RAX, the quotient being in RAX
/// and the remainder in RDX.
pub open spec fn lowering_ends_as(n: X86Node, op: Operand, code: Seq<Instruction>) -> bool {
    let k = code.len();
    match n.kind {
        NodeKind::UnaryOperation(UnaryOperationKind::Complement(_)) => k >= 2 && code[k - 1] == Instruction(Opcode::NOT(op))
            && (code[k - 2].0 matches Opcode::MOV(_, d) && d == op),
        NodeKind::UnaryOperation(UnaryOperationKind::Not(_)) => k >= 3 && code[k - 1] == Instruction(
            Opcode::AND(Operand { kind: OperandKind::Immediate(1), width_in_bits: op.width_in_bits }, op),
        ) && code[k - 2] == Instruction(Opcode::SETE(op)) && (code[k - 3].0 matches Opcode::CMP(z, _)
            && z.kind == OperandKind::Immediate(0)),
        NodeKind::BinaryOperation(b) => match b {
            BinaryOperationKind::Add(_, _) => k >= 2 && (code[k - 1].0 matches Opcode::ADD(_, d) && d == op) && (code[k
                - 2].0 matches Opcode::MOV(_, d) && d == op),
            BinaryOperationKind::Sub(_, _) => k >= 2 && (code[k - 1].0 matches Opcode::SUB(_, d) && d == op) && (code[k
                - 2].0 matches Opcode::MOV(_, d) && d == op),
            BinaryOperationKind::Or(_, _) => k >= 2 && (code[k - 1].0 matches Opcode::OR(_, d) && d == op) && (code[k
                - 2].0 matches Opcode::MOV(_, d) && d == op),
            BinaryOperationKind::Xor(_, _) => k >= 2 && (code[k - 1].0 matches Opcode::XOR(_, d) && d == op) && (code[k
                - 2].0 matches Opcode::MOV(_, d) && d == op),
            BinaryOperationKind::And(_, _) => k >= 2 && (code[k - 1].0 matches Opcode::AND(_, d) && d == op) && (code[k
                - 2].0 matches Opcode::MOV(_, d) && d == op),
            BinaryOperationKind::Multiply(_, _) => k >= 2 && (code[k - 1].0 matches Opcode::IMUL(_, d) && d == op) && (code[k
                - 2].0 matches Opcode::MOV(_, d) && d == op),
            BinaryOperationKind::Divide(_, _) => k >= 1 && (code[k - 1].0 matches Opcode::IDIV(_, lo, _) && lo == op)
                && op.kind == OperandKind::Register(Register::PhysicalRegister(PhysicalRegister::RAX)),
            BinaryOperationKind::Modulo(_, _) => k >= 1 && (code[k - 1].0 matches Opcode::IDIV(hi, _, _) && hi == op)
                && op.kind == OperandKind::Register(Register::PhysicalRegister(PhysicalRegister::RDX)),
            BinaryOperationKind::PowI(_, _) => true,
            _ => k >= 2 && is_set_byte(code[k - 1], op) && code[k - 2].0 is CMP && op.width_in_bits == Width::_8,
        },
        _ => true,
    }
}

impl X86Emitter {
    /// Appends a move, or reports operands of different widths.
    fn push_mov(&mut self, src: Operand, dst: Operand) -> (r: Result<(), X86Error>)
        requires
            old(self).wf(),
            operand_vregs_below(src, old(self).next_vreg_spec()),
            operand_vregs_below(dst, old(self).next_vreg_spec()),
        ensures
            final(self).wf(),
            final(self).frame_same(&*old(self)),
            final(self).next_vreg_spec() == old(self).next_vreg_spec(),
            final(self).cache_spec() == old(self).cache_spec(),
            r is Ok <==> src.width_in_bits == dst.width_in_bits,
            r matches Err(e) ==> e == X86Error::OperandWidthMismatch,
            r is Ok ==> final(self).current_instructions() == old(self).current_instructions().push(
                Instruction(Opcode::MOV(src, dst)),
            ),
            r is Err ==> final(self).current_instructions() == old(self).current_instructions(),
    {
        proof {
            X86Emitter::lemma_frame_same_refl(&*self);
        }
        match mov(src, dst) {
            Ok(i) => {
                self.push_instruction(i);
                Ok(())
            },
            Err(e) => Err(e),
        }
    }

    /// The operand of a node, computing it into the current block unless it
    /// was already computed there.
    pub fn to_operand(&mut self, node: &X86NodeRef) -> (r: Result<Operand, X86Error>)
        requires
            old(self).wf(),
            lower_ok(node.node()),
            cache_lookup(old(self).cache_spec(), node.id_spec()) is None ==> old(self).next_vreg_spec() + lower_budget(
                node.node(),
            ) <= usize::MAX,
        ensures
            lowers(*old(self), *final(self), lower_budget(node.node()), r),
            r matches Ok(op) ==> cache_lookup(final(self).cache_spec(), node.id_spec()) == Some(op),
            cache_lookup(old(self).cache_spec(), node.id_spec()) matches Some(op) ==> (r == Ok::<Operand, X86Error>(op)
                && *final(self) == *old(self)),
            cache_lookup(old(self).cache_spec(), node.id_spec()) is None ==> (node.node().kind matches NodeKind::Constant {
                value,
                width,
            } ==> r == Ok::<Operand, X86Error>(Operand { kind: OperandKind::Immediate(value), width_in_bits: Width::canonical(width) })
                && final(self).current_instructions() == old(self).current_instructions() && final(self).next_vreg_spec() == old(self).next_vreg_spec()),
            cache_lookup(old(self).cache_spec(), node.id_spec()) is None && leaf_node(node.node()) ==> (r matches Ok(op)
                && final(self).cache_spec() == old(self).cache_spec().push((node.id_spec(), op))),
            cache_lookup(old(self).cache_spec(), node.id_spec()) is None ==> (node.node().kind matches NodeKind::GuestRegister {
                offset,
            } ==> {
                let dst = Operand {
                    kind: OperandKind::Register(Register::VirtualRegister(old(self).next_vreg_spec() as usize)),
                    width_in_bits: Width::canonical(node.node().typ.width_spec()),
                };
                &&& r == Ok::<Operand, X86Error>(dst)
                &&& final(self).current_instructions() == old(self).current_instructions().push(
                    Instruction(Opcode::MOV(mem_at(dst.width_in_bits, PhysicalRegister::RBP, offset as i32), dst)),
                )
                &&& final(self).next_vreg_spec() == old(self).next_vreg_spec() + 1
            }),
            cache_lookup(old(self).cache_spec(), node.id_spec()) is None ==> (node.node().kind matches NodeKind::ReadStackVariable {
                offset,
                width,
            } ==> {
                let dst = Operand {
                    kind: OperandKind::Register(Register::VirtualRegister(old(self).next_vreg_spec() as usize)),
                    width_in_bits: Width::canonical(width),
                };
                &&& r == Ok::<Operand, X86Error>(dst)
                &&& final(self).current_instructions() == old(self).current_instructions().push(
                    Instruction(Opcode::MOV(mem_at(dst.width_in_bits, PhysicalRegister::R14, (-(offset as i32)) as i32), dst)),
                )
                &&& final(self).next_vreg_spec() == old(self).next_vreg_spec() + 1
            }),
            cache_lookup(old(self).cache_spec(), node.id_spec()) is None ==> (r matches Ok(op) ==> lowering_ends_as(
                node.node(),
                op,
                final(self).current_instructions(),
            )),
            lowers_infallibly(node.node()) ==> r is Ok,
            cache_lookup(old(self).cache_spec(), node.id_spec()) is None ==> (node.node().kind matches NodeKind::BinaryOperation(kind)
                ==> (r matches Ok(op) ==> (operands_of(kind).0.id_spec() != node.id_spec() && operands_of(kind).1.id_spec()
                != node.id_spec() ==> binary_lowering_ends_as(kind, op, final(self).cache_spec(), final(self).current_instructions())))),
        decreases node_size(node.node()), 3nat,
    {
        proof {
            X86Emitter::lemma_frame_same_refl(&*self);
        }
        if let Some(op) = self.cached(node.id()) {
            return Ok(op);
        }
        let r = match node.kind() {
            NodeKind::Constant { value, width } => Ok(Operand::imm(width_of(*width), *value)),
            NodeKind::GuestRegister { offset } => {
                let width = width_of(node.typ().width());
                let dst = self.fresh(width);
                let src = Operand::mem_base_displ(width, Register::PhysicalRegister(PhysicalRegister::RBP), *offset as i32);
                match self.push_mov(src, dst) {
                    Ok(()) => Ok(dst),
                    Err(e) => Err(e),
                }
            },
            NodeKind::ReadStackVariable { offset, width } => {
                let width = width_of(*width);
                let dst = self.fresh(width);
                let displacement: i32 = -(*offset as i32);
                let src = Operand::mem_base_displ(width, Register::PhysicalRegister(PhysicalRegister::R14), displacement);
                match self.push_mov(src, dst) {
                    Ok(()) => Ok(dst),
                    Err(e) => Err(e),
                }
            },
            NodeKind::ReadMemory { address } => {
                let width = width_of(node.typ().width());
                self.lower_read_memory(width, address)
            },
            NodeKind::UnaryOperation(kind) => match kind {
                UnaryOperationKind::Complement(value) => self.lower_complement(value),
                UnaryOperationKind::Not(value) => self.lower_not(value),
                UnaryOperationKind::Ceil(value) => self.lower_rounded_division(value, true),
                UnaryOperationKind::Floor(value) => self.lower_rounded_division(value, false),
                _ => Err(X86Error::InvalidOperandKinds),
            },
            NodeKind::BinaryOperation(kind) => {
                assert(node_size(binary_node(*kind)) == node_size(node.node()));
                assert(lower_ok(binary_node(*kind)) == lower_ok(node.node()));
                assert(lower_budget(binary_node(*kind)) == lower_budget(node.node()));
                self.binary_operation_to_operand(kind)
            },
            NodeKind::TernaryOperation(TernaryOperationKind::AddWithCarry(a, b, carry)) => self.lower_add_with_carry(
                a,
                b,
                carry,
            ),
            NodeKind::Cast { value, kind } => self.lower_cast(node.typ(), value, kind),
            NodeKind::Shift { value, amount, kind } => self.lower_shift(value, amount, kind),
            NodeKind::BitExtract { value, start, length } => self.lower_bit_extract(value, start, length),
            NodeKind::BitInsert { target, source, start, length } => self.lower_bit_insert(target, source, start, length),
            NodeKind::GetFlags { operation } => self.lower_get_flags(operation),
            NodeKind::Tuple(_) => Err(X86Error::InvalidOperandKinds),
            NodeKind::Select { condition, true_value, false_value } => self.lower_select(
                condition,
                true_value,
                false_value,
            ),
        };
        let ghost before = *self;
        match r {
            Ok(op) => {
                self.remember(node.id(), op);
                proof {
                    if let NodeKind::BinaryOperation(kind) = node.node().kind {
                        let (l, rn) = operands_of(kind);
                        if l.id_spec() != node.id_spec() && rn.id_spec() != node.id_spec() {
                            assert(self.cache_spec().drop_last() =~= before.cache_spec());
                            assert(cache_lookup(self.cache_spec(), l.id_spec()) == cache_lookup(before.cache_spec(), l.id_spec()));
                            assert(cache_lookup(self.cache_spec(), rn.id_spec()) == cache_lookup(before.cache_spec(), rn.id_spec()));
                        }
                    }
                }
                Ok(op)
            },
            Err(e) => Err(e),
        }
    }
}

impl X86Emitter {
    /// A load of `width` bits from the address a node computes; the address
    /// is masked first when the context asks for it.
    fn lower_read_memory(&mut self, width: Width, address: &X86NodeRef) -> (r: Result<Operand, X86Error>)
        requires
            old(self).wf(),
            lower_ok(address.node()),
            old(self).next_vreg_spec() + 2 + lower_budget(address.node()) <= usize::MAX,
        ensures
            lowers(*old(self), *final(self), 2 + lower_budget(address.node()), r),
        decreases 1 + node_size(address.node()), 2nat,
    {
        let address_op = match self.to_operand(address) {
            Ok(a) => a,
            Err(e) => return Err(e),
        };
        let address_reg = match address_op.kind() {
            OperandKind::Register(reg) => *reg,
            _ => return Err(X86Error::AddressNotInRegister),
        };
        let dest = self.fresh(width);
        if self.memory_mask() {
            let mask = self.fresh(Width::_64);
            match self.push_mov(Operand::imm(Width::_64, 0x0000_00FF_FFFF_FFFF), mask) {
                Ok(()) => {},
                Err(e) => return Err(e),
            }
            self.push_instruction(Instruction::and(mask, address_op));
        }
        match self.push_mov(Operand::mem_base_displ(width, address_reg, 0), dest) {
            Ok(()) => Ok(dest),
            Err(e) => Err(e),
        }
    }

    /// The bitwise complement of a value.
    fn lower_complement(&mut self, value: &X86NodeRef) -> (r: Result<Operand, X86Error>)
        requires
            old(self).wf(),
            sized(value.node().typ),
            lower_ok(value.node()),
            old(self).next_vreg_spec() + 2 + lower_budget(value.node()) <= usize::MAX,
        ensures
            lowers(*old(self), *final(self), 2 + lower_budget(value.node()), r),
            r matches Ok(op) ==> lowering_ends_as(
                X86Node { typ: Type::Bits, kind: NodeKind::UnaryOperation(UnaryOperationKind::Complement(*value)) },
                op,
                final(self).current_instructions(),
            ),
        decreases 1 + node_size(value.node()), 2nat,
    {
        let width = width_of(value.typ().width());
        let dst = self.fresh(width);
        let value = match self.to_operand(value) {
            Ok(v) => v,
            Err(e) => return Err(e),
        };
        match self.push_mov(value, dst) {
            Ok(()) => {},
            Err(e) => return Err(e),
        }
        self.push_instruction(Instruction::not(dst));
        Ok(dst)
    }

    /// The logical negation of a value: 1 where it is zero, else 0.
    fn lower_not(&mut self, value: &X86NodeRef) -> (r: Result<Operand, X86Error>)
        requires
            old(self).wf(),
            sized(value.node().typ),
            lower_ok(value.node()),
            old(self).next_vreg_spec() + 2 + lower_budget(value.node()) <= usize::MAX,
        ensures
            lowers(*old(self), *final(self), 2 + lower_budget(value.node()), r),
            r matches Ok(op) ==> lowering_ends_as(
                X86Node { typ: Type::Bits, kind: NodeKind::UnaryOperation(UnaryOperationKind::Not(*value)) },
                op,
                final(self).current_instructions(),
            ),
        decreases 1 + node_size(value.node()), 2nat,
    {
        let width = width_of(value.typ().width());
        let value = match self.to_operand(value) {
            Ok(v) => v,
            Err(e) => return Err(e),
        };
        let dst = self.fresh(width);
        self.push_instruction(Instruction::cmp(Operand::imm(width, 0), value));
        self.push_instruction(Instruction::sete(dst));
        self.push_instruction(Instruction::and(Operand::imm(width, 1), dst));
        Ok(dst)
    }

    /// The quotient of a rational (a pair of numerator and denominator),
    /// rounded up with `ceil`, else down.
    fn lower_rounded_division(&mut self, value: &X86NodeRef, ceil: bool) -> (r: Result<Operand, X86Error>)
        requires
            old(self).wf(),
            value.node().kind is Tuple,
            ({
                let vs = value.node().kind->Tuple_0@;
                &&& vs.len() == 2
                &&& sized(vs[0].node().typ)
                &&& vs[0].node().typ.width_spec() == vs[1].node().typ.width_spec()
                &&& lower_ok(vs[0].node())
                &&& lower_ok(vs[1].node())
            }),
            old(self).next_vreg_spec() + 8 + lower_budget(value.node()) <= usize::MAX,
        ensures
            lowers(*old(self), *final(self), 8 + lower_budget(value.node()), r),
        decreases 1 + node_size(value.node()), 2nat,
    {
        let vs = match value.kind() {
            NodeKind::Tuple(vs) => vs,
            _ => return Err(X86Error::InvalidOperandKinds),
        };
        proof {
            lemma_pair_sizes(vs@);
        }
        let num_node = &vs[0];
        let den_node = &vs[1];
        let width = width_of(num_node.typ().width());
        let num = match self.to_operand(num_node) {
            Ok(v) => v,
            Err(e) => return Err(e),
        };
        let den = match self.to_operand(den_node) {
            Ok(v) => v,
            Err(e) => return Err(e),
        };
        let divisor = self.fresh(width);
        let rax = Operand::preg(width, PhysicalRegister::RAX);
        let rdx = Operand::preg(width, PhysicalRegister::RDX);
        self.push_instruction(Instruction::xor(rdx, rdx));
        match self.push_mov(num, rax) {
            Ok(()) => {},
            Err(e) => return Err(e),
        }
        match self.push_mov(den, divisor) {
            Ok(()) => {},
            Err(e) => return Err(e),
        }
        self.push_instruction(Instruction::idiv(rdx, rax, divisor));
        let quotient = self.fresh(width);
        let remainder = self.fresh(width);
        match self.push_mov(rax, quotient) {
            Ok(()) => {},
            Err(e) => return Err(e),
        }
        match self.push_mov(rdx, remainder) {
            Ok(()) => {},
            Err(e) => return Err(e),
        }
        let nz = self.fresh(Width::_8);
        let sign = self.fresh(Width::_8);
        self.push_instruction(Instruction::test(remainder, remainder));
        self.push_instruction(Instruction::setnz(nz));
        self.push_instruction(Instruction::test(num, num));
        if ceil {
            self.push_instruction(Instruction::setg(sign));
        } else {
            self.push_instruction(Instruction::sets(sign));
        }
        self.push_instruction(Instruction::and(sign, nz));
        let mask = self.fresh(width);
        if !narrower(Width::_8, width) {
            return Err(X86Error::OperandWidthMismatch);
        }
        self.push_instruction(Instruction::movzx(nz, mask));
        if ceil {
            self.push_instruction(Instruction::add(mask, quotient));
        } else {
            self.push_instruction(Instruction::sub(mask, quotient));
        }
        Ok(quotient)
    }

    /// An addition of two values and a carry bit.
    fn lower_add_with_carry(&mut self, a: &X86NodeRef, b: &X86NodeRef, carry: &X86NodeRef) -> (r: Result<Operand, X86Error>)
        requires
            old(self).wf(),
            sized(a.node().typ),
            lower_ok(a.node()),
            lower_ok(b.node()),
            lower_ok(carry.node()),
            old(self).next_vreg_spec() + 2 + lower_budget(a.node()) + lower_budget(b.node()) + lower_budget(carry.node())
                <= usize::MAX,
        ensures
            lowers(
                *old(self),
                *final(self),
                2 + lower_budget(a.node()) + lower_budget(b.node()) + lower_budget(carry.node()),
                r,
            ),
        decreases 1 + node_size(a.node()) + node_size(b.node()) + node_size(carry.node()), 2nat,
    {
        let a_width = width_of(a.typ().width());
        let dst = self.fresh(a_width);
        let a = match self.to_operand(a) {
            Ok(v) => v,
            Err(e) => return Err(e),
        };
        let b = match self.to_operand(b) {
            Ok(v) => v,
            Err(e) => return Err(e),
        };
        let carry = match self.to_operand(carry) {
            Ok(v) => v,
            Err(e) => return Err(e),
        };
        match self.push_mov(b, dst) {
            Ok(()) => {},
            Err(e) => return Err(e),
        }
        self.push_instruction(Instruction::adc(a, dst, carry));
        Ok(dst)
    }

    /// A value cast to `target` bits.
    fn lower_cast(&mut self, target: &Type, value: &X86NodeRef, kind: &CastOperationKind) -> (r: Result<Operand, X86Error>)
        requires
            old(self).wf(),
            sized(*target),
            *target == value.node().typ || *kind == CastOperationKind::ZeroExtend || *kind == CastOperationKind::SignExtend
                || *kind == CastOperationKind::Truncate || *kind == CastOperationKind::Reinterpret,
            lower_ok(value.node()),
            old(self).next_vreg_spec() + 2 + lower_budget(value.node()) <= usize::MAX,
        ensures
            lowers(*old(self), *final(self), 2 + lower_budget(value.node()), r),
        decreases 1 + node_size(value.node()), 2nat,
    {
        let target_width = width_of(target.width());
        let dst = self.fresh(target_width);
        let src = match self.to_operand(value) {
            Ok(v) => v,
            Err(e) => return Err(e),
        };
        let moved = if *target == *value.typ() {
            self.push_mov(src, dst)
        } else {
            match kind {
                CastOperationKind::ZeroExtend => {
                    if src.width() == dst.width() {
                        self.push_mov(src, dst)
                    } else if narrower(src.width(), dst.width()) {
                        self.push_instruction(Instruction::movzx(src, dst));
                        Ok(())
                    } else {
                        Err(X86Error::OperandWidthMismatch)
                    }
                },
                CastOperationKind::SignExtend => {
                    if src.width() == dst.width() {
                        self.push_mov(src, dst)
                    } else if narrower(src.width(), dst.width()) {
                        self.push_instruction(Instruction::movsx(src, dst));
                        Ok(())
                    } else {
                        Err(X86Error::OperandWidthMismatch)
                    }
                },
                CastOperationKind::Truncate => {
                    if narrower(src.width(), dst.width()) {
                        Err(X86Error::OperandWidthMismatch)
                    } else {
                        let narrowed = Operand { kind: src.kind, width_in_bits: dst.width_in_bits };
                        self.push_mov(narrowed, dst)
                    }
                },
                CastOperationKind::Reinterpret => {
                    if src.width() == dst.width() {
                        self.push_mov(src, dst)
                    } else if narrower(src.width(), dst.width()) {
                        self.push_instruction(Instruction::movzx(src, dst));
                        Ok(())
                    } else {
                        let narrowed = Operand { kind: src.kind, width_in_bits: dst.width_in_bits };
                        self.push_mov(narrowed, dst)
                    }
                },
                _ => Err(X86Error::InvalidOperandKinds),
            }
        };
        match moved {
            Ok(()) => Ok(dst),
            Err(e) => Err(e),
        }
    }

    /// A value shifted by an amount; an amount in a register is moved to CL.
    fn lower_shift(&mut self, value: &X86NodeRef, amount: &X86NodeRef, kind: &ShiftOperationKind) -> (r: Result<Operand, X86Error>)
        requires
            old(self).wf(),
            *kind == ShiftOperationKind::LogicalShiftLeft || *kind == ShiftOperationKind::LogicalShiftRight || *kind
                == ShiftOperationKind::ArithmeticShiftRight,
            lower_ok(value.node()),
            lower_ok(amount.node()),
            old(self).next_vreg_spec() + 2 + lower_budget(value.node()) + lower_budget(amount.node()) <= usize::MAX,
        ensures
            lowers(*old(self), *final(self), 2 + lower_budget(value.node()) + lower_budget(amount.node()), r),
        decreases 1 + node_size(value.node()) + node_size(amount.node()), 2nat,
    {
        let mut amount = match self.to_operand(amount) {
            Ok(v) => v,
            Err(e) => return Err(e),
        };
        let value = match self.to_operand(value) {
            Ok(v) => v,
            Err(e) => return Err(e),
        };
        let dst = self.fresh(value.width());
        match self.push_mov(value, dst) {
            Ok(()) => {},
            Err(e) => return Err(e),
        }
        if let OperandKind::Register(_) = amount.kind() {
            let truncated = Operand { kind: amount.kind, width_in_bits: Width::_8 };
            let amount_dst = Operand::preg(Width::_8, PhysicalRegister::RCX);
            match self.push_mov(truncated, amount_dst) {
                Ok(()) => {},
                Err(e) => return Err(e),
            }
            amount = amount_dst;
        }
        match kind {
            ShiftOperationKind::LogicalShiftLeft => {
                self.push_instruction(Instruction::shl(amount, dst));
            },
            ShiftOperationKind::LogicalShiftRight => {
                self.push_instruction(Instruction::shr(amount, dst));
            },
            ShiftOperationKind::ArithmeticShiftRight => {
                self.push_instruction(Instruction::sar(amount, dst));
            },
            _ => {
                return Err(X86Error::InvalidOperandKinds);
            },
        }
        Ok(dst)
    }

    /// A bit field of a value, extracted with BEXTR: the control operand
    /// holds the start in its low byte and the length in the next.
    fn lower_bit_extract(&mut self, value: &X86NodeRef, start: &X86NodeRef, length: &X86NodeRef) -> (r: Result<Operand, X86Error>)
        requires
            old(self).wf(),
            value.node().kind is Constant ==> sized(value.node().typ),
            lower_ok(value.node()),
            lower_ok(start.node()),
            lower_ok(length.node()),
            old(self).next_vreg_spec() + 8 + lower_budget(value.node()) + lower_budget(start.node()) + lower_budget(
                length.node(),
            ) <= usize::MAX,
        ensures
            lowers(
                *old(self),
                *final(self),
                8 + lower_budget(value.node()) + lower_budget(start.node()) + lower_budget(length.node()),
                r,
            ),
        decreases 1 + node_size(value.node()) + node_size(start.node()) + node_size(length.node()), 2nat,
    {
        let mut value_op = if let NodeKind::Constant { .. } = value.kind() {
            let width = width_of(value.typ().width());
            let value_reg = self.fresh(width);
            let value_imm = match self.to_operand(value) {
                Ok(v) => v,
                Err(e) => return Err(e),
            };
            match self.push_mov(value_imm, value_reg) {
                Ok(()) => {},
                Err(e) => return Err(e),
            }
            value_reg
        } else {
            match self.to_operand(value) {
                Ok(v) => v,
                Err(e) => return Err(e),
            }
        };
        if narrower(value_op.width(), Width::_64) {
            let tmp = self.fresh(Width::_64);
            self.push_instruction(Instruction::movzx(value_op, tmp));
            value_op = tmp;
        }
        let start = match self.to_operand(start) {
            Ok(v) => v,
            Err(e) => return Err(e),
        };
        let length = match self.to_operand(length) {
            Ok(v) => v,
            Err(e) => return Err(e),
        };
        let mask = Operand::imm(Width::_64, 0xff);
        let start_dst = self.fresh(Width::_64);
        match self.push_mov(start, start_dst) {
            Ok(()) => {},
            Err(e) => return Err(e),
        }
        self.push_instruction(Instruction::and(mask, start_dst));
        let length_dst = self.fresh(Width::_64);
        match self.push_mov(length, length_dst) {
            Ok(()) => {},
            Err(e) => return Err(e),
        }
        self.push_instruction(Instruction::and(mask, length_dst));
        self.push_instruction(Instruction::shl(Operand::imm(Width::_8, 8), length_dst));
        let control = self.fresh(Width::_64);
        match self.push_mov(start_dst, control) {
            Ok(()) => {},
            Err(e) => return Err(e),
        }
        self.push_instruction(Instruction::or(length_dst, control));
        let dst = self.fresh(Width::_64);
        self.push_instruction(Instruction::bextr(control, value_op, dst));
        Ok(dst)
    }

    /// A bit field of `source` written into `target`.
    #[verifier::rlimit(30)]
    fn lower_bit_insert(
        &mut self,
        target: &X86NodeRef,
        source: &X86NodeRef,
        start: &X86NodeRef,
        length: &X86NodeRef,
    ) -> (r: Result<Operand, X86Error>)
        requires
            old(self).wf(),
            lower_ok(target.node()),
            lower_ok(source.node()),
            lower_ok(start.node()),
            lower_ok(length.node()),
            old(self).next_vreg_spec() + 8 + lower_budget(target.node()) + lower_budget(source.node()) + lower_budget(
                start.node(),
            ) + lower_budget(length.node()) <= usize::MAX,
        ensures
            lowers(
                *old(self),
                *final(self),
                8 + lower_budget(target.node()) + lower_budget(source.node()) + lower_budget(start.node()) + lower_budget(
                    length.node(),
                ),
                r,
            ),
        decreases 1 + node_size(target.node()) + node_size(source.node()) + node_size(start.node()) + node_size(
            length.node(),
        ), 2nat,
    {
        let target = match self.to_operand(target) {
            Ok(v) => v,
            Err(e) => return Err(e),
        };
        let source = match self.to_operand(source) {
            Ok(v) => v,
            Err(e) => return Err(e),
        };
        let start = match self.to_operand(start) {
            Ok(v) => v,
            Err(e) => return Err(e),
        };
        let length = match self.to_operand(length) {
            Ok(v) => v,
            Err(e) => return Err(e),
        };
        let source = if source.width() == target.width() {
            source
        } else if !narrower(source.width(), target.width()) {
            return Err(X86Error::OperandWidthMismatch);
        } else {
            let new_source = self.fresh(target.width());
            self.push_instruction(Instruction::movzx(source, new_source));
            new_source
        };
        let width = target.width();
        let mask = self.fresh(width);
        if matches!(length.kind(), OperandKind::Immediate(64)) {
            match self.push_mov(Operand::imm(width, 0), mask) {
                Ok(()) => {},
                Err(e) => return Err(e),
            }
        } else {
            match self.push_mov(Operand::imm(width, 1), mask) {
                Ok(()) => {},
                Err(e) => return Err(e),
            }
            self.push_instruction(Instruction::shl(length, mask));
            self.push_instruction(Instruction::sub(Operand::imm(width, 1), mask));
            self.push_instruction(Instruction::shl(start, mask));
            self.push_instruction(Instruction::not(mask));
        }
        let masked_target = self.fresh(width);
        match self.push_mov(target, masked_target) {
            Ok(()) => {},
            Err(e) => return Err(e),
        }
        self.push_instruction(Instruction::and(mask, masked_target));
        let shifted_source = self.fresh(width);
        match self.push_mov(source, shifted_source) {
            Ok(()) => {},
            Err(e) => return Err(e),
        }
        self.push_instruction(Instruction::shl(start, shifted_source));
        let invert_mask = self.fresh(width);
        match self.push_mov(mask, invert_mask) {
            Ok(()) => {},
            Err(e) => return Err(e),
        }
        self.push_instruction(Instruction::not(invert_mask));
        self.push_instruction(Instruction::and(invert_mask, shifted_source));
        self.push_instruction(Instruction::or(shifted_source, masked_target));
        Ok(masked_target)
    }

    /// One of two values, chosen by a condition with CMOVNE.
    fn lower_select(&mut self, condition: &X86NodeRef, true_value: &X86NodeRef, false_value: &X86NodeRef) -> (r: Result<Operand, X86Error>)
        requires
            old(self).wf(),
            sized(true_value.node().typ),
            lower_ok(condition.node()),
            lower_ok(true_value.node()),
            lower_ok(false_value.node()),
            old(self).next_vreg_spec() + 4 + lower_budget(condition.node()) + lower_budget(true_value.node()) + lower_budget(
                false_value.node(),
            ) <= usize::MAX,
        ensures
            lowers(
                *old(self),
                *final(self),
                4 + lower_budget(condition.node()) + lower_budget(true_value.node()) + lower_budget(false_value.node()),
                r,
            ),
        decreases 1 + node_size(condition.node()) + node_size(true_value.node()) + node_size(false_value.node()), 2nat,
    {
        let width = width_of(true_value.typ().width());
        let dest = self.fresh(width);
        let condition = match self.to_operand(condition) {
            Ok(v) => v,
            Err(e) => return Err(e),
        };
        let true_value = match self.to_operand_reg_promote(true_value) {
            Ok(v) => v,
            Err(e) => return Err(e),
        };
        let false_value = match self.to_operand(false_value) {
            Ok(v) => v,
            Err(e) => return Err(e),
        };
        match self.push_mov(false_value, dest) {
            Ok(()) => {},
            Err(e) => return Err(e),
        }
        self.push_instruction(Instruction::test(condition, condition));
        self.push_instruction(Instruction::cmovne(true_value, dest));
        Ok(dest)
    }

    /// Same as `to_operand`, but a constant is moved to a register.
    pub fn to_operand_reg_promote(&mut self, node: &X86NodeRef) -> (r: Result<Operand, X86Error>)
        requires
            old(self).wf(),
            lower_ok(node.node()),
            node.node().kind is Constant ==> sized(node.node().typ),
            old(self).next_vreg_spec() + 1 + lower_budget(node.node()) <= usize::MAX,
        ensures
            lowers(*old(self), *final(self), 1 + lower_budget(node.node()), r),
            node.node().kind is Constant ==> (r matches Ok(op) ==> op.kind is Register),
        decreases node_size(node.node()), 4nat,
    {
        if let NodeKind::Constant { .. } = node.kind() {
            let width = width_of(node.typ().width());
            let value_reg = self.fresh(width);
            let value_imm = match self.to_operand(node) {
                Ok(v) => v,
                Err(e) => return Err(e),
            };
            match self.push_mov(value_imm, value_reg) {
                Ok(()) => Ok(value_reg),
                Err(e) => Err(e),
            }
        } else {
            self.to_operand(node)
        }
    }

    /// Same as `to_operand`, but an immediate above `i32::MAX` is moved to a
    /// register.
    pub fn to_operand_oversize_reg_promote(&mut self, node: &X86NodeRef) -> (r: Result<Operand, X86Error>)
        requires
            old(self).wf(),
            lower_ok(node.node()),
            old(self).next_vreg_spec() + 1 + lower_budget(node.node()) <= usize::MAX,
        ensures
            lowers(*old(self), *final(self), 1 + lower_budget(node.node()), r),
            r matches Ok(op) ==> (op.kind matches OperandKind::Immediate(v) ==> v <= i32::MAX),
            leaf_node(node.node()) ==> r is Ok,
            r matches Ok(op) ==> (cache_lookup(final(self).cache_spec(), node.id_spec()) matches Some(c) && (!wide_immediate(c) ==> op
                == c)),
            leaf_node(node.node()) ==> (final(self).cache_spec() == old(self).cache_spec() || (cache_lookup(
                old(self).cache_spec(),
                node.id_spec(),
            ) is None && final(self).cache_spec() == old(self).cache_spec().push((node.id_spec(), final(self).cache_spec().last().1)))),
        decreases node_size(node.node()), 4nat,
    {
        let op = match self.to_operand(node) {
            Ok(v) => v,
            Err(e) => return Err(e),
        };
        if let OperandKind::Immediate(value) = op.kind() {
            if *value > 0x7fff_ffff {
                let tmp = self.fresh(op.width());
                return match self.push_mov(op, tmp) {
                    Ok(()) => Ok(tmp),
                    Err(e) => Err(e),
                };
            }
        }
        Ok(op)
    }
}

/// Appends an instruction to a list whose instructions name only virtual
/// registers below `bound`.
fn push_checked(v: &mut Vec<Instruction>, i: Instruction, Ghost(bound): Ghost<nat>)
    requires
        forall|k: int| 0 <= k < old(v)@.len() ==> instruction_vregs_below(#[trigger] old(v)@[k], bound),
        instruction_vregs_below(i, bound),
    ensures
        final(v)@ == old(v)@.push(i),
        forall|k: int| 0 <= k < final(v)@.len() ==> instruction_vregs_below(#[trigger] final(v)@[k], bound),
{
    v.push(i);
}

/// The instructions that pack the N, Z, C and V flags into `dest`, bit 3
/// down to bit 0, through the byte registers `n`, `z`, `c` and `v`.
fn flag_sequence(n: Operand, z: Operand, c: Operand, v: Operand, dest: Operand, Ghost(bound): Ghost<nat>) -> (r: Vec<
    Instruction,
>)
    requires
        operand_vregs_below(n, bound),
        operand_vregs_below(z, bound),
        operand_vregs_below(c, bound),
        operand_vregs_below(v, bound),
        operand_vregs_below(dest, bound),
    ensures
        r@.len() == 12,
        forall|k: int| 0 <= k < r@.len() ==> instruction_vregs_below(#[trigger] r@[k], bound),
{
    let one = Operand::imm(Width::_8, 1);
    let mut r: Vec<Instruction> = Vec::new();
    push_checked(&mut r, Instruction::sets(n), Ghost(bound));
    push_checked(&mut r, Instruction::sete(z), Ghost(bound));
    push_checked(&mut r, Instruction::setc(c), Ghost(bound));
    push_checked(&mut r, Instruction::seto(v), Ghost(bound));
    push_checked(&mut r, Instruction::xor(dest, dest), Ghost(bound));
    push_checked(&mut r, Instruction::or(n, dest), Ghost(bound));
    push_checked(&mut r, Instruction::shl(one, dest), Ghost(bound));
    push_checked(&mut r, Instruction::or(z, dest), Ghost(bound));
    push_checked(&mut r, Instruction::shl(one, dest), Ghost(bound));
    push_checked(&mut r, Instruction::or(c, dest), Ghost(bound));
    push_checked(&mut r, Instruction::shl(one, dest), Ghost(bound));
    push_checked(&mut r, Instruction::or(v, dest), Ghost(bound));
    r
}

impl X86Emitter {
    /// The N, Z, C and V flags of the add-with-carry that computed
    /// `operation`, packed into a byte (N in bit 3). Where the operation was
    /// computed already, the flags are read right after it.
    fn lower_get_flags(&mut self, operation: &X86NodeRef) -> (r: Result<Operand, X86Error>)
        requires
            old(self).wf(),
            lower_ok(operation.node()),
            old(self).next_vreg_spec() + 8 + 2 * lower_budget(operation.node()) <= usize::MAX,
        ensures
            lowers(*old(self), *final(self), 8 + 2 * lower_budget(operation.node()), r),
        decreases 1 + node_size(operation.node()), 2nat,
    {
        let n = self.fresh(Width::_8);
        let z = self.fresh(Width::_8);
        let c = self.fresh(Width::_8);
        let v = self.fresh(Width::_8);
        let dest = self.fresh(Width::_8);
        let ghost bound = self.next_vreg_spec();
        let instrs = flag_sequence(n, z, c, v, dest, Ghost(bound));
        let ghost start = *self;
        proof {
            X86Emitter::lemma_frame_same_refl(&*self);
        }
        match self.cached(operation.id()) {
            Some(operation_operand) => {
                match self.last_adc() {
                    None => {
                        return Err(X86Error::MissingCarryOperation);
                    },
                    Some((index, adc_dst)) => {
                        if adc_dst != operation_operand {
                            return Err(X86Error::MissingCarryOperation);
                        }
                        let mut k: usize = 12;
                        while k > 0
                            invariant
                                k <= 12,
                                instrs@.len() == 12,
                                forall|j: int| 0 <= j < 12 ==> instruction_vregs_below(#[trigger] instrs@[j], bound),
                                self.wf(),
                                self.frame_same(&start),
                                self.next_vreg_spec() == bound,
                                index < start.current_instructions().len(),
                                index < usize::MAX,
                                self.current_instructions().len() >= start.current_instructions().len(),
                            decreases k,
                        {
                            k = k - 1;
                            self.insert_instruction(index + 1, instrs[k]);
                        }
                    },
                }
            },
            None => {
                match self.to_operand(operation) {
                    Ok(_) => {},
                    Err(e) => return Err(e),
                }
                let ghost mid = *self;
                proof {
                    X86Emitter::lemma_frame_same_refl(&*self);
                }
                let mut k: usize = 0;
                while k < 12
                    invariant
                        k <= 12,
                        instrs@.len() == 12,
                        forall|j: int| 0 <= j < 12 ==> instruction_vregs_below(#[trigger] instrs@[j], bound),
                        self.wf(),
                        self.frame_same(&mid),
                        bound <= self.next_vreg_spec(),
                        self.next_vreg_spec() == mid.next_vreg_spec(),
                    decreases 12 - k,
                {
                    proof {
                        lemma_instruction_vregs_mono(instrs@[k as int], bound, self.next_vreg_spec());
                    }
                    self.push_instruction(instrs[k]);
                    k = k + 1;
                }
            },
        }
        if !self.ends_with_adc() {
            match self.to_operand(operation) {
                Ok(_) => {},
                Err(e) => return Err(e),
            }
        }
        Ok(dest)
    }

    /// A binary operation of two operands: comparisons set a byte, the
    /// arithmetic and logic operations compute into a fresh register, and
    /// division and remainder go through RDX:RAX.
    fn binary_operation_to_operand(&mut self, kind: &BinaryOperationKind) -> (r: Result<Operand, X86Error>)
        requires
            old(self).wf(),
            lower_ok(binary_node(*kind)),
            old(self).next_vreg_spec() + lower_budget(binary_node(*kind)) <= usize::MAX,
        ensures
            lowers(*old(self), *final(self), lower_budget(binary_node(*kind)), r),
            r matches Ok(op) ==> lowering_ends_as(binary_node(*kind), op, final(self).current_instructions()),
            ({
                let (l, rn) = operands_of(*kind);
                arith_kind(*kind) && l.node().typ is Unsigned && rn.node().typ is Unsigned && leaf_node(l.node()) && leaf_node(
                    rn.node(),
                ) ==> r is Ok
            }),
            r matches Ok(dst) ==> binary_lowering_ends_as(*kind, dst, final(self).cache_spec(), final(self).current_instructions()),
        decreases node_size(binary_node(*kind)), 2nat,
    {
        match kind {
            BinaryOperationKind::CompareEqual(_, _) | BinaryOperationKind::CompareNotEqual(_, _)
            | BinaryOperationKind::CompareLessThan(_, _) | BinaryOperationKind::CompareLessThanOrEqual(_, _)
            | BinaryOperationKind::CompareGreaterThan(_, _) | BinaryOperationKind::CompareGreaterThanOrEqual(_, _) => {
                return self.encode_compare(kind);
            },
            _ => {},
        }
        let (l, r) = operand_pair(kind);
        let (left, right) = match self.lower_operand_pair(l, r) {
            Ok(p) => p,
            Err(e) => return Err(e),
        };
        let ghost mid = *self;
        let width = left.width();
        if right.width() != width {
            return Err(X86Error::OperandWidthMismatch);
        }
        let dst = self.fresh(width);
        let computed = match kind {
            BinaryOperationKind::Add(_, _) => match self.push_mov(left, dst) {
                Ok(()) => {
                    self.push_instruction(Instruction::add(right, dst));
                    Ok(dst)
                },
                Err(e) => Err(e),
            },
            BinaryOperationKind::Sub(_, _) => match self.push_mov(left, dst) {
                Ok(()) => {
                    self.push_instruction(Instruction::sub(right, dst));
                    Ok(dst)
                },
                Err(e) => Err(e),
            },
            BinaryOperationKind::Or(_, _) => match self.push_mov(left, dst) {
                Ok(()) => {
                    self.push_instruction(Instruction::or(right, dst));
                    Ok(dst)
                },
                Err(e) => Err(e),
            },
            BinaryOperationKind::Xor(_, _) => match self.push_mov(left, dst) {
                Ok(()) => {
                    self.push_instruction(Instruction::xor(right, dst));
                    Ok(dst)
                },
                Err(e) => Err(e),
            },
            BinaryOperationKind::Multiply(_, _) => match self.push_mov(left, dst) {
                Ok(()) => {
                    self.push_instruction(Instruction::imul(right, dst));
                    Ok(dst)
                },
                Err(e) => Err(e),
            },
            BinaryOperationKind::And(_, _) => match self.push_mov(left, dst) {
                Ok(()) => {
                    self.push_instruction(Instruction::and(right, dst));
                    Ok(dst)
                },
                Err(e) => Err(e),
            },
            BinaryOperationKind::Divide(dividend, divisor) => self.lower_division(width, dividend, divisor, false),
            BinaryOperationKind::Modulo(dividend, divisor) => self.lower_division(width, dividend, divisor, true),
            _ => Err(X86Error::InvalidOperandKinds),
        };
        proof {
            if arith_kind(*kind) && leaf_node(r.node()) && computed is Ok {
                let code = self.current_instructions();
                let k = code.len();
                assert(self.cache_spec() == mid.cache_spec());
                assert(code.take(k - 2) =~= mid.current_instructions());
                let cl = cache_lookup(mid.cache_spec(), l.id_spec())->0;
                let cr = cache_lookup(mid.cache_spec(), r.id_spec())->0;
                if !wide_immediate(cl) && !wide_immediate(cr) {
                    assert(operand_pair_form(l.node().typ, r.node().typ, cl, cr, left, right, code.take(k - 2)));
                }
            }
        }
        computed
    }

    /// The operands of an arithmetic or logic operation, of one width: an
    /// unsigned operand narrower than the other is zero-extended (and the
    /// operands then trade places), a narrower signed left operand is
    /// sign-extended.
    fn lower_operand_pair(&mut self, l: &X86NodeRef, r: &X86NodeRef) -> (res: Result<(Operand, Operand), X86Error>)
        requires
            old(self).wf(),
            arith_types_ok(l.node().typ, r.node().typ),
            lower_ok(l.node()),
            lower_ok(r.node()),
            old(self).next_vreg_spec() + 3 + lower_budget(l.node()) + lower_budget(r.node()) <= usize::MAX,
        ensures
            lowering_step(*old(self), *final(self), 3 + lower_budget(l.node()) + lower_budget(r.node())),
            res matches Ok((a, b)) ==> operand_vregs_below(a, final(self).next_vreg_spec()) && operand_vregs_below(
                b,
                final(self).next_vreg_spec(),
            ),
            res matches Err(e) ==> lowering_error(e),
            l.node().typ is Unsigned && r.node().typ is Unsigned ==> (res matches Ok((a, b)) ==> a.width_in_bits == b.width_in_bits),
            l.node().typ is Unsigned && r.node().typ is Unsigned && leaf_node(l.node()) && leaf_node(r.node()) ==> res is Ok,
            leaf_node(r.node()) ==> (res matches Ok((a, b)) ==> (cache_lookup(final(self).cache_spec(), l.id_spec()) matches Some(
                cl,
            ) && cache_lookup(final(self).cache_spec(), r.id_spec()) matches Some(cr) && (!wide_immediate(cl) && !wide_immediate(cr)
                ==> operand_pair_form(l.node().typ, r.node().typ, cl, cr, a, b, final(self).current_instructions())))),
        decreases 1 + node_size(l.node()) + node_size(r.node()), 1nat,
    {
        proof {
            X86Emitter::lemma_frame_same_refl(&*self);
        }
        let left = match self.to_operand_oversize_reg_promote(l) {
            Ok(v) => v,
            Err(e) => return Err(e),
        };
        let ghost s1 = *self;
        let right = match self.to_operand_oversize_reg_promote(r) {
            Ok(v) => v,
            Err(e) => return Err(e),
        };
        proof {
            if leaf_node(r.node()) && self.cache_spec() != s1.cache_spec() {
                assert(self.cache_spec().drop_last() =~= s1.cache_spec());
                assert(l.id_spec() != r.id_spec());
                assert(cache_lookup(self.cache_spec(), l.id_spec()) == cache_lookup(s1.cache_spec(), l.id_spec()));
            }
        }
        match (l.typ(), r.typ()) {
            (Type::Unsigned(_), Type::Unsigned(_)) => {
                if narrower(left.width(), right.width()) {
                    let tmp = self.fresh(right.width());
                    self.push_instruction(Instruction::movzx(left, tmp));
                    Ok((right, tmp))
                } else if left.width() == right.width() {
                    Ok((left, right))
                } else {
                    let tmp = self.fresh(left.width());
                    self.push_instruction(Instruction::movzx(right, tmp));
                    Ok((left, tmp))
                }
            },
            (Type::Signed(a), Type::Signed(b)) => {
                if *a < *b {
                    if !narrower(left.width(), right.width()) {
                        return Err(X86Error::OperandWidthMismatch);
                    }
                    let tmp = self.fresh(right.width());
                    self.push_instruction(Instruction::movsx(left, tmp));
                    Ok((tmp, right))
                } else {
                    Ok((left, right))
                }
            },
            _ => {
                if left.width() == right.width() {
                    Ok((left, right))
                } else {
                    Err(X86Error::OperandWidthMismatch)
                }
            },
        }
    }

    /// A signed division through RDX:RAX: the quotient, or with `remainder`
    /// the remainder.
    fn lower_division(&mut self, width: Width, dividend: &X86NodeRef, divisor: &X86NodeRef, remainder: bool) -> (r: Result<
        Operand,
        X86Error,
    >)
        requires
            old(self).wf(),
            lower_ok(dividend.node()),
            lower_ok(divisor.node()),
            sized(divisor.node().typ),
            old(self).next_vreg_spec() + 1 + lower_budget(dividend.node()) + lower_budget(divisor.node()) <= usize::MAX,
        ensures
            lowers(*old(self), *final(self), 1 + lower_budget(dividend.node()) + lower_budget(divisor.node()), r),
            r matches Ok(op) ==> {
                let code = final(self).current_instructions();
                &&& code.len() >= 1
                &&& code.last().0 matches Opcode::IDIV(hi, lo, _) && op == (if remainder { hi } else { lo }) && hi == (Operand { kind: OperandKind::Register(Register::PhysicalRegister(PhysicalRegister::RDX)), width_in_bits: width }) && lo == (Operand { kind: OperandKind::Register(Register::PhysicalRegister(PhysicalRegister::RAX)), width_in_bits: width })
            },
        decreases 1 + node_size(dividend.node()) + node_size(divisor.node()), 1nat,
    {
        let dividend = match self.to_operand(dividend) {
            Ok(v) => v,
            Err(e) => return Err(e),
        };
        let divisor = match self.to_operand_reg_promote(divisor) {
            Ok(v) => v,
            Err(e) => return Err(e),
        };
        let zero = Operand::imm(Width::_64, 0);
        let hi = Operand::preg(width, PhysicalRegister::RDX);
        let lo = Operand::preg(width, PhysicalRegister::RAX);
        match self.push_mov(zero, hi) {
            Ok(()) => {},
            Err(e) => return Err(e),
        }
        match self.push_mov(dividend, lo) {
            Ok(()) => {},
            Err(e) => return Err(e),
        }
        self.push_instruction(Instruction::idiv(hi, lo, divisor));
        if remainder {
            Ok(hi)
        } else {
            Ok(lo)
        }
    }

    /// The nodes a comparison compares, the right operand first; rationals
    /// become their cross products. `None` where both operands are
    /// constants.
    fn compare_operand_nodes(&mut self, kind: &BinaryOperationKind) -> (res: Option<(X86NodeRef, X86NodeRef)>)
        requires
            kind is CompareEqual || kind is CompareNotEqual || kind is CompareLessThan || kind is CompareLessThanOrEqual
                || kind is CompareGreaterThan || kind is CompareGreaterThanOrEqual,
            lower_ok(binary_node(*kind)),
        ensures
            final(self).same_code(&*old(self)),
            res matches Some((a, b)) ==> {
                &&& lower_ok(a.node())
                &&& lower_ok(b.node())
                &&& compare_types_ok(a.node().typ, b.node().typ)
                &&& node_size(a.node()) + node_size(b.node()) < node_size(binary_node(*kind))
                &&& lower_budget(a.node()) + lower_budget(b.node()) + 2 <= lower_budget(binary_node(*kind))
                &&& (a.node().typ is Signed) == compare_is_signed(*kind)
            },
            ({
                let (l, rn) = operands_of(*kind);
                &&& (l.node().kind is Constant && rn.node().kind is Constant ==> res is None)
                &&& (!(l.node().kind is Constant && rn.node().kind is Constant) && !(l.node().kind is Tuple && rn.node().kind is Tuple)
                    ==> res == Some((rn, l)))
            }),
    {
        let (l, r) = operand_pair(kind);
        proof {
            assert(node_size(binary_node(*kind)) == 1 + node_size(l.node()) + node_size(r.node()));
            X86Emitter::lemma_same_code_refl(&*self);
        }
        let ghost start = *self;
        match (r.kind(), l.kind()) {
            (NodeKind::Constant { .. }, NodeKind::Constant { .. }) => None,
            (NodeKind::Tuple(left_real), NodeKind::Tuple(right_real)) => {
                if left_real.len() != 2 || right_real.len() != 2 {
                    return None;
                }
                proof {
                    lemma_pair_sizes(left_real@);
                    lemma_pair_sizes(right_real@);
                }
                let left_num = left_real[0].share();
                let left_den = left_real[1].share();
                let right_num = right_real[0].share();
                let right_den = right_real[1].share();
                let ghost (a, b, c, d) = (left_num, right_den, left_den, right_num);
                let x = self.binary_operation(BinaryOperationKind::Multiply(left_num, right_den));
                let ghost mid = *self;
                let y = self.binary_operation(BinaryOperationKind::Multiply(left_den, right_num));
                proof {
                    X86Emitter::lemma_same_code_trans(&start, &mid, &*self);
                    assert(x.node() == mul_node(a, b));
                    assert(y.node() == mul_node(c, d));
                    assert(node_size(x.node()) <= 1 + node_size(a.node()) + node_size(b.node()));
                    assert(node_size(y.node()) <= 1 + node_size(c.node()) + node_size(d.node()));
                    assert(node_size(r.node()) == 1 + seq_size(left_real@));
                    assert(node_size(l.node()) == 1 + seq_size(right_real@));
                    assert(lower_budget(r.node()) == 2 + seq_budget(left_real@));
                    assert(lower_budget(l.node()) == 2 + seq_budget(right_real@));
                }
                Some((x, y))
            },
            _ => Some((r.share(), l.share())),
        }
    }

    /// A comparison, setting a byte to 1 where it holds and to 0 where not.
    /// The right operand is lowered as the instruction's first; rationals
    /// are compared by their cross products.
    fn encode_compare(&mut self, kind: &BinaryOperationKind) -> (r: Result<Operand, X86Error>)
        requires
            old(self).wf(),
            kind is CompareEqual || kind is CompareNotEqual || kind is CompareLessThan || kind is CompareLessThanOrEqual
                || kind is CompareGreaterThan || kind is CompareGreaterThanOrEqual,
            lower_ok(binary_node(*kind)),
            old(self).next_vreg_spec() + lower_budget(binary_node(*kind)) <= usize::MAX,
        ensures
            lowers(*old(self), *final(self), lower_budget(binary_node(*kind)), r),
            r matches Ok(op) ==> lowering_ends_as(binary_node(*kind), op, final(self).current_instructions()),
            r matches Ok(op) ==> exists|swapped: bool|
                final(self).current_instructions().last() == Instruction(
                    #[trigger] setcc_spec(*kind, compare_is_signed(*kind), swapped, op),
                ),
            ({
                let (l, rn) = operands_of(*kind);
                let invalid = Err::<Operand, X86Error>(X86Error::InvalidOperandKinds);
                &&& (l.node().kind is Constant && rn.node().kind is Constant ==> r == invalid)
                &&& (!(l.node().kind is Tuple && rn.node().kind is Tuple) && !compare_kinds_agree(rn.node().typ, l.node().typ)
                    && !(l.node().kind is Constant && rn.node().kind is Constant) ==> r == invalid)
                &&& (compare_kinds_agree(rn.node().typ, l.node().typ) && (rn.node().kind is GuestRegister
                    || rn.node().kind is ReadStackVariable) && leaf_node(l.node()) && cache_lookup(old(self).cache_spec(), rn.id_spec()) is None
                    && cache_lookup(old(self).cache_spec(), l.id_spec()) is None ==> r is Ok)
            }),
            ({
                let (l, rn) = operands_of(*kind);
                let code = final(self).current_instructions();
                let k = code.len();
                !(l.node().kind is Tuple && rn.node().kind is Tuple) && leaf_node(l.node()) ==> (r matches Ok(dst) ==> (cache_lookup(
                    final(self).cache_spec(),
                    rn.id_spec(),
                ) matches Some(a) && cache_lookup(final(self).cache_spec(), l.id_spec()) matches Some(b) && compare_code(
                    *kind,
                    a,
                    b,
                    dst,
                    code,
                )))
            }),
        decreases node_size(binary_node(*kind)), 1nat,
    {
        proof {
            X86Emitter::lemma_frame_same_refl(&*self);
        }
        let ghost start = *self;
        let pair = self.compare_operand_nodes(kind);
        proof {
            X86Emitter::lemma_same_code(&start, &*self);
        }
        let (left, right) = match pair {
            Some(p) => p,
            None => {
                return Err(X86Error::InvalidOperandKinds);
            },
        };
        let is_signed = match (left.typ(), right.typ()) {
            (Type::Unsigned(_), Type::Unsigned(_)) | (Type::Unsigned(_), Type::Bits) | (Type::Bits, Type::Unsigned(_))
            | (Type::Bits, Type::Bits) => false,
            (Type::Signed(_), Type::Signed(_)) => true,
            _ => {
                return Err(X86Error::InvalidOperandKinds);
            },
        };
        let ghost s1 = *self;
        let left_op = match self.to_operand(&left) {
            Ok(v) => v,
            Err(e) => return Err(e),
        };
        let ghost s2 = *self;
        let right_op = match self.to_operand(&right) {
            Ok(v) => v,
            Err(e) => return Err(e),
        };
        let ghost s3 = *self;
        proof {
            let (l, rn) = operands_of(*kind);
            if leaf_node(l.node()) && !(l.node().kind is Tuple && rn.node().kind is Tuple) && !(l.node().kind is Constant
                && rn.node().kind is Constant) {
                assert(left == rn && right == l);
                if s3.cache_spec() != s2.cache_spec() {
                    assert(s3.cache_spec().drop_last() =~= s2.cache_spec());
                    assert(l.id_spec() != rn.id_spec());
                }
                assert(cache_lookup(s3.cache_spec(), rn.id_spec()) == Some(left_op));
            }
            if (rn.node().kind is GuestRegister || rn.node().kind is ReadStackVariable) && leaf_node(l.node()) && cache_lookup(
                start.cache_spec(),
                rn.id_spec(),
            ) is None && cache_lookup(start.cache_spec(), l.id_spec()) is None && !(l.node().kind is Constant
                && rn.node().kind is Constant) {
                assert(left == rn && right == l);
                assert(left_op.kind is Register);
                assert(s2.cache_spec() == s1.cache_spec().push((rn.id_spec(), left_op)));
                assert(s2.cache_spec().drop_last() =~= s1.cache_spec());
                if l.id_spec() == rn.id_spec() {
                    assert(cache_lookup(s2.cache_spec(), l.id_spec()) == Some(left_op));
                    assert(right_op == left_op);
                } else {
                    assert(cache_lookup(s2.cache_spec(), l.id_spec()) == cache_lookup(s1.cache_spec(), l.id_spec()));
                    assert(cache_lookup(s2.cache_spec(), l.id_spec()) is None);
                    assert(right_op.kind is Register || right_op.kind is Immediate);
                }
            }
        }
        match (left_op.kind(), right_op.kind()) {
            (OperandKind::Immediate(_), OperandKind::Immediate(_)) | (OperandKind::Target(_), _) | (_, OperandKind::Target(_)) => {
                Err(X86Error::InvalidOperandKinds)
            },
            (OperandKind::Memory { .. }, OperandKind::Immediate(_)) | (OperandKind::Register(_), OperandKind::Immediate(_)) => {
                self.push_instruction(Instruction::cmp(right_op, left_op));
                let dst = self.fresh(Width::_8);
                self.push_instruction(compare_setcc(kind, is_signed, true, dst));
                Ok(dst)
            },
            _ => {
                let left = if matches!(left_op.kind(), OperandKind::Memory { .. }) && matches!(right_op.kind(), OperandKind::Memory { .. }) {
                    let new_left = self.fresh(left_op.width());
                    match self.push_mov(left_op, new_left) {
                        Ok(()) => {},
                        Err(e) => return Err(e),
                    }
                    new_left
                } else {
                    left_op
                };
                self.push_instruction(Instruction::cmp(left, right_op));
                let dst = self.fresh(Width::_8);
                self.push_instruction(compare_setcc(kind, is_signed, false, dst));
                Ok(dst)
            },
        }
    }
}

/// Virtual registers below a bound stay below a greater bound.
proof fn lemma_instruction_vregs_mono(i: Instruction, a: nat, b: nat)
    requires
        instruction_vregs_below(i, a),
        a <= b,
    ensures
        instruction_vregs_below(i, b),
{
    assert forall|k: int| 0 <= k < crate::encoder::operands_spec(i.0).len() implies operand_vregs_below(
        #[trigger] crate::encoder::operands_spec(i.0)[k].1,
        b,
    ) by {
        assert(operand_vregs_below(crate::encoder::operands_spec(i.0)[k].1, a));
    }
}

/// Why translated code stops: each reason raises its own interrupt vector.
#[derive(Debug, Clone, Copy, PartialEq, Eq, Structural)]
pub enum PanicReason {
    UndefinedTerminator,
    DefaultTerminator,
    ConstantAssertFailed,
    PanicBlock,
    Match,
}

impl PanicReason {
    /// The interrupt vector of a reason: 0x50 up to 0x54, in the order of
    /// the variants.
    pub open spec fn vector_spec(self) -> u64 {
        match self {
            PanicReason::UndefinedTerminator => 0x50,
            PanicReason::DefaultTerminator => 0x51,
            PanicReason::ConstantAssertFailed => 0x52,
            PanicReason::PanicBlock => 0x53,
            PanicReason::Match => 0x54,
        }
    }

    pub fn vector(&self) -> (r: u64)
        ensures
            r == self.vector_spec(),
    {
        match self {
            PanicReason::UndefinedTerminator => 0x50,
            PanicReason::DefaultTerminator => 0x51,
            PanicReason::ConstantAssertFailed => 0x52,
            PanicReason::PanicBlock => 0x53,
            PanicReason::Match => 0x54,
        }
    }
}

/// The interrupt that stops translated code for `reason`.
pub open spec fn panic_instruction(reason: PanicReason) -> Instruction {
    Instruction(Opcode::INT(Operand { kind: OperandKind::Immediate(reason.vector_spec()), width_in_bits: Width::_8 }))
}

/// The memory operand `displacement` bytes from `base`.
pub open spec fn mem_at(width: Width, base: PhysicalRegister, displacement: i32) -> Operand {
    Operand {
        kind: OperandKind::Memory {
            base: Some(Register::PhysicalRegister(base)),
            index: None,
            scale: crate::encoder::MemoryScale::S1,
            displacement,
            segment_override: None,
        },
        width_in_bits: width,
    }
}

/// What a statement keeps: the emitter stays usable and on its block, and
/// at most `budget` virtual registers are handed out.
pub open spec fn statement_step(before: X86Emitter, after: X86Emitter, budget: nat) -> bool {
    &&& after.wf()
    &&& after.current_spec() == before.current_spec()
    &&& after.ctx_spec().blocks_spec().len() == before.ctx_spec().blocks_spec().len()
    &&& after.ctx_spec().panic_spec() == before.ctx_spec().panic_spec()
    &&& before.next_vreg_spec() <= after.next_vreg_spec()
    &&& after.next_vreg_spec() <= before.next_vreg_spec() + budget
}

impl X86Emitter {
    /// Stops translated code with the interrupt of `reason`.
    pub fn panic(&mut self, reason: PanicReason)
        requires
            old(self).wf(),
        ensures
            final(self).wf(),
            final(self).frame_same(&*old(self)),
            final(self).next_vreg_spec() == old(self).next_vreg_spec(),
            final(self).current_instructions() == old(self).current_instructions().push(panic_instruction(reason)),
    {
        let n = Operand::imm(Width::_8, reason.vector());
        self.push_instruction(Instruction::interrupt(n));
    }

    /// Writes a value to the guest register at `offset` in the register
    /// file; a write to SCTLR_EL1 or to a translation table base register
    /// is recorded in the context.
    pub fn write_register(&mut self, offset: u64, value: X86NodeRef) -> (r: Result<(), X86Error>)
        requires
            old(self).wf(),
            lower_ok(value.node()),
            offset <= i32::MAX,
            old(self).next_vreg_spec() + lower_budget(value.node()) <= usize::MAX,
        ensures
            statement_step(*old(self), *final(self), lower_budget(value.node())),
            r matches Err(e) ==> lowering_error(e),
            r is Ok ==> (final(self).current_instructions().last().0 matches Opcode::MOV(v, m) && m == mem_at(
                v.width_in_bits,
                PhysicalRegister::RBP,
                offset as i32,
            ) && cache_lookup(final(self).cache_spec(), value.id_spec()) == Some(v)),
            lowers_infallibly(value.node()) || cache_lookup(old(self).cache_spec(), value.id_spec()) is Some ==> r is Ok,
            r is Ok && offset == old(self).ctx_spec().offsets_spec().1 ==> final(self).ctx_spec().mmu_write_spec(),
            r is Ok && offset != old(self).ctx_spec().offsets_spec().1 && (offset == old(self).ctx_spec().offsets_spec().2
                || offset == old(self).ctx_spec().offsets_spec().3) ==> final(self).ctx_spec().mmu_invalidate_spec(),
    {
        let value = match self.to_operand(&value) {
            Ok(v) => v,
            Err(e) => return Err(e),
        };
        let width = value.width();
        let sctlr = self.ctx().sctlr_el1_offset();
        let ttbr0 = self.ctx().ttbr0_el1_offset();
        let ttbr1 = self.ctx().ttbr1_el1_offset();
        if offset == sctlr {
            self.flag_mmu_config();
        } else if offset == ttbr0 || offset == ttbr1 {
            self.flag_mmu_invalidate();
        }
        let dst = Operand::mem_base_displ(width, Register::PhysicalRegister(PhysicalRegister::RBP), offset as i32);
        match self.push_mov(value, dst) {
            Ok(()) => Ok(()),
            Err(e) => Err(e),
        }
    }

    /// Writes a value to guest memory at an address; the address is masked
    /// first when the context asks for it.
    pub fn write_memory(&mut self, address: X86NodeRef, value: X86NodeRef) -> (r: Result<(), X86Error>)
        requires
            old(self).wf(),
            lower_ok(address.node()),
            lower_ok(value.node()),
            old(self).next_vreg_spec() + 1 + lower_budget(address.node()) + lower_budget(value.node()) <= usize::MAX,
        ensures
            statement_step(*old(self), *final(self), 1 + lower_budget(address.node()) + lower_budget(value.node())),
            r matches Err(e) ==> lowering_error(e),
            r is Ok ==> (final(self).current_instructions().last().0 matches Opcode::MOV(v, m) && (m.kind matches OperandKind::Memory {
                base: Some(_),
                index: None,
                displacement: 0,
                ..
            }) && cache_lookup(final(self).cache_spec(), value.id_spec()) == Some(v)),
            address.node().kind is Constant && cache_lookup(old(self).cache_spec(), address.id_spec()) is None ==> r == Err::<
                (),
                X86Error,
            >(X86Error::AddressNotInRegister),
            (address.node().kind is GuestRegister || address.node().kind is ReadStackVariable) && cache_lookup(
                old(self).cache_spec(),
                address.id_spec(),
            ) is None && lowers_infallibly(value.node()) ==> r is Ok,
    {
        let address = match self.to_operand(&address) {
            Ok(v) => v,
            Err(e) => return Err(e),
        };
        let address_reg = match address.kind() {
            OperandKind::Register(reg) => *reg,
            _ => return Err(X86Error::AddressNotInRegister),
        };
        let value = match self.to_operand(&value) {
            Ok(v) => v,
            Err(e) => return Err(e),
        };
        let width = value.width();
        if self.memory_mask() {
            let mask = self.fresh(Width::_64);
            match self.push_mov(Operand::imm(Width::_64, 0x0000_00FF_FFFF_FFFF), mask) {
                Ok(()) => {},
                Err(e) => return Err(e),
            }
            self.push_instruction(Instruction::and(mask, address));
        }
        match self.push_mov(value, Operand::mem_base_displ(width, address_reg, 0)) {
            Ok(()) => Ok(()),
            Err(e) => Err(e),
        }
    }

    /// Writes a value to the stack variable `offset` bytes below the frame
    /// base.
    pub fn write_stack_variable(&mut self, offset: usize, value: X86NodeRef) -> (r: Result<(), X86Error>)
        requires
            old(self).wf(),
            lower_ok(value.node()),
            offset <= i32::MAX,
            old(self).next_vreg_spec() + lower_budget(value.node()) <= usize::MAX,
        ensures
            lowering_step(*old(self), *final(self), lower_budget(value.node())),
            r matches Err(e) ==> lowering_error(e),
            r is Ok ==> (final(self).current_instructions().last().0 matches Opcode::MOV(v, m) && m == mem_at(
                v.width_in_bits,
                PhysicalRegister::R14,
                (-(offset as i32)) as i32,
            ) && cache_lookup(final(self).cache_spec(), value.id_spec()) == Some(v)),
            lowers_infallibly(value.node()) || cache_lookup(old(self).cache_spec(), value.id_spec()) is Some ==> r is Ok,
    {
        let value = match self.to_operand(&value) {
            Ok(v) => v,
            Err(e) => return Err(e),
        };
        let displacement: i32 = -(offset as i32);
        let mem = Operand::mem_base_displ(value.width(), Register::PhysicalRegister(PhysicalRegister::R14), displacement);
        match self.push_mov(value, mem) {
            Ok(()) => Ok(()),
            Err(e) => Err(e),
        }
    }

    /// Ends the current block with a jump to `true_target` where the
    /// condition is not zero, else to `false_target`.
    pub fn branch(&mut self, condition: X86NodeRef, true_target: BlockRef, false_target: BlockRef) -> (r: Result<(), X86Error>)
        requires
            old(self).wf(),
            !(condition.node().kind is Constant),
            lower_ok(condition.node()),
            old(self).next_vreg_spec() + lower_budget(condition.node()) <= usize::MAX,
        ensures
            statement_step(*old(self), *final(self), lower_budget(condition.node())),
            r matches Err(e) ==> lowering_error(e),
            r is Ok ==> {
                let n = final(self).current_instructions().len();
                &&& n >= 3
                &&& final(self).current_instructions()[n - 3].0 matches Opcode::TEST(a, b) && a == b && cache_lookup(
                    final(self).cache_spec(),
                    condition.id_spec(),
                ) == Some(a)
                &&& final(self).current_instructions()[n - 2] == Instruction(Opcode::JNE((Operand { kind: OperandKind::Target(true_target), width_in_bits: Width::_64 })))
                &&& final(self).current_instructions()[n - 1] == Instruction(Opcode::JMP((Operand { kind: OperandKind::Target(false_target), width_in_bits: Width::_64 })))
            },
            lowers_infallibly(condition.node()) || cache_lookup(old(self).cache_spec(), condition.id_spec()) is Some ==> r is Ok,
    {
        let condition = match self.to_operand(&condition) {
            Ok(v) => v,
            Err(e) => return Err(e),
        };
        self.push_instruction(Instruction::test(condition, condition));
        self.push_instruction(Instruction::jne(true_target));
        self.push_target(true_target);
        self.push_instruction(Instruction::jmp(false_target));
        self.push_target(false_target);
        Ok(())
    }

    /// Ends the current block with a jump to `target`.
    pub fn jump(&mut self, target: BlockRef)
        requires
            old(self).wf(),
        ensures
            statement_step(*old(self), *final(self), 0),
            final(self).current_instructions() == old(self).current_instructions().push(
                Instruction(Opcode::JMP((Operand { kind: OperandKind::Target(target), width_in_bits: Width::_64 }))),
            ),
    {
        self.push_instruction(Instruction::jmp(target));
        self.push_target(target);
    }

    /// Ends the current block with a return to the caller of the
    /// translation.
    pub fn leave(&mut self)
        requires
            old(self).wf(),
        ensures
            lowering_step(*old(self), *final(self), 0),
            final(self).current_instructions() == old(self).current_instructions().push(Instruction(Opcode::RET)),
    {
        self.push_instruction(Instruction::ret());
    }

    /// Checks a condition at run time: where it is zero, code stops in the
    /// panic block with `meta` in R15. A constant condition is checked now.
    pub fn assert_condition(&mut self, condition: X86NodeRef, meta: u64) -> (r: Result<(), X86Error>)
        requires
            old(self).wf(),
            !(condition.node().kind is Constant) ==> sized(condition.node().typ) && lower_ok(condition.node()),
            old(self).next_vreg_spec() + 2 + lower_budget(condition.node()) <= usize::MAX,
        ensures
            statement_step(*old(self), *final(self), 2 + lower_budget(condition.node())),
            r matches Err(e) ==> lowering_error(e),
            condition.node().kind matches NodeKind::Constant { value, .. } ==> r is Ok && (if value == 0 {
                final(self).current_instructions() == old(self).current_instructions().push(
                    panic_instruction(PanicReason::ConstantAssertFailed),
                )
            } else {
                final(self).current_instructions() == old(self).current_instructions()
            }),
            !(condition.node().kind is Constant) && r is Ok ==> final(self).current_instructions().last() == Instruction(
                Opcode::JNE(Operand { kind: OperandKind::Target(old(self).ctx_spec().panic_spec()), width_in_bits: Width::_64 }),
            ),
    {
        proof {
            X86Emitter::lemma_frame_same_refl(&*self);
        }
        if let Some((value, _)) = condition.as_constant() {
            if value == 0 {
                self.panic(PanicReason::ConstantAssertFailed);
            }
            return Ok(());
        }
        let ghost start = *self;
        let not_condition = self.unary_operation(UnaryOperationKind::Not(condition));
        proof {
            X86Emitter::lemma_same_code(&start, &*self);
        }
        let op = match self.to_operand(&not_condition) {
            Ok(v) => v,
            Err(e) => return Err(e),
        };
        self.push_instruction(Instruction::test(op, op));
        match self.push_mov(Operand::imm(Width::_64, meta), Operand::preg(Width::_64, PhysicalRegister::R15)) {
            Ok(()) => {},
            Err(e) => return Err(e),
        }
        let panic_block = self.ctx().panic_block();
        self.push_instruction(Instruction::jne(panic_block));
        Ok(())
    }
}

impl X86TranslationContext {
    /// A context with an empty initial block and a panic block that raises
    /// the interrupt of `PanicReason::PanicBlock`.
    pub fn new(
        pc_offset: u64,
        sctlr_el1_offset: u64,
        ttbr0_el1_offset: u64,
        ttbr1_el1_offset: u64,
        memory_mask: bool,
    ) -> (r: X86TranslationContext)
        ensures
            r.wf(),
            r.blocks_spec().len() == 2,
            r.initial_spec().index == 0,
            r.panic_spec().index == 1,
            r.blocks_spec()[0].instructions_spec() == Seq::<Instruction>::empty(),
            r.blocks_spec()[1].instructions_spec() == seq![panic_instruction(PanicReason::PanicBlock)],
            blocks_vregs_below(r.blocks_spec(), 0),
            r.offsets_spec() == (pc_offset, sctlr_el1_offset, ttbr0_el1_offset, ttbr1_el1_offset),
            r.memory_mask_spec() == memory_mask,
            !r.pc_write_spec(),
            !r.mmu_write_spec(),
            !r.mmu_invalidate_spec(),
    {
        let ctx = X86TranslationContext::with_empty_blocks(
            pc_offset,
            sctlr_el1_offset,
            ttbr0_el1_offset,
            ttbr1_el1_offset,
            memory_mask,
        );
        proof {
            assert(ctx.blocks_spec()[0].instructions_spec() == Seq::<Instruction>::empty());
            assert(ctx.blocks_spec()[1].instructions_spec() == Seq::<Instruction>::empty());
        }
        let mut emitter = X86Emitter::new(ctx);
        let panic_block = emitter.ctx().panic_block();
        emitter.set_current_block(panic_block);
        emitter.panic(PanicReason::PanicBlock);
        let r = emitter.into_ctx();
        proof {
            assert(r.blocks_spec()[0] == ctx.blocks_spec()[0]);
            assert(r.blocks_spec()[1].instructions_spec() =~= seq![panic_instruction(PanicReason::PanicBlock)]);
            assert forall|b: int, k: int|
                0 <= b < r.blocks_spec().len() && 0 <= k < r.blocks_spec()[b].instructions_spec().len() implies instruction_vregs_below(
                #[trigger] r.blocks_spec()[b].instructions_spec()[k],
                0,
            ) by {
                assert(b == 1 && k == 0);
            }
        }
        r
    }
}

} // verus!
