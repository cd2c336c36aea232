//! What lowering a node of the value graph to an x86 operand needs and gives.
use vstd::prelude::*;
use crate::nodes::{
    BinaryOperationKind, CastOperationKind, NodeKind, ShiftOperationKind, TernaryOperationKind, Type,
    UnaryOperationKind, X86Node, X86NodeRef,
};
use crate::width::Width;
use crate::emitter::mul_node;

verus! {

/// The number of nodes below and including `n`, counting shared nodes once
/// per use.
pub open spec fn node_size(n: X86Node) -> nat
    decreases n, 0nat,
{
    1 + match n.kind {
        NodeKind::Constant { .. } | NodeKind::GuestRegister { .. } | NodeKind::ReadStackVariable { .. } => 0,
        NodeKind::ReadMemory { address } => node_size(*address.node),
        NodeKind::UnaryOperation(op) => match op {
            UnaryOperationKind::Not(v) | UnaryOperationKind::Negate(v) | UnaryOperationKind::Complement(v)
            | UnaryOperationKind::Power2(v) | UnaryOperationKind::Absolute(v) | UnaryOperationKind::Ceil(v)
            | UnaryOperationKind::Floor(v) | UnaryOperationKind::SquareRoot(v) => node_size(*v.node),
        },
        NodeKind::BinaryOperation(op) => match op {
            BinaryOperationKind::Add(l, r) | BinaryOperationKind::Sub(l, r) | BinaryOperationKind::Multiply(l, r)
            | BinaryOperationKind::Divide(l, r) | BinaryOperationKind::Modulo(l, r) | BinaryOperationKind::And(l, r)
            | BinaryOperationKind::Or(l, r) | BinaryOperationKind::Xor(l, r) | BinaryOperationKind::PowI(l, r)
            | BinaryOperationKind::CompareEqual(l, r) | BinaryOperationKind::CompareNotEqual(l, r)
            | BinaryOperationKind::CompareLessThan(l, r) | BinaryOperationKind::CompareLessThanOrEqual(l, r)
            | BinaryOperationKind::CompareGreaterThan(l, r) | BinaryOperationKind::CompareGreaterThanOrEqual(l, r) =>
                node_size(*l.node) + node_size(*r.node),
        },
        NodeKind::TernaryOperation(TernaryOperationKind::AddWithCarry(a, b, c)) => node_size(*a.node) + node_size(*b.node)
            + node_size(*c.node),
        NodeKind::Cast { value, .. } => node_size(*value.node),
        NodeKind::Shift { value, amount, .. } => node_size(*value.node) + node_size(*amount.node),
        NodeKind::BitExtract { value, start, length } => node_size(*value.node) + node_size(*start.node) + node_size(*length.node),
        NodeKind::BitInsert { target, source, start, length } => node_size(*target.node) + node_size(*source.node)
            + node_size(*start.node) + node_size(*length.node),
        NodeKind::GetFlags { operation } => node_size(*operation.node),
        NodeKind::Tuple(values) => seq_size(values@),
        NodeKind::Select { condition, true_value, false_value } => node_size(*condition.node) + node_size(*true_value.node)
            + node_size(*false_value.node),
    }
}

/// The sizes of a sequence of nodes, added up.
pub open spec fn seq_size(s: Seq<X86NodeRef>) -> nat
    decreases s, 1nat,
{
    if s.len() == 0 {
        0
    } else {
        seq_size(s.drop_last()) + node_size(*s.last().node)
    }
}

} // verus!

verus! {

/// Whether a node is a constant.
pub open spec fn node_is_const(n: X86Node) -> bool {
    n.kind is Constant
}

/// The type has a width (it is not a tuple) and the width is not zero.
pub open spec fn sized(t: Type) -> bool {
    !(t is Tuple) && t.width_spec() != 0
}

/// The two types can be combined by an arithmetic or logic operation.
pub open spec fn arith_types_ok(l: Type, r: Type) -> bool {
    match (l, r) {
        (Type::Unsigned(_), Type::Unsigned(_)) => true,
        (Type::Bits, Type::Unsigned(_)) => true,
        (Type::Unsigned(_), Type::Bits) => true,
        (Type::Signed(a), Type::Signed(b)) => a <= b,
        _ => false,
    }
}

/// The two types can be compared.
pub open spec fn compare_types_ok(l: Type, r: Type) -> bool {
    ((l is Unsigned || l is Bits) && (r is Unsigned || r is Bits)) || (l is Signed && r is Signed)
}

/// The structure of a node is one the lowering handles: every kind and type
/// it meets is supported, widths are not zero and register file and stack
/// offsets fit a 32-bit displacement.
pub open spec fn lower_ok(n: X86Node) -> bool
    decreases n, 0nat,
{
    match n.kind {
        NodeKind::Constant { width, .. } => width != 0,
        NodeKind::GuestRegister { offset } => sized(n.typ) && offset <= i32::MAX,
        NodeKind::ReadStackVariable { offset, width } => width != 0 && offset <= i32::MAX,
        NodeKind::ReadMemory { address } => sized(n.typ) && lower_ok(*address.node),
        NodeKind::UnaryOperation(op) => match op {
            UnaryOperationKind::Not(v) | UnaryOperationKind::Complement(v) => sized(v.node().typ) && lower_ok(*v.node),
            UnaryOperationKind::Ceil(v) | UnaryOperationKind::Floor(v) => match v.node().kind {
                NodeKind::Tuple(vs) => vs@.len() == 2 && sized(vs@[0].node().typ) && vs@[0].node().typ.width_spec()
                    == vs@[1].node().typ.width_spec() && lower_ok(*vs@[0].node) && lower_ok(*vs@[1].node),
                _ => false,
            },
            _ => false,
        },
        NodeKind::BinaryOperation(op) => match op {
            BinaryOperationKind::Add(l, r) | BinaryOperationKind::Sub(l, r) | BinaryOperationKind::Multiply(l, r)
            | BinaryOperationKind::And(l, r) | BinaryOperationKind::Or(l, r) | BinaryOperationKind::Xor(l, r) =>
                arith_types_ok(l.node().typ, r.node().typ) && lower_ok(*l.node) && lower_ok(*r.node),
            BinaryOperationKind::Divide(l, r) | BinaryOperationKind::Modulo(l, r) => arith_types_ok(l.node().typ, r.node().typ)
                && l.node().typ.width_spec() == 64 && r.node().typ.width_spec() == 64 && lower_ok(*l.node) && lower_ok(*r.node),
            BinaryOperationKind::PowI(_, _) => false,
            BinaryOperationKind::CompareEqual(l, r) | BinaryOperationKind::CompareNotEqual(l, r)
            | BinaryOperationKind::CompareLessThan(l, r) | BinaryOperationKind::CompareLessThanOrEqual(l, r)
            | BinaryOperationKind::CompareGreaterThan(l, r) | BinaryOperationKind::CompareGreaterThanOrEqual(l, r) => {
                !(l.node().kind is Constant && r.node().kind is Constant) && match (l.node().kind, r.node().kind) {
                    (NodeKind::Tuple(ls), NodeKind::Tuple(rs)) => {
                        &&& ls@.len() == 2
                        &&& rs@.len() == 2
                        &&& (rs@[0].node().kind is Constant && ls@[1].node().kind is Constant ==> rs@[0].node().kind->Constant_value
                            * ls@[1].node().kind->Constant_value <= u64::MAX)
                        &&& (rs@[1].node().kind is Constant && ls@[0].node().kind is Constant ==> rs@[1].node().kind->Constant_value
                            * ls@[0].node().kind->Constant_value <= u64::MAX)
                        &&& compare_types_ok(rs@[0].node().typ, rs@[1].node().typ)
                        &&& (if rs@[0].node().kind is Constant && ls@[1].node().kind is Constant {
                            rs@[0].node().kind->Constant_width != 0
                        } else {
                            arith_types_ok(rs@[0].node().typ, ls@[1].node().typ) && lower_ok(*rs@[0].node) && lower_ok(*ls@[1].node)
                        })
                        &&& (if rs@[1].node().kind is Constant && ls@[0].node().kind is Constant {
                            rs@[1].node().kind->Constant_width != 0
                        } else {
                            arith_types_ok(rs@[1].node().typ, ls@[0].node().typ) && lower_ok(*rs@[1].node) && lower_ok(*ls@[0].node)
                        })
                        &&& !(mul_node(rs@[0], ls@[1]).kind is Constant && mul_node(rs@[1], ls@[0]).kind is Constant)
                    },
                    _ => compare_types_ok(l.node().typ, r.node().typ) && lower_ok(*l.node) && lower_ok(*r.node),
                }
            },
        },
        NodeKind::TernaryOperation(TernaryOperationKind::AddWithCarry(a, b, c)) => sized(a.node().typ) && sized(b.node().typ)
            && Width::canonical(a.node().typ.width_spec()) == Width::canonical(b.node().typ.width_spec()) && !(c.node().typ is Tuple)
            && c.node().typ.width_spec() == 1 && lower_ok(*a.node) && lower_ok(*b.node) && lower_ok(*c.node),
        NodeKind::Cast { value, kind } => sized(n.typ) && (n.typ == value.node().typ || kind == CastOperationKind::ZeroExtend
            || kind == CastOperationKind::SignExtend || kind == CastOperationKind::Truncate || kind
            == CastOperationKind::Reinterpret) && lower_ok(*value.node),
        NodeKind::Shift { value, amount, kind } => (kind == ShiftOperationKind::LogicalShiftLeft || kind
            == ShiftOperationKind::LogicalShiftRight || kind == ShiftOperationKind::ArithmeticShiftRight) && lower_ok(*value.node)
            && lower_ok(*amount.node),
        NodeKind::BitExtract { value, start, length } => (value.node().kind is Constant ==> sized(value.node().typ)) && lower_ok(
            *value.node,
        ) && lower_ok(*start.node) && lower_ok(*length.node),
        NodeKind::BitInsert { target, source, start, length } => lower_ok(*target.node) && lower_ok(*source.node) && lower_ok(
            *start.node,
        ) && lower_ok(*length.node),
        NodeKind::GetFlags { operation } => lower_ok(*operation.node),
        NodeKind::Tuple(_) => false,
        NodeKind::Select { condition, true_value, false_value } => sized(true_value.node().typ) && lower_ok(*condition.node)
            && lower_ok(*true_value.node) && lower_ok(*false_value.node),
    }
}

/// An upper bound on the number of virtual registers lowering a node hands
/// out.
pub open spec fn lower_budget(n: X86Node) -> nat
    decreases n, 0nat,
{
    match n.kind {
        NodeKind::Constant { .. } | NodeKind::GuestRegister { .. } | NodeKind::ReadStackVariable { .. } => 2,
        NodeKind::ReadMemory { address } => 2 + lower_budget(*address.node),
        NodeKind::UnaryOperation(op) => match op {
            UnaryOperationKind::Not(v) | UnaryOperationKind::Negate(v) | UnaryOperationKind::Complement(v)
            | UnaryOperationKind::Power2(v) | UnaryOperationKind::Absolute(v) | UnaryOperationKind::SquareRoot(v) => 2
                + lower_budget(*v.node),
            UnaryOperationKind::Ceil(v) | UnaryOperationKind::Floor(v) => 8 + lower_budget(*v.node),
        },
        NodeKind::BinaryOperation(op) => match op {
            BinaryOperationKind::Add(l, r) | BinaryOperationKind::Sub(l, r) | BinaryOperationKind::Multiply(l, r)
            | BinaryOperationKind::Divide(l, r) | BinaryOperationKind::Modulo(l, r) | BinaryOperationKind::And(l, r)
            | BinaryOperationKind::Or(l, r) | BinaryOperationKind::Xor(l, r) | BinaryOperationKind::PowI(l, r) => 16 + 2
                * lower_budget(*l.node) + 2 * lower_budget(*r.node),
            BinaryOperationKind::CompareEqual(l, r) | BinaryOperationKind::CompareNotEqual(l, r)
            | BinaryOperationKind::CompareLessThan(l, r) | BinaryOperationKind::CompareLessThanOrEqual(l, r)
            | BinaryOperationKind::CompareGreaterThan(l, r) | BinaryOperationKind::CompareGreaterThanOrEqual(l, r) => 100 + 2
                * lower_budget(*l.node) + 2 * lower_budget(*r.node),
        },
        NodeKind::TernaryOperation(TernaryOperationKind::AddWithCarry(a, b, c)) => 2 + lower_budget(*a.node) + lower_budget(
            *b.node,
        ) + lower_budget(*c.node),
        NodeKind::Cast { value, .. } => 2 + lower_budget(*value.node),
        NodeKind::Shift { value, amount, .. } => 2 + lower_budget(*value.node) + lower_budget(*amount.node),
        NodeKind::BitExtract { value, start, length } => 8 + lower_budget(*value.node) + lower_budget(*start.node)
            + lower_budget(*length.node),
        NodeKind::BitInsert { target, source, start, length } => 8 + lower_budget(*target.node) + lower_budget(*source.node)
            + lower_budget(*start.node) + lower_budget(*length.node),
        NodeKind::GetFlags { operation } => 8 + 2 * lower_budget(*operation.node),
        NodeKind::Tuple(values) => 2 + seq_budget(values@),
        NodeKind::Select { condition, true_value, false_value } => 4 + lower_budget(*condition.node) + lower_budget(
            *true_value.node,
        ) + lower_budget(*false_value.node),
    }
}

/// The budgets of a sequence of nodes, added up.
pub open spec fn seq_budget(s: Seq<X86NodeRef>) -> nat
    decreases s, 1nat,
{
    if s.len() == 0 {
        0
    } else {
        seq_budget(s.drop_last()) + lower_budget(*s.last().node)
    }
}

} // verus!
