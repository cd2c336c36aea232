//! The value graph the x86 emitter builds while translating a block of the
//! architecture model: typed nodes that are folded to constants where their
//! inputs are constant, and lowered to instructions otherwise.
use vstd::prelude::*;
use std::rc::Rc;

verus! {

/// The type of a value in translated code.
#[derive(Debug, Clone, Copy, PartialEq, Eq, Structural)]
pub enum Type {
    Unsigned(u16),
    Signed(u16),
    Floating(u16),
    Bits,
    Tuple,
}

impl Type {
    /// The width in bits; a bit vector is held in 64 bits.
    pub open spec fn width_spec(self) -> u16 {
        match self {
            Type::Unsigned(w) => w,
            Type::Signed(w) => w,
            Type::Floating(w) => w,
            _ => 64,
        }
    }

    /// The width in bits. A tuple has none.
    pub fn width(&self) -> (r: u16)
        requires
            !(self is Tuple),
        ensures
            r == self.width_spec(),
    {
        match self {
            Type::Unsigned(w) => *w,
            Type::Signed(w) => *w,
            Type::Floating(w) => *w,
            _ => 64,
        }
    }
}

#[derive(Debug, Clone, Copy, PartialEq, Eq, Structural)]
pub enum CastOperationKind {
    ZeroExtend,
    SignExtend,
    Truncate,
    Reinterpret,
    Convert,
    Broadcast,
}

#[derive(Debug, Clone, Copy, PartialEq, Eq, Structural)]
pub enum ShiftOperationKind {
    LogicalShiftLeft,
    LogicalShiftRight,
    ArithmeticShiftRight,
    RotateRight,
    RotateLeft,
}

/// Marks of the depth-first search that orders blocks.
#[derive(Debug, Clone, Copy, PartialEq, Eq, Structural)]
pub enum X86BlockMark {
    Unmarked,
    Temporary,
    Permanent,
}

/// A shared reference to a node, with the number that identifies it.
pub struct X86NodeRef {
    pub id: u64,
    pub node: Rc<X86Node>,
}

pub enum UnaryOperationKind {
    Not(X86NodeRef),
    Negate(X86NodeRef),
    Complement(X86NodeRef),
    Power2(X86NodeRef),
    Absolute(X86NodeRef),
    Ceil(X86NodeRef),
    Floor(X86NodeRef),
    SquareRoot(X86NodeRef),
}

pub enum BinaryOperationKind {
    Add(X86NodeRef, X86NodeRef),
    Sub(X86NodeRef, X86NodeRef),
    Multiply(X86NodeRef, X86NodeRef),
    Divide(X86NodeRef, X86NodeRef),
    Modulo(X86NodeRef, X86NodeRef),
    And(X86NodeRef, X86NodeRef),
    Or(X86NodeRef, X86NodeRef),
    Xor(X86NodeRef, X86NodeRef),
    PowI(X86NodeRef, X86NodeRef),
    CompareEqual(X86NodeRef, X86NodeRef),
    CompareNotEqual(X86NodeRef, X86NodeRef),
    CompareLessThan(X86NodeRef, X86NodeRef),
    CompareLessThanOrEqual(X86NodeRef, X86NodeRef),
    CompareGreaterThan(X86NodeRef, X86NodeRef),
    CompareGreaterThanOrEqual(X86NodeRef, X86NodeRef),
}

pub enum TernaryOperationKind {
    AddWithCarry(X86NodeRef, X86NodeRef, X86NodeRef),
}

/// What a node computes.
#[allow(inconsistent_fields)]
pub enum NodeKind {
    Constant { value: u64, width: u16 },
    GuestRegister { offset: u64 },
    ReadMemory { address: X86NodeRef },
    UnaryOperation(UnaryOperationKind),
    BinaryOperation(BinaryOperationKind),
    TernaryOperation(TernaryOperationKind),
    Cast { value: X86NodeRef, kind: CastOperationKind },
    Shift { value: X86NodeRef, amount: X86NodeRef, kind: ShiftOperationKind },
    /// A value on the stack, at this positive offset below the frame base.
    ReadStackVariable { offset: usize, width: u16 },
    BitExtract { value: X86NodeRef, start: X86NodeRef, length: X86NodeRef },
    BitInsert { target: X86NodeRef, source: X86NodeRef, start: X86NodeRef, length: X86NodeRef },
    GetFlags { operation: X86NodeRef },
    Tuple(Vec<X86NodeRef>),
    Select { condition: X86NodeRef, true_value: X86NodeRef, false_value: X86NodeRef },
}

/// A typed node of the value graph.
pub struct X86Node {
    pub typ: Type,
    pub kind: NodeKind,
}

impl X86NodeRef {
    /// The node referred to.
    pub open spec fn node(self) -> X86Node {
        *self.node
    }

    /// The number that identifies the node.
    pub open spec fn id_spec(self) -> u64 {
        self.id
    }

    /// A reference to a new node with identifier `id`.
    pub fn new(id: u64, node: X86Node) -> (r: X86NodeRef)
        ensures
            r.node() == node,
            r.id_spec() == id,
    {
        X86NodeRef { id, node: Rc::new(node) }
    }

    /// Another reference to the same node.
    pub fn share(&self) -> (r: X86NodeRef)
        ensures
            r == *self,
    {
        X86NodeRef { id: self.id, node: Rc::clone(&self.node) }
    }

    pub fn id(&self) -> (r: u64)
        ensures
            r == self.id_spec(),
    {
        self.id
    }

    pub fn kind(&self) -> (r: &NodeKind)
        ensures
            *r == self.node().kind,
    {
        &self.node.kind
    }

    pub fn typ(&self) -> (r: &Type)
        ensures
            *r == self.node().typ,
    {
        &self.node.typ
    }

    /// The constant value and width of a constant node.
    pub fn as_constant(&self) -> (r: Option<(u64, u16)>)
        ensures
            r == (match self.node().kind {
                NodeKind::Constant { value, width } => Some((value, width)),
                _ => None,
            }),
    {
        match &self.node.kind {
            NodeKind::Constant { value, width } => Some((*value, *width)),
            _ => None,
        }
    }
}

} // verus!
