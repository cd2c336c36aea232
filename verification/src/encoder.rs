//! The x86-64 instruction model that the emitter produces and the register
//! allocator rewrites: registers, operands, opcodes and the direction in
//! which each instruction uses its operands.
use vstd::prelude::*;
use crate::width::Width;

verus! {

/// A reference to a block of the translation being built, by its index.
#[derive(Debug, Clone, Copy, PartialEq, Eq, Structural, Hash)]
pub struct BlockRef {
    pub index: usize,
}

/// The sixteen general purpose registers of x86-64, in encoding order.
#[derive(Debug, Clone, Copy, PartialEq, Eq, Structural, Hash)]
pub enum PhysicalRegister {
    RAX,
    RCX,
    RDX,
    RBX,
    RSI,
    RDI,
    RSP,
    RBP,
    R8,
    R9,
    R10,
    R11,
    R12,
    R13,
    R14,
    R15,
}

impl PhysicalRegister {
    /// The hardware encoding number of the register.
    pub open spec fn index_spec(self) -> usize {
        match self {
            PhysicalRegister::RAX => 0,
            PhysicalRegister::RCX => 1,
            PhysicalRegister::RDX => 2,
            PhysicalRegister::RBX => 3,
            PhysicalRegister::RSI => 4,
            PhysicalRegister::RDI => 5,
            PhysicalRegister::RSP => 6,
            PhysicalRegister::RBP => 7,
            PhysicalRegister::R8 => 8,
            PhysicalRegister::R9 => 9,
            PhysicalRegister::R10 => 10,
            PhysicalRegister::R11 => 11,
            PhysicalRegister::R12 => 12,
            PhysicalRegister::R13 => 13,
            PhysicalRegister::R14 => 14,
            PhysicalRegister::R15 => 15,
        }
    }

    /// The register with hardware encoding number `index`.
    pub open spec fn from_index_spec(index: usize) -> PhysicalRegister
        recommends
            index < 16,
    {
        if index == 0 {
            PhysicalRegister::RAX
        } else if index == 1 {
            PhysicalRegister::RCX
        } else if index == 2 {
            PhysicalRegister::RDX
        } else if index == 3 {
            PhysicalRegister::RBX
        } else if index == 4 {
            PhysicalRegister::RSI
        } else if index == 5 {
            PhysicalRegister::RDI
        } else if index == 6 {
            PhysicalRegister::RSP
        } else if index == 7 {
            PhysicalRegister::RBP
        } else if index == 8 {
            PhysicalRegister::R8
        } else if index == 9 {
            PhysicalRegister::R9
        } else if index == 10 {
            PhysicalRegister::R10
        } else if index == 11 {
            PhysicalRegister::R11
        } else if index == 12 {
            PhysicalRegister::R12
        } else if index == 13 {
            PhysicalRegister::R13
        } else if index == 14 {
            PhysicalRegister::R14
        } else {
            PhysicalRegister::R15
        }
    }

    /// The hardware encoding number of the register.
    pub fn index(&self) -> (r: usize)
        ensures
            r == self.index_spec(),
            r < 16,
    {
        match self {
            PhysicalRegister::RAX => 0,
            PhysicalRegister::RCX => 1,
            PhysicalRegister::RDX => 2,
            PhysicalRegister::RBX => 3,
            PhysicalRegister::RSI => 4,
            PhysicalRegister::RDI => 5,
            PhysicalRegister::RSP => 6,
            PhysicalRegister::RBP => 7,
            PhysicalRegister::R8 => 8,
            PhysicalRegister::R9 => 9,
            PhysicalRegister::R10 => 10,
            PhysicalRegister::R11 => 11,
            PhysicalRegister::R12 => 12,
            PhysicalRegister::R13 => 13,
            PhysicalRegister::R14 => 14,
            PhysicalRegister::R15 => 15,
        }
    }

    /// The register with hardware encoding number `index`; there are sixteen.
    pub fn from_index(index: usize) -> (r: PhysicalRegister)
        requires
            index < 16,
        ensures
            r == PhysicalRegister::from_index_spec(index),
            r.index_spec() == index,
    {
        match index {
            0 => PhysicalRegister::RAX,
            1 => PhysicalRegister::RCX,
            2 => PhysicalRegister::RDX,
            3 => PhysicalRegister::RBX,
            4 => PhysicalRegister::RSI,
            5 => PhysicalRegister::RDI,
            6 => PhysicalRegister::RSP,
            7 => PhysicalRegister::RBP,
            8 => PhysicalRegister::R8,
            9 => PhysicalRegister::R9,
            10 => PhysicalRegister::R10,
            11 => PhysicalRegister::R11,
            12 => PhysicalRegister::R12,
            13 => PhysicalRegister::R13,
            14 => PhysicalRegister::R14,
            _ => PhysicalRegister::R15,
        }
    }
}

/// Numbering the registers and looking them up by number undo each other.
pub proof fn lemma_register_index_roundtrip(reg: PhysicalRegister, index: usize)
    ensures
        PhysicalRegister::from_index_spec(reg.index_spec()) == reg,
        index < 16 ==> PhysicalRegister::from_index_spec(index).index_spec() == index,
{
}

/// Distinct registers have distinct numbers.
pub proof fn lemma_register_index_injective(a: PhysicalRegister, b: PhysicalRegister)
    ensures
        a.index_spec() == b.index_spec() ==> a == b,
{
}

/// The segment registers an operand can override its segment with.
#[derive(Debug, Clone, Copy, PartialEq, Eq, Structural)]
pub enum SegmentRegister {
    FS,
    GS,
}

/// A register operand: a hardware register, or a numbered virtual register
/// that the register allocator replaces.
#[derive(Debug, Clone, Copy, PartialEq, Eq, Structural, Hash)]
pub enum Register {
    PhysicalRegister(PhysicalRegister),
    VirtualRegister(usize),
}

/// The factor a memory operand's index register is multiplied by.
#[derive(Debug, Clone, Copy, PartialEq, Eq, Structural)]
pub enum MemoryScale {
    S1,
    S2,
    S4,
    S8,
}

impl MemoryScale {
    /// The factor as a number.
    pub open spec fn factor(self) -> i32 {
        match self {
            MemoryScale::S1 => 1,
            MemoryScale::S2 => 2,
            MemoryScale::S4 => 4,
            MemoryScale::S8 => 8,
        }
    }

    /// The factor as a number.
    pub fn as_i32(self) -> (r: i32)
        ensures
            r == self.factor(),
    {
        match self {
            MemoryScale::S1 => 1,
            MemoryScale::S2 => 2,
            MemoryScale::S4 => 4,
            MemoryScale::S8 => 8,
        }
    }
}

/// What an operand denotes.
#[derive(Debug, Clone, Copy, PartialEq, Eq, Structural)]
pub enum OperandKind {
    Immediate(u64),
    Memory {
        base: Option<Register>,
        index: Option<Register>,
        scale: MemoryScale,
        displacement: i32,
        segment_override: Option<SegmentRegister>,
    },
    Register(Register),
    Target(BlockRef),
}

/// An operand together with the width it is accessed at.
#[derive(Debug, Clone, Copy, PartialEq, Eq, Structural)]
pub struct Operand {
    pub kind: OperandKind,
    pub width_in_bits: Width,
}

impl Operand {
    pub fn kind(&self) -> (r: &OperandKind)
        ensures
            *r == self.kind,
    {
        &self.kind
    }

    pub fn width(&self) -> (r: Width)
        ensures
            r == self.width_in_bits,
    {
        self.width_in_bits
    }

    /// An immediate value.
    pub fn imm(width_in_bits: Width, value: u64) -> (r: Operand)
        ensures
            r == (Operand { kind: OperandKind::Immediate(value), width_in_bits }),
    {
        Operand { kind: OperandKind::Immediate(value), width_in_bits }
    }

    /// A hardware register.
    pub fn preg(width_in_bits: Width, reg: PhysicalRegister) -> (r: Operand)
        ensures
            r == (Operand {
                kind: OperandKind::Register(Register::PhysicalRegister(reg)),
                width_in_bits,
            }),
    {
        Operand { kind: OperandKind::Register(Register::PhysicalRegister(reg)), width_in_bits }
    }

    /// A virtual register.
    pub fn vreg(width_in_bits: Width, reg: usize) -> (r: Operand)
        ensures
            r == (Operand {
                kind: OperandKind::Register(Register::VirtualRegister(reg)),
                width_in_bits,
            }),
    {
        Operand { kind: OperandKind::Register(Register::VirtualRegister(reg)), width_in_bits }
    }

    /// The memory at the address held in `base`.
    pub fn mem_base(width_in_bits: Width, base: Register) -> (r: Operand)
        ensures
            r == (Operand {
                kind: OperandKind::Memory {
                    base: Some(base),
                    index: None,
                    scale: MemoryScale::S1,
                    displacement: 0,
                    segment_override: None,
                },
                width_in_bits,
            }),
    {
        Self::mem_base_displ(width_in_bits, base, 0)
    }

    /// The memory at `base` plus `displacement`.
    pub fn mem_base_displ(width_in_bits: Width, base: Register, displacement: i32) -> (r: Operand)
        ensures
            r == (Operand {
                kind: OperandKind::Memory {
                    base: Some(base),
                    index: None,
                    scale: MemoryScale::S1,
                    displacement,
                    segment_override: None,
                },
                width_in_bits,
            }),
    {
        Operand {
            kind: OperandKind::Memory {
                base: Some(base),
                index: None,
                scale: MemoryScale::S1,
                displacement,
                segment_override: None,
            },
            width_in_bits,
        }
    }

    /// The memory at `base` plus `idx` times `scale`.
    pub fn mem_base_idx_scale(
        width_in_bits: Width,
        base: Register,
        idx: Register,
        scale: MemoryScale,
    ) -> (r: Operand)
        ensures
            r == (Operand {
                kind: OperandKind::Memory {
                    base: Some(base),
                    index: Some(idx),
                    scale,
                    displacement: 0,
                    segment_override: None,
                },
                width_in_bits,
            }),
    {
        Self::mem_base_idx_scale_displ(width_in_bits, base, idx, scale, 0)
    }

    /// The memory at `base` plus `idx` times `scale` plus `displacement`.
    pub fn mem_base_idx_scale_displ(
        width_in_bits: Width,
        base: Register,
        idx: Register,
        scale: MemoryScale,
        displacement: i32,
    ) -> (r: Operand)
        ensures
            r == (Operand {
                kind: OperandKind::Memory {
                    base: Some(base),
                    index: Some(idx),
                    scale,
                    displacement,
                    segment_override: None,
                },
                width_in_bits,
            }),
    {
        Operand {
            kind: OperandKind::Memory {
                base: Some(base),
                index: Some(idx),
                scale,
                displacement,
                segment_override: None,
            },
            width_in_bits,
        }
    }

    /// The memory at `displacement` in the given segment; the width is given
    /// in bits and rounded up to a register width.
    pub fn mem_seg_displ(width_in_bits: u16, segment: SegmentRegister, displacement: i32) -> (r:
        Operand)
        requires
            width_in_bits != 0,
        ensures
            r == (Operand {
                kind: OperandKind::Memory {
                    base: None,
                    index: None,
                    scale: MemoryScale::S1,
                    displacement,
                    segment_override: Some(segment),
                },
                width_in_bits: Width::canonical(width_in_bits),
            }),
    {
        let width = match Width::from_uncanonicalized(width_in_bits) {
            Ok(w) => w,
            Err(_) => Width::_64,
        };
        Operand {
            kind: OperandKind::Memory {
                base: None,
                index: None,
                scale: MemoryScale::S1,
                displacement,
                segment_override: Some(segment),
            },
            width_in_bits: width,
        }
    }

    /// A jump target; it is given the width of an address.
    pub fn target(target: BlockRef) -> (r: Operand)
        ensures
            r == (Operand { kind: OperandKind::Target(target), width_in_bits: Width::_64 }),
    {
        Operand { kind: OperandKind::Target(target), width_in_bits: Width::_64 }
    }

    /// The register the operand names, if it is a register operand.
    pub fn as_register(&self) -> (r: Option<Register>)
        ensures
            r == (match self.kind {
                OperandKind::Register(reg) => Some(reg),
                _ => None,
            }),
    {
        match self.kind {
            OperandKind::Register(reg) => Some(reg),
            _ => None,
        }
    }
}

} // verus!

verus! {

/// An x86 instruction with its operands; two-operand forms are written
/// source first, destination second.
#[derive(Debug, Clone, Copy, PartialEq, Eq, Structural)]
pub enum Opcode {
    MOV(Operand, Operand),
    MOVZX(Operand, Operand),
    MOVSX(Operand, Operand),
    CMOVE(Operand, Operand),
    CMOVNE(Operand, Operand),
    LEA(Operand, Operand),
    SHL(Operand, Operand),
    SHR(Operand, Operand),
    SAR(Operand, Operand),
    ADD(Operand, Operand),
    ADC(Operand, Operand, Operand),
    SUB(Operand, Operand),
    OR(Operand, Operand),
    XOR(Operand, Operand),
    AND(Operand, Operand),
    IMUL(Operand, Operand),
    IDIV(Operand, Operand, Operand),
    NOT(Operand),
    NEG(Operand),
    BEXTR(Operand, Operand, Operand),
    JMP(Operand),
    PUSH(Operand),
    POP(Operand),
    RET,
    TEST(Operand, Operand),
    CMP(Operand, Operand),
    SETS(Operand),
    SETE(Operand),
    SETC(Operand),
    SETO(Operand),
    SETNE(Operand),
    SETNZ(Operand),
    SETB(Operand),
    SETBE(Operand),
    SETA(Operand),
    SETG(Operand),
    SETGE(Operand),
    SETL(Operand),
    SETLE(Operand),
    SETAE(Operand),
    JNE(Operand),
    NOP,
    INT(Operand),
    OUT(Operand, Operand),
    /// An instruction removed from the block; it is not emitted.
    DEAD,
    CALL { function: Operand, nr_input_args: usize, nr_output_args: usize },
}

/// An instruction of a translated block.
#[derive(Debug, Clone, Copy, PartialEq, Eq, Structural)]
pub struct Instruction(pub Opcode);

/// How an instruction uses one of its operands.
#[derive(Debug, Clone, Copy, PartialEq, Eq, Structural)]
pub enum OperandDirection {
    Unused,
    In,
    Out,
    InOut,
}

/// A use, a definition, or both, of a register.
#[derive(Debug, Clone, Copy, PartialEq, Eq, Structural)]
pub enum UseDef {
    Use(Register),
    Def(Register),
    UseDef(Register),
}

/// A use, a definition, or both, of a register that the holder may
/// rewrite in place.
pub enum UseDefMut<'a> {
    Use(&'a mut Register),
    Def(&'a mut Register),
    UseDef(&'a mut Register),
}

impl<'a> UseDefMut<'a> {
    /// A read is a use, a write a definition, a read-write both; the
    /// register is handed on to be rewritten.
    pub fn from_operand_direction(direction: OperandDirection, register: &'a mut Register) -> (r: Option<UseDefMut<'a>>)
        ensures
            r is None <==> direction is Unused,
            r matches Some(u) ==> (u is Use <==> direction is In) && (u is Def <==> direction is Out) && (u is UseDef
                <==> direction is InOut),
            r matches Some(UseDefMut::Use(x)) ==> *x == *old(register) && *final(register) == *final(x),
            r matches Some(UseDefMut::Def(x)) ==> *x == *old(register) && *final(register) == *final(x),
            r matches Some(UseDefMut::UseDef(x)) ==> *x == *old(register) && *final(register) == *final(x),
            r is None ==> *final(register) == *old(register),
    {
        match direction {
            OperandDirection::Unused => None,
            OperandDirection::In => Some(UseDefMut::Use(register)),
            OperandDirection::Out => Some(UseDefMut::Def(register)),
            OperandDirection::InOut => Some(UseDefMut::UseDef(register)),
        }
    }

    pub fn has_use(&self) -> (r: bool)
        ensures
            r == (self is Use || self is UseDef),
    {
        match self {
            UseDefMut::Use(_) | UseDefMut::UseDef(_) => true,
            UseDefMut::Def(_) => false,
        }
    }

    pub fn has_def(&self) -> (r: bool)
        ensures
            r == (self is Def || self is UseDef),
    {
        match self {
            UseDefMut::Def(_) | UseDefMut::UseDef(_) => true,
            UseDefMut::Use(_) => false,
        }
    }

    pub fn is_usedef(&self) -> (r: bool)
        ensures
            r == self is UseDef,
    {
        match self {
            UseDefMut::UseDef(_) => true,
            _ => false,
        }
    }
}

/// The use or definition that an operand direction makes of a register.
pub open spec fn usedef_of(direction: OperandDirection, register: Register) -> Option<UseDef> {
    match direction {
        OperandDirection::Unused => None,
        OperandDirection::In => Some(UseDef::Use(register)),
        OperandDirection::Out => Some(UseDef::Def(register)),
        OperandDirection::InOut => Some(UseDef::UseDef(register)),
    }
}

impl UseDef {
    /// A read is a use, a write a definition, a read-write both.
    pub fn from_operand_direction(direction: OperandDirection, register: Register) -> (r: Option<
        UseDef,
    >)
        ensures
            r == usedef_of(direction, register),
    {
        match direction {
            OperandDirection::Unused => None,
            OperandDirection::In => Some(UseDef::Use(register)),
            OperandDirection::Out => Some(UseDef::Def(register)),
            OperandDirection::InOut => Some(UseDef::UseDef(register)),
        }
    }

    pub fn has_use(&self) -> (r: bool)
        ensures
            r == (self is Use || self is UseDef),
    {
        match self {
            UseDef::Use(_) | UseDef::UseDef(_) => true,
            UseDef::Def(_) => false,
        }
    }

    pub fn has_def(&self) -> (r: bool)
        ensures
            r == (self is Def || self is UseDef),
    {
        match self {
            UseDef::Def(_) | UseDef::UseDef(_) => true,
            UseDef::Use(_) => false,
        }
    }

    pub fn is_usedef(&self) -> (r: bool)
        ensures
            r == self is UseDef,
    {
        match self {
            UseDef::UseDef(_) => true,
            _ => false,
        }
    }

    /// The register used or defined.
    pub open spec fn register_spec(self) -> Register {
        match self {
            UseDef::Use(r) => r,
            UseDef::Def(r) => r,
            UseDef::UseDef(r) => r,
        }
    }
}

/// The registers that carry the arguments of a call, in order.
pub open spec fn arg_regs() -> Seq<PhysicalRegister> {
    seq![
        PhysicalRegister::RDI,
        PhysicalRegister::RSI,
        PhysicalRegister::RDX,
        PhysicalRegister::RCX,
        PhysicalRegister::R8,
        PhysicalRegister::R9,
    ]
}

/// The registers that carry the results of a call, in order.
pub open spec fn return_regs() -> Seq<PhysicalRegister> {
    seq![PhysicalRegister::RAX, PhysicalRegister::RDX]
}

/// The 64-bit register operands of the first `n` registers of `regs`, each
/// with the given direction.
pub open spec fn reg_operands(regs: Seq<PhysicalRegister>, n: nat, dir: OperandDirection) -> Seq<
    (OperandDirection, Operand),
> {
    Seq::new(
        if n < regs.len() {
            n
        } else {
            regs.len()
        },
        |i: int|
            (
                dir,
                Operand {
                    kind: OperandKind::Register(Register::PhysicalRegister(regs[i])),
                    width_in_bits: Width::_64,
                },
            ),
    )
}

/// The operands an instruction reads and writes, in order, with the direction
/// of each.
pub open spec fn operands_spec(op: Opcode) -> Seq<(OperandDirection, Operand)> {
    match op {
        Opcode::MOV(src, dst)
        | Opcode::MOVZX(src, dst)
        | Opcode::MOVSX(src, dst)
        | Opcode::LEA(src, dst)
        | Opcode::CMOVE(src, dst)
        | Opcode::CMOVNE(src, dst) => seq![(OperandDirection::In, src), (OperandDirection::Out, dst)],
        Opcode::SHL(src, dst)
        | Opcode::SHR(src, dst)
        | Opcode::SAR(src, dst)
        | Opcode::OR(src, dst)
        | Opcode::XOR(src, dst)
        | Opcode::ADD(src, dst)
        | Opcode::SUB(src, dst)
        | Opcode::AND(src, dst)
        | Opcode::IMUL(src, dst) => seq![
            (OperandDirection::In, src),
            (OperandDirection::InOut, dst),
        ],
        Opcode::IDIV(hi, lo, divisor) => seq![
            (OperandDirection::InOut, hi),
            (OperandDirection::InOut, lo),
            (OperandDirection::In, divisor),
        ],
        Opcode::JMP(tgt) | Opcode::JNE(tgt) => seq![(OperandDirection::In, tgt)],
        Opcode::RET | Opcode::NOP | Opcode::DEAD => seq![],
        Opcode::TEST(a, b) | Opcode::CMP(a, b) => seq![
            (OperandDirection::In, a),
            (OperandDirection::In, b),
        ],
        Opcode::SETE(r)
        | Opcode::SETNE(r)
        | Opcode::SETNZ(r)
        | Opcode::SETB(r)
        | Opcode::SETBE(r)
        | Opcode::SETA(r)
        | Opcode::SETG(r)
        | Opcode::SETAE(r)
        | Opcode::SETS(r)
        | Opcode::SETO(r)
        | Opcode::SETC(r)
        | Opcode::SETGE(r)
        | Opcode::SETL(r)
        | Opcode::SETLE(r) => seq![(OperandDirection::Out, r)],
        Opcode::NOT(r) | Opcode::NEG(r) => seq![(OperandDirection::InOut, r)],
        Opcode::BEXTR(ctrl, src, dst) => seq![
            (OperandDirection::In, ctrl),
            (OperandDirection::In, src),
            (OperandDirection::Out, dst),
        ],
        Opcode::INT(n) => seq![(OperandDirection::In, n)],
        Opcode::ADC(a, b, c) => seq![
            (OperandDirection::In, a),
            (OperandDirection::In, b),
            (OperandDirection::InOut, c),
        ],
        Opcode::PUSH(src) => seq![(OperandDirection::In, src)],
        Opcode::POP(dst) => seq![(OperandDirection::Out, dst)],
        Opcode::OUT(port, value) => seq![
            (OperandDirection::In, port),
            (OperandDirection::In, value),
        ],
        Opcode::CALL { function, nr_input_args, nr_output_args } => seq![
            (OperandDirection::In, function),
        ] + reg_operands(arg_regs(), nr_input_args as nat, OperandDirection::In) + reg_operands(
            return_regs(),
            nr_output_args as nat,
            OperandDirection::Out,
        ),
    }
}

/// The register uses and definitions one operand makes: a memory operand
/// reads its base and index registers, a register operand is used or defined
/// as its direction says, and other operands name no register.
pub open spec fn operand_use_defs(entry: (OperandDirection, Operand)) -> Seq<UseDef> {
    match entry.1.kind {
        OperandKind::Memory { base: Some(base), index: None, .. } => seq![UseDef::Use(base)],
        OperandKind::Memory { base: Some(base), index: Some(index), .. } => seq![
            UseDef::Use(base),
            UseDef::Use(index),
        ],
        OperandKind::Register(register) => match usedef_of(entry.0, register) {
            Some(u) => seq![u],
            None => seq![],
        },
        _ => seq![],
    }
}

/// The register uses and definitions of a sequence of operands, in order.
pub open spec fn use_defs_of(ops: Seq<(OperandDirection, Operand)>) -> Seq<UseDef>
    decreases ops.len(),
{
    if ops.len() == 0 {
        seq![]
    } else {
        use_defs_of(ops.drop_last()) + operand_use_defs(ops.last())
    }
}

} // verus!

verus! {

impl Instruction {
    /// Add with carry: `a` and `c` are read, `b` is the carry.
    pub fn adc(a: Operand, b: Operand, c: Operand) -> (r: Instruction)
        ensures
            r == Instruction(Opcode::ADC(a, b, c)),
    {
        Instruction(Opcode::ADC(a, b, c))
    }

    /// A move between operands of the same width; operands of different
    /// widths are refused.
    pub fn mov(src: Operand, dst: Operand) -> (r: Result<Instruction, ()>)
        ensures
            src.width_in_bits == dst.width_in_bits ==> r == Ok::<Instruction, ()>(
                Instruction(Opcode::MOV(src, dst)),
            ),
            src.width_in_bits != dst.width_in_bits ==> r == Err::<Instruction, ()>(()),
    {
        if src.width() != dst.width() {
            return Err(());
        }
        Ok(Instruction(Opcode::MOV(src, dst)))
    }

    /// A zero-extending move to a wider destination.
    pub fn movzx(src: Operand, dst: Operand) -> (r: Instruction)
        requires
            src.width_in_bits.bits() < dst.width_in_bits.bits(),
        ensures
            r == Instruction(Opcode::MOVZX(src, dst)),
    {
        Instruction(Opcode::MOVZX(src, dst))
    }

    /// A sign-extending move to a wider destination.
    pub fn movsx(src: Operand, dst: Operand) -> (r: Instruction)
        requires
            src.width_in_bits.bits() < dst.width_in_bits.bits(),
        ensures
            r == Instruction(Opcode::MOVSX(src, dst)),
    {
        Instruction(Opcode::MOVSX(src, dst))
    }

    /// Signed division of `dividend_hi:dividend_lo` by `divisor`.
    pub fn idiv(dividend_hi: Operand, dividend_lo: Operand, divisor: Operand) -> (r: Instruction)
        ensures
            r == Instruction(Opcode::IDIV(dividend_hi, dividend_lo, divisor)),
    {
        Instruction(Opcode::IDIV(dividend_hi, dividend_lo, divisor))
    }

    /// Bit field extract controlled by `ctrl`.
    pub fn bextr(ctrl: Operand, src: Operand, dst: Operand) -> (r: Instruction)
        ensures
            r == Instruction(Opcode::BEXTR(ctrl, src, dst)),
    {
        Instruction(Opcode::BEXTR(ctrl, src, dst))
    }

    /// An unconditional jump to a block.
    pub fn jmp(block: BlockRef) -> (r: Instruction)
        ensures
            r == Instruction(Opcode::JMP(Operand { kind: OperandKind::Target(block), width_in_bits: Width::_64 })),
    {
        Instruction(Opcode::JMP(Operand::target(block)))
    }

    /// A jump to a block taken when the zero flag is clear.
    pub fn jne(block: BlockRef) -> (r: Instruction)
        ensures
            r == Instruction(Opcode::JNE(Operand { kind: OperandKind::Target(block), width_in_bits: Width::_64 })),
    {
        Instruction(Opcode::JNE(Operand::target(block)))
    }

    pub fn ret() -> (r: Instruction)
        ensures
            r == Instruction(Opcode::RET),
    {
        Instruction(Opcode::RET)
    }

    pub fn nop() -> (r: Instruction)
        ensures
            r == Instruction(Opcode::NOP),
    {
        Instruction(Opcode::NOP)
    }

    /// A call through `function`, passing `nr_input_args` arguments and
    /// returning `nr_output_args` results in registers.
    pub fn call(function: Operand, nr_input_args: usize, nr_output_args: usize) -> (r: Instruction)
        ensures
            r == Instruction(Opcode::CALL { function, nr_input_args, nr_output_args }),
    {
        Instruction(Opcode::CALL { function, nr_input_args, nr_output_args })
    }

    /// Loads the address of the first operand into the second.
    pub fn lea(src: Operand, dst: Operand) -> (r: Instruction)
        ensures
            r == Instruction(Opcode::LEA(src, dst)),
    {
        Instruction(Opcode::LEA(src, dst))
    }

    /// Bitwise and into the destination.
    pub fn and(src: Operand, dst: Operand) -> (r: Instruction)
        ensures
            r == Instruction(Opcode::AND(src, dst)),
    {
        Instruction(Opcode::AND(src, dst))
    }

    /// Signed multiplication into the destination.
    pub fn imul(src: Operand, dst: Operand) -> (r: Instruction)
        ensures
            r == Instruction(Opcode::IMUL(src, dst)),
    {
        Instruction(Opcode::IMUL(src, dst))
    }

    /// Shifts the second operand left by the first.
    pub fn shl(src: Operand, dst: Operand) -> (r: Instruction)
        ensures
            r == Instruction(Opcode::SHL(src, dst)),
    {
        Instruction(Opcode::SHL(src, dst))
    }

    /// Logical right shift of the second operand by the first.
    pub fn shr(src: Operand, dst: Operand) -> (r: Instruction)
        ensures
            r == Instruction(Opcode::SHR(src, dst)),
    {
        Instruction(Opcode::SHR(src, dst))
    }

    /// Arithmetic right shift of the second operand by the first.
    pub fn sar(src: Operand, dst: Operand) -> (r: Instruction)
        ensures
            r == Instruction(Opcode::SAR(src, dst)),
    {
        Instruction(Opcode::SAR(src, dst))
    }

    /// Sets the flags from the bitwise and of the operands.
    pub fn test(src: Operand, dst: Operand) -> (r: Instruction)
        ensures
            r == Instruction(Opcode::TEST(src, dst)),
    {
        Instruction(Opcode::TEST(src, dst))
    }

    /// Sets the flags from the difference of the operands.
    pub fn cmp(src: Operand, dst: Operand) -> (r: Instruction)
        ensures
            r == Instruction(Opcode::CMP(src, dst)),
    {
        Instruction(Opcode::CMP(src, dst))
    }

    /// Writes the value to the I/O port.
    pub fn out(src: Operand, dst: Operand) -> (r: Instruction)
        ensures
            r == Instruction(Opcode::OUT(src, dst)),
    {
        Instruction(Opcode::OUT(src, dst))
    }

    /// Moves if the zero flag is set.
    pub fn cmove(src: Operand, dst: Operand) -> (r: Instruction)
        ensures
            r == Instruction(Opcode::CMOVE(src, dst)),
    {
        Instruction(Opcode::CMOVE(src, dst))
    }

    /// Moves if the zero flag is clear.
    pub fn cmovne(src: Operand, dst: Operand) -> (r: Instruction)
        ensures
            r == Instruction(Opcode::CMOVNE(src, dst)),
    {
        Instruction(Opcode::CMOVNE(src, dst))
    }

    /// Adds the source into the destination.
    pub fn add(src: Operand, dst: Operand) -> (r: Instruction)
        ensures
            r == Instruction(Opcode::ADD(src, dst)),
    {
        Instruction(Opcode::ADD(src, dst))
    }

    /// Subtracts the source from the destination.
    pub fn sub(src: Operand, dst: Operand) -> (r: Instruction)
        ensures
            r == Instruction(Opcode::SUB(src, dst)),
    {
        Instruction(Opcode::SUB(src, dst))
    }

    /// Bitwise or into the destination.
    pub fn or(src: Operand, dst: Operand) -> (r: Instruction)
        ensures
            r == Instruction(Opcode::OR(src, dst)),
    {
        Instruction(Opcode::OR(src, dst))
    }

    /// Bitwise exclusive or into the destination.
    pub fn xor(src: Operand, dst: Operand) -> (r: Instruction)
        ensures
            r == Instruction(Opcode::XOR(src, dst)),
    {
        Instruction(Opcode::XOR(src, dst))
    }

    pub fn push(op: Operand) -> (r: Instruction)
        ensures
            r == Instruction(Opcode::PUSH(op)),
    {
        Instruction(Opcode::PUSH(op))
    }

    pub fn pop(op: Operand) -> (r: Instruction)
        ensures
            r == Instruction(Opcode::POP(op)),
    {
        Instruction(Opcode::POP(op))
    }

    pub fn seto(op: Operand) -> (r: Instruction)
        ensures
            r == Instruction(Opcode::SETO(op)),
    {
        Instruction(Opcode::SETO(op))
    }

    pub fn setc(op: Operand) -> (r: Instruction)
        ensures
            r == Instruction(Opcode::SETC(op)),
    {
        Instruction(Opcode::SETC(op))
    }

    pub fn sete(op: Operand) -> (r: Instruction)
        ensures
            r == Instruction(Opcode::SETE(op)),
    {
        Instruction(Opcode::SETE(op))
    }

    pub fn sets(op: Operand) -> (r: Instruction)
        ensures
            r == Instruction(Opcode::SETS(op)),
    {
        Instruction(Opcode::SETS(op))
    }

    pub fn setne(op: Operand) -> (r: Instruction)
        ensures
            r == Instruction(Opcode::SETNE(op)),
    {
        Instruction(Opcode::SETNE(op))
    }

    pub fn setnz(op: Operand) -> (r: Instruction)
        ensures
            r == Instruction(Opcode::SETNZ(op)),
    {
        Instruction(Opcode::SETNZ(op))
    }

    pub fn setb(op: Operand) -> (r: Instruction)
        ensures
            r == Instruction(Opcode::SETB(op)),
    {
        Instruction(Opcode::SETB(op))
    }

    pub fn setl(op: Operand) -> (r: Instruction)
        ensures
            r == Instruction(Opcode::SETL(op)),
    {
        Instruction(Opcode::SETL(op))
    }

    pub fn setle(op: Operand) -> (r: Instruction)
        ensures
            r == Instruction(Opcode::SETLE(op)),
    {
        Instruction(Opcode::SETLE(op))
    }

    pub fn setge(op: Operand) -> (r: Instruction)
        ensures
            r == Instruction(Opcode::SETGE(op)),
    {
        Instruction(Opcode::SETGE(op))
    }

    pub fn setg(op: Operand) -> (r: Instruction)
        ensures
            r == Instruction(Opcode::SETG(op)),
    {
        Instruction(Opcode::SETG(op))
    }

    pub fn setbe(op: Operand) -> (r: Instruction)
        ensures
            r == Instruction(Opcode::SETBE(op)),
    {
        Instruction(Opcode::SETBE(op))
    }

    pub fn seta(op: Operand) -> (r: Instruction)
        ensures
            r == Instruction(Opcode::SETA(op)),
    {
        Instruction(Opcode::SETA(op))
    }

    pub fn setae(op: Operand) -> (r: Instruction)
        ensures
            r == Instruction(Opcode::SETAE(op)),
    {
        Instruction(Opcode::SETAE(op))
    }

    pub fn not(op: Operand) -> (r: Instruction)
        ensures
            r == Instruction(Opcode::NOT(op)),
    {
        Instruction(Opcode::NOT(op))
    }

    pub fn neg(op: Operand) -> (r: Instruction)
        ensures
            r == Instruction(Opcode::NEG(op)),
    {
        Instruction(Opcode::NEG(op))
    }

    /// A software interrupt with the given vector.
    pub fn interrupt(op: Operand) -> (r: Instruction)
        ensures
            r == Instruction(Opcode::INT(op)),
    {
        Instruction(Opcode::INT(op))
    }

}

} // verus!

verus! {

/// The `i`-th argument register of a call.
pub fn arg_reg(i: usize) -> (r: PhysicalRegister)
    requires
        i < 6,
    ensures
        r == arg_regs()[i as int],
{
    match i {
        0 => PhysicalRegister::RDI,
        1 => PhysicalRegister::RSI,
        2 => PhysicalRegister::RDX,
        3 => PhysicalRegister::RCX,
        4 => PhysicalRegister::R8,
        _ => PhysicalRegister::R9,
    }
}

/// The `i`-th result register of a call.
pub fn return_reg(i: usize) -> (r: PhysicalRegister)
    requires
        i < 2,
    ensures
        r == return_regs()[i as int],
{
    if i == 0 {
        PhysicalRegister::RAX
    } else {
        PhysicalRegister::RDX
    }
}

proof fn lemma_use_defs_of_push(ops: Seq<(OperandDirection, Operand)>, i: int)
    requires
        0 <= i < ops.len(),
    ensures
        use_defs_of(ops.take(i + 1)) == use_defs_of(ops.take(i)) + operand_use_defs(ops[i]),
{
    assert(ops.take(i + 1).drop_last() =~= ops.take(i));
}

impl Instruction {
    /// The operands of the instruction with the direction in which each is
    /// used. A call also reads its argument registers and writes its result
    /// registers. A dead instruction has no operands to ask for.
    pub fn get_operands_copy(&self) -> (r: Vec<(OperandDirection, Operand)>)
        requires
            !(self.0 is DEAD),
        ensures
            r@ == operands_spec(self.0),
    {
        match self.0 {
            Opcode::MOV(src, dst)
            | Opcode::MOVZX(src, dst)
            | Opcode::MOVSX(src, dst)
            | Opcode::LEA(src, dst)
            | Opcode::CMOVE(src, dst)
            | Opcode::CMOVNE(src, dst) => {
                let r = vec![(OperandDirection::In, src), (OperandDirection::Out, dst)];
                assert(r@ =~= operands_spec(self.0));
                r
            },
            Opcode::SHL(src, dst)
            | Opcode::SHR(src, dst)
            | Opcode::SAR(src, dst)
            | Opcode::OR(src, dst)
            | Opcode::XOR(src, dst)
            | Opcode::ADD(src, dst)
            | Opcode::SUB(src, dst)
            | Opcode::AND(src, dst)
            | Opcode::IMUL(src, dst) => {
                let r = vec![(OperandDirection::In, src), (OperandDirection::InOut, dst)];
                assert(r@ =~= operands_spec(self.0));
                r
            },
            Opcode::IDIV(hi, lo, divisor) => {
                let r = vec![
                    (OperandDirection::InOut, hi),
                    (OperandDirection::InOut, lo),
                    (OperandDirection::In, divisor),
                ];
                assert(r@ =~= operands_spec(self.0));
                r
            },
            Opcode::JMP(tgt) | Opcode::JNE(tgt) => {
                let r = vec![(OperandDirection::In, tgt)];
                assert(r@ =~= operands_spec(self.0));
                r
            },
            Opcode::RET | Opcode::NOP | Opcode::DEAD => {
                let r = Vec::new();
                assert(r@ =~= operands_spec(self.0));
                r
            },
            Opcode::TEST(a, b) | Opcode::CMP(a, b) => {
                let r = vec![(OperandDirection::In, a), (OperandDirection::In, b)];
                assert(r@ =~= operands_spec(self.0));
                r
            },
            Opcode::SETE(o)
            | Opcode::SETNE(o)
            | Opcode::SETNZ(o)
            | Opcode::SETB(o)
            | Opcode::SETBE(o)
            | Opcode::SETA(o)
            | Opcode::SETG(o)
            | Opcode::SETAE(o)
            | Opcode::SETS(o)
            | Opcode::SETO(o)
            | Opcode::SETC(o)
            | Opcode::SETGE(o)
            | Opcode::SETL(o)
            | Opcode::SETLE(o) => {
                let r = vec![(OperandDirection::Out, o)];
                assert(r@ =~= operands_spec(self.0));
                r
            },
            Opcode::NOT(o) | Opcode::NEG(o) => {
                let r = vec![(OperandDirection::InOut, o)];
                assert(r@ =~= operands_spec(self.0));
                r
            },
            Opcode::BEXTR(ctrl, src, dst) => {
                let r = vec![
                    (OperandDirection::In, ctrl),
                    (OperandDirection::In, src),
                    (OperandDirection::Out, dst),
                ];
                assert(r@ =~= operands_spec(self.0));
                r
            },
            Opcode::INT(n) => {
                let r = vec![(OperandDirection::In, n)];
                assert(r@ =~= operands_spec(self.0));
                r
            },
            Opcode::ADC(a, b, c) => {
                let r = vec![
                    (OperandDirection::In, a),
                    (OperandDirection::In, b),
                    (OperandDirection::InOut, c),
                ];
                assert(r@ =~= operands_spec(self.0));
                r
            },
            Opcode::PUSH(src) => {
                let r = vec![(OperandDirection::In, src)];
                assert(r@ =~= operands_spec(self.0));
                r
            },
            Opcode::POP(dst) => {
                let r = vec![(OperandDirection::Out, dst)];
                assert(r@ =~= operands_spec(self.0));
                r
            },
            Opcode::OUT(port, value) => {
                let r = vec![(OperandDirection::In, port), (OperandDirection::In, value)];
                assert(r@ =~= operands_spec(self.0));
                r
            },
            Opcode::CALL { function, nr_input_args, nr_output_args } => {
                let mut r = vec![(OperandDirection::In, function)];
                let n_in: usize = if nr_input_args < 6 {
                    nr_input_args
                } else {
                    6
                };
                let mut i: usize = 0;
                while i < n_in
                    invariant
                        n_in <= 6,
                        n_in == (if nr_input_args < 6 { nr_input_args } else { 6 }),
                        i <= n_in,
                        r@ =~= seq![(OperandDirection::In, function)] + reg_operands(
                            arg_regs(),
                            i as nat,
                            OperandDirection::In,
                        ),
                    decreases n_in - i,
                {
                    r.push((OperandDirection::In, Operand::preg(Width::_64, arg_reg(i))));
                    i = i + 1;
                }
                let ghost with_args = r@;
                let n_out: usize = if nr_output_args < 2 {
                    nr_output_args
                } else {
                    2
                };
                let mut j: usize = 0;
                while j < n_out
                    invariant
                        n_out <= 2,
                        n_out == (if nr_output_args < 2 { nr_output_args } else { 2 }),
                        j <= n_out,
                        r@ =~= with_args + reg_operands(
                            return_regs(),
                            j as nat,
                            OperandDirection::Out,
                        ),
                    decreases n_out - j,
                {
                    r.push((OperandDirection::Out, Operand::preg(Width::_64, return_reg(j))));
                    j = j + 1;
                }
                assert(r@ =~= operands_spec(self.0));
                r
            },
        }
    }

    /// The register uses and definitions of the instruction, operand by
    /// operand.
    pub fn get_use_defs(&self) -> (r: Vec<UseDef>)
        requires
            !(self.0 is DEAD),
        ensures
            r@ == use_defs_of(operands_spec(self.0)),
    {
        let ops = self.get_operands_copy();
        let mut r: Vec<UseDef> = Vec::new();
        let mut i: usize = 0;
        while i < ops.len()
            invariant
                ops@ == operands_spec(self.0),
                i <= ops.len(),
                r@ == use_defs_of(ops@.take(i as int)),
            decreases ops.len() - i,
        {
            proof {
                lemma_use_defs_of_push(ops@, i as int);
            }
            let (direction, operand) = ops[i];
            let ghost before = r@;
            match operand.kind {
                OperandKind::Memory { base: Some(base), index: None, .. } => {
                    r.push(UseDef::Use(base));
                },
                OperandKind::Memory { base: Some(base), index: Some(index), .. } => {
                    r.push(UseDef::Use(base));
                    r.push(UseDef::Use(index));
                },
                OperandKind::Register(register) => {
                    match UseDef::from_operand_direction(direction, register) {
                        Some(u) => r.push(u),
                        None => {},
                    }
                },
                _ => {},
            }
            assert(r@ =~= before + operand_use_defs(ops@[i as int]));
            i = i + 1;
        }
        assert(ops@.take(ops.len() as int) =~= ops@);
        r
    }
}

} // verus!

verus! {

/// The operands written in the instruction itself, in order: those of
/// `operands_spec` without the registers a call uses implicitly.
pub open spec fn slots_spec(op: Opcode) -> Seq<Operand> {
    match op {
        Opcode::NOT(a) | Opcode::NEG(a) | Opcode::JMP(a) | Opcode::PUSH(a) | Opcode::POP(a) | Opcode::SETS(a) | Opcode::SETE(a) | Opcode::SETC(a) | Opcode::SETO(a) | Opcode::SETNE(a) | Opcode::SETNZ(a) | Opcode::SETB(a) | Opcode::SETBE(a) | Opcode::SETA(a) | Opcode::SETG(a) | Opcode::SETGE(a) | Opcode::SETL(a) | Opcode::SETLE(a) | Opcode::SETAE(a) | Opcode::JNE(a) | Opcode::INT(a) => seq![a],
        Opcode::MOV(a, b) | Opcode::MOVZX(a, b) | Opcode::MOVSX(a, b) | Opcode::CMOVE(a, b) | Opcode::CMOVNE(a, b) | Opcode::LEA(a, b) | Opcode::SHL(a, b) | Opcode::SHR(a, b) | Opcode::SAR(a, b) | Opcode::ADD(a, b) | Opcode::SUB(a, b) | Opcode::OR(a, b) | Opcode::XOR(a, b) | Opcode::AND(a, b) | Opcode::IMUL(a, b) | Opcode::TEST(a, b) | Opcode::CMP(a, b) | Opcode::OUT(a, b) => seq![a, b],
        Opcode::ADC(a, b, c) | Opcode::IDIV(a, b, c) | Opcode::BEXTR(a, b, c) => seq![a, b, c],
        Opcode::CALL { function, .. } => seq![function],
        Opcode::RET | Opcode::NOP | Opcode::DEAD => seq![],
    }
}

/// The instruction with its written operands replaced, in order, by those of
/// `s`.
pub open spec fn with_slots_spec(op: Opcode, s: Seq<Operand>) -> Opcode {
    match op {
        Opcode::NOT(_) => Opcode::NOT(s[0]),
        Opcode::NEG(_) => Opcode::NEG(s[0]),
        Opcode::JMP(_) => Opcode::JMP(s[0]),
        Opcode::PUSH(_) => Opcode::PUSH(s[0]),
        Opcode::POP(_) => Opcode::POP(s[0]),
        Opcode::SETS(_) => Opcode::SETS(s[0]),
        Opcode::SETE(_) => Opcode::SETE(s[0]),
        Opcode::SETC(_) => Opcode::SETC(s[0]),
        Opcode::SETO(_) => Opcode::SETO(s[0]),
        Opcode::SETNE(_) => Opcode::SETNE(s[0]),
        Opcode::SETNZ(_) => Opcode::SETNZ(s[0]),
        Opcode::SETB(_) => Opcode::SETB(s[0]),
        Opcode::SETBE(_) => Opcode::SETBE(s[0]),
        Opcode::SETA(_) => Opcode::SETA(s[0]),
        Opcode::SETG(_) => Opcode::SETG(s[0]),
        Opcode::SETGE(_) => Opcode::SETGE(s[0]),
        Opcode::SETL(_) => Opcode::SETL(s[0]),
        Opcode::SETLE(_) => Opcode::SETLE(s[0]),
        Opcode::SETAE(_) => Opcode::SETAE(s[0]),
        Opcode::JNE(_) => Opcode::JNE(s[0]),
        Opcode::INT(_) => Opcode::INT(s[0]),
        Opcode::MOV(_, _) => Opcode::MOV(s[0], s[1]),
        Opcode::MOVZX(_, _) => Opcode::MOVZX(s[0], s[1]),
        Opcode::MOVSX(_, _) => Opcode::MOVSX(s[0], s[1]),
        Opcode::CMOVE(_, _) => Opcode::CMOVE(s[0], s[1]),
        Opcode::CMOVNE(_, _) => Opcode::CMOVNE(s[0], s[1]),
        Opcode::LEA(_, _) => Opcode::LEA(s[0], s[1]),
        Opcode::SHL(_, _) => Opcode::SHL(s[0], s[1]),
        Opcode::SHR(_, _) => Opcode::SHR(s[0], s[1]),
        Opcode::SAR(_, _) => Opcode::SAR(s[0], s[1]),
        Opcode::ADD(_, _) => Opcode::ADD(s[0], s[1]),
        Opcode::SUB(_, _) => Opcode::SUB(s[0], s[1]),
        Opcode::OR(_, _) => Opcode::OR(s[0], s[1]),
        Opcode::XOR(_, _) => Opcode::XOR(s[0], s[1]),
        Opcode::AND(_, _) => Opcode::AND(s[0], s[1]),
        Opcode::IMUL(_, _) => Opcode::IMUL(s[0], s[1]),
        Opcode::TEST(_, _) => Opcode::TEST(s[0], s[1]),
        Opcode::CMP(_, _) => Opcode::CMP(s[0], s[1]),
        Opcode::OUT(_, _) => Opcode::OUT(s[0], s[1]),
        Opcode::ADC(_, _, _) => Opcode::ADC(s[0], s[1], s[2]),
        Opcode::IDIV(_, _, _) => Opcode::IDIV(s[0], s[1], s[2]),
        Opcode::BEXTR(_, _, _) => Opcode::BEXTR(s[0], s[1], s[2]),
        Opcode::CALL { nr_input_args, nr_output_args, .. } => Opcode::CALL { function: s[0], nr_input_args, nr_output_args },
        _ => op,
    }
}

impl Instruction {
    /// The instruction with its written operands replaced, in order, by
    /// those of `s`.
    pub fn with_slots(&self, s: &Vec<Operand>) -> (r: Instruction)
        requires
            s.len() == slots_spec(self.0).len(),
        ensures
            r == Instruction(with_slots_spec(self.0, s@)),
            slots_spec(r.0) == s@,
    {
        let r = match self.0 {
            Opcode::NOT(_) => Opcode::NOT(s[0]),
            Opcode::NEG(_) => Opcode::NEG(s[0]),
            Opcode::JMP(_) => Opcode::JMP(s[0]),
            Opcode::PUSH(_) => Opcode::PUSH(s[0]),
            Opcode::POP(_) => Opcode::POP(s[0]),
            Opcode::SETS(_) => Opcode::SETS(s[0]),
            Opcode::SETE(_) => Opcode::SETE(s[0]),
            Opcode::SETC(_) => Opcode::SETC(s[0]),
            Opcode::SETO(_) => Opcode::SETO(s[0]),
            Opcode::SETNE(_) => Opcode::SETNE(s[0]),
            Opcode::SETNZ(_) => Opcode::SETNZ(s[0]),
            Opcode::SETB(_) => Opcode::SETB(s[0]),
            Opcode::SETBE(_) => Opcode::SETBE(s[0]),
            Opcode::SETA(_) => Opcode::SETA(s[0]),
            Opcode::SETG(_) => Opcode::SETG(s[0]),
            Opcode::SETGE(_) => Opcode::SETGE(s[0]),
            Opcode::SETL(_) => Opcode::SETL(s[0]),
            Opcode::SETLE(_) => Opcode::SETLE(s[0]),
            Opcode::SETAE(_) => Opcode::SETAE(s[0]),
            Opcode::JNE(_) => Opcode::JNE(s[0]),
            Opcode::INT(_) => Opcode::INT(s[0]),
            Opcode::MOV(_, _) => Opcode::MOV(s[0], s[1]),
            Opcode::MOVZX(_, _) => Opcode::MOVZX(s[0], s[1]),
            Opcode::MOVSX(_, _) => Opcode::MOVSX(s[0], s[1]),
            Opcode::CMOVE(_, _) => Opcode::CMOVE(s[0], s[1]),
            Opcode::CMOVNE(_, _) => Opcode::CMOVNE(s[0], s[1]),
            Opcode::LEA(_, _) => Opcode::LEA(s[0], s[1]),
            Opcode::SHL(_, _) => Opcode::SHL(s[0], s[1]),
            Opcode::SHR(_, _) => Opcode::SHR(s[0], s[1]),
            Opcode::SAR(_, _) => Opcode::SAR(s[0], s[1]),
            Opcode::ADD(_, _) => Opcode::ADD(s[0], s[1]),
            Opcode::SUB(_, _) => Opcode::SUB(s[0], s[1]),
            Opcode::OR(_, _) => Opcode::OR(s[0], s[1]),
            Opcode::XOR(_, _) => Opcode::XOR(s[0], s[1]),
            Opcode::AND(_, _) => Opcode::AND(s[0], s[1]),
            Opcode::IMUL(_, _) => Opcode::IMUL(s[0], s[1]),
            Opcode::TEST(_, _) => Opcode::TEST(s[0], s[1]),
            Opcode::CMP(_, _) => Opcode::CMP(s[0], s[1]),
            Opcode::OUT(_, _) => Opcode::OUT(s[0], s[1]),
            Opcode::ADC(_, _, _) => Opcode::ADC(s[0], s[1], s[2]),
            Opcode::IDIV(_, _, _) => Opcode::IDIV(s[0], s[1], s[2]),
            Opcode::BEXTR(_, _, _) => Opcode::BEXTR(s[0], s[1], s[2]),
            Opcode::CALL { nr_input_args, nr_output_args, .. } => Opcode::CALL { function: s[0], nr_input_args, nr_output_args },
            other => other,
        };
        assert(slots_spec(r) =~= s@);
        Instruction(r)
    }
}

/// The written operands are the leading entries of the operand list, and
/// replacing them leaves the instruction's kind and implicit registers alone.
pub proof fn lemma_slots_prefix_operands(op: Opcode)
    requires
        !(op is DEAD),
    ensures
        slots_spec(op).len() <= operands_spec(op).len(),
        forall|k: int| 0 <= k < slots_spec(op).len() ==> #[trigger] slots_spec(op)[k] == operands_spec(op)[k].1,
{
}

/// Rewriting an instruction's operands through its slots: putting back the
/// slots gives the instruction back, and a rewrite lands in the operand list
/// in order, each operand keeping its direction and the operands past the
/// slots unchanged.
pub proof fn lemma_slot_writes_land(op: Opcode, s: Seq<Operand>)
    requires
        !(op is DEAD),
        s.len() == slots_spec(op).len(),
    ensures
        with_slots_spec(op, slots_spec(op)) == op,
        operands_spec(with_slots_spec(op, s)).len() == operands_spec(op).len(),
        forall|k: int|
            0 <= k < s.len() ==> (#[trigger] operands_spec(with_slots_spec(op, s))[k]) == (operands_spec(op)[k].0, s[k]),
        forall|k: int|
            s.len() <= k < operands_spec(op).len() ==> (#[trigger] operands_spec(with_slots_spec(op, s))[k]) == operands_spec(op)[k],
{
}

} // verus!
