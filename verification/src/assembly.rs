//! Encoding of translated instructions as calls of the x86 assembler: each
//! instruction of the model becomes the assembler calls that emit it, with
//! their register, memory and immediate operands.
use vstd::prelude::*;
use crate::encoder::{BlockRef, Instruction, MemoryScale, Opcode, Operand, OperandKind, PhysicalRegister, Register};
use crate::width::Width;

verus! {

/// An assembler register: a hardware register named at a width (RAX as
/// AL, AX, EAX or RAX).
#[derive(Debug, Clone, Copy, PartialEq, Eq, Structural)]
pub struct AsmReg {
    pub reg: PhysicalRegister,
    pub width: Width,
}

/// An index register and the scale it is multiplied by.
#[derive(Debug, Clone, Copy, PartialEq, Eq, Structural)]
pub struct AsmIndex {
    pub reg: PhysicalRegister,
    pub scale: MemoryScale,
}

/// An assembler memory operand: a base register plus a displacement, plus
/// an index register times a scale; `size` is the pointer size it is
/// written with, none for a plain one.
#[derive(Debug, Clone, Copy, PartialEq, Eq, Structural)]
pub struct AsmMem {
    pub base: PhysicalRegister,
    pub index: Option<AsmIndex>,
    pub displacement: i32,
    pub size: Option<Width>,
}

/// An operand of an assembler call.
#[derive(Debug, Clone, Copy, PartialEq, Eq, Structural)]
pub enum AsmArg {
    Reg(AsmReg),
    Mem(AsmMem),
    I32(i32),
    U32(u32),
    U64(u64),
    /// The label of a block.
    Label(BlockRef),
}

/// The assembler method a call names.
#[derive(Debug, Clone, Copy, PartialEq, Eq, Structural)]
pub enum AsmMnemonic {
    Mov,
    Movzx,
    Movsx,
    Movsxd,
    Lea,
    Shl,
    Shr,
    Sar,
    Add,
    Sub,
    And,
    Xor,
    Test,
    Cmove,
    Cmovne,
    Imul2,
    Imul3,
    Idiv,
    Not,
    Neg,
    Bextr,
    Jmp,
    Jne,
    Push,
    Pop,
    Call,
    Ret,
    Nop,
    /// A `nop` with a memory operand, marking where a block starts.
    Nop1,
    Int,
    Out,
    Seta,
    Setae,
    Setbe,
    Setc,
    Sete,
    Setg,
    Setge,
    Setl,
    Setle,
    Setne,
    Setnz,
    Seto,
    Sets,
}

/// A call of the assembler: the method and its operands, in the order the
/// method takes them (the destination first).
#[derive(Debug, Clone, Copy, PartialEq, Eq, Structural)]
pub struct AsmCall {
    pub mnemonic: AsmMnemonic,
    pub a: Option<AsmArg>,
    pub b: Option<AsmArg>,
    pub c: Option<AsmArg>,
}

/// Why an instruction has no encoding.
#[derive(Debug, Clone, Copy, PartialEq, Eq, Structural)]
pub enum EncodeError {
    /// The operand kinds or widths have no encoding.
    Unsupported,
    /// An immediate does not fit the field it is encoded in.
    ImmediateOutOfRange,
    /// The second half of a 64-bit store lies past the largest displacement.
    DisplacementOverflow,
    /// A division whose dividend is not in RDX:RAX.
    DividendNotInRdxRax,
    /// A block without instructions.
    EmptyBlock,
    /// A block whose last instruction is not a jump, an interrupt or a return.
    BlockNotEnded,
}

/// An encoding computed as `v` where the specification gives `s`.
pub open spec fn same_result(r: Result<Vec<AsmCall>, EncodeError>, s: Result<Seq<AsmCall>, EncodeError>) -> bool {
    match r {
        Ok(v) => s == Ok::<Seq<AsmCall>, EncodeError>(v@),
        Err(e) => s == Err::<Seq<AsmCall>, EncodeError>(e),
    }
}

/// The hardware register an operand names, if it names one.
pub open spec fn phys_spec(op: Operand) -> Option<PhysicalRegister> {
    match op.kind {
        OperandKind::Register(Register::PhysicalRegister(p)) => Some(p),
        _ => None,
    }
}

fn phys(op: Operand) -> (r: Option<PhysicalRegister>)
    ensures
        r == phys_spec(op),
{
    match op.kind {
        OperandKind::Register(Register::PhysicalRegister(p)) => Some(p),
        _ => None,
    }
}

/// The value of an immediate operand.
pub open spec fn immv_spec(op: Operand) -> Option<u64> {
    match op.kind {
        OperandKind::Immediate(v) => Some(v),
        _ => None,
    }
}

fn immv(op: Operand) -> (r: Option<u64>)
    ensures
        r == immv_spec(op),
{
    match op.kind {
        OperandKind::Immediate(v) => Some(v),
        _ => None,
    }
}

/// The assembler form of a memory operand with a hardware base register,
/// written with pointer size `size`; an index that is not a hardware
/// register is left out.
pub open spec fn mem_spec(op: Operand, size: Option<Width>) -> Option<AsmMem> {
    match op.kind {
        OperandKind::Memory { base: Some(Register::PhysicalRegister(b)), index, scale, displacement, .. } => Some(
            AsmMem {
                base: b,
                index: match index {
                    Some(Register::PhysicalRegister(i)) => Some(AsmIndex { reg: i, scale }),
                    _ => None,
                },
                displacement,
                size,
            },
        ),
        _ => None,
    }
}

fn mem(op: Operand, size: Option<Width>) -> (r: Option<AsmMem>)
    ensures
        r == mem_spec(op, size),
{
    match op.kind {
        OperandKind::Memory { base: Some(Register::PhysicalRegister(b)), index, scale, displacement, .. } => Some(
            AsmMem {
                base: b,
                index: match index {
                    Some(Register::PhysicalRegister(i)) => Some(AsmIndex { reg: i, scale }),
                    _ => None,
                },
                displacement,
                size,
            },
        ),
        _ => None,
    }
}

/// The memory operand 4 bytes after `m`, with pointer size `size`, where
/// its displacement fits.
pub open spec fn shifted_spec(m: AsmMem, size: Width) -> Option<AsmMem> {
    if m.displacement <= i32::MAX - 4 {
        Some(AsmMem { displacement: (m.displacement + 4) as i32, size: Some(size), ..m })
    } else {
        None
    }
}

fn shifted(m: AsmMem, size: Width) -> (r: Option<AsmMem>)
    ensures
        r == shifted_spec(m, size),
{
    if m.displacement <= i32::MAX - 4 {
        Some(AsmMem { displacement: m.displacement + 4, size: Some(size), ..m })
    } else {
        None
    }
}

/// An unsigned value as a signed 32-bit immediate, where it fits.
pub open spec fn i32u_spec(v: u64) -> Option<i32> {
    if v <= i32::MAX {
        Some(v as i32)
    } else {
        None
    }
}

fn i32u(v: u64) -> (r: Option<i32>)
    ensures
        r == i32u_spec(v),
{
    if v <= 0x7fff_ffff {
        Some(v as i32)
    } else {
        None
    }
}

/// A signed value as a signed 32-bit immediate, where it fits.
pub open spec fn i32s_spec(v: i64) -> Option<i32> {
    if i32::MIN <= v <= i32::MAX {
        Some(v as i32)
    } else {
        None
    }
}

fn i32s(v: i64) -> (r: Option<i32>)
    ensures
        r == i32s_spec(v),
{
    if -0x8000_0000 <= v && v <= 0x7fff_ffff {
        Some(v as i32)
    } else {
        None
    }
}

/// An unsigned value as an unsigned 32-bit immediate, where it fits.
pub open spec fn u32u_spec(v: u64) -> Option<u32> {
    if v <= u32::MAX {
        Some(v as u32)
    } else {
        None
    }
}

fn u32u(v: u64) -> (r: Option<u32>)
    ensures
        r == u32u_spec(v),
{
    if v <= 0xffff_ffff {
        Some(v as u32)
    } else {
        None
    }
}

/// The register `p` named at width `w`.
pub open spec fn reg_spec(p: PhysicalRegister, w: Width) -> AsmArg {
    AsmArg::Reg(AsmReg { reg: p, width: w })
}

fn reg(p: PhysicalRegister, w: Width) -> (r: AsmArg)
    ensures
        r == reg_spec(p, w),
{
    AsmArg::Reg(AsmReg { reg: p, width: w })
}

/// A call without operands.
pub open spec fn c0_spec(m: AsmMnemonic) -> AsmCall {
    AsmCall { mnemonic: m, a: None, b: None, c: None }
}

fn c0(m: AsmMnemonic) -> (r: AsmCall)
    ensures
        r == c0_spec(m),
{
    AsmCall { mnemonic: m, a: None, b: None, c: None }
}

/// A call with one operand.
pub open spec fn c1_spec(m: AsmMnemonic, a: AsmArg) -> AsmCall {
    AsmCall { mnemonic: m, a: Some(a), b: None, c: None }
}

fn c1(m: AsmMnemonic, a: AsmArg) -> (r: AsmCall)
    ensures
        r == c1_spec(m, a),
{
    AsmCall { mnemonic: m, a: Some(a), b: None, c: None }
}

/// A call with two operands.
pub open spec fn c2_spec(m: AsmMnemonic, a: AsmArg, b: AsmArg) -> AsmCall {
    AsmCall { mnemonic: m, a: Some(a), b: Some(b), c: None }
}

fn c2(m: AsmMnemonic, a: AsmArg, b: AsmArg) -> (r: AsmCall)
    ensures
        r == c2_spec(m, a, b),
{
    AsmCall { mnemonic: m, a: Some(a), b: Some(b), c: None }
}

/// A call with three operands.
pub open spec fn c3_spec(m: AsmMnemonic, a: AsmArg, b: AsmArg, c: AsmArg) -> AsmCall {
    AsmCall { mnemonic: m, a: Some(a), b: Some(b), c: Some(c) }
}

fn c3(m: AsmMnemonic, a: AsmArg, b: AsmArg, c: AsmArg) -> (r: AsmCall)
    ensures
        r == c3_spec(m, a, b, c),
{
    AsmCall { mnemonic: m, a: Some(a), b: Some(b), c: Some(c) }
}

/// No calls.
pub open spec fn none_spec() -> Seq<AsmCall> {
    Seq::empty()
}

fn none() -> (r: Vec<AsmCall>)
    ensures
        r@ == none_spec(),
{
    Vec::new()
}

/// One call.
pub open spec fn one_spec(a: AsmCall) -> Seq<AsmCall> {
    seq![a]
}

fn one(a: AsmCall) -> (r: Vec<AsmCall>)
    ensures
        r@ == one_spec(a),
{
    let mut v = Vec::new();
    v.push(a);
    v
}

/// Two calls, `a` first.
pub open spec fn two_spec(a: AsmCall, b: AsmCall) -> Seq<AsmCall> {
    seq![a, b]
}

fn two(a: AsmCall, b: AsmCall) -> (r: Vec<AsmCall>)
    ensures
        r@ == two_spec(a, b),
{
    let mut v = Vec::new();
    v.push(a);
    v.push(b);
    v
}

/// The low 32 bits of `v`.
pub open spec fn low_half_spec(v: u64) -> u32 {
    (v & 0xffff_ffff) as u32
}

fn low_half(v: u64) -> (r: u32)
    ensures
        r == low_half_spec(v),
{
    (v & 0xffff_ffff) as u32
}

/// The high 32 bits of `v`.
pub open spec fn high_half_spec(v: u64) -> u32 {
    (v >> 32) as u32
}

fn high_half(v: u64) -> (r: u32)
    ensures
        r == high_half_spec(v),
{
    (v >> 32) as u32
}

/// The assembler calls, in order, of a move from `src` to `dst`: between registers of
/// one width; from memory to a register (a 16-bit load names the 8-bit
/// register); from a register to memory; an immediate to memory (of 8 or
/// 16 bits only where it fits in 32 bits, of 32 bits truncated, of 64 bits
/// as two 32-bit stores, low half first, the high half 4 bytes on); an
/// immediate to a register (of 8 bits as a signed 32-bit immediate, of 32
/// bits where it fits, of 64 bits as it is, and narrower immediates into
/// wider registers through the 32-bit register).
pub open spec fn encode_mov_spec(src: Operand, dst: Operand) -> Result<Seq<AsmCall>, EncodeError>
{
    let (sw, dw) = (src.width_in_bits, dst.width_in_bits);
    if let Some(s) = phys_spec(src) {
        if let Some(d) = phys_spec(dst) {
            if sw == dw {
                Ok(one_spec(c2_spec(AsmMnemonic::Mov, reg_spec(d, dw), reg_spec(s, sw))))
            } else {
                Err(EncodeError::Unsupported)
            }
        } else if let Some(m) = mem_spec(dst, None) {
            if sw == dw {
                Ok(one_spec(c2_spec(AsmMnemonic::Mov, AsmArg::Mem(m), reg_spec(s, sw))))
            } else {
                Err(EncodeError::Unsupported)
            }
        } else {
            Err(EncodeError::Unsupported)
        }
    } else if let Some(m) = mem_spec(src, None) {
        if let Some(d) = phys_spec(dst) {
            if sw == dw {
                Ok(one_spec(c2_spec(AsmMnemonic::Mov, reg_spec(d, if dw == Width::_16 { Width::_8 } else { dw }), AsmArg::Mem(m))))
            } else {
                Err(EncodeError::Unsupported)
            }
        } else {
            Err(EncodeError::Unsupported)
        }
    } else if let Some(v) = immv_spec(src) {
        if let Some(d) = phys_spec(dst) {
            match (sw, dw) {
                (Width::_8, Width::_8) => match i32u_spec(v) {
                    Some(x) => Ok(one_spec(c2_spec(AsmMnemonic::Mov, reg_spec(d, Width::_8), AsmArg::I32(x)))),
                    None => Err(EncodeError::ImmediateOutOfRange),
                },
                (Width::_64, Width::_64) => Ok(one_spec(c2_spec(AsmMnemonic::Mov, reg_spec(d, Width::_64), AsmArg::U64(v)))),
                (Width::_32, Width::_32) => match u32u_spec(v) {
                    Some(x) => Ok(one_spec(c2_spec(AsmMnemonic::Mov, reg_spec(d, Width::_32), AsmArg::U32(x)))),
                    None => Err(EncodeError::ImmediateOutOfRange),
                },
                (Width::_8, Width::_32) | (Width::_8, Width::_64) | (Width::_32, Width::_64) | (Width::_16, Width::_64) => match i32u_spec(v) {
                    Some(x) => Ok(one_spec(c2_spec(AsmMnemonic::Mov, reg_spec(d, Width::_32), AsmArg::I32(x)))),
                    None => Err(EncodeError::ImmediateOutOfRange),
                },
                _ => Err(EncodeError::Unsupported),
            }
        } else if let Some(m) = mem_spec(dst, Some(dw)) {
            match (sw, dw) {
                (Width::_32, Width::_32) => Ok(one_spec(c2_spec(AsmMnemonic::Mov, AsmArg::Mem(m), AsmArg::U32(v as u32)))),
                (Width::_8, Width::_8) | (Width::_16, Width::_16) => match u32u_spec(v) {
                    Some(x) => Ok(one_spec(c2_spec(AsmMnemonic::Mov, AsmArg::Mem(m), AsmArg::U32(x)))),
                    None => Err(EncodeError::ImmediateOutOfRange),
                },
                (Width::_64, Width::_64) => match shifted_spec(m, Width::_32) {
                    Some(hi) => Ok(
                        two_spec(
                            c2_spec(AsmMnemonic::Mov, AsmArg::Mem(AsmMem { size: Some(Width::_32), ..m }), AsmArg::U32(low_half_spec(v))),
                            c2_spec(AsmMnemonic::Mov, AsmArg::Mem(hi), AsmArg::U32(high_half_spec(v))),
                        ),
                    ),
                    None => Err(EncodeError::DisplacementOverflow),
                },
                _ => Err(EncodeError::Unsupported),
            }
        } else {
            Err(EncodeError::Unsupported)
        }
    } else {
        Err(EncodeError::Unsupported)
    }
}

/// The assembler calls of a move from `src` to `dst`: between registers of
/// one width; from memory to a register (a 16-bit load names the 8-bit
/// register); from a register to memory; an immediate to memory (of 8 or
/// 16 bits only where it fits in 32 bits, of 32 bits truncated, of 64 bits
/// as two 32-bit stores, low half first, the high half 4 bytes on); an
/// immediate to a register (of 8 bits as a signed 32-bit immediate, of 32
/// bits where it fits, of 64 bits as it is, and narrower immediates into
/// wider registers through the 32-bit register).
pub fn encode_mov(src: Operand, dst: Operand) -> (r: Result<Vec<AsmCall>, EncodeError>)
    ensures
        same_result(r, encode_mov_spec(src, dst)),
{
    let (sw, dw) = (src.width_in_bits, dst.width_in_bits);
    if let Some(s) = phys(src) {
        if let Some(d) = phys(dst) {
            if sw == dw {
                Ok(one(c2(AsmMnemonic::Mov, reg(d, dw), reg(s, sw))))
            } else {
                Err(EncodeError::Unsupported)
            }
        } else if let Some(m) = mem(dst, None) {
            if sw == dw {
                Ok(one(c2(AsmMnemonic::Mov, AsmArg::Mem(m), reg(s, sw))))
            } else {
                Err(EncodeError::Unsupported)
            }
        } else {
            Err(EncodeError::Unsupported)
        }
    } else if let Some(m) = mem(src, None) {
        if let Some(d) = phys(dst) {
            if sw == dw {
                Ok(one(c2(AsmMnemonic::Mov, reg(d, if dw == Width::_16 { Width::_8 } else { dw }), AsmArg::Mem(m))))
            } else {
                Err(EncodeError::Unsupported)
            }
        } else {
            Err(EncodeError::Unsupported)
        }
    } else if let Some(v) = immv(src) {
        if let Some(d) = phys(dst) {
            match (sw, dw) {
                (Width::_8, Width::_8) => match i32u(v) {
                    Some(x) => Ok(one(c2(AsmMnemonic::Mov, reg(d, Width::_8), AsmArg::I32(x)))),
                    None => Err(EncodeError::ImmediateOutOfRange),
                },
                (Width::_64, Width::_64) => Ok(one(c2(AsmMnemonic::Mov, reg(d, Width::_64), AsmArg::U64(v)))),
                (Width::_32, Width::_32) => match u32u(v) {
                    Some(x) => Ok(one(c2(AsmMnemonic::Mov, reg(d, Width::_32), AsmArg::U32(x)))),
                    None => Err(EncodeError::ImmediateOutOfRange),
                },
                (Width::_8, Width::_32) | (Width::_8, Width::_64) | (Width::_32, Width::_64) | (Width::_16, Width::_64) => match i32u(v) {
                    Some(x) => Ok(one(c2(AsmMnemonic::Mov, reg(d, Width::_32), AsmArg::I32(x)))),
                    None => Err(EncodeError::ImmediateOutOfRange),
                },
                _ => Err(EncodeError::Unsupported),
            }
        } else if let Some(m) = mem(dst, Some(dw)) {
            match (sw, dw) {
                (Width::_32, Width::_32) => Ok(one(c2(AsmMnemonic::Mov, AsmArg::Mem(m), AsmArg::U32(v as u32)))),
                (Width::_8, Width::_8) | (Width::_16, Width::_16) => match u32u(v) {
                    Some(x) => Ok(one(c2(AsmMnemonic::Mov, AsmArg::Mem(m), AsmArg::U32(x)))),
                    None => Err(EncodeError::ImmediateOutOfRange),
                },
                (Width::_64, Width::_64) => match shifted(m, Width::_32) {
                    Some(hi) => Ok(
                        two(
                            c2(AsmMnemonic::Mov, AsmArg::Mem(AsmMem { size: Some(Width::_32), ..m }), AsmArg::U32(low_half(v))),
                            c2(AsmMnemonic::Mov, AsmArg::Mem(hi), AsmArg::U32(high_half(v))),
                        ),
                    ),
                    None => Err(EncodeError::DisplacementOverflow),
                },
                _ => Err(EncodeError::Unsupported),
            }
        } else {
            Err(EncodeError::Unsupported)
        }
    } else {
        Err(EncodeError::Unsupported)
    }
}

/// The assembler calls, in order, of a zero-extending move: an immediate into the
/// 32-bit register (an 8-bit one where it fits in a byte, wider ones
/// truncated to 32 bits), or a register by `movzx`, a 32-bit one by a
/// 32-bit move.
pub open spec fn encode_movzx_spec(src: Operand, dst: Operand) -> Result<Seq<AsmCall>, EncodeError>
{
    let (sw, dw) = (src.width_in_bits, dst.width_in_bits);
    if let Some(d) = phys_spec(dst) {
        if let Some(v) = immv_spec(src) {
            match (sw, dw) {
                (Width::_8, Width::_32) | (Width::_8, Width::_64) => if v <= 0xff {
                    Ok(one_spec(c2_spec(AsmMnemonic::Mov, reg_spec(d, Width::_32), AsmArg::I32(v as i32))))
                } else {
                    Err(EncodeError::ImmediateOutOfRange)
                },
                (Width::_16, Width::_64) | (Width::_16, Width::_32) | (Width::_32, Width::_64) => Ok(
                    one_spec(c2_spec(AsmMnemonic::Mov, reg_spec(d, Width::_32), AsmArg::I32(v as i32))),
                ),
                _ => Err(EncodeError::Unsupported),
            }
        } else if let Some(s) = phys_spec(src) {
            match (sw, dw) {
                (Width::_8, Width::_32) | (Width::_8, Width::_64) | (Width::_8, Width::_16) | (Width::_16, Width::_32) | (
                    Width::_16,
                    Width::_64,
                ) => Ok(one_spec(c2_spec(AsmMnemonic::Movzx, reg_spec(d, dw), reg_spec(s, sw)))),
                (Width::_32, Width::_64) => Ok(one_spec(c2_spec(AsmMnemonic::Mov, reg_spec(d, Width::_32), reg_spec(s, Width::_32)))),
                _ => Err(EncodeError::Unsupported),
            }
        } else {
            Err(EncodeError::Unsupported)
        }
    } else {
        Err(EncodeError::Unsupported)
    }
}

/// The assembler calls of a zero-extending move: an immediate into the
/// 32-bit register (an 8-bit one where it fits in a byte, wider ones
/// truncated to 32 bits), or a register by `movzx`, a 32-bit one by a
/// 32-bit move.
pub fn encode_movzx(src: Operand, dst: Operand) -> (r: Result<Vec<AsmCall>, EncodeError>)
    ensures
        same_result(r, encode_movzx_spec(src, dst)),
{
    let (sw, dw) = (src.width_in_bits, dst.width_in_bits);
    if let Some(d) = phys(dst) {
        if let Some(v) = immv(src) {
            match (sw, dw) {
                (Width::_8, Width::_32) | (Width::_8, Width::_64) => if v <= 0xff {
                    Ok(one(c2(AsmMnemonic::Mov, reg(d, Width::_32), AsmArg::I32(v as i32))))
                } else {
                    Err(EncodeError::ImmediateOutOfRange)
                },
                (Width::_16, Width::_64) | (Width::_16, Width::_32) | (Width::_32, Width::_64) => Ok(
                    one(c2(AsmMnemonic::Mov, reg(d, Width::_32), AsmArg::I32(v as i32))),
                ),
                _ => Err(EncodeError::Unsupported),
            }
        } else if let Some(s) = phys(src) {
            match (sw, dw) {
                (Width::_8, Width::_32) | (Width::_8, Width::_64) | (Width::_8, Width::_16) | (Width::_16, Width::_32) | (
                    Width::_16,
                    Width::_64,
                ) => Ok(one(c2(AsmMnemonic::Movzx, reg(d, dw), reg(s, sw)))),
                (Width::_32, Width::_64) => Ok(one(c2(AsmMnemonic::Mov, reg(d, Width::_32), reg(s, Width::_32)))),
                _ => Err(EncodeError::Unsupported),
            }
        } else {
            Err(EncodeError::Unsupported)
        }
    } else {
        Err(EncodeError::Unsupported)
    }
}

/// The assembler calls, in order, of a sign-extending move between registers.
pub open spec fn encode_movsx_spec(src: Operand, dst: Operand) -> Result<Seq<AsmCall>, EncodeError>
{
    let (sw, dw) = (src.width_in_bits, dst.width_in_bits);
    if let (Some(s), Some(d)) = (phys_spec(src), phys_spec(dst)) {
        match (sw, dw) {
            (Width::_32, Width::_64) => Ok(one_spec(c2_spec(AsmMnemonic::Movsxd, reg_spec(d, dw), reg_spec(s, sw)))),
            (Width::_16, Width::_32) | (Width::_16, Width::_64) | (Width::_8, Width::_64) => Ok(
                one_spec(c2_spec(AsmMnemonic::Movsx, reg_spec(d, dw), reg_spec(s, sw))),
            ),
            _ => Err(EncodeError::Unsupported),
        }
    } else {
        Err(EncodeError::Unsupported)
    }
}

/// The assembler calls of a sign-extending move between registers.
pub fn encode_movsx(src: Operand, dst: Operand) -> (r: Result<Vec<AsmCall>, EncodeError>)
    ensures
        same_result(r, encode_movsx_spec(src, dst)),
{
    let (sw, dw) = (src.width_in_bits, dst.width_in_bits);
    if let (Some(s), Some(d)) = (phys(src), phys(dst)) {
        match (sw, dw) {
            (Width::_32, Width::_64) => Ok(one(c2(AsmMnemonic::Movsxd, reg(d, dw), reg(s, sw)))),
            (Width::_16, Width::_32) | (Width::_16, Width::_64) | (Width::_8, Width::_64) => Ok(
                one(c2(AsmMnemonic::Movsx, reg(d, dw), reg(s, sw))),
            ),
            _ => Err(EncodeError::Unsupported),
        }
    } else {
        Err(EncodeError::Unsupported)
    }
}

/// The assembler calls, in order, of a shift of a register of 8, 32 or 64 bits by an
/// immediate that fits in 32 bits.
pub open spec fn encode_shift_spec(mnemonic: AsmMnemonic, amount: Operand, value: Operand) -> Result<Seq<AsmCall>, EncodeError>
{
    if let (Some(a), Some(v)) = (immv_spec(amount), phys_spec(value)) {
        match value.width_in_bits {
            Width::_16 => Err(EncodeError::Unsupported),
            w => match u32u_spec(a) {
                Some(x) => Ok(one_spec(c2_spec(mnemonic, reg_spec(v, w), AsmArg::U32(x)))),
                None => Err(EncodeError::ImmediateOutOfRange),
            },
        }
    } else {
        Err(EncodeError::Unsupported)
    }
}

/// The assembler calls of a shift of a register of 8, 32 or 64 bits by an
/// immediate that fits in 32 bits.
pub fn encode_shift(mnemonic: AsmMnemonic, amount: Operand, value: Operand) -> (r: Result<Vec<AsmCall>, EncodeError>)
    ensures
        same_result(r, encode_shift_spec(mnemonic, amount, value)),
{
    if let (Some(a), Some(v)) = (immv(amount), phys(value)) {
        match value.width_in_bits {
            Width::_16 => Err(EncodeError::Unsupported),
            w => match u32u(a) {
                Some(x) => Ok(one(c2(mnemonic, reg(v, w), AsmArg::U32(x)))),
                None => Err(EncodeError::ImmediateOutOfRange),
            },
        }
    } else {
        Err(EncodeError::Unsupported)
    }
}

/// The assembler calls, in order, of an arithmetic right shift: of a 64- or 32-bit
/// register by an 8-bit register, or by a 64-bit immediate that fits
/// in a signed 32-bit one.
pub open spec fn encode_sar_spec(amount: Operand, value: Operand) -> Result<Seq<AsmCall>, EncodeError>
{
    let (aw, vw) = (amount.width_in_bits, value.width_in_bits);
    if let Some(v) = phys_spec(value) {
        if vw == Width::_64 || vw == Width::_32 {
            if let Some(a) = phys_spec(amount) {
                if aw == Width::_8 {
                    Ok(one_spec(c2_spec(AsmMnemonic::Sar, reg_spec(v, vw), reg_spec(a, Width::_8))))
                } else {
                    Err(EncodeError::Unsupported)
                }
            } else if let Some(n) = immv_spec(amount) {
                if aw == Width::_64 {
                    match i32u_spec(n) {
                        Some(x) => Ok(one_spec(c2_spec(AsmMnemonic::Sar, reg_spec(v, vw), AsmArg::I32(x)))),
                        None => Err(EncodeError::ImmediateOutOfRange),
                    }
                } else {
                    Err(EncodeError::Unsupported)
                }
            } else {
                Err(EncodeError::Unsupported)
            }
        } else {
            Err(EncodeError::Unsupported)
        }
    } else {
        Err(EncodeError::Unsupported)
    }
}

/// The assembler calls of an arithmetic right shift: of a 64- or 32-bit
/// register by an 8-bit register, or by a 64-bit immediate that fits
/// in a signed 32-bit one.
pub fn encode_sar(amount: Operand, value: Operand) -> (r: Result<Vec<AsmCall>, EncodeError>)
    ensures
        same_result(r, encode_sar_spec(amount, value)),
{
    let (aw, vw) = (amount.width_in_bits, value.width_in_bits);
    if let Some(v) = phys(value) {
        if vw == Width::_64 || vw == Width::_32 {
            if let Some(a) = phys(amount) {
                if aw == Width::_8 {
                    Ok(one(c2(AsmMnemonic::Sar, reg(v, vw), reg(a, Width::_8))))
                } else {
                    Err(EncodeError::Unsupported)
                }
            } else if let Some(n) = immv(amount) {
                if aw == Width::_64 {
                    match i32u(n) {
                        Some(x) => Ok(one(c2(AsmMnemonic::Sar, reg(v, vw), AsmArg::I32(x)))),
                        None => Err(EncodeError::ImmediateOutOfRange),
                    }
                } else {
                    Err(EncodeError::Unsupported)
                }
            } else {
                Err(EncodeError::Unsupported)
            }
        } else {
            Err(EncodeError::Unsupported)
        }
    } else {
        Err(EncodeError::Unsupported)
    }
}

/// The assembler calls, in order, of a bitwise and: an immediate of at most
/// `i32::MAX` into a register of any width, or between registers of 8, 32
/// or 64 bits.
pub open spec fn encode_and_spec(src: Operand, dst: Operand) -> Result<Seq<AsmCall>, EncodeError>
{
    let (sw, dw) = (src.width_in_bits, dst.width_in_bits);
    if let Some(d) = phys_spec(dst) {
        if let Some(v) = immv_spec(src) {
            match i32u_spec(v) {
                Some(x) => Ok(one_spec(c2_spec(AsmMnemonic::And, reg_spec(d, dw), AsmArg::I32(x)))),
                None => Err(EncodeError::ImmediateOutOfRange),
            }
        } else if let Some(s) = phys_spec(src) {
            if sw == dw && dw != Width::_16 {
                Ok(one_spec(c2_spec(AsmMnemonic::And, reg_spec(d, dw), reg_spec(s, sw))))
            } else {
                Err(EncodeError::Unsupported)
            }
        } else {
            Err(EncodeError::Unsupported)
        }
    } else {
        Err(EncodeError::Unsupported)
    }
}

/// The assembler calls of a bitwise and: an immediate of at most
/// `i32::MAX` into a register of any width, or between registers of 8, 32
/// or 64 bits.
pub fn encode_and(src: Operand, dst: Operand) -> (r: Result<Vec<AsmCall>, EncodeError>)
    ensures
        same_result(r, encode_and_spec(src, dst)),
{
    let (sw, dw) = (src.width_in_bits, dst.width_in_bits);
    if let Some(d) = phys(dst) {
        if let Some(v) = immv(src) {
            match i32u(v) {
                Some(x) => Ok(one(c2(AsmMnemonic::And, reg(d, dw), AsmArg::I32(x)))),
                None => Err(EncodeError::ImmediateOutOfRange),
            }
        } else if let Some(s) = phys(src) {
            if sw == dw && dw != Width::_16 {
                Ok(one(c2(AsmMnemonic::And, reg(d, dw), reg(s, sw))))
            } else {
                Err(EncodeError::Unsupported)
            }
        } else {
            Err(EncodeError::Unsupported)
        }
    } else {
        Err(EncodeError::Unsupported)
    }
}

/// The assembler calls, in order, of an addition into a 64-bit register: from a
/// 64-bit register, or of an immediate whose bits, read as a signed 64-bit
/// value, fit in a signed 32-bit one.
pub open spec fn encode_add_spec(src: Operand, dst: Operand) -> Result<Seq<AsmCall>, EncodeError>
{
    let (sw, dw) = (src.width_in_bits, dst.width_in_bits);
    if let Some(d) = phys_spec(dst) {
        if dw != Width::_64 {
            Err(EncodeError::Unsupported)
        } else if let Some(s) = phys_spec(src) {
            if sw == Width::_64 {
                Ok(one_spec(c2_spec(AsmMnemonic::Add, reg_spec(d, dw), reg_spec(s, sw))))
            } else {
                Err(EncodeError::Unsupported)
            }
        } else if let Some(v) = immv_spec(src) {
            match i32s_spec(v as i64) {
                Some(x) => Ok(one_spec(c2_spec(AsmMnemonic::Add, reg_spec(d, dw), AsmArg::I32(x)))),
                None => Err(EncodeError::ImmediateOutOfRange),
            }
        } else {
            Err(EncodeError::Unsupported)
        }
    } else {
        Err(EncodeError::Unsupported)
    }
}

/// The assembler calls of an addition into a 64-bit register: from a
/// 64-bit register, or of an immediate whose bits, read as a signed 64-bit
/// value, fit in a signed 32-bit one.
pub fn encode_add(src: Operand, dst: Operand) -> (r: Result<Vec<AsmCall>, EncodeError>)
    ensures
        same_result(r, encode_add_spec(src, dst)),
{
    let (sw, dw) = (src.width_in_bits, dst.width_in_bits);
    if let Some(d) = phys(dst) {
        if dw != Width::_64 {
            Err(EncodeError::Unsupported)
        } else if let Some(s) = phys(src) {
            if sw == Width::_64 {
                Ok(one(c2(AsmMnemonic::Add, reg(d, dw), reg(s, sw))))
            } else {
                Err(EncodeError::Unsupported)
            }
        } else if let Some(v) = immv(src) {
            match i32s(v as i64) {
                Some(x) => Ok(one(c2(AsmMnemonic::Add, reg(d, dw), AsmArg::I32(x)))),
                None => Err(EncodeError::ImmediateOutOfRange),
            }
        } else {
            Err(EncodeError::Unsupported)
        }
    } else {
        Err(EncodeError::Unsupported)
    }
}

/// The assembler calls, in order, of a subtraction: an immediate that fits in a
/// signed 32-bit one from a 64- or 32-bit register, or (as an 8- or 64-bit
/// immediate) from an 8-bit one; or between 64-bit registers.
pub open spec fn encode_sub_spec(src: Operand, dst: Operand) -> Result<Seq<AsmCall>, EncodeError>
{
    let (sw, dw) = (src.width_in_bits, dst.width_in_bits);
    if let Some(d) = phys_spec(dst) {
        if let Some(v) = immv_spec(src) {
            if dw == Width::_64 || dw == Width::_32 || (dw == Width::_8 && (sw == Width::_64 || sw == Width::_8)) {
                match i32u_spec(v) {
                    Some(x) => Ok(one_spec(c2_spec(AsmMnemonic::Sub, reg_spec(d, dw), AsmArg::I32(x)))),
                    None => Err(EncodeError::ImmediateOutOfRange),
                }
            } else {
                Err(EncodeError::Unsupported)
            }
        } else if let Some(s) = phys_spec(src) {
            if sw == Width::_64 && dw == Width::_64 {
                Ok(one_spec(c2_spec(AsmMnemonic::Sub, reg_spec(d, dw), reg_spec(s, sw))))
            } else {
                Err(EncodeError::Unsupported)
            }
        } else {
            Err(EncodeError::Unsupported)
        }
    } else {
        Err(EncodeError::Unsupported)
    }
}

/// The assembler calls of a subtraction: an immediate that fits in a
/// signed 32-bit one from a 64- or 32-bit register, or (as an 8- or 64-bit
/// immediate) from an 8-bit one; or between 64-bit registers.
pub fn encode_sub(src: Operand, dst: Operand) -> (r: Result<Vec<AsmCall>, EncodeError>)
    ensures
        same_result(r, encode_sub_spec(src, dst)),
{
    let (sw, dw) = (src.width_in_bits, dst.width_in_bits);
    if let Some(d) = phys(dst) {
        if let Some(v) = immv(src) {
            if dw == Width::_64 || dw == Width::_32 || (dw == Width::_8 && (sw == Width::_64 || sw == Width::_8)) {
                match i32u(v) {
                    Some(x) => Ok(one(c2(AsmMnemonic::Sub, reg(d, dw), AsmArg::I32(x)))),
                    None => Err(EncodeError::ImmediateOutOfRange),
                }
            } else {
                Err(EncodeError::Unsupported)
            }
        } else if let Some(s) = phys(src) {
            if sw == Width::_64 && dw == Width::_64 {
                Ok(one(c2(AsmMnemonic::Sub, reg(d, dw), reg(s, sw))))
            } else {
                Err(EncodeError::Unsupported)
            }
        } else {
            Err(EncodeError::Unsupported)
        }
    } else {
        Err(EncodeError::Unsupported)
    }
}

/// The assembler calls, in order, of an instruction between two registers of one
/// width (a test, an exclusive or, a conditional move), in the order
/// `mnemonic` takes them: of 64 bits, or of 8 or 32 bits where `allow8` or
/// `allow32` admits them.
pub open spec fn encode_reg_reg_spec(mnemonic: AsmMnemonic, first: Operand, second: Operand, allow8: bool, allow32: bool) -> Result<Seq<AsmCall>, EncodeError>
{
    let (fw, sw) = (first.width_in_bits, second.width_in_bits);
    if let (Some(f), Some(s)) = (phys_spec(first), phys_spec(second)) {
        if fw == sw && (fw == Width::_64 || (allow8 && fw == Width::_8) || (allow32 && fw == Width::_32)) {
            Ok(one_spec(c2_spec(mnemonic, reg_spec(f, fw), reg_spec(s, sw))))
        } else {
            Err(EncodeError::Unsupported)
        }
    } else {
        Err(EncodeError::Unsupported)
    }
}

/// The assembler calls of an instruction between two registers of one
/// width (a test, an exclusive or, a conditional move), in the order
/// `mnemonic` takes them: of 64 bits, or of 8 or 32 bits where `allow8` or
/// `allow32` admits them.
pub fn encode_reg_reg(mnemonic: AsmMnemonic, first: Operand, second: Operand, allow8: bool, allow32: bool) -> (r: Result<Vec<AsmCall>, EncodeError>)
    ensures
        same_result(r, encode_reg_reg_spec(mnemonic, first, second, allow8, allow32)),
{
    let (fw, sw) = (first.width_in_bits, second.width_in_bits);
    if let (Some(f), Some(s)) = (phys(first), phys(second)) {
        if fw == sw && (fw == Width::_64 || (allow8 && fw == Width::_8) || (allow32 && fw == Width::_32)) {
            Ok(one(c2(mnemonic, reg(f, fw), reg(s, sw))))
        } else {
            Err(EncodeError::Unsupported)
        }
    } else {
        Err(EncodeError::Unsupported)
    }
}

/// The assembler calls, in order, of a set instruction into a register, named by its
/// 8-bit form, or (where `to_memory`) into an 8-bit memory operand.
pub open spec fn encode_set_spec(mnemonic: AsmMnemonic, dst: Operand, to_memory: bool, byte_only: bool) -> Result<Seq<AsmCall>, EncodeError>
{
    if let Some(d) = phys_spec(dst) {
        if !byte_only || dst.width_in_bits == Width::_8 {
            Ok(one_spec(c1_spec(mnemonic, reg_spec(d, Width::_8))))
        } else {
            Err(EncodeError::Unsupported)
        }
    } else if let Some(m) = mem_spec(dst, None) {
        if to_memory && dst.width_in_bits == Width::_8 {
            Ok(one_spec(c1_spec(mnemonic, AsmArg::Mem(m))))
        } else {
            Err(EncodeError::Unsupported)
        }
    } else {
        Err(EncodeError::Unsupported)
    }
}

/// The assembler calls of a set instruction into a register, named by its
/// 8-bit form, or (where `to_memory`) into an 8-bit memory operand.
pub fn encode_set(mnemonic: AsmMnemonic, dst: Operand, to_memory: bool, byte_only: bool) -> (r: Result<Vec<AsmCall>, EncodeError>)
    ensures
        same_result(r, encode_set_spec(mnemonic, dst, to_memory, byte_only)),
{
    if let Some(d) = phys(dst) {
        if !byte_only || dst.width_in_bits == Width::_8 {
            Ok(one(c1(mnemonic, reg(d, Width::_8))))
        } else {
            Err(EncodeError::Unsupported)
        }
    } else if let Some(m) = mem(dst, None) {
        if to_memory && dst.width_in_bits == Width::_8 {
            Ok(one(c1(mnemonic, AsmArg::Mem(m))))
        } else {
            Err(EncodeError::Unsupported)
        }
    } else {
        Err(EncodeError::Unsupported)
    }
}

/// The assembler calls, in order, of the instruction `op`: nothing for a dead
/// instruction; for the others, the calls their encodings above give.
/// `OR`, `ADC` and `CMP`, and operand forms not listed, have no encoding.
pub open spec fn encode_opcode_spec(op: Opcode) -> Result<Seq<AsmCall>, EncodeError>
{
    match op {
        Opcode::DEAD => Ok(none_spec()),
        Opcode::NOP => Ok(one_spec(c0_spec(AsmMnemonic::Nop))),
        Opcode::RET => Ok(one_spec(c0_spec(AsmMnemonic::Ret))),
        Opcode::MOV(s, d) => encode_mov_spec(s, d),
        Opcode::MOVZX(s, d) => encode_movzx_spec(s, d),
        Opcode::MOVSX(s, d) => encode_movsx_spec(s, d),
        Opcode::SHL(a, v) => encode_shift_spec(AsmMnemonic::Shl, a, v),
        Opcode::SHR(a, v) => encode_shift_spec(AsmMnemonic::Shr, a, v),
        Opcode::SAR(a, v) => encode_sar_spec(a, v),
        Opcode::AND(s, d) => encode_and_spec(s, d),
        Opcode::ADD(s, d) => encode_add_spec(s, d),
        Opcode::SUB(s, d) => encode_sub_spec(s, d),
        Opcode::TEST(s, d) => encode_reg_reg_spec(AsmMnemonic::Test, s, d, true, true),
        Opcode::XOR(s, d) => encode_reg_reg_spec(AsmMnemonic::Xor, d, s, true, false),
        Opcode::CMOVE(s, d) => encode_reg_reg_spec(AsmMnemonic::Cmove, d, s, false, false),
        Opcode::CMOVNE(s, d) => encode_reg_reg_spec(AsmMnemonic::Cmovne, d, s, false, false),
        Opcode::LEA(s, d) => match (mem_spec(s, Some(Width::_64)), phys_spec(d)) {
            (Some(m), Some(r)) => if s.width_in_bits == Width::_64 && d.width_in_bits == Width::_64 {
                Ok(one_spec(c2_spec(AsmMnemonic::Lea, reg_spec(r, Width::_64), AsmArg::Mem(m))))
            } else {
                Err(EncodeError::Unsupported)
            },
            _ => Err(EncodeError::Unsupported),
        },
        Opcode::SETNE(d) => match phys_spec(d) {
            Some(t) => if d.width_in_bits == Width::_64 {
                Ok(two_spec(c2_spec(AsmMnemonic::Xor, reg_spec(t, Width::_32), reg_spec(t, Width::_32)), c1_spec(AsmMnemonic::Setne, reg_spec(t, Width::_8))))
            } else if d.width_in_bits == Width::_8 {
                Ok(one_spec(c1_spec(AsmMnemonic::Setne, reg_spec(t, Width::_8))))
            } else {
                Err(EncodeError::Unsupported)
            },
            None => Err(EncodeError::Unsupported),
        },
        Opcode::SETA(d) => encode_set_spec(AsmMnemonic::Seta, d, false, false),
        Opcode::SETG(d) => encode_set_spec(AsmMnemonic::Setg, d, false, false),
        Opcode::SETAE(d) => encode_set_spec(AsmMnemonic::Setae, d, false, false),
        Opcode::SETGE(d) => encode_set_spec(AsmMnemonic::Setge, d, false, false),
        Opcode::SETE(d) => encode_set_spec(AsmMnemonic::Sete, d, true, false),
        Opcode::SETO(d) => encode_set_spec(AsmMnemonic::Seto, d, true, false),
        Opcode::SETC(d) => encode_set_spec(AsmMnemonic::Setc, d, true, false),
        Opcode::SETS(d) => encode_set_spec(AsmMnemonic::Sets, d, true, false),
        Opcode::SETB(d) => encode_set_spec(AsmMnemonic::Setne, d, false, true),
        Opcode::SETNZ(d) => encode_set_spec(AsmMnemonic::Setnz, d, false, true),
        Opcode::SETBE(d) => encode_set_spec(AsmMnemonic::Setbe, d, false, true),
        Opcode::SETLE(d) => encode_set_spec(AsmMnemonic::Setle, d, false, true),
        Opcode::SETL(d) => encode_set_spec(AsmMnemonic::Setl, d, false, true),
        _ => encode_rest_spec(op),
    }
}

/// The assembler calls of the instruction `op`: nothing for a dead
/// instruction; for the others, the calls their encodings above give.
/// `OR`, `ADC` and `CMP`, and operand forms not listed, have no encoding.
#[verifier::rlimit(60)]
pub fn encode_opcode(op: Opcode) -> (r: Result<Vec<AsmCall>, EncodeError>)
    ensures
        same_result(r, encode_opcode_spec(op)),
{
    match op {
        Opcode::DEAD => Ok(none()),
        Opcode::NOP => Ok(one(c0(AsmMnemonic::Nop))),
        Opcode::RET => Ok(one(c0(AsmMnemonic::Ret))),
        Opcode::MOV(s, d) => encode_mov(s, d),
        Opcode::MOVZX(s, d) => encode_movzx(s, d),
        Opcode::MOVSX(s, d) => encode_movsx(s, d),
        Opcode::SHL(a, v) => encode_shift(AsmMnemonic::Shl, a, v),
        Opcode::SHR(a, v) => encode_shift(AsmMnemonic::Shr, a, v),
        Opcode::SAR(a, v) => encode_sar(a, v),
        Opcode::AND(s, d) => encode_and(s, d),
        Opcode::ADD(s, d) => encode_add(s, d),
        Opcode::SUB(s, d) => encode_sub(s, d),
        Opcode::TEST(s, d) => encode_reg_reg(AsmMnemonic::Test, s, d, true, true),
        Opcode::XOR(s, d) => encode_reg_reg(AsmMnemonic::Xor, d, s, true, false),
        Opcode::CMOVE(s, d) => encode_reg_reg(AsmMnemonic::Cmove, d, s, false, false),
        Opcode::CMOVNE(s, d) => encode_reg_reg(AsmMnemonic::Cmovne, d, s, false, false),
        Opcode::LEA(s, d) => match (mem(s, Some(Width::_64)), phys(d)) {
            (Some(m), Some(r)) => if s.width_in_bits == Width::_64 && d.width_in_bits == Width::_64 {
                Ok(one(c2(AsmMnemonic::Lea, reg(r, Width::_64), AsmArg::Mem(m))))
            } else {
                Err(EncodeError::Unsupported)
            },
            _ => Err(EncodeError::Unsupported),
        },
        Opcode::SETNE(d) => match phys(d) {
            Some(t) => if d.width_in_bits == Width::_64 {
                Ok(two(c2(AsmMnemonic::Xor, reg(t, Width::_32), reg(t, Width::_32)), c1(AsmMnemonic::Setne, reg(t, Width::_8))))
            } else if d.width_in_bits == Width::_8 {
                Ok(one(c1(AsmMnemonic::Setne, reg(t, Width::_8))))
            } else {
                Err(EncodeError::Unsupported)
            },
            None => Err(EncodeError::Unsupported),
        },
        Opcode::SETA(d) => encode_set(AsmMnemonic::Seta, d, false, false),
        Opcode::SETG(d) => encode_set(AsmMnemonic::Setg, d, false, false),
        Opcode::SETAE(d) => encode_set(AsmMnemonic::Setae, d, false, false),
        Opcode::SETGE(d) => encode_set(AsmMnemonic::Setge, d, false, false),
        Opcode::SETE(d) => encode_set(AsmMnemonic::Sete, d, true, false),
        Opcode::SETO(d) => encode_set(AsmMnemonic::Seto, d, true, false),
        Opcode::SETC(d) => encode_set(AsmMnemonic::Setc, d, true, false),
        Opcode::SETS(d) => encode_set(AsmMnemonic::Sets, d, true, false),
        Opcode::SETB(d) => encode_set(AsmMnemonic::Setne, d, false, true),
        Opcode::SETNZ(d) => encode_set(AsmMnemonic::Setnz, d, false, true),
        Opcode::SETBE(d) => encode_set(AsmMnemonic::Setbe, d, false, true),
        Opcode::SETLE(d) => encode_set(AsmMnemonic::Setle, d, false, true),
        Opcode::SETL(d) => encode_set(AsmMnemonic::Setl, d, false, true),
        _ => encode_rest(op),
    }
}

/// The assembler calls, in order, of a jump, a one-operand instruction or a call.
pub open spec fn encode_rest_spec(op: Opcode) -> Result<Seq<AsmCall>, EncodeError>
{
    match op {
        Opcode::JNE(t) => match t.kind {
            OperandKind::Target(b) => Ok(one_spec(c1_spec(AsmMnemonic::Jne, AsmArg::Label(b)))),
            _ => Err(EncodeError::Unsupported),
        },
        Opcode::JMP(t) => match t.kind {
            OperandKind::Target(b) => Ok(one_spec(c1_spec(AsmMnemonic::Jmp, AsmArg::Label(b)))),
            _ => match mem_spec(t, Some(Width::_64)) {
                Some(m) => Ok(one_spec(c1_spec(AsmMnemonic::Jmp, AsmArg::Mem(m)))),
                None => Err(EncodeError::Unsupported),
            },
        },
        Opcode::NOT(v) => match phys_spec(v) {
            Some(r) => Ok(one_spec(c1_spec(AsmMnemonic::Not, reg_spec(r, v.width_in_bits)))),
            None => Err(EncodeError::Unsupported),
        },
        Opcode::NEG(v) => match phys_spec(v) {
            Some(r) => Ok(one_spec(c1_spec(AsmMnemonic::Neg, reg_spec(r, Width::_64)))),
            None => Err(EncodeError::Unsupported),
        },
        Opcode::PUSH(v) => match phys_spec(v) {
            Some(r) => if v.width_in_bits == Width::_64 {
                Ok(one_spec(c1_spec(AsmMnemonic::Push, reg_spec(r, Width::_64))))
            } else {
                Err(EncodeError::Unsupported)
            },
            None => Err(EncodeError::Unsupported),
        },
        Opcode::POP(v) => match phys_spec(v) {
            Some(r) => if v.width_in_bits == Width::_64 {
                Ok(one_spec(c1_spec(AsmMnemonic::Pop, reg_spec(r, Width::_64))))
            } else {
                Err(EncodeError::Unsupported)
            },
            None => Err(EncodeError::Unsupported),
        },
        Opcode::CALL { function, .. } => match phys_spec(function) {
            Some(r) => if function.width_in_bits == Width::_64 {
                Ok(one_spec(c1_spec(AsmMnemonic::Call, reg_spec(r, Width::_64))))
            } else {
                Err(EncodeError::Unsupported)
            },
            None => Err(EncodeError::Unsupported),
        },
        _ => encode_wide_spec(op),
    }
}

/// The assembler calls of a jump, a one-operand instruction or a call.
pub fn encode_rest(op: Opcode) -> (r: Result<Vec<AsmCall>, EncodeError>)
    ensures
        same_result(r, encode_rest_spec(op)),
{
    match op {
        Opcode::JNE(t) => match t.kind {
            OperandKind::Target(b) => Ok(one(c1(AsmMnemonic::Jne, AsmArg::Label(b)))),
            _ => Err(EncodeError::Unsupported),
        },
        Opcode::JMP(t) => match t.kind {
            OperandKind::Target(b) => Ok(one(c1(AsmMnemonic::Jmp, AsmArg::Label(b)))),
            _ => match mem(t, Some(Width::_64)) {
                Some(m) => Ok(one(c1(AsmMnemonic::Jmp, AsmArg::Mem(m)))),
                None => Err(EncodeError::Unsupported),
            },
        },
        Opcode::NOT(v) => match phys(v) {
            Some(r) => Ok(one(c1(AsmMnemonic::Not, reg(r, v.width_in_bits)))),
            None => Err(EncodeError::Unsupported),
        },
        Opcode::NEG(v) => match phys(v) {
            Some(r) => Ok(one(c1(AsmMnemonic::Neg, reg(r, Width::_64)))),
            None => Err(EncodeError::Unsupported),
        },
        Opcode::PUSH(v) => match phys(v) {
            Some(r) => if v.width_in_bits == Width::_64 {
                Ok(one(c1(AsmMnemonic::Push, reg(r, Width::_64))))
            } else {
                Err(EncodeError::Unsupported)
            },
            None => Err(EncodeError::Unsupported),
        },
        Opcode::POP(v) => match phys(v) {
            Some(r) => if v.width_in_bits == Width::_64 {
                Ok(one(c1(AsmMnemonic::Pop, reg(r, Width::_64))))
            } else {
                Err(EncodeError::Unsupported)
            },
            None => Err(EncodeError::Unsupported),
        },
        Opcode::CALL { function, .. } => match phys(function) {
            Some(r) => if function.width_in_bits == Width::_64 {
                Ok(one(c1(AsmMnemonic::Call, reg(r, Width::_64))))
            } else {
                Err(EncodeError::Unsupported)
            },
            None => Err(EncodeError::Unsupported),
        },
        _ => encode_wide(op),
    }
}

/// The assembler calls, in order, of an interrupt, a bit-field extraction, a
/// multiplication, a division or a port output.
pub open spec fn encode_wide_spec(op: Opcode) -> Result<Seq<AsmCall>, EncodeError>
{
    match op {
        Opcode::INT(n) => match immv_spec(n) {
            Some(v) => match i32u_spec(v) {
                Some(x) => Ok(one_spec(c1_spec(AsmMnemonic::Int, AsmArg::I32(x)))),
                None => Err(EncodeError::ImmediateOutOfRange),
            },
            None => Err(EncodeError::Unsupported),
        },
        Opcode::BEXTR(c, s, d) => match (phys_spec(c), phys_spec(s), phys_spec(d)) {
            (Some(cr), Some(sr), Some(dr)) => if c.width_in_bits == Width::_64 && s.width_in_bits == Width::_64
                && d.width_in_bits == Width::_64 {
                Ok(one_spec(c3_spec(AsmMnemonic::Bextr, reg_spec(dr, Width::_64), reg_spec(sr, Width::_64), reg_spec(cr, Width::_64))))
            } else {
                Err(EncodeError::Unsupported)
            },
            _ => Err(EncodeError::Unsupported),
        },
        Opcode::IMUL(s, d) => match phys_spec(d) {
            Some(dr) => if d.width_in_bits != Width::_64 || s.width_in_bits != Width::_64 {
                Err(EncodeError::Unsupported)
            } else if let Some(v) = immv_spec(s) {
                match i32u_spec(v) {
                    Some(x) => Ok(one_spec(c3_spec(AsmMnemonic::Imul3, reg_spec(dr, Width::_64), reg_spec(dr, Width::_64), AsmArg::I32(x)))),
                    None => Err(EncodeError::ImmediateOutOfRange),
                }
            } else if let Some(sr) = phys_spec(s) {
                Ok(one_spec(c2_spec(AsmMnemonic::Imul2, reg_spec(dr, Width::_64), reg_spec(sr, Width::_64))))
            } else {
                Err(EncodeError::Unsupported)
            },
            None => Err(EncodeError::Unsupported),
        },
        Opcode::IDIV(hi, lo, div) => match (phys_spec(hi), phys_spec(lo), phys_spec(div)) {
            (Some(h), Some(l), Some(v)) => if hi.width_in_bits != Width::_64 || lo.width_in_bits != Width::_64
                || div.width_in_bits != Width::_64 {
                Err(EncodeError::Unsupported)
            } else if h == PhysicalRegister::RDX && l == PhysicalRegister::RAX {
                Ok(one_spec(c1_spec(AsmMnemonic::Idiv, reg_spec(v, Width::_64))))
            } else {
                Err(EncodeError::DividendNotInRdxRax)
            },
            _ => Err(EncodeError::Unsupported),
        },
        Opcode::OUT(p, v) => match (immv_spec(p), phys_spec(v)) {
            (Some(port), Some(r)) => if p.width_in_bits == Width::_8 && v.width_in_bits == Width::_8 {
                match i32u_spec(port) {
                    Some(x) => Ok(one_spec(c2_spec(AsmMnemonic::Out, AsmArg::I32(x), reg_spec(r, Width::_8)))),
                    None => Err(EncodeError::ImmediateOutOfRange),
                }
            } else {
                Err(EncodeError::Unsupported)
            },
            _ => Err(EncodeError::Unsupported),
        },
        _ => Err(EncodeError::Unsupported),
    }
}

/// The assembler calls of an interrupt, a bit-field extraction, a
/// multiplication, a division or a port output.
pub fn encode_wide(op: Opcode) -> (r: Result<Vec<AsmCall>, EncodeError>)
    ensures
        same_result(r, encode_wide_spec(op)),
{
    match op {
        Opcode::INT(n) => match immv(n) {
            Some(v) => match i32u(v) {
                Some(x) => Ok(one(c1(AsmMnemonic::Int, AsmArg::I32(x)))),
                None => Err(EncodeError::ImmediateOutOfRange),
            },
            None => Err(EncodeError::Unsupported),
        },
        Opcode::BEXTR(c, s, d) => match (phys(c), phys(s), phys(d)) {
            (Some(cr), Some(sr), Some(dr)) => if c.width_in_bits == Width::_64 && s.width_in_bits == Width::_64
                && d.width_in_bits == Width::_64 {
                Ok(one(c3(AsmMnemonic::Bextr, reg(dr, Width::_64), reg(sr, Width::_64), reg(cr, Width::_64))))
            } else {
                Err(EncodeError::Unsupported)
            },
            _ => Err(EncodeError::Unsupported),
        },
        Opcode::IMUL(s, d) => match phys(d) {
            Some(dr) => if d.width_in_bits != Width::_64 || s.width_in_bits != Width::_64 {
                Err(EncodeError::Unsupported)
            } else if let Some(v) = immv(s) {
                match i32u(v) {
                    Some(x) => Ok(one(c3(AsmMnemonic::Imul3, reg(dr, Width::_64), reg(dr, Width::_64), AsmArg::I32(x)))),
                    None => Err(EncodeError::ImmediateOutOfRange),
                }
            } else if let Some(sr) = phys(s) {
                Ok(one(c2(AsmMnemonic::Imul2, reg(dr, Width::_64), reg(sr, Width::_64))))
            } else {
                Err(EncodeError::Unsupported)
            },
            None => Err(EncodeError::Unsupported),
        },
        Opcode::IDIV(hi, lo, div) => match (phys(hi), phys(lo), phys(div)) {
            (Some(h), Some(l), Some(v)) => if hi.width_in_bits != Width::_64 || lo.width_in_bits != Width::_64
                || div.width_in_bits != Width::_64 {
                Err(EncodeError::Unsupported)
            } else if h == PhysicalRegister::RDX && l == PhysicalRegister::RAX {
                Ok(one(c1(AsmMnemonic::Idiv, reg(v, Width::_64))))
            } else {
                Err(EncodeError::DividendNotInRdxRax)
            },
            _ => Err(EncodeError::Unsupported),
        },
        Opcode::OUT(p, v) => match (immv(p), phys(v)) {
            (Some(port), Some(r)) => if p.width_in_bits == Width::_8 && v.width_in_bits == Width::_8 {
                match i32u(port) {
                    Some(x) => Ok(one(c2(AsmMnemonic::Out, AsmArg::I32(x), reg(r, Width::_8)))),
                    None => Err(EncodeError::ImmediateOutOfRange),
                }
            } else {
                Err(EncodeError::Unsupported)
            },
            _ => Err(EncodeError::Unsupported),
        },
        _ => Err(EncodeError::Unsupported),
    }
}


/// The assembler calls of the instruction `i`.
pub fn encode_instruction(i: &Instruction) -> (r: Result<Vec<AsmCall>, EncodeError>)
    ensures
        same_result(r, encode_opcode_spec(i.0)),
{
    encode_opcode(i.0)
}


/// Whether assembler operand `arg` stands for operand `op`: the same
/// hardware register (at whatever width it is named), memory at the same
/// base register and displacement, an immediate of the same low 32 bits
/// (of the same 64 bits for a 64-bit one), or the label of the same block.
pub open spec fn names(arg: AsmArg, op: Operand) -> bool {
    match arg {
        AsmArg::Reg(r) => op.kind == OperandKind::Register(Register::PhysicalRegister(r.reg)),
        AsmArg::Mem(m) => op.kind matches OperandKind::Memory { base: Some(Register::PhysicalRegister(b)), displacement, .. }
            && b == m.base && displacement == m.displacement,
        AsmArg::I32(x) => op.kind matches OperandKind::Immediate(v) && x as u32 == v as u32,
        AsmArg::U32(x) => op.kind matches OperandKind::Immediate(v) && x == v as u32,
        AsmArg::U64(x) => op.kind == OperandKind::Immediate(x),
        AsmArg::Label(b) => op.kind == OperandKind::Target(b),
    }
}

/// Whether one assembler call carries out `op`: the matching mnemonic,
/// the destination operand first and the source after it (for `TEST` and
/// `CMOV` as the assembler orders them); for arithmetic, logic, shifts,
/// conditional moves, `LEA`, stack, call and division, registers named at
/// the widths of their operands.
pub open spec fn carries_out(op: Opcode, call: AsmCall) -> bool {
    let (a, b, c) = (call.a, call.b, call.c);
    let named = |x: Option<AsmArg>, o: Operand| x matches Some(arg) && names(arg, o);
    let named_w = |x: Option<AsmArg>, o: Operand| x matches Some(arg) && names(arg, o) && (arg matches AsmArg::Reg(g) ==> g.width == o.width_in_bits);
    match op {
        Opcode::MOV(s, d) => call.mnemonic == AsmMnemonic::Mov && named(a, d) && named(b, s) && c is None,
        Opcode::MOVZX(s, d) => (call.mnemonic == AsmMnemonic::Movzx || call.mnemonic == AsmMnemonic::Mov) && named(a, d) && named(b, s) && c is None,
        Opcode::MOVSX(s, d) => (call.mnemonic == AsmMnemonic::Movsx || call.mnemonic == AsmMnemonic::Movsxd) && named(a, d) && named(b, s) && c is None,
        Opcode::LEA(s, d) => call.mnemonic == AsmMnemonic::Lea && named_w(a, d) && named_w(b, s) && c is None,
        Opcode::ADD(s, d) => call.mnemonic == AsmMnemonic::Add && named_w(a, d) && named_w(b, s) && c is None,
        Opcode::SUB(s, d) => call.mnemonic == AsmMnemonic::Sub && named_w(a, d) && named_w(b, s) && c is None,
        Opcode::AND(s, d) => call.mnemonic == AsmMnemonic::And && named_w(a, d) && named_w(b, s) && c is None,
        Opcode::XOR(s, d) => call.mnemonic == AsmMnemonic::Xor && named_w(a, d) && named_w(b, s) && c is None,
        Opcode::SHL(s, d) => call.mnemonic == AsmMnemonic::Shl && named_w(a, d) && named_w(b, s) && c is None,
        Opcode::SHR(s, d) => call.mnemonic == AsmMnemonic::Shr && named_w(a, d) && named_w(b, s) && c is None,
        Opcode::SAR(s, d) => call.mnemonic == AsmMnemonic::Sar && named_w(a, d) && named_w(b, s) && c is None,
        Opcode::CMOVE(s, d) => call.mnemonic == AsmMnemonic::Cmove && named_w(a, d) && named_w(b, s) && c is None,
        Opcode::CMOVNE(s, d) => call.mnemonic == AsmMnemonic::Cmovne && named_w(a, d) && named_w(b, s) && c is None,
        Opcode::TEST(s, d) => call.mnemonic == AsmMnemonic::Test && named_w(a, s) && named_w(b, d) && c is None,
        Opcode::IMUL(s, d) => (call.mnemonic == AsmMnemonic::Imul2 && named_w(a, d) && named_w(b, s) && c is None) || (call.mnemonic
            == AsmMnemonic::Imul3 && named_w(a, d) && named_w(b, d) && named_w(c, s)),
        Opcode::BEXTR(ctrl, s, d) => call.mnemonic == AsmMnemonic::Bextr && named_w(a, d) && named_w(b, s) && named_w(c, ctrl),
        Opcode::IDIV(_, _, div) => call.mnemonic == AsmMnemonic::Idiv && named_w(a, div) && b is None,
        Opcode::NOT(v) => call.mnemonic == AsmMnemonic::Not && named_w(a, v) && b is None,
        Opcode::NEG(v) => call.mnemonic == AsmMnemonic::Neg && named(a, v) && b is None,
        Opcode::PUSH(v) => call.mnemonic == AsmMnemonic::Push && named_w(a, v) && b is None,
        Opcode::POP(v) => call.mnemonic == AsmMnemonic::Pop && named_w(a, v) && b is None,
        Opcode::JMP(t) => call.mnemonic == AsmMnemonic::Jmp && named(a, t) && b is None,
        Opcode::JNE(t) => call.mnemonic == AsmMnemonic::Jne && named(a, t) && b is None,
        Opcode::INT(n) => call.mnemonic == AsmMnemonic::Int && named(a, n) && b is None,
        Opcode::OUT(p, v) => call.mnemonic == AsmMnemonic::Out && named(a, p) && named(b, v) && c is None,
        Opcode::SETE(d) => call.mnemonic == AsmMnemonic::Sete && named(a, d) && b is None,
        Opcode::SETNE(d) => call.mnemonic == AsmMnemonic::Setne && named(a, d) && b is None,
        Opcode::SETA(d) => call.mnemonic == AsmMnemonic::Seta && named(a, d) && b is None,
        Opcode::SETAE(d) => call.mnemonic == AsmMnemonic::Setae && named(a, d) && b is None,
        Opcode::SETBE(d) => call.mnemonic == AsmMnemonic::Setbe && named(a, d) && b is None,
        Opcode::SETG(d) => call.mnemonic == AsmMnemonic::Setg && named(a, d) && b is None,
        Opcode::SETGE(d) => call.mnemonic == AsmMnemonic::Setge && named(a, d) && b is None,
        Opcode::SETL(d) => call.mnemonic == AsmMnemonic::Setl && named(a, d) && b is None,
        Opcode::SETLE(d) => call.mnemonic == AsmMnemonic::Setle && named(a, d) && b is None,
        Opcode::SETO(d) => call.mnemonic == AsmMnemonic::Seto && named(a, d) && b is None,
        Opcode::SETC(d) => call.mnemonic == AsmMnemonic::Setc && named(a, d) && b is None,
        Opcode::SETS(d) => call.mnemonic == AsmMnemonic::Sets && named(a, d) && b is None,
        Opcode::SETNZ(d) => call.mnemonic == AsmMnemonic::Setnz && named(a, d) && b is None,
        Opcode::SETB(d) => call.mnemonic == AsmMnemonic::Setne && named(a, d) && b is None,
        Opcode::CALL { function, .. } => call.mnemonic == AsmMnemonic::Call && named_w(a, function) && b is None,
        Opcode::NOP => call.mnemonic == AsmMnemonic::Nop && a is None,
        Opcode::RET => call.mnemonic == AsmMnemonic::Ret && a is None,
        _ => false,
    }
}

/// Whether the encoding of `op`, where there is one, carries it out: see
/// `lemma_encoding_carries_out`.
pub open spec fn encoding_carries_out(op: Opcode) -> bool {
    encode_opcode_spec(op) matches Ok(c) ==> {
        ||| (c.len() == 1 && carries_out(op, c[0]))
        ||| (c.len() == 0 && op is DEAD)
        ||| (c.len() == 2 && (op matches Opcode::MOV(s, d) && s.kind matches OperandKind::Immediate(v) && c[0].mnemonic
            == AsmMnemonic::Mov && c[1].mnemonic == AsmMnemonic::Mov && (c[0].a matches Some(lo) && names(lo, d)) && c[0].b
            == Some(AsmArg::U32(v as u32)) && (c[1].a matches Some(AsmArg::Mem(hi)) && d.kind matches OperandKind::Memory {
            base: Some(Register::PhysicalRegister(b)),
            displacement,
            ..
        } && hi.base == b && hi.displacement == displacement + 4) && c[1].b == Some(AsmArg::U32((v >> 32) as u32))))
        ||| (c.len() == 2 && (op matches Opcode::SETNE(d) && d.kind matches OperandKind::Register(
            Register::PhysicalRegister(p),
        ) && c[0].mnemonic == AsmMnemonic::Xor && c[0].a == c[0].b && (c[0].a matches Some(AsmArg::Reg(x)) && x.reg == p)
            && c[1].mnemonic == AsmMnemonic::Setne && (c[1].a matches Some(arg) && names(arg, d))))
    }
}

proof fn lemma_carries_out_set(op: Opcode)
    requires
        op is SETA || op is SETG || op is SETAE || op is SETGE || op is SETE || op is SETO || op is SETC || op is SETS
            || op is SETB || op is SETNZ || op is SETBE || op is SETLE || op is SETL,
    ensures
        encoding_carries_out(op),
{
}

proof fn lemma_carries_out_rest(op: Opcode)
    requires
        op is JNE || op is JMP || op is NOT || op is NEG || op is PUSH || op is POP || op is CALL,
    ensures
        encoding_carries_out(op),
{
}

proof fn lemma_carries_out_wide(op: Opcode)
    requires
        op is INT || op is BEXTR || op is IMUL || op is IDIV || op is OUT,
    ensures
        encoding_carries_out(op),
{
    match op {
        Opcode::INT(n) => if let OperandKind::Immediate(v) = n.kind {
            lemma_cast_bits(v);
        },
        Opcode::IMUL(sv, _) => if let OperandKind::Immediate(v) = sv.kind {
            lemma_cast_bits(v);
        },
        Opcode::OUT(p, _) => if let OperandKind::Immediate(v) = p.kind {
            lemma_cast_bits(v);
        },
        _ => {},
    }
}

proof fn lemma_cast_bits(v: u64)
    ensures
        (v as i32) as u32 == v as u32,
        ((v as i64) as i32) as u32 == v as u32,
        (v & 0xffff_ffff) as u32 == v as u32,
{
    assert((v as i32) as u32 == v as u32) by (bit_vector);
    assert(((v as i64) as i32) as u32 == v as u32) by (bit_vector);
    assert((v & 0xffff_ffff) as u32 == v as u32) by (bit_vector);
}

proof fn lemma_carries_out_mov(s: Operand, d: Operand)
    ensures
        encoding_carries_out(Opcode::MOV(s, d)),
{
    if let OperandKind::Immediate(v) = s.kind {
        lemma_cast_bits(v);
    }
}

proof fn lemma_carries_out_movzx(s: Operand, d: Operand)
    ensures
        encoding_carries_out(Opcode::MOVZX(s, d)),
{
    if let OperandKind::Immediate(v) = s.kind {
        lemma_cast_bits(v);
    }
}

proof fn lemma_carries_out_movsx(s: Operand, d: Operand)
    ensures
        encoding_carries_out(Opcode::MOVSX(s, d)),
{
}

proof fn lemma_carries_out_shl(s: Operand, d: Operand)
    ensures
        encoding_carries_out(Opcode::SHL(s, d)),
{
}

proof fn lemma_carries_out_shr(s: Operand, d: Operand)
    ensures
        encoding_carries_out(Opcode::SHR(s, d)),
{
}

proof fn lemma_carries_out_sar(s: Operand, d: Operand)
    ensures
        encoding_carries_out(Opcode::SAR(s, d)),
{
}

proof fn lemma_carries_out_and(s: Operand, d: Operand)
    ensures
        encoding_carries_out(Opcode::AND(s, d)),
{
}

proof fn lemma_carries_out_add(s: Operand, d: Operand)
    ensures
        encoding_carries_out(Opcode::ADD(s, d)),
{
    if let OperandKind::Immediate(v) = s.kind {
        lemma_cast_bits(v);
    }
}

proof fn lemma_carries_out_sub(s: Operand, d: Operand)
    ensures
        encoding_carries_out(Opcode::SUB(s, d)),
{
}

proof fn lemma_carries_out_test(s: Operand, d: Operand)
    ensures
        encoding_carries_out(Opcode::TEST(s, d)),
{
}

proof fn lemma_carries_out_xor(s: Operand, d: Operand)
    ensures
        encoding_carries_out(Opcode::XOR(s, d)),
{
}

proof fn lemma_carries_out_cmove(s: Operand, d: Operand)
    ensures
        encoding_carries_out(Opcode::CMOVE(s, d)),
{
}

proof fn lemma_carries_out_cmovne(s: Operand, d: Operand)
    ensures
        encoding_carries_out(Opcode::CMOVNE(s, d)),
{
}

proof fn lemma_carries_out_lea(s: Operand, d: Operand)
    ensures
        encoding_carries_out(Opcode::LEA(s, d)),
{
}

proof fn lemma_carries_out_setne(d: Operand)
    ensures
        encoding_carries_out(Opcode::SETNE(d)),
{
}

/// An instruction encoded as one call is carried out by that call: the
/// mnemonic it names, its destination operand first and its source after
/// it. An instruction encoded as two calls is a 64-bit immediate stored to
/// memory, low half at the operand and high half 4 bytes on, or a 64-bit
/// `SETNE`, which clears the register and then sets its low byte. A dead
/// instruction is encoded as no call.
pub proof fn lemma_encoding_carries_out(op: Opcode)
    ensures
        encoding_carries_out(op),
{
    match op {
        Opcode::MOV(s, d) => lemma_carries_out_mov(s, d),
        Opcode::MOVZX(s, d) => lemma_carries_out_movzx(s, d),
        Opcode::MOVSX(s, d) => lemma_carries_out_movsx(s, d),
        Opcode::SHL(s, d) => lemma_carries_out_shl(s, d),
        Opcode::SHR(s, d) => lemma_carries_out_shr(s, d),
        Opcode::SAR(s, d) => lemma_carries_out_sar(s, d),
        Opcode::AND(s, d) => lemma_carries_out_and(s, d),
        Opcode::ADD(s, d) => lemma_carries_out_add(s, d),
        Opcode::SUB(s, d) => lemma_carries_out_sub(s, d),
        Opcode::TEST(s, d) => lemma_carries_out_test(s, d),
        Opcode::XOR(s, d) => lemma_carries_out_xor(s, d),
        Opcode::CMOVE(s, d) => lemma_carries_out_cmove(s, d),
        Opcode::CMOVNE(s, d) => lemma_carries_out_cmovne(s, d),
        Opcode::LEA(s, d) => lemma_carries_out_lea(s, d),
        Opcode::SETNE(d) => lemma_carries_out_setne(d),
        Opcode::SETA(_) | Opcode::SETG(_) | Opcode::SETAE(_) | Opcode::SETGE(_) | Opcode::SETE(_) | Opcode::SETO(_)
        | Opcode::SETC(_) | Opcode::SETS(_) | Opcode::SETB(_) | Opcode::SETNZ(_) | Opcode::SETBE(_) | Opcode::SETLE(_)
        | Opcode::SETL(_) => lemma_carries_out_set(op),
        Opcode::JNE(_) | Opcode::JMP(_) | Opcode::NOT(_) | Opcode::NEG(_) | Opcode::PUSH(_) | Opcode::POP(_) | Opcode::CALL { .. } =>
            lemma_carries_out_rest(op),
        Opcode::INT(_) | Opcode::BEXTR(_, _, _) | Opcode::IMUL(_, _) | Opcode::IDIV(_, _, _) | Opcode::OUT(_, _) =>
            lemma_carries_out_wide(op),
        _ => {},
    }
}

/// The calls of the instructions `s`, one after the other; the first
/// error where one has no encoding.
pub open spec fn encode_seq_spec(s: Seq<Instruction>) -> Result<Seq<AsmCall>, EncodeError>
    decreases s.len(),
{
    if s.len() == 0 {
        Ok(Seq::empty())
    } else {
        match encode_seq_spec(s.drop_last()) {
            Ok(front) => match encode_opcode_spec(s.last().0) {
                Ok(back) => Ok(front + back),
                Err(e) => Err(e),
            },
            Err(e) => Err(e),
        }
    }
}

/// Whether an instruction may end a block: a jump, an interrupt or a
/// return.
pub open spec fn ends_block(i: Instruction) -> bool {
    i.0 is JMP || i.0 is INT || i.0 is RET
}

/// The calls of block `order[k]`, whose instructions are `code`: a marker
/// `nop` on `[rax + index]` (the block's index as displacement), the calls
/// of all its instructions but the last, then those of the last unless it
/// is a jump to the block that comes next in `order`. A block must end
/// with a jump, an interrupt or a return.
pub open spec fn encode_block_spec(code: Seq<Instruction>, order: Seq<BlockRef>, k: int) -> Result<Seq<AsmCall>, EncodeError> {
    let index = order[k].index;
    if code.len() == 0 {
        Err(EncodeError::EmptyBlock)
    } else if index > i32::MAX {
        Err(EncodeError::DisplacementOverflow)
    } else if !ends_block(code.last()) {
        Err(EncodeError::BlockNotEnded)
    } else {
        let marker = c1_spec(
            AsmMnemonic::Nop1,
            AsmArg::Mem(AsmMem { base: PhysicalRegister::RAX, index: None, displacement: index as i32, size: Some(Width::_64) }),
        );
        let falls_through = code.last().0 matches Opcode::JMP(op) && (op.kind matches OperandKind::Target(t) && k + 1 < order.len()
            && order[k + 1] == t);
        let body = if falls_through {
            code.drop_last()
        } else {
            code
        };
        match encode_seq_spec(body) {
            Ok(calls) => Ok(seq![marker] + calls),
            Err(e) => Err(e),
        }
    }
}

proof fn lemma_encode_seq_take(s: Seq<Instruction>, j: int)
    requires
        0 <= j < s.len(),
    ensures
        encode_seq_spec(s.take(j + 1)) == (match encode_seq_spec(s.take(j)) {
            Ok(front) => match encode_opcode_spec(s[j].0) {
                Ok(back) => Ok(front + back),
                Err(e) => Err(e),
            },
            Err(e) => Err(e),
        }),
{
    assert(s.take(j + 1).drop_last() =~= s.take(j));
    assert(s.take(j + 1).last() == s[j]);
}

proof fn lemma_encode_seq_error(s: Seq<Instruction>, m: int)
    requires
        0 <= m <= s.len(),
        encode_seq_spec(s.take(m)) is Err,
    ensures
        encode_seq_spec(s) == encode_seq_spec(s.take(m)),
    decreases s.len() - m,
{
    if m == s.len() {
        assert(s.take(m) =~= s);
    } else {
        lemma_encode_seq_take(s, m);
        lemma_encode_seq_error(s, m + 1);
    }
}

/// The calls of block `order[k]`, whose instructions are `code`.
pub fn encode_block(code: &Vec<Instruction>, order: &Vec<BlockRef>, k: usize) -> (r: Result<Vec<AsmCall>, EncodeError>)
    requires
        k < order@.len(),
    ensures
        same_result(r, encode_block_spec(code@, order@, k as int)),
{
    let index = order[k].index;
    let n = code.len();
    if n == 0 {
        return Err(EncodeError::EmptyBlock);
    }
    if index > 0x7fff_ffff {
        return Err(EncodeError::DisplacementOverflow);
    }
    let last = code[n - 1];
    match last.0 {
        Opcode::JMP(_) | Opcode::INT(_) | Opcode::RET => {},
        _ => {
            return Err(EncodeError::BlockNotEnded);
        },
    }
    let count = if crate::emitter::needs_final_jump(order, k, &last) {
        n
    } else {
        n - 1
    };
    let ghost body = code@.take(count as int);
    proof {
        assert(code@.drop_last() =~= code@.take(n - 1));
        assert(code@ =~= code@.take(n as int));
    }
    let mut calls: Vec<AsmCall> = Vec::new();
    calls.push(c1(AsmMnemonic::Nop1, AsmArg::Mem(AsmMem { base: PhysicalRegister::RAX, index: None, displacement: index as i32, size: Some(Width::_64) })));
    let ghost marker = calls@;
    proof {
        if count == n {
            assert(body =~= code@);
        } else {
            assert(body =~= code@.drop_last());
        }
    }
    let mut j: usize = 0;
    while j < count
        invariant
            j <= count <= n == code@.len(),
            body == code@.take(count as int),
            encode_block_spec(code@, order@, k as int) == (match encode_seq_spec(body) {
                Ok(c) => Ok(marker + c),
                Err(e) => Err::<Seq<AsmCall>, EncodeError>(e),
            }),
            marker.len() == 1,
            encode_seq_spec(code@.take(j as int)) matches Ok(front) && calls@ == marker + front,
        decreases count - j,
    {
        proof {
            lemma_encode_seq_take(code@, j as int);
        }
        match encode_opcode(code[j].0) {
            Ok(more) => {
                let ghost before = calls@;
                let mut m = more;
                calls.append(&mut m);
                proof {
                    assert(calls@ =~= marker + encode_seq_spec(code@.take(j + 1))->Ok_0) by {
                        assert(before == marker + encode_seq_spec(code@.take(j as int))->Ok_0);
                    }
                }
            },
            Err(e) => {
                proof {
                    let body = code@.take(count as int);
                    assert(encode_seq_spec(code@.take(j + 1)) == Err::<Seq<AsmCall>, EncodeError>(e));
                    assert(body.take(j + 1) =~= code@.take(j + 1));
                    lemma_encode_seq_error(body, j + 1);
                    assert(encode_seq_spec(body) == Err::<Seq<AsmCall>, EncodeError>(e));
                }
                return Err(e);
            },
        }
        j = j + 1;
    }
    Ok(calls)
}

/// The machine code of a translation.
pub struct Translation {
    pub code: Vec<u8>,
}

impl Translation {
    /// A translation holding `code`; making its pages executable is left to
    /// the caller, which owns the page tables.
    pub fn new(code: Vec<u8>) -> (r: Translation)
        ensures
            r.code@ == code@,
    {
        Translation { code }
    }
}

} // verus!
