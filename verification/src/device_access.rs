//! The instruction of a device access: decoding the bytes at the faulting
//! RIP, and deciding from what was decoded which access to carry out on
//! the device and where execution resumes.
use vstd::prelude::*;
use crate::page_fault::{
    device_read_size, device_write_value, device_write_value_spec, read_size_spec, DestinationClass, DeviceWriteSource,
};

verus! {

/// What the page fault handler reads of the first instruction decoded, in
/// 64-bit mode, from the bytes at the faulting RIP. The code, the registers
/// and the operand kind are the decoder's numbers for them.
#[derive(Debug, Clone, Copy, PartialEq, Eq, Structural)]
pub struct DecodedAccess {
    pub code: u16,
    pub length: usize,
    pub op0_register: u8,
    pub op1_kind: u8,
    pub op1_register: u8,
    pub immediate32: u32,
    pub immediate64: u64,
    pub immediate8_2nd: u8,
}

/// The decoder's number for the instruction `MOV r32, r/m32`.
pub const CODE_MOV_R32_RM32: u16 = 285;

/// The decoder's number for the register CL.
pub const REGISTER_CL: u8 = 2;

/// The decoder's number for the register EAX.
pub const REGISTER_EAX: u8 = 37;

/// The decoder's number for the register ECX.
pub const REGISTER_ECX: u8 = 38;

/// The first instruction the decoder finds in `code`, in 64-bit mode.
pub uninterp spec fn decoded(code: Seq<u8>) -> DecodedAccess;

/// Decodes the first instruction of `code` with iced-x86's `Decoder` in
/// 64-bit mode without options, and reads its code, length, first operand
/// register, second operand kind and register, and immediates
/// (`immediate32`, `immediate64`, `immediate8_2nd`). The contract claims
/// only that the result is a function of the bytes: the decoder's result
/// is named, not stated.
#[verifier::external_body]
fn decode_access(code: &[u8]) -> (r: DecodedAccess)
    ensures
        r == decoded(code@),
{
    let i = iced_x86::Decoder::new(64, code, iced_x86::DecoderOptions::NONE).decode();
    DecodedAccess {
        code: i.code() as u16,
        length: i.len(),
        op0_register: i.op0_register() as u8,
        op1_kind: i.op1_kind() as u8,
        op1_register: i.op1_register() as u8,
        immediate32: i.immediate32(),
        immediate64: i.immediate64(),
        immediate8_2nd: i.immediate8_2nd(),
    }
}

/// The source operand of a write, by the kind of the second operand: CL,
/// ECX or another register, or an immediate of one of the encodings, whose
/// value the decoder gives by truncating or sign-extending its stored
/// immediate.
pub open spec fn write_source_spec(d: DecodedAccess) -> DeviceWriteSource {
    if d.op1_kind == 0 {
        if d.op1_register == REGISTER_CL {
            DeviceWriteSource::RegisterCl
        } else if d.op1_register == REGISTER_ECX {
            DeviceWriteSource::RegisterEcx
        } else {
            DeviceWriteSource::OtherRegister
        }
    } else if d.op1_kind == 6 {
        DeviceWriteSource::Immediate8(d.immediate32 as u8)
    } else if d.op1_kind == 7 {
        DeviceWriteSource::Immediate8Second(d.immediate8_2nd)
    } else if d.op1_kind == 8 {
        DeviceWriteSource::Immediate16(d.immediate32 as u16)
    } else if d.op1_kind == 9 {
        DeviceWriteSource::Immediate32(d.immediate32)
    } else if d.op1_kind == 10 {
        DeviceWriteSource::Immediate64(d.immediate64)
    } else if d.op1_kind == 11 {
        DeviceWriteSource::Immediate8to16(d.immediate32 as i8 as i16)
    } else if d.op1_kind == 12 {
        DeviceWriteSource::Immediate8to32(d.immediate32 as i8 as i32)
    } else if d.op1_kind == 13 {
        DeviceWriteSource::Immediate8to64(d.immediate32 as i8 as i64)
    } else if d.op1_kind == 14 {
        DeviceWriteSource::Immediate32to64(d.immediate32 as i32 as i64)
    } else {
        DeviceWriteSource::Other
    }
}

/// The source operand of a decoded write.
pub fn write_source(d: &DecodedAccess) -> (r: DeviceWriteSource)
    ensures
        r == write_source_spec(*d),
{
    if d.op1_kind == 0 {
        if d.op1_register == REGISTER_CL {
            DeviceWriteSource::RegisterCl
        } else if d.op1_register == REGISTER_ECX {
            DeviceWriteSource::RegisterEcx
        } else {
            DeviceWriteSource::OtherRegister
        }
    } else if d.op1_kind == 6 {
        DeviceWriteSource::Immediate8(d.immediate32 as u8)
    } else if d.op1_kind == 7 {
        DeviceWriteSource::Immediate8Second(d.immediate8_2nd)
    } else if d.op1_kind == 8 {
        DeviceWriteSource::Immediate16(d.immediate32 as u16)
    } else if d.op1_kind == 9 {
        DeviceWriteSource::Immediate32(d.immediate32)
    } else if d.op1_kind == 10 {
        DeviceWriteSource::Immediate64(d.immediate64)
    } else if d.op1_kind == 11 {
        DeviceWriteSource::Immediate8to16(d.immediate32 as i8 as i16)
    } else if d.op1_kind == 12 {
        DeviceWriteSource::Immediate8to32(d.immediate32 as i8 as i32)
    } else if d.op1_kind == 13 {
        DeviceWriteSource::Immediate8to64(d.immediate32 as i8 as i64)
    } else if d.op1_kind == 14 {
        DeviceWriteSource::Immediate32to64(d.immediate32 as i32 as i64)
    } else {
        DeviceWriteSource::Other
    }
}

/// The class of a general purpose register, by the decoder's numbering:
/// AL to R15L, AX to R15W, EAX to R15D, RAX to R15. `None` for any other
/// register.
pub open spec fn destination_class_spec(register: u8) -> Option<DestinationClass> {
    if 1 <= register <= 20 {
        Some(DestinationClass::Gpr8)
    } else if 21 <= register <= 36 {
        Some(DestinationClass::Gpr16)
    } else if 37 <= register <= 52 {
        Some(DestinationClass::Gpr32)
    } else if 53 <= register <= 68 {
        Some(DestinationClass::Gpr64)
    } else {
        None
    }
}

/// The class of a destination register, if it is a general purpose one.
pub fn destination_class(register: u8) -> (r: Option<DestinationClass>)
    ensures
        r == destination_class_spec(register),
{
    if 1 <= register && register <= 20 {
        Some(DestinationClass::Gpr8)
    } else if 21 <= register && register <= 36 {
        Some(DestinationClass::Gpr16)
    } else if 37 <= register && register <= 52 {
        Some(DestinationClass::Gpr32)
    } else if 53 <= register && register <= 68 {
        Some(DestinationClass::Gpr64)
    } else {
        None
    }
}

/// What to do on the device: write `size` bytes of `value`, or read `size`
/// bytes, which go to EAX where `into_eax` holds (and are refused where
/// not).
#[derive(Debug, Clone, Copy, PartialEq, Eq, Structural)]
pub enum DeviceAction {
    Write { value: u64, size: usize },
    Read { size: usize, into_eax: bool },
}

/// A device access to carry out, and the address after the instruction,
/// where execution resumes (`None` where it lies past the address space).
#[derive(Debug, Clone, Copy, PartialEq, Eq, Structural)]
pub struct AccessPlan {
    pub action: DeviceAction,
    pub resume: Option<u64>,
}

/// A device access the handler does not carry out: a write from an
/// unsupported operand, a read by an instruction other than
/// `MOV r32, r/m32`, or a read into a register that is not a general
/// purpose one.
#[derive(Debug, Clone, Copy, PartialEq, Eq, Structural)]
pub enum AccessError {
    UnsupportedWriteSource { op1_kind: u8 },
    UnsupportedReadCode { code: u16 },
    UnsupportedDestination { register: u8 },
}

/// Where execution resumes after an instruction of `length` bytes at `rip`.
pub open spec fn resume_spec(rip: u64, length: usize) -> Option<u64> {
    if rip + length <= u64::MAX {
        Some((rip + length) as u64)
    } else {
        None
    }
}

/// The plan of a device access of the decoded instruction `d`, a write
/// where `write` holds: a write stores the value of its source operand (CL
/// and ECX from `rcx`); a read must be a `MOV r32, r/m32` into a general
/// purpose register and asks the device for as many bytes as the register
/// has bits.
pub open spec fn access_plan_spec(d: DecodedAccess, write: bool, rcx: u64, rip: u64) -> Result<AccessPlan, AccessError> {
    let resume = resume_spec(rip, d.length);
    if write {
        match device_write_value_spec(write_source_spec(d), rcx) {
            Some((value, size)) => Ok(AccessPlan { action: DeviceAction::Write { value, size }, resume }),
            None => Err(AccessError::UnsupportedWriteSource { op1_kind: d.op1_kind }),
        }
    } else if d.code != CODE_MOV_R32_RM32 {
        Err(AccessError::UnsupportedReadCode { code: d.code })
    } else {
        match destination_class_spec(d.op0_register) {
            Some(class) => Ok(
                AccessPlan {
                    action: DeviceAction::Read { size: read_size_spec(class), into_eax: d.op0_register == REGISTER_EAX },
                    resume,
                },
            ),
            None => Err(AccessError::UnsupportedDestination { register: d.op0_register }),
        }
    }
}

/// What every plan keeps: execution resumes right after the instruction
/// (no resume address where that lies past the address space); a write
/// stores 1, 2, 4 or 8 bytes, of a value that fits them for an immediate
/// that is not sign-extended and of RCX for CL and ECX; only a read of
/// `MOV r32, r/m32` is planned.
pub proof fn lemma_access_plan_keeps(d: DecodedAccess, write: bool, rcx: u64, rip: u64)
    ensures
        access_plan_spec(d, write, rcx, rip) matches Ok(p) ==> {
            &&& (rip + d.length <= u64::MAX ==> p.resume == Some((rip + d.length) as u64))
            &&& (rip + d.length > u64::MAX ==> p.resume is None)
            &&& (write ==> (p.action matches DeviceAction::Write { value, size } && (size == 1 || size == 2 || size == 4
                || size == 8) && (6 <= d.op1_kind <= 9 ==> value < vstd::arithmetic::power2::pow2((8 * size) as nat)) && (
            d.op1_kind == 0 ==> value == rcx)))
            &&& (!write ==> d.code == CODE_MOV_R32_RM32 && p.action is Read)
        },
{
    vstd::arithmetic::power2::lemma2_to64();
    vstd::arithmetic::power2::lemma2_to64_rest();
}

/// Decides the device access of the decoded instruction `d`.
pub fn device_access_plan(d: DecodedAccess, write: bool, rcx: u64, rip: u64) -> (r: Result<AccessPlan, AccessError>)
    ensures
        r == access_plan_spec(d, write, rcx, rip),
{
    let resume = if d.length as u64 <= u64::MAX - rip {
        Some(rip + d.length as u64)
    } else {
        None
    };
    if write {
        match device_write_value(write_source(&d), rcx) {
            Some((value, size)) => Ok(AccessPlan { action: DeviceAction::Write { value, size }, resume }),
            None => Err(AccessError::UnsupportedWriteSource { op1_kind: d.op1_kind }),
        }
    } else if d.code != CODE_MOV_R32_RM32 {
        Err(AccessError::UnsupportedReadCode { code: d.code })
    } else {
        match destination_class(d.op0_register) {
            Some(class) => Ok(
                AccessPlan {
                    action: DeviceAction::Read { size: device_read_size(class), into_eax: d.op0_register == REGISTER_EAX },
                    resume,
                },
            ),
            None => Err(AccessError::UnsupportedDestination { register: d.op0_register }),
        }
    }
}

/// Decodes the instruction at the faulting RIP from `code` and decides its
/// device access.
pub fn plan_device_access(code: &[u8], write: bool, rcx: u64, rip: u64) -> (r: Result<AccessPlan, AccessError>)
    ensures
        r == access_plan_spec(decoded(code@), write, rcx, rip),
{
    let d = decode_access(code);
    device_access_plan(d, write, rcx, rip)
}

} // verus!
