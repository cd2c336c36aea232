//! The decisions of the page fault handler: which faults are the guest's,
//! where the backing page of a guest physical address lies, and how an
//! access of translated code to a device page is carried out. The handler
//! reads the machine state and the faulting instruction, and performs what
//! these functions decide.
use vstd::prelude::*;
use crate::bits::{sign_extend_bits, sign_extend_spec};
use crate::register_file::{le_bytes, le_read_u32, le_write_u64};

verus! {

/// The last address of the lower canonical half, where guest memory is
/// mapped.
pub const LOW_HALF_CANONICAL_END: u64 = 0x0000_7fff_ffff_ffff;

/// Where guest physical memory is mapped one to one in host virtual memory.
pub const GUEST_PHYSICAL_START: u64 = 0xffff_9000_0000_0000;

/// The largest guest physical address the one-to-one mapping holds.
pub const GUEST_PHYSICAL_END: u64 = 0x0000_6fff_ffff_ffff;

/// The guest virtual address that a fault at `faulting_address` stands
/// for, where the fault is the guest's (at or below
/// `LOW_HALF_CANONICAL_END`). Translated code masks off the top 24 bits of
/// guest addresses; they are restored by sign extension from bit 39.
pub fn guest_fault_address(faulting_address: u64) -> (r: Option<u64>)
    ensures
        faulting_address <= LOW_HALF_CANONICAL_END ==> r == Some(sign_extend_spec(faulting_address, 40)),
        faulting_address > LOW_HALF_CANONICAL_END ==> r is None,
{
    if faulting_address <= LOW_HALF_CANONICAL_END {
        Some(sign_extend_bits(faulting_address, 40))
    } else {
        None
    }
}

/// The host virtual page that backs a guest physical address: its place in
/// the one-to-one mapping, aligned down to 4 KiB.
pub fn backing_page_address(guest_physical: u64) -> (r: u64)
    requires
        guest_physical <= GUEST_PHYSICAL_END,
    ensures
        r == (GUEST_PHYSICAL_START + guest_physical) as u64 & !0xfffu64,
        r % 0x1000 == 0,
        r <= GUEST_PHYSICAL_START + guest_physical < r + 0x1000,
{
    let a = GUEST_PHYSICAL_START + guest_physical;
    let r = a & !0xfffu64;
    assert(r % 0x1000 == 0 && r <= a && a < r + 0x1000) by (bit_vector)
        requires
            r == a & !0xfffu64,
    ;
    r
}

/// The source operand of a faulting write to a device page, as decoded
/// from the instruction: a register or an immediate of each encoding.
#[derive(Debug, Clone, Copy, PartialEq, Eq, Structural)]
pub enum DeviceWriteSource {
    RegisterCl,
    RegisterEcx,
    OtherRegister,
    Immediate8(u8),
    Immediate8Second(u8),
    Immediate16(u16),
    Immediate32(u32),
    Immediate64(u64),
    Immediate8to16(i16),
    Immediate8to32(i32),
    Immediate8to64(i64),
    Immediate32to64(i64),
    Other,
}

/// The value and size of a device write from `source`.
pub open spec fn device_write_value_spec(source: DeviceWriteSource, rcx: u64) -> Option<(u64, usize)> {
    match source {
        DeviceWriteSource::RegisterCl => Some((rcx, 1usize)),
        DeviceWriteSource::RegisterEcx => Some((rcx, 4usize)),
        DeviceWriteSource::Immediate8(v) => Some((v as u64, 1usize)),
        DeviceWriteSource::Immediate8Second(v) => Some((v as u64, 1usize)),
        DeviceWriteSource::Immediate16(v) => Some((v as u64, 2usize)),
        DeviceWriteSource::Immediate32(v) => Some((v as u64, 4usize)),
        DeviceWriteSource::Immediate64(v) => Some((v, 8usize)),
        DeviceWriteSource::Immediate8to16(v) => Some((v as u64, 2usize)),
        DeviceWriteSource::Immediate8to32(v) => Some((v as u64, 4usize)),
        DeviceWriteSource::Immediate8to64(v) => Some((v as u64, 8usize)),
        DeviceWriteSource::Immediate32to64(v) => Some((v as u64, 8usize)),
        _ => None,
    }
}

/// The value a faulting device write stores and its size in bytes: CL and
/// ECX are read from `rcx`, an immediate is taken as its bits (a
/// sign-extended one as the bits of its extended value). `None` for a
/// source the handler does not support.
pub fn device_write_value(source: DeviceWriteSource, rcx: u64) -> (r: Option<(u64, usize)>)
    ensures
        r == device_write_value_spec(source, rcx),
{
    match source {
        DeviceWriteSource::RegisterCl => Some((rcx, 1)),
        DeviceWriteSource::RegisterEcx => Some((rcx, 4)),
        DeviceWriteSource::Immediate8(v) => Some((v as u64, 1)),
        DeviceWriteSource::Immediate8Second(v) => Some((v as u64, 1)),
        DeviceWriteSource::Immediate16(v) => Some((v as u64, 2)),
        DeviceWriteSource::Immediate32(v) => Some((v as u64, 4)),
        DeviceWriteSource::Immediate64(v) => Some((v, 8)),
        DeviceWriteSource::Immediate8to16(v) => Some((v as u64, 2)),
        DeviceWriteSource::Immediate8to32(v) => Some((v as u64, 4)),
        DeviceWriteSource::Immediate8to64(v) => Some((v as u64, 8)),
        DeviceWriteSource::Immediate32to64(v) => Some((v as u64, 8)),
        _ => None,
    }
}

/// The bytes a device write of `size` bytes of `value` hands the device:
/// the low `size` bytes, least significant first.
pub fn device_write_bytes(value: u64, size: usize) -> (r: Vec<u8>)
    requires
        size <= 8,
    ensures
        r@ == le_bytes(value as u128, size as nat),
{
    let mut all: Vec<u8> = vec![0u8; 8];
    le_write_u64(all.as_mut_slice(), value);
    let mut r: Vec<u8> = Vec::new();
    let mut i: usize = 0;
    while i < size
        invariant
            i <= size <= 8,
            all@ == le_bytes(value as u128, 8),
            r@ == le_bytes(value as u128, i as nat),
        decreases size - i,
    {
        r.push(all[i]);
        i = i + 1;
        assert(r@ =~= le_bytes(value as u128, i as nat));
    }
    r
}

/// The class of the destination register of a faulting device read.
#[derive(Debug, Clone, Copy, PartialEq, Eq, Structural)]
pub enum DestinationClass {
    Gpr8,
    Gpr16,
    Gpr32,
    Gpr64,
}

/// The number of bytes a read into a register of `class` asks for.
pub open spec fn read_size_spec(class: DestinationClass) -> usize {
    match class {
        DestinationClass::Gpr8 => 8usize,
        DestinationClass::Gpr16 => 16usize,
        DestinationClass::Gpr32 => 32usize,
        DestinationClass::Gpr64 => 64usize,
    }
}

/// How many bytes a device read asks the device for: the width in bits of
/// the destination register, taken as a count of bytes.
pub fn device_read_size(class: DestinationClass) -> (r: usize)
    ensures
        r == read_size_spec(class),
{
    match class {
        DestinationClass::Gpr8 => 8,
        DestinationClass::Gpr16 => 16,
        DestinationClass::Gpr32 => 32,
        DestinationClass::Gpr64 => 64,
    }
}

/// RAX after a device read into EAX: the upper half is kept and the lower
/// half holds the first four bytes read, least significant first.
pub fn merge_eax(rax: u64, bytes: &Vec<u8>) -> (r: u64)
    requires
        bytes@.len() >= 4,
    ensures
        exists|data: u32| #[trigger] le_bytes(data as u128, 4) == bytes@.take(4) && r == (rax & 0xFFFF_FFFF_0000_0000) | data as u64,
{
    let mut first: Vec<u8> = Vec::new();
    let mut i: usize = 0;
    while i < 4
        invariant
            i <= 4 <= bytes@.len(),
            first@ == bytes@.take(i as int),
        decreases 4 - i,
    {
        first.push(bytes[i]);
        i = i + 1;
        assert(first@ =~= bytes@.take(i as int));
    }
    let data = le_read_u32(first.as_slice());
    (rax & 0xFFFF_FFFF_0000_0000) | data as u64
}

/// Where execution resumes after an emulated device access: right after
/// the faulting instruction of `length` bytes.
pub fn resume_address(rip: u64, length: usize) -> (r: u64)
    requires
        rip + length <= u64::MAX,
    ensures
        r == rip + length,
{
    rip + length as u64
}

} // verus!
