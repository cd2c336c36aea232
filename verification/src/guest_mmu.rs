//! The guest's AArch64 address translation and exception entry, as the
//! page fault handler performs them on behalf of the guest.
//!
//! Translation walks a three-level table with a 39-bit virtual address space.
//! The handler reads each table entry from guest memory and asks
//! [`walk_step`] what to do with it.
use vstd::prelude::*;

verus! {

/// The output address bits of a translation table descriptor (bits 12 to 47).
pub const DESCRIPTOR_ADDRESS_MASK: u64 = 0x0000_ffff_ffff_f000;

/// The descriptor is valid (bit 0).
pub open spec fn descriptor_valid(bits: u64) -> bool {
    bits & 1 != 0
}

/// The descriptor is valid and points at a table or a page (bits 0 and 1).
pub open spec fn descriptor_table_or_page(bits: u64) -> bool {
    bits & 3 == 3
}

/// Whether a descriptor is valid.
pub fn is_valid(bits: u64) -> (r: bool)
    ensures
        r == descriptor_valid(bits),
{
    bits & 1 != 0
}

/// Whether a descriptor is valid and points at a table or a page.
pub fn is_table_or_page(bits: u64) -> (r: bool)
    ensures
        r == descriptor_table_or_page(bits),
{
    bits & 3 == 3
}

/// The address a descriptor refers to.
pub fn output_address(bits: u64) -> (r: u64)
    ensures
        r == bits & DESCRIPTOR_ADDRESS_MASK,
{
    bits & DESCRIPTOR_ADDRESS_MASK
}

/// The guest-physical base of the first-level table for `gva`: bit 39 picks
/// `TTBR1_EL1` over `TTBR0_EL1`, and the register's ASID and low bits are
/// masked off.
pub fn walk_root(gva: u64, ttbr0_el1: u64, ttbr1_el1: u64) -> (r: u64)
    ensures
        r == (if (gva >> 39u64) & 1 == 0 { ttbr0_el1 } else { ttbr1_el1 }) & !0xffff_0000_0000_0fffu64,
{
    let top_bit = (gva >> 39u64) & 1;
    let base = if top_bit == 0 {
        ttbr0_el1
    } else {
        ttbr1_el1
    };
    base & !0xffff_0000_0000_0fffu64
}

/// The bit at which the index into the table of `level` starts (levels 1 to
/// 3 of the walk).
pub open spec fn level_shift(level: u64) -> u64 {
    if level == 1 {
        30
    } else if level == 2 {
        21
    } else {
        12
    }
}

/// The index into the table of `level` that translating `gva` uses.
pub fn entry_index(level: u64, gva: u64) -> (r: usize)
    requires
        1 <= level <= 3,
    ensures
        r == ((gva >> level_shift(level)) & 0x1ff) as usize,
        r < 512,
{
    let shift: u64 = if level == 1 {
        30
    } else if level == 2 {
        21
    } else {
        12
    };
    let idx = (gva >> shift) & 0x1ff;
    assert(idx < 512) by (bit_vector)
        requires
            idx == (gva >> shift) & 0x1ff,
    ;
    idx as usize
}

/// Why a walk stopped without a translation.
#[derive(Debug, Clone, Copy, PartialEq, Eq, Structural)]
pub enum WalkFault {
    /// The entry is invalid: the guest takes a translation fault.
    GuestPageFault,
    /// A second-level entry is invalid.
    InvalidEntry,
    /// A first-level block mapping, which is not supported.
    UnsupportedBlock,
}

/// What one step of the walk decided.
#[derive(Debug, Clone, Copy, PartialEq, Eq, Structural)]
pub enum WalkStep {
    /// Continue at the next level with the table at this guest-physical base.
    Descend(u64),
    /// The walk is complete: the guest-physical address.
    Translated(u64),
    /// The walk stopped.
    Fault(WalkFault),
}

/// What the walk does with `entry`, read from the table of `level` at
/// `entry_index(level, gva)`: descend into the table it points at, translate
/// through the block or page it maps (keeping the offset bits of `gva`
/// below the level), or stop.
pub open spec fn walk_step_spec(level: u64, entry: u64, gva: u64) -> WalkStep {
    if level == 1 {
        if !descriptor_valid(entry) {
            WalkStep::Fault(WalkFault::GuestPageFault)
        } else if descriptor_table_or_page(entry) {
            WalkStep::Descend(entry & DESCRIPTOR_ADDRESS_MASK)
        } else {
            WalkStep::Fault(WalkFault::UnsupportedBlock)
        }
    } else if level == 2 {
        if !descriptor_valid(entry) {
            WalkStep::Fault(WalkFault::InvalidEntry)
        } else if descriptor_table_or_page(entry) {
            WalkStep::Descend(entry & DESCRIPTOR_ADDRESS_MASK)
        } else {
            WalkStep::Translated((entry & DESCRIPTOR_ADDRESS_MASK) | (gva & 0x1f_ffff))
        }
    } else {
        if descriptor_valid(entry) && descriptor_table_or_page(entry) {
            WalkStep::Translated((entry & DESCRIPTOR_ADDRESS_MASK) | (gva & 0xfff))
        } else {
            WalkStep::Fault(WalkFault::GuestPageFault)
        }
    }
}

/// One step of the guest translation walk at `level` (1, 2 or 3).
pub fn walk_step(level: u64, entry: u64, gva: u64) -> (r: WalkStep)
    requires
        1 <= level <= 3,
    ensures
        r == walk_step_spec(level, entry, gva),
{
    if level == 1 {
        if !is_valid(entry) {
            WalkStep::Fault(WalkFault::GuestPageFault)
        } else if is_table_or_page(entry) {
            WalkStep::Descend(output_address(entry))
        } else {
            WalkStep::Fault(WalkFault::UnsupportedBlock)
        }
    } else if level == 2 {
        if !is_valid(entry) {
            WalkStep::Fault(WalkFault::InvalidEntry)
        } else if is_table_or_page(entry) {
            WalkStep::Descend(output_address(entry))
        } else {
            WalkStep::Translated(output_address(entry) | (gva & 0x1f_ffff))
        }
    } else {
        if is_valid(entry) && is_table_or_page(entry) {
            WalkStep::Translated(output_address(entry) | (gva & 0xfff))
        } else {
            WalkStep::Fault(WalkFault::GuestPageFault)
        }
    }
}

/// A translation keeps the page offset of the virtual address: the low 12
/// bits of a translated address are those of `gva`, and a table the walk
/// descends into is page aligned.
pub proof fn lemma_walk_keeps_page_offset(level: u64, entry: u64, gva: u64)
    requires
        1 <= level <= 3,
    ensures
        walk_step_spec(level, entry, gva) matches WalkStep::Translated(pa) ==> pa & 0xfff == gva & 0xfff,
        walk_step_spec(level, entry, gva) matches WalkStep::Descend(t) ==> t & 0xfff == 0,
{
    let m = DESCRIPTOR_ADDRESS_MASK;
    assert(((entry & m) | (gva & 0xfff)) & 0xfff == gva & 0xfff) by (bit_vector)
        requires
            m == 0x0000_ffff_ffff_f000u64,
    ;
    assert(((entry & m) | (gva & 0x1f_ffff)) & 0xfff == gva & 0xfff) by (bit_vector)
        requires
            m == 0x0000_ffff_ffff_f000u64,
    ;
    assert((entry & m) & 0xfff == 0) by (bit_vector)
        requires
            m == 0x0000_ffff_ffff_f000u64,
    ;
}

/// The bits of a guest virtual address below the size of what a step
/// translates: 2 MiB for a level-2 block, 4 KiB for a level-3 page.
pub open spec fn block_offset_mask(level: u64) -> u64 {
    if level == 2 {
        0x1f_ffffu64
    } else {
        0xfffu64
    }
}

/// A translation keeps the whole offset of the address in what is mapped:
/// only a level-2 block or a level-3 page translates, every offset bit of
/// the guest virtual address is set in the result, the bits above the
/// offset are the descriptor's output address, and where that address is
/// aligned to the block the offset is exactly the address's offset.
pub proof fn lemma_walk_keeps_block_offset(level: u64, entry: u64, gva: u64)
    requires
        1 <= level <= 3,
    ensures
        walk_step_spec(level, entry, gva) matches WalkStep::Translated(pa) ==> {
            let off = block_offset_mask(level);
            &&& level == 2 || level == 3
            &&& pa & gva & off == gva & off
            &&& pa & !off == entry & DESCRIPTOR_ADDRESS_MASK & !off
            &&& (entry & DESCRIPTOR_ADDRESS_MASK & off == 0 ==> pa & off == gva & off)
        },
{
    lemma_offset_split(entry, gva, block_offset_mask(level));
}

proof fn lemma_offset_split(entry: u64, gva: u64, off: u64)
    by (bit_vector)
    ensures
        ((entry & 0x0000_ffff_ffff_f000u64) | (gva & off)) & gva & off == gva & off,
        ((entry & 0x0000_ffff_ffff_f000u64) | (gva & off)) & !off == entry & 0x0000_ffff_ffff_f000u64 & !off,
        entry & 0x0000_ffff_ffff_f000u64 & off == 0 ==> ((entry & 0x0000_ffff_ffff_f000u64) | (gva & off)) & off == gva & off,
{
}

/// The walk's geometry: pages are 4 KiB, each table holds 512 entries, so
/// the index of each level starts 9 bits above that of the next, and what a
/// level-2 block or a level-3 page translates is exactly the span below the
/// index of its level.
pub proof fn lemma_walk_geometry()
    ensures
        level_shift(3) == 12,
        level_shift(2) == level_shift(3) + 9,
        level_shift(1) == level_shift(2) + 9,
        block_offset_mask(2) as int == vstd::arithmetic::power2::pow2(level_shift(2) as nat) - 1,
        block_offset_mask(3) as int == vstd::arithmetic::power2::pow2(level_shift(3) as nat) - 1,
{
    vstd::arithmetic::power2::lemma2_to64();
}

/// Which descriptors a step follows: bit 0 clear is a fault at every level;
/// at levels 1 and 2 bits 0 and 1 set descend to the table whose address is
/// bits 12 to 47 of the descriptor; at level 2 bit 1 clear translates
/// through a block; at level 3 only bits 0 and 1 set translate; a level-1
/// block is refused.
pub proof fn lemma_walk_follows_descriptor_bits(level: u64, entry: u64, gva: u64)
    requires
        1 <= level <= 3,
    ensures
        entry & 1 == 0 ==> walk_step_spec(level, entry, gva) is Fault,
        level < 3 && entry & 3 == 3 ==> walk_step_spec(level, entry, gva) == WalkStep::Descend(entry & 0x0000_ffff_ffff_f000),
        level == 1 && entry & 3 == 1 ==> walk_step_spec(level, entry, gva) == WalkStep::Fault(WalkFault::UnsupportedBlock),
        level == 2 && entry & 3 == 1 ==> walk_step_spec(level, entry, gva) is Translated,
        level == 3 ==> (walk_step_spec(level, entry, gva) is Translated <==> entry & 3 == 3),
        walk_step_spec(level, entry, gva) matches WalkStep::Descend(t) ==> t & 0xfff == 0 && t >> 48 == 0 && t
            == entry & 0x0000_ffff_ffff_f000,
{
    lemma_descriptor_low_bits(entry);
}

proof fn lemma_descriptor_low_bits(entry: u64)
    by (bit_vector)
    ensures
        entry & 3 == 3 ==> entry & 1 != 0,
        entry & 3 == 1 ==> entry & 1 != 0,
        entry & 1 == 0 ==> entry & 3 != 3,
        (entry & 0x0000_ffff_ffff_f000u64) & 0xfff == 0,
        (entry & 0x0000_ffff_ffff_f000u64) >> 48 == 0,
{
}

/// The exception class the guest reports for an exception of kind `typ`
/// taken from `current_el` to `target_el`.
pub open spec fn exception_class_spec(current_el: u8, target_el: u8, typ: u8) -> u32 {
    if typ == 0 {
        0x3c
    } else if typ == 1 {
        if target_el == current_el {
            0x25
        } else {
            0x24
        }
    } else if typ == 2 {
        0
    } else if typ == 3 {
        0x15
    } else if typ == 4 {
        if target_el == current_el {
            0x21
        } else {
            0x20
        }
    } else if typ == 5 {
        0x07
    } else {
        0x32
    }
}

/// The exception class of an exception of kind `typ`: software breakpoint
/// (0), data abort (1), undefined instruction (2), supervisor call (3),
/// instruction abort (4), floating point access trap (5) or single step (6).
/// Aborts taken to the same level have the "same EL" class.
pub fn get_exception_class(current_el: u8, target_el: u8, typ: u8) -> (r: u32)
    requires
        typ <= 6,
    ensures
        r == exception_class_spec(current_el, target_el, typ),
{
    match typ {
        0 => 0x38 + 4,
        1 => {
            if target_el == current_el {
                0x25
            } else {
                0x24
            }
        },
        2 => 0,
        3 => 0x11 + 4,
        4 => {
            if target_el == current_el {
                0x21
            } else {
                0x20
            }
        },
        5 => 0x07,
        _ => 0x32,
    }
}

/// The guest's processor state fields, one register-file byte each.
#[derive(Debug, Clone, Copy, PartialEq, Eq, Structural)]
pub struct PState {
    pub n: u8,
    pub z: u8,
    pub c: u8,
    pub v: u8,
    pub d: u8,
    pub a: u8,
    pub i: u8,
    pub f: u8,
    pub el: u8,
    pub sp: u8,
}

/// The saved program status word made from processor state fields.
pub open spec fn psr_spec(p: PState) -> u32 {
    (p.n as u32) << 31u32 | (p.z as u32) << 30u32 | (p.c as u32) << 29u32 | (p.v as u32) << 28u32
        | (p.d as u32) << 9u32 | (p.a as u32) << 8u32 | (p.i as u32) << 7u32 | (p.f as u32) << 6u32
        | (p.el as u32) << 2u32 | p.sp as u32
}

/// Packs the processor state into a saved program status word: NZCV in bits
/// 31 to 28, DAIF in bits 9 to 6, the exception level in bits 3 and 2 and the
/// stack pointer selection in bit 0.
pub fn get_psr_from_pstate(p: &PState) -> (r: u32)
    ensures
        r == psr_spec(*p),
{
    (p.n as u32) << 31u32 | (p.z as u32) << 30u32 | (p.c as u32) << 29u32 | (p.v as u32) << 28u32
        | (p.d as u32) << 9u32 | (p.a as u32) << 8u32 | (p.i as u32) << 7u32 | (p.f as u32) << 6u32
        | (p.el as u32) << 2u32 | p.sp as u32
}

/// For single-bit fields, the status word holds each flag in its own bit.
pub proof fn lemma_psr_fields(p: PState)
    requires
        p.n <= 1 && p.z <= 1 && p.c <= 1 && p.v <= 1,
        p.d <= 1 && p.a <= 1 && p.i <= 1 && p.f <= 1,
        p.el <= 3,
        p.sp <= 1,
    ensures
        (psr_spec(p) >> 28u32) == (p.n as u32) * 8 + (p.z as u32) * 4 + (p.c as u32) * 2 + p.v as u32,
        (psr_spec(p) >> 2u32) & 3 == p.el as u32,
        psr_spec(p) & 1 == p.sp as u32,
{
    let (n, z, c, v, d, a, i, f, el, sp) = (
        p.n as u32,
        p.z as u32,
        p.c as u32,
        p.v as u32,
        p.d as u32,
        p.a as u32,
        p.i as u32,
        p.f as u32,
        p.el as u32,
        p.sp as u32,
    );
    assert({
        let w = n << 31u32 | z << 30u32 | c << 29u32 | v << 28u32 | d << 9u32 | a << 8u32 | i << 7u32
            | f << 6u32 | el << 2u32 | sp;
        &&& (w >> 28u32) == n * 8 + z * 4 + c * 2 + v
        &&& (w >> 2u32) & 3 == el
        &&& w & 1 == sp
    }) by (bit_vector)
        requires
            n <= 1 && z <= 1 && c <= 1 && v <= 1,
            d <= 1 && a <= 1 && i <= 1 && f <= 1,
            el <= 3,
            sp <= 1,
    ;
}

} // verus!

verus! {

/// The guest registers that taking an exception reads and writes.
#[derive(Debug, Clone, Copy, PartialEq, Eq, Structural)]
pub struct ExceptionRegisters {
    pub pstate: PState,
    pub spsr_el1: u32,
    pub elr_el1: u64,
    pub esr_el1: u32,
    pub far_el1: u64,
    pub vbar_el1: u64,
    pub vbar_el2: u64,
    pub vbar_el3: u64,
    pub pc: u64,
}

/// The vector base register of exception level `el` (1, 2 or 3).
pub open spec fn vbar_of(regs: ExceptionRegisters, el: u8) -> u64 {
    if el == 1 {
        regs.vbar_el1
    } else if el == 2 {
        regs.vbar_el2
    } else {
        regs.vbar_el3
    }
}

/// The offset into the vector table: `0x400` more when the exception goes to
/// a higher level, else `0x200` more when the current level uses its own
/// stack pointer.
pub open spec fn vector_offset(regs: ExceptionRegisters, target_el: u8, voff: u64) -> int {
    if target_el > regs.pstate.el {
        voff + 0x400
    } else if regs.pstate.sp == 1 {
        voff + 0x200
    } else {
        voff as int
    }
}

/// When an exception can be taken: it goes to EL1, the guest is at EL1 to
/// EL3, the kind is known (or 255 for an interrupt) and the vector address
/// does not overflow.
pub open spec fn can_take_exception(regs: ExceptionRegisters, target_el: u8, typ: u8, voff: u64) -> bool {
    &&& target_el == 1
    &&& 1 <= regs.pstate.el <= 3
    &&& (typ <= 6 || typ == 255)
    &&& vbar_of(regs, regs.pstate.el) + vector_offset(regs, target_el, voff) <= u64::MAX
}

/// The registers after taking an exception of kind `typ` to EL1: the old
/// state is saved in `SPSR_EL1`, the return address in `ELR_EL1`, the
/// syndrome (for anything but an interrupt) in `ESR_EL1` and the faulting
/// address (for aborts) in `FAR_EL1`; the guest moves to EL1 on its own stack
/// with all of DAIF masked and resumes at the vector of the level it was at.
pub open spec fn take_exception_spec(
    regs: ExceptionRegisters,
    target_el: u8,
    typ: u8,
    syndrome: u32,
    vaddr: u64,
    retaddr: u64,
    voff: u64,
) -> ExceptionRegisters {
    let current_el = regs.pstate.el;
    let esr = if typ != 255 {
        (exception_class_spec(current_el, target_el, typ) << 26u32) | (1u32 << 25u32) | (syndrome
            & 0x1ffffff)
    } else {
        regs.esr_el1
    };
    let far = if typ == 1 || typ == 4 {
        vaddr
    } else {
        regs.far_el1
    };
    ExceptionRegisters {
        pstate: PState { el: target_el, sp: 1, d: 1, a: 1, i: 1, f: 1, ..regs.pstate },
        spsr_el1: psr_spec(regs.pstate),
        elr_el1: retaddr,
        esr_el1: esr,
        far_el1: far,
        pc: (vbar_of(regs, current_el) + vector_offset(regs, target_el, voff)) as u64,
        ..regs
    }
}

/// Takes an exception on behalf of the guest.
pub fn take_arm_exception(
    regs: &mut ExceptionRegisters,
    target_el: u8,
    typ: u8,
    syndrome: u32,
    vaddr: u64,
    retaddr: u64,
    voff: u64,
)
    requires
        can_take_exception(*old(regs), target_el, typ, voff),
    ensures
        *final(regs) == take_exception_spec(*old(regs), target_el, typ, syndrome, vaddr, retaddr, voff),
{
    let spsr = get_psr_from_pstate(&regs.pstate);
    let current_el = regs.pstate.el;
    let mut voff = voff;
    if target_el > current_el {
        voff = voff + 0x400;
    } else if regs.pstate.sp == 1 {
        voff = voff + 0x200;
    }
    regs.pstate.el = target_el;
    regs.pstate.sp = 1;
    regs.spsr_el1 = spsr;
    regs.elr_el1 = retaddr;
    if typ != 255 {
        let ec = get_exception_class(current_el, target_el, typ);
        regs.esr_el1 = (ec << 26u32) | (1u32 << 25u32) | (syndrome & 0x1ffffff);
        if typ == 1 || typ == 4 {
            regs.far_el1 = vaddr;
        }
    }
    regs.pstate.d = 1;
    regs.pstate.a = 1;
    regs.pstate.i = 1;
    regs.pstate.f = 1;
    let vbar = if current_el == 1 {
        regs.vbar_el1
    } else if current_el == 2 {
        regs.vbar_el2
    } else {
        regs.vbar_el3
    };
    regs.pc = vbar + voff;
}

/// The exception syndrome written for a known exception kind holds the class
/// in bits 31 to 26, the instruction-length bit 25 and the low 25 bits of the
/// syndrome.
pub proof fn lemma_syndrome_layout(current_el: u8, target_el: u8, typ: u8, syndrome: u32)
    requires
        typ <= 6,
    ensures
        ({
            let esr = (exception_class_spec(current_el, target_el, typ) << 26u32) | (1u32 << 25u32)
                | (syndrome & 0x1ffffff);
            &&& esr >> 26u32 == exception_class_spec(current_el, target_el, typ)
            &&& (esr >> 25u32) & 1 == 1
            &&& esr & 0x1ffffff == syndrome & 0x1ffffff
        }),
{
    let ec = exception_class_spec(current_el, target_el, typ);
    assert(ec < 64);
    assert({
        let esr = (ec << 26u32) | (1u32 << 25u32) | (syndrome & 0x1ffffff);
        &&& esr >> 26u32 == ec
        &&& (esr >> 25u32) & 1 == 1
        &&& esr & 0x1ffffff == syndrome & 0x1ffffff
    }) by (bit_vector)
        requires
            ec < 64,
    ;
}

} // verus!
