//! Bookkeeping of the host interrupt vectors that have a handler.
use vstd::prelude::*;
use bitset_core::BitSet;

verus! {

/// Sets bit `bit` of a 256-bit set held in four words, through `bitset_core`.
///
/// `BitSet::bit_set` on `[u64]` computes `self[bit / 64] |= 1 << bit % 64`;
/// a bit beyond the four words indexes out of bounds, so it is not admitted.
#[verifier::external_body]
fn words_bit_set(words: &mut [u64; 4], bit: usize)
    requires
        bit < 256,
    ensures
        final(words)@ == old(words)@.update(
            (bit / 64) as int,
            old(words)@[(bit / 64) as int] | (1u64 << ((bit % 64) as u64)),
        ),
{
    words.bit_set(bit);
}

/// Tests bit `bit` of a 256-bit set held in four words, through `bitset_core`.
///
/// `BitSet::bit_test` on `[u64]` computes `self[bit / 64] & (1 << bit % 64) != 0`.
#[verifier::external_body]
fn words_bit_test(words: &[u64; 4], bit: usize) -> (r: bool)
    requires
        bit < 256,
    ensures
        r == (words@[(bit / 64) as int] & (1u64 << ((bit % 64) as u64)) != 0),
{
    words.bit_test(bit)
}

/// Whether vector `nr` is marked in the four words of a vector set.
pub open spec fn vector_marked(words: Seq<u64>, nr: u8) -> bool {
    words[(nr / 64) as int] & (1u64 << ((nr % 64) as u64)) != 0
}

/// The set of the 256 interrupt vectors that have been given a handler.
pub struct UsedInterruptVectors([u64; 4]);

impl UsedInterruptVectors {
    /// Whether vector `nr` is in the set.
    pub closed spec fn contains(&self, nr: u8) -> bool {
        vector_marked(self.0@, nr)
    }

    /// The empty set.
    pub fn new() -> (r: UsedInterruptVectors)
        ensures
            forall|nr: u8| !r.contains(nr),
    {
        let r = UsedInterruptVectors([0u64; 4]);
        assert forall|nr: u8| !r.contains(nr) by {
            let k = (nr % 64) as u64;
            assert(r.0@[(nr / 64) as int] == 0);
            assert(0u64 & (1u64 << k) == 0) by (bit_vector);
        }
        r
    }

    /// Adds vector `nr` to the set.
    pub fn set(&mut self, nr: u8)
        ensures
            forall|m: u8| final(self).contains(m) == (old(self).contains(m) || m == nr),
    {
        words_bit_set(&mut self.0, nr as usize);
        assert forall|m: u8| self.contains(m) == (old(self).contains(m) || m == nr) by {
            let w = old(self).0@[(m / 64) as int];
            let b = (m % 64) as u64;
            let c = (nr % 64) as u64;
            if m / 64 == nr / 64 {
                assert(((w | (1u64 << c)) & (1u64 << b) != 0) == ((w & (1u64 << b) != 0) || b == c))
                    by (bit_vector)
                    requires
                        b < 64,
                        c < 64,
                ;
                if b == c {
                    assert(m == nr);
                }
            } else {
                assert(m != nr);
            }
        }
    }

    /// Whether vector `nr` is in the set.
    pub fn get(&self, nr: u8) -> (r: bool)
        ensures
            r == self.contains(nr),
    {
        words_bit_test(&self.0, nr as usize)
    }
}

/// Interrupt handler assignment error.
#[derive(Debug, Clone, Copy, PartialEq, Eq, Structural)]
pub enum IrqError {
    /// Attempted to assign an IRQ but it is already in use
    IrqAlreadyReserved(u8),
}

/// Reserves vector `nr` for a new handler: refused when the vector already has
/// one, and otherwise added to the set.
pub fn reserve_vector(used: &mut UsedInterruptVectors, nr: u8) -> (r: Result<(), IrqError>)
    ensures
        old(used).contains(nr) ==> r == Err::<(), IrqError>(IrqError::IrqAlreadyReserved(nr)),
        old(used).contains(nr) ==> forall|m: u8| final(used).contains(m) == old(used).contains(m),
        !old(used).contains(nr) ==> r == Ok::<(), IrqError>(()),
        !old(used).contains(nr) ==> forall|m: u8| final(used).contains(m) == (old(used).contains(m) || m == nr),
{
    if !used.get(nr) {
        used.set(nr);
        Ok(())
    } else {
        Err(IrqError::IrqAlreadyReserved(nr))
    }
}

/// The exception vectors given fixed handlers at start-up: divide error,
/// debug, breakpoint, double fault, general protection and page fault.
pub open spec fn exception_vectors() -> Seq<u8> {
    seq![14u8, 13u8, 3u8, 1u8, 8u8, 0u8]
}

/// The vectors the translated code raises: undefined terminator, default
/// terminator, constant assertion and panic.
pub open spec fn translator_vectors() -> Seq<u8> {
    seq![0x50u8, 0x51u8, 0x52u8, 0x53u8]
}

/// The vectors in use after start-up: the exception vectors are marked, then
/// the translator's vectors are reserved; on a fresh set none of them clash.
pub fn setup_vectors(used: &mut UsedInterruptVectors) -> (r: Result<(), IrqError>)
    requires
        forall|m: u8| !old(used).contains(m),
    ensures
        r == Ok::<(), IrqError>(()),
        forall|m: u8| final(used).contains(m) == (exception_vectors().contains(m) || translator_vectors().contains(m)),
{
    used.set(14);
    used.set(13);
    used.set(3);
    used.set(1);
    used.set(8);
    used.set(0);
    let r0 = reserve_vector(used, 0x50);
    let r1 = reserve_vector(used, 0x51);
    let r2 = reserve_vector(used, 0x52);
    let r3 = reserve_vector(used, 0x53);
    assert(exception_vectors().contains(14u8) && exception_vectors().contains(13u8)
        && exception_vectors().contains(3u8) && exception_vectors().contains(1u8)
        && exception_vectors().contains(8u8) && exception_vectors().contains(0u8));
    assert(translator_vectors().contains(0x50u8) && translator_vectors().contains(0x51u8)
        && translator_vectors().contains(0x52u8) && translator_vectors().contains(0x53u8));
    assert forall|m: u8| used.contains(m) == (exception_vectors().contains(m) || translator_vectors().contains(m)) by {
        if exception_vectors().contains(m) {
            let i = choose|i: int| 0 <= i < 6 && exception_vectors()[i] == m;
        }
        if translator_vectors().contains(m) {
            let i = choose|i: int| 0 <= i < 4 && translator_vectors()[i] == m;
        }
    }
    r0?;
    r1?;
    r2?;
    r3?;
    Ok(())
}

} // verus!
