//! The guest register file: a byte array holding every guest register at a
//! fixed offset, little-endian.
use vstd::prelude::*;
use byteorder::ByteOrder;

verus! {

/// The `n` low bytes of `v`, least significant first.
pub open spec fn le_bytes(v: u128, n: nat) -> Seq<u8> {
    Seq::new(n, |i: int| ((v >> ((8 * i) as u128)) & 0xff) as u8)
}

/// A value that can be stored in the register file.
pub trait RegisterValue: Sized {
    /// Size in bytes.
    const SIZE: usize;

    /// The bytes the value is stored as.
    spec fn encoding(&self) -> Seq<u8>;

    /// Whether `bytes` is the stored form of some value.
    spec fn decodable(bytes: Seq<u8>) -> bool;

    /// Stores the value into `dest`, which has exactly `SIZE` bytes.
    fn write(&self, dest: &mut [u8])
        requires
            old(dest)@.len() == Self::SIZE,
        ensures
            final(dest)@ == self.encoding(),
    ;

    /// A value's stored form has `SIZE` bytes and can be loaded again.
    proof fn lemma_encoding_wf(&self)
        ensures
            self.encoding().len() == Self::SIZE,
            Self::decodable(self.encoding()),
    ;

    /// Distinct values are stored differently.
    proof fn lemma_encoding_injective(&self, other: &Self)
        ensures
            self.encoding() == other.encoding() ==> *self == *other,
    ;

    /// Loads a value from `src`, which has exactly `SIZE` bytes.
    fn read(src: &[u8]) -> (r: Self)
        requires
            src@.len() == Self::SIZE,
            Self::decodable(src@),
        ensures
            r.encoding() == src@,
    ;
}


/// `LittleEndian::write_u128` of `byteorder`: stores the 16 bytes of `n`
/// (two's complement for signed types), least significant first, at the
/// start of `buf`.
#[verifier::external_body]
fn le_write_u128(buf: &mut [u8], n: u128)
    requires
        old(buf)@.len() == 16,
    ensures
        final(buf)@ == le_bytes(n as u128, 16),
{
    byteorder::LittleEndian::write_u128(buf, n)
}

/// `LittleEndian::read_u128` of `byteorder`: the value whose 16 bytes, least
/// significant first, are those of `buf`.
#[verifier::external_body]
fn le_read_u128(buf: &[u8]) -> (r: u128)
    requires
        buf@.len() == 16,
    ensures
        le_bytes(r as u128, 16) == buf@,
{
    byteorder::LittleEndian::read_u128(buf)
}

/// `LittleEndian::write_u64` of `byteorder`: stores the 8 bytes of `n`
/// (two's complement for signed types), least significant first, at the
/// start of `buf`.
#[verifier::external_body]
pub(crate) fn le_write_u64(buf: &mut [u8], n: u64)
    requires
        old(buf)@.len() == 8,
    ensures
        final(buf)@ == le_bytes(n as u128, 8),
{
    byteorder::LittleEndian::write_u64(buf, n)
}

/// `LittleEndian::read_u64` of `byteorder`: the value whose 8 bytes, least
/// significant first, are those of `buf`.
#[verifier::external_body]
fn le_read_u64(buf: &[u8]) -> (r: u64)
    requires
        buf@.len() == 8,
    ensures
        le_bytes(r as u128, 8) == buf@,
{
    byteorder::LittleEndian::read_u64(buf)
}

/// `LittleEndian::write_u32` of `byteorder`: stores the 4 bytes of `n`
/// (two's complement for signed types), least significant first, at the
/// start of `buf`.
#[verifier::external_body]
fn le_write_u32(buf: &mut [u8], n: u32)
    requires
        old(buf)@.len() == 4,
    ensures
        final(buf)@ == le_bytes(n as u128, 4),
{
    byteorder::LittleEndian::write_u32(buf, n)
}

/// `LittleEndian::read_u32` of `byteorder`: the value whose 4 bytes, least
/// significant first, are those of `buf`.
#[verifier::external_body]
pub(crate) fn le_read_u32(buf: &[u8]) -> (r: u32)
    requires
        buf@.len() == 4,
    ensures
        le_bytes(r as u128, 4) == buf@,
{
    byteorder::LittleEndian::read_u32(buf)
}

/// `LittleEndian::write_u16` of `byteorder`: stores the 2 bytes of `n`
/// (two's complement for signed types), least significant first, at the
/// start of `buf`.
#[verifier::external_body]
fn le_write_u16(buf: &mut [u8], n: u16)
    requires
        old(buf)@.len() == 2,
    ensures
        final(buf)@ == le_bytes(n as u128, 2),
{
    byteorder::LittleEndian::write_u16(buf, n)
}

/// `LittleEndian::read_u16` of `byteorder`: the value whose 2 bytes, least
/// significant first, are those of `buf`.
#[verifier::external_body]
fn le_read_u16(buf: &[u8]) -> (r: u16)
    requires
        buf@.len() == 2,
    ensures
        le_bytes(r as u128, 2) == buf@,
{
    byteorder::LittleEndian::read_u16(buf)
}

/// `LittleEndian::write_i64` of `byteorder`: stores the 8 bytes of `n`
/// (two's complement for signed types), least significant first, at the
/// start of `buf`.
#[verifier::external_body]
fn le_write_i64(buf: &mut [u8], n: i64)
    requires
        old(buf)@.len() == 8,
    ensures
        final(buf)@ == le_bytes(n as u64 as u128, 8),
{
    byteorder::LittleEndian::write_i64(buf, n)
}

/// `LittleEndian::read_i64` of `byteorder`: the value whose 8 bytes, least
/// significant first, are those of `buf`.
#[verifier::external_body]
fn le_read_i64(buf: &[u8]) -> (r: i64)
    requires
        buf@.len() == 8,
    ensures
        le_bytes(r as u64 as u128, 8) == buf@,
{
    byteorder::LittleEndian::read_i64(buf)
}

/// `LittleEndian::write_i32` of `byteorder`: stores the 4 bytes of `n`
/// (two's complement for signed types), least significant first, at the
/// start of `buf`.
#[verifier::external_body]
fn le_write_i32(buf: &mut [u8], n: i32)
    requires
        old(buf)@.len() == 4,
    ensures
        final(buf)@ == le_bytes(n as u32 as u128, 4),
{
    byteorder::LittleEndian::write_i32(buf, n)
}

/// `LittleEndian::read_i32` of `byteorder`: the value whose 4 bytes, least
/// significant first, are those of `buf`.
#[verifier::external_body]
fn le_read_i32(buf: &[u8]) -> (r: i32)
    requires
        buf@.len() == 4,
    ensures
        le_bytes(r as u32 as u128, 4) == buf@,
{
    byteorder::LittleEndian::read_i32(buf)
}

/// `LittleEndian::write_i16` of `byteorder`: stores the 2 bytes of `n`
/// (two's complement for signed types), least significant first, at the
/// start of `buf`.
#[verifier::external_body]
fn le_write_i16(buf: &mut [u8], n: i16)
    requires
        old(buf)@.len() == 2,
    ensures
        final(buf)@ == le_bytes(n as u16 as u128, 2),
{
    byteorder::LittleEndian::write_i16(buf, n)
}

/// `LittleEndian::read_i16` of `byteorder`: the value whose 2 bytes, least
/// significant first, are those of `buf`.
#[verifier::external_body]
fn le_read_i16(buf: &[u8]) -> (r: i16)
    requires
        buf@.len() == 2,
    ensures
        le_bytes(r as u16 as u128, 2) == buf@,
{
    byteorder::LittleEndian::read_i16(buf)
}

impl RegisterValue for u128 {
    const SIZE: usize = 16;

    open spec fn encoding(&self) -> Seq<u8> {
        le_bytes(*self as u128, 16)
    }

    open spec fn decodable(bytes: Seq<u8>) -> bool {
        true
    }

    proof fn lemma_encoding_wf(&self) {
    }

    proof fn lemma_encoding_injective(&self, other: &u128) {
        let a = *self;
        let b = *other;
        let x = a as u128;
        let y = b as u128;
        if le_bytes(x, 16) == le_bytes(y, 16) {
        assert(le_bytes(x, 16)[0] == le_bytes(y, 16)[0]);
        assert(le_bytes(x, 16)[1] == le_bytes(y, 16)[1]);
        assert(le_bytes(x, 16)[2] == le_bytes(y, 16)[2]);
        assert(le_bytes(x, 16)[3] == le_bytes(y, 16)[3]);
        assert(le_bytes(x, 16)[4] == le_bytes(y, 16)[4]);
        assert(le_bytes(x, 16)[5] == le_bytes(y, 16)[5]);
        assert(le_bytes(x, 16)[6] == le_bytes(y, 16)[6]);
        assert(le_bytes(x, 16)[7] == le_bytes(y, 16)[7]);
        assert(le_bytes(x, 16)[8] == le_bytes(y, 16)[8]);
        assert(le_bytes(x, 16)[9] == le_bytes(y, 16)[9]);
        assert(le_bytes(x, 16)[10] == le_bytes(y, 16)[10]);
        assert(le_bytes(x, 16)[11] == le_bytes(y, 16)[11]);
        assert(le_bytes(x, 16)[12] == le_bytes(y, 16)[12]);
        assert(le_bytes(x, 16)[13] == le_bytes(y, 16)[13]);
        assert(le_bytes(x, 16)[14] == le_bytes(y, 16)[14]);
        assert(le_bytes(x, 16)[15] == le_bytes(y, 16)[15]);
            assert(x == y) by (bit_vector)
                requires
                ((x >> 0u128) & 0xff) as u8 == ((y >> 0u128) & 0xff) as u8,
                ((x >> 8u128) & 0xff) as u8 == ((y >> 8u128) & 0xff) as u8,
                ((x >> 16u128) & 0xff) as u8 == ((y >> 16u128) & 0xff) as u8,
                ((x >> 24u128) & 0xff) as u8 == ((y >> 24u128) & 0xff) as u8,
                ((x >> 32u128) & 0xff) as u8 == ((y >> 32u128) & 0xff) as u8,
                ((x >> 40u128) & 0xff) as u8 == ((y >> 40u128) & 0xff) as u8,
                ((x >> 48u128) & 0xff) as u8 == ((y >> 48u128) & 0xff) as u8,
                ((x >> 56u128) & 0xff) as u8 == ((y >> 56u128) & 0xff) as u8,
                ((x >> 64u128) & 0xff) as u8 == ((y >> 64u128) & 0xff) as u8,
                ((x >> 72u128) & 0xff) as u8 == ((y >> 72u128) & 0xff) as u8,
                ((x >> 80u128) & 0xff) as u8 == ((y >> 80u128) & 0xff) as u8,
                ((x >> 88u128) & 0xff) as u8 == ((y >> 88u128) & 0xff) as u8,
                ((x >> 96u128) & 0xff) as u8 == ((y >> 96u128) & 0xff) as u8,
                ((x >> 104u128) & 0xff) as u8 == ((y >> 104u128) & 0xff) as u8,
                ((x >> 112u128) & 0xff) as u8 == ((y >> 112u128) & 0xff) as u8,
                ((x >> 120u128) & 0xff) as u8 == ((y >> 120u128) & 0xff) as u8,
            ;
        }
    }

    fn write(&self, dest: &mut [u8]) {
        le_write_u128(dest, *self);
    }

    fn read(src: &[u8]) -> (r: u128) {
        le_read_u128(src)
    }
}

impl RegisterValue for u64 {
    const SIZE: usize = 8;

    open spec fn encoding(&self) -> Seq<u8> {
        le_bytes(*self as u128, 8)
    }

    open spec fn decodable(bytes: Seq<u8>) -> bool {
        true
    }

    proof fn lemma_encoding_wf(&self) {
    }

    proof fn lemma_encoding_injective(&self, other: &u64) {
        let a = *self;
        let b = *other;
        let x = a as u128;
        let y = b as u128;
        if le_bytes(x, 8) == le_bytes(y, 8) {
        assert(le_bytes(x, 8)[0] == le_bytes(y, 8)[0]);
        assert(le_bytes(x, 8)[1] == le_bytes(y, 8)[1]);
        assert(le_bytes(x, 8)[2] == le_bytes(y, 8)[2]);
        assert(le_bytes(x, 8)[3] == le_bytes(y, 8)[3]);
        assert(le_bytes(x, 8)[4] == le_bytes(y, 8)[4]);
        assert(le_bytes(x, 8)[5] == le_bytes(y, 8)[5]);
        assert(le_bytes(x, 8)[6] == le_bytes(y, 8)[6]);
        assert(le_bytes(x, 8)[7] == le_bytes(y, 8)[7]);
            assert(x == y) by (bit_vector)
                requires
                x < 0x10000000000000000u128,
                y < 0x10000000000000000u128,
                ((x >> 0u128) & 0xff) as u8 == ((y >> 0u128) & 0xff) as u8,
                ((x >> 8u128) & 0xff) as u8 == ((y >> 8u128) & 0xff) as u8,
                ((x >> 16u128) & 0xff) as u8 == ((y >> 16u128) & 0xff) as u8,
                ((x >> 24u128) & 0xff) as u8 == ((y >> 24u128) & 0xff) as u8,
                ((x >> 32u128) & 0xff) as u8 == ((y >> 32u128) & 0xff) as u8,
                ((x >> 40u128) & 0xff) as u8 == ((y >> 40u128) & 0xff) as u8,
                ((x >> 48u128) & 0xff) as u8 == ((y >> 48u128) & 0xff) as u8,
                ((x >> 56u128) & 0xff) as u8 == ((y >> 56u128) & 0xff) as u8,
            ;
        }
    }

    fn write(&self, dest: &mut [u8]) {
        le_write_u64(dest, *self);
    }

    fn read(src: &[u8]) -> (r: u64) {
        le_read_u64(src)
    }
}

impl RegisterValue for u32 {
    const SIZE: usize = 4;

    open spec fn encoding(&self) -> Seq<u8> {
        le_bytes(*self as u128, 4)
    }

    open spec fn decodable(bytes: Seq<u8>) -> bool {
        true
    }

    proof fn lemma_encoding_wf(&self) {
    }

    proof fn lemma_encoding_injective(&self, other: &u32) {
        let a = *self;
        let b = *other;
        let x = a as u128;
        let y = b as u128;
        if le_bytes(x, 4) == le_bytes(y, 4) {
        assert(le_bytes(x, 4)[0] == le_bytes(y, 4)[0]);
        assert(le_bytes(x, 4)[1] == le_bytes(y, 4)[1]);
        assert(le_bytes(x, 4)[2] == le_bytes(y, 4)[2]);
        assert(le_bytes(x, 4)[3] == le_bytes(y, 4)[3]);
            assert(x == y) by (bit_vector)
                requires
                x < 0x100000000u128,
                y < 0x100000000u128,
                ((x >> 0u128) & 0xff) as u8 == ((y >> 0u128) & 0xff) as u8,
                ((x >> 8u128) & 0xff) as u8 == ((y >> 8u128) & 0xff) as u8,
                ((x >> 16u128) & 0xff) as u8 == ((y >> 16u128) & 0xff) as u8,
                ((x >> 24u128) & 0xff) as u8 == ((y >> 24u128) & 0xff) as u8,
            ;
        }
    }

    fn write(&self, dest: &mut [u8]) {
        le_write_u32(dest, *self);
    }

    fn read(src: &[u8]) -> (r: u32) {
        le_read_u32(src)
    }
}

impl RegisterValue for u16 {
    const SIZE: usize = 2;

    open spec fn encoding(&self) -> Seq<u8> {
        le_bytes(*self as u128, 2)
    }

    open spec fn decodable(bytes: Seq<u8>) -> bool {
        true
    }

    proof fn lemma_encoding_wf(&self) {
    }

    proof fn lemma_encoding_injective(&self, other: &u16) {
        let a = *self;
        let b = *other;
        let x = a as u128;
        let y = b as u128;
        if le_bytes(x, 2) == le_bytes(y, 2) {
        assert(le_bytes(x, 2)[0] == le_bytes(y, 2)[0]);
        assert(le_bytes(x, 2)[1] == le_bytes(y, 2)[1]);
            assert(x == y) by (bit_vector)
                requires
                x < 0x10000u128,
                y < 0x10000u128,
                ((x >> 0u128) & 0xff) as u8 == ((y >> 0u128) & 0xff) as u8,
                ((x >> 8u128) & 0xff) as u8 == ((y >> 8u128) & 0xff) as u8,
            ;
        }
    }

    fn write(&self, dest: &mut [u8]) {
        le_write_u16(dest, *self);
    }

    fn read(src: &[u8]) -> (r: u16) {
        le_read_u16(src)
    }
}

impl RegisterValue for i64 {
    const SIZE: usize = 8;

    open spec fn encoding(&self) -> Seq<u8> {
        le_bytes(*self as u64 as u128, 8)
    }

    open spec fn decodable(bytes: Seq<u8>) -> bool {
        true
    }

    proof fn lemma_encoding_wf(&self) {
    }

    proof fn lemma_encoding_injective(&self, other: &i64) {
        let (a, b) = (*self, *other);
        (a as u64).lemma_encoding_injective(&(b as u64));
        assert(a as u64 == b as u64 ==> a == b) by (bit_vector);
    }

    fn write(&self, dest: &mut [u8]) {
        le_write_i64(dest, *self);
    }

    fn read(src: &[u8]) -> (r: i64) {
        le_read_i64(src)
    }
}

impl RegisterValue for i32 {
    const SIZE: usize = 4;

    open spec fn encoding(&self) -> Seq<u8> {
        le_bytes(*self as u32 as u128, 4)
    }

    open spec fn decodable(bytes: Seq<u8>) -> bool {
        true
    }

    proof fn lemma_encoding_wf(&self) {
    }

    proof fn lemma_encoding_injective(&self, other: &i32) {
        let (a, b) = (*self, *other);
        (a as u32).lemma_encoding_injective(&(b as u32));
        assert(a as u32 == b as u32 ==> a == b) by (bit_vector);
    }

    fn write(&self, dest: &mut [u8]) {
        le_write_i32(dest, *self);
    }

    fn read(src: &[u8]) -> (r: i32) {
        le_read_i32(src)
    }
}

impl RegisterValue for i16 {
    const SIZE: usize = 2;

    open spec fn encoding(&self) -> Seq<u8> {
        le_bytes(*self as u16 as u128, 2)
    }

    open spec fn decodable(bytes: Seq<u8>) -> bool {
        true
    }

    proof fn lemma_encoding_wf(&self) {
    }

    proof fn lemma_encoding_injective(&self, other: &i16) {
        let (a, b) = (*self, *other);
        (a as u16).lemma_encoding_injective(&(b as u16));
        assert(a as u16 == b as u16 ==> a == b) by (bit_vector);
    }

    fn write(&self, dest: &mut [u8]) {
        le_write_i16(dest, *self);
    }

    fn read(src: &[u8]) -> (r: i16) {
        le_read_i16(src)
    }
}

impl RegisterValue for u8 {
    const SIZE: usize = 1;

    open spec fn encoding(&self) -> Seq<u8> {
        seq![*self]
    }

    open spec fn decodable(bytes: Seq<u8>) -> bool {
        true
    }

    proof fn lemma_encoding_wf(&self) {
    }

    proof fn lemma_encoding_injective(&self, other: &u8) {
        if self.encoding() == other.encoding() {
            assert(self.encoding()[0] == other.encoding()[0]);
        }
    }

    fn write(&self, dest: &mut [u8]) {
        dest[0] = *self;
        assert(dest@ =~= seq![*self]);
    }

    fn read(src: &[u8]) -> (r: u8) {
        let r = src[0];
        assert(src@ =~= seq![r]);
        r
    }
}

impl RegisterValue for bool {
    const SIZE: usize = 1;

    open spec fn encoding(&self) -> Seq<u8> {
        seq![if *self { 1u8 } else { 0u8 }]
    }

    /// A stored flag is the byte 0 or 1.
    open spec fn decodable(bytes: Seq<u8>) -> bool {
        bytes.len() == 1 && bytes[0] <= 1
    }

    proof fn lemma_encoding_wf(&self) {
    }

    proof fn lemma_encoding_injective(&self, other: &bool) {
        if self.encoding() == other.encoding() {
            assert(self.encoding()[0] == other.encoding()[0]);
        }
    }

    fn write(&self, dest: &mut [u8]) {
        dest[0] = if *self { 1 } else { 0 };
        assert(dest@ =~= self.encoding());
    }

    fn read(src: &[u8]) -> (r: bool) {
        let r = src[0] == 1;
        assert(src@ =~= r.encoding());
        r
    }
}


/// Where a register lives in the register file, and its name (an interned
/// string key).
#[derive(Debug, Clone, Copy, PartialEq, Eq, Structural)]
pub struct RegisterDescriptor {
    pub name: u32,
    pub offset: usize,
    pub size: usize,
}

/// The guest register file and the layout of the registers in it.
pub struct RegisterFile {
    inner: Vec<u8>,
    registers: Vec<RegisterDescriptor>,
}

/// `bytes` with the bytes from `offset` on replaced by `part`.
pub open spec fn splice(bytes: Seq<u8>, offset: int, part: Seq<u8>) -> Seq<u8> {
    bytes.take(offset) + part + bytes.skip(offset + part.len())
}

impl RegisterFile {
    /// The bytes of the register file.
    pub closed spec fn bytes(&self) -> Seq<u8> {
        self.inner@
    }

    /// The layout of the registers.
    pub closed spec fn layout(&self) -> Seq<RegisterDescriptor> {
        self.registers@
    }

    /// Register names are unique and so are register offsets.
    pub open spec fn layout_wf(layout: Seq<RegisterDescriptor>) -> bool {
        forall|i: int, j: int|
            0 <= i < layout.len() && 0 <= j < layout.len() && i != j ==> #[trigger] layout[i].name
                != #[trigger] layout[j].name && layout[i].offset != layout[j].offset
    }

    /// A register file of `size` zero bytes with the given layout.
    pub fn new(size: usize, registers: Vec<RegisterDescriptor>) -> (r: RegisterFile)
        ensures
            r.bytes() == Seq::new(size as nat, |i: int| 0u8),
            r.layout() == registers@,
    {
        let mut inner: Vec<u8> = Vec::new();
        let mut i: usize = 0;
        while i < size
            invariant
                i <= size,
                inner@ == Seq::new(i as nat, |k: int| 0u8),
            decreases size - i,
        {
            inner.push(0);
            i = i + 1;
            assert(inner@ =~= Seq::new(i as nat, |k: int| 0u8));
        }
        RegisterFile { inner, registers }
    }

    /// The number of bytes in the register file.
    pub fn len(&self) -> (r: usize)
        ensures
            r == self.bytes().len(),
    {
        self.inner.len()
    }

    /// Stores `value` at byte `offset`.
    pub fn write_raw<V: RegisterValue>(&mut self, offset: usize, value: V)
        requires
            offset + V::SIZE <= old(self).bytes().len(),
        ensures
            final(self).layout() == old(self).layout(),
            final(self).bytes() == splice(old(self).bytes(), offset as int, value.encoding()),
    {
        proof {
            value.lemma_encoding_wf();
        }
        let mut buf: Vec<u8> = Vec::new();
        let mut k: usize = 0;
        while k < V::SIZE
            invariant
                k <= V::SIZE,
                buf@.len() == k,
            decreases V::SIZE - k,
        {
            buf.push(0);
            k = k + 1;
        }
        value.write(buf.as_mut_slice());
        let ghost old_bytes = self.inner@;
        assert(self.inner.len() <= usize::MAX);
        let mut i: usize = 0;
        while i < V::SIZE
            invariant
                i <= V::SIZE,
                buf@ == value.encoding(),
                buf@.len() == V::SIZE,
                offset + V::SIZE <= old_bytes.len(),
                offset + V::SIZE <= usize::MAX,
                self.inner@.len() == old_bytes.len(),
                self.registers@ == old(self).registers@,
                forall|j: int| 0 <= j < old_bytes.len() ==> #[trigger] self.inner@[j] == if offset <= j < offset + i {
                    buf@[j - offset]
                } else {
                    old_bytes[j]
                },
            decreases V::SIZE - i,
        {
            self.inner.set(offset + i, buf[i]);
            i = i + 1;
        }
        assert(self.inner@ =~= splice(old_bytes, offset as int, value.encoding()));
    }

    /// Loads a value from byte `offset`.
    pub fn read_raw<V: RegisterValue>(&self, offset: usize) -> (r: V)
        requires
            offset + V::SIZE <= self.bytes().len(),
            V::decodable(self.bytes().subrange(offset as int, offset + V::SIZE)),
        ensures
            r.encoding() == self.bytes().subrange(offset as int, offset + V::SIZE),
    {
        let mut buf: Vec<u8> = Vec::new();
        assert(self.inner.len() <= usize::MAX);
        let mut i: usize = 0;
        while i < V::SIZE
            invariant
                i <= V::SIZE,
                offset + V::SIZE <= self.inner@.len(),
                offset + V::SIZE <= usize::MAX,
                buf@ == self.inner@.subrange(offset as int, offset + i),
            decreases V::SIZE - i,
        {
            buf.push(self.inner[offset + i]);
            i = i + 1;
            assert(buf@ =~= self.inner@.subrange(offset as int, offset + i));
        }
        V::read(buf.as_slice())
    }

    /// The index in the layout of the register called `name`.
    fn find(&self, name: u32) -> (r: Option<usize>)
        ensures
            match r {
                Some(i) => i < self.layout().len() && self.layout()[i as int].name == name,
                None => forall|i: int| 0 <= i < self.layout().len() ==> #[trigger] self.layout()[i].name != name,
            },
    {
        let mut i: usize = 0;
        while i < self.registers.len()
            invariant
                i <= self.registers@.len(),
                forall|k: int| 0 <= k < i ==> #[trigger] self.registers@[k].name != name,
            decreases self.registers@.len() - i,
        {
            if self.registers[i].name == name {
                return Some(i);
            }
            i = i + 1;
        }
        None
    }

    /// The register called `name` is in the layout.
    pub open spec fn has_register(&self, name: u32) -> bool {
        exists|i: int| 0 <= i < self.layout().len() && #[trigger] self.layout()[i].name == name
    }

    /// The descriptor of the register called `name`.
    pub open spec fn register(&self, name: u32) -> RegisterDescriptor {
        self.layout()[choose|i: int| 0 <= i < self.layout().len() && #[trigger] self.layout()[i].name == name]
    }

    /// Stores `value` in the register called `name`. A value wider than the
    /// register still writes all its bytes, as the register file does.
    pub fn write<V: RegisterValue>(&mut self, name: u32, value: V)
        requires
            Self::layout_wf(old(self).layout()),
            old(self).has_register(name),
            old(self).register(name).offset + V::SIZE <= old(self).bytes().len(),
        ensures
            final(self).layout() == old(self).layout(),
            final(self).bytes() == splice(old(self).bytes(), old(self).register(name).offset as int, value.encoding()),
    {
        let idx = self.find(name);
        match idx {
            Some(i) => {
                let offset = self.registers[i].offset;
                self.write_raw(offset, value);
            },
            None => {},
        }
    }

    /// Loads a value from the register called `name`.
    pub fn read<V: RegisterValue>(&self, name: u32) -> (r: V)
        requires
            Self::layout_wf(self.layout()),
            self.has_register(name),
            self.register(name).offset + V::SIZE <= self.bytes().len(),
            V::decodable(self.bytes().subrange(self.register(name).offset as int, self.register(name).offset + V::SIZE)),
        ensures
            r.encoding() == self.bytes().subrange(self.register(name).offset as int, self.register(name).offset + V::SIZE),
    {
        let idx = self.find(name);
        let i = match idx {
            Some(i) => i,
            None => 0,
        };
        let offset = self.registers[i].offset;
        self.read_raw(offset)
    }

    /// The register at `offset` or, if none starts there, the nearest one
    /// starting below it.
    pub open spec fn register_at(&self, offset: usize) -> RegisterDescriptor {
        let candidates = |i: int| 0 <= i < self.layout().len() && self.layout()[i].offset <= offset;
        self.layout()[choose|i: int| #[trigger] candidates(i) && forall|j: int| #[trigger] candidates(j) ==> self.layout()[j].offset <= self.layout()[i].offset]
    }

    /// The name of the register that byte `offset` belongs to: the one with
    /// the greatest start not above `offset`.
    pub fn lookup(&self, offset: usize) -> (r: u32)
        requires
            Self::layout_wf(self.layout()),
            exists|i: int| 0 <= i < self.layout().len() && #[trigger] self.layout()[i].offset <= offset,
        ensures
            exists|i: int|
                0 <= i < self.layout().len() && #[trigger] self.layout()[i].offset <= offset && self.layout()[i].name == r
                    && forall|j: int| 0 <= j < self.layout().len() && #[trigger] self.layout()[j].offset <= offset ==> self.layout()[j].offset
                        <= self.layout()[i].offset,
    {
        let mut best: Option<usize> = None;
        let mut i: usize = 0;
        while i < self.registers.len()
            invariant
                i <= self.registers@.len(),
                match best {
                    Some(b) => b < i && self.registers@[b as int].offset <= offset && forall|j: int|
                        0 <= j < i && #[trigger] self.registers@[j].offset <= offset ==> self.registers@[j].offset
                            <= self.registers@[b as int].offset,
                    None => forall|j: int| 0 <= j < i ==> #[trigger] self.registers@[j].offset > offset,
                },
            decreases self.registers@.len() - i,
        {
            let o = self.registers[i].offset;
            if o <= offset {
                match best {
                    Some(b) => {
                        if self.registers[b].offset < o {
                            best = Some(i);
                        }
                    },
                    None => {
                        best = Some(i);
                    },
                }
            }
            i = i + 1;
        }
        let b = match best {
            Some(b) => b,
            None => 0,
        };
        self.registers[b].name
    }
}

/// Reading a register file location back after storing a value there gives
/// the value.
pub proof fn lemma_read_after_write<V: RegisterValue>(bytes: Seq<u8>, offset: int, value: V)
    requires
        0 <= offset,
        offset + V::SIZE <= bytes.len(),
    ensures
        ({
            let after = splice(bytes, offset, value.encoding());
            &&& after.len() == bytes.len()
            &&& after.subrange(offset, offset + V::SIZE) == value.encoding()
            &&& V::decodable(after.subrange(offset, offset + V::SIZE))
            &&& forall|r: V| #[trigger] r.encoding() == after.subrange(offset, offset + V::SIZE) ==> r == value
        }),
{
    value.lemma_encoding_wf();
    let after = splice(bytes, offset, value.encoding());
    assert(after.subrange(offset, offset + V::SIZE) =~= value.encoding());
    assert forall|r: V| #[trigger] r.encoding() == after.subrange(offset, offset + V::SIZE) implies r == value by {
        r.lemma_encoding_injective(&value);
    }
}

/// Storing a value leaves every byte outside its location as it was.
pub proof fn lemma_write_preserves_other_bytes(bytes: Seq<u8>, offset: int, part: Seq<u8>, k: int)
    requires
        0 <= offset,
        offset + part.len() <= bytes.len(),
        0 <= k < bytes.len(),
        k < offset || k >= offset + part.len(),
    ensures
        splice(bytes, offset, part)[k] == bytes[k],
{
}

} // verus!
