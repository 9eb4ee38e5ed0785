//! The codec and register-identity contracts that every register follows,
//! and the byte-level helpers that the register codecs share.
use vstd::prelude::*;
use crate::types::RegisterError;

verus! {

/// A register value type bound to its fixed 16-bit address.
pub trait Register {
    /// The register's address.
    spec fn spec_id() -> u16;

    /// The register's address.
    fn id() -> (r: u16)
        ensures
            r == Self::spec_id(),
    ;
}

/// A value that can be built from an `N`-byte payload.
pub trait FromByteArray<const N: usize>: Sized {
    /// The value, or the reason there is none, that `bytes` decode to.
    spec fn spec_from_bytes(bytes: Seq<u8>) -> Result<Self, RegisterError>;

    /// Decodes a payload.
    fn from_bytes(bytes: [u8; N]) -> (r: Result<Self, RegisterError>)
        ensures
            r == Self::spec_from_bytes(bytes@),
    ;
}

/// A value that can be turned into an `N`-byte payload.
pub trait ToByteArray<const N: usize>: Sized {
    /// The payload, or the reason there is none, that `self` encodes to.
    spec fn spec_to_bytes(self) -> Result<Seq<u8>, RegisterError>;

    /// Encodes the value.
    fn to_bytes(self) -> (r: Result<[u8; N], RegisterError>)
        ensures
            payload_view(r) == self.spec_to_bytes(),
    ;
}

/// An encoded payload seen as a sequence of bytes.
pub open spec fn payload_view<const N: usize>(r: Result<[u8; N], RegisterError>) -> Result<
    Seq<u8>,
    RegisterError,
> {
    match r {
        Ok(b) => Ok(b@),
        Err(e) => Err(e),
    }
}

/// A register that can be read.
pub trait ReadableRegister<const N: usize>: Register + FromByteArray<N> {

}

/// A register that can be written.
pub trait WritableRegister<const N: usize>: Register + ToByteArray<N> {

}

/// A value type with both codec directions, and the values on which decoding
/// undoes encoding.
pub trait ByteCodec<const N: usize>: FromByteArray<N> + ToByteArray<N> {
    /// The values that the payload represents exactly.
    spec fn representable(self) -> bool;

    /// A representable value encodes, and its payload decodes to it.
    proof fn lemma_round_trip(self)
        requires
            self.representable(),
        ensures
            self.spec_to_bytes() is Ok,
            Self::spec_from_bytes(self.spec_to_bytes()->Ok_0) == Ok::<Self, RegisterError>(self),
    ;
}

/// Decoding undoes encoding: every value within its register's representable
/// range encodes without error, and decoding that payload yields the value.
pub proof fn lemma_decode_encode<const N: usize, R: ByteCodec<N>>(v: R)
    requires
        v.representable(),
    ensures
        v.spec_to_bytes() is Ok,
        R::spec_from_bytes(v.spec_to_bytes()->Ok_0) == Ok::<R, RegisterError>(v),
{
    v.lemma_round_trip();
}

/// The unsigned integer that two bytes spell, most significant first.
pub open spec fn be_u16(hi: u8, lo: u8) -> int {
    hi * 256 + lo
}

/// The unsigned integer that four bytes spell, most significant first.
pub open spec fn be_u32(b0: u8, b1: u8, b2: u8, b3: u8) -> int {
    ((b0 * 256 + b1) * 256 + b2) * 256 + b3
}

/// The two bytes of `v`, most significant first.
pub open spec fn be_bytes_u16(v: u16) -> Seq<u8> {
    seq![(v / 256) as u8, (v % 256) as u8]
}

/// The byte that stands for a flag held in the bits of `mask`.
pub open spec fn flag_bits(set: bool, mask: u8) -> u8 {
    if set { mask } else { 0 }
}

/// `v`, or the largest `u16` where `v` is larger.
pub open spec fn saturate_u16(v: u32) -> u16 {
    if v > 0xFFFF { 0xFFFF } else { v as u16 }
}

/// `v`, or the largest `u8` where `v` is larger.
pub open spec fn saturate_u8(v: u32) -> u8 {
    if v > 0xFF { 0xFF } else { v as u8 }
}

/// Reads a big-endian 16-bit integer.
pub(crate) fn u16_from_be(hi: u8, lo: u8) -> (r: u16)
    ensures
        r == be_u16(hi, lo),
{
    (hi as u16) * 256 + (lo as u16)
}

/// Reads a big-endian 32-bit integer.
pub(crate) fn u32_from_be(b0: u8, b1: u8, b2: u8, b3: u8) -> (r: u32)
    ensures
        r == be_u32(b0, b1, b2, b3),
{
    (((b0 as u32) * 256 + (b1 as u32)) * 256 + (b2 as u32)) * 256 + (b3 as u32)
}

/// Writes `v` as two big-endian bytes.
pub(crate) fn u16_to_be(v: u16) -> (r: [u8; 2])
    ensures
        r@ == be_bytes_u16(v),
{
    let b = [(v / 256) as u8, (v % 256) as u8];
    assert(b@ =~= be_bytes_u16(v));
    b
}

/// Two big-endian bytes spell back the integer they were written from.
pub proof fn lemma_be_u16_round_trip(v: u16)
    ensures
        be_u16(be_bytes_u16(v)[0], be_bytes_u16(v)[1]) == v,
{
}

/// Three flags held in disjoint bits of one byte are read back one by one.
pub proof fn lemma_flag_bits3(a: bool, b: bool, c: bool, ma: u8, mb: u8, mc: u8)
    requires
        ma & mb == 0,
        ma & mc == 0,
        mb & mc == 0,
        ma != 0,
        mb != 0,
        mc != 0,
    ensures
        ((flag_bits(a, ma) | flag_bits(b, mb) | flag_bits(c, mc)) & ma != 0) == a,
        ((flag_bits(a, ma) | flag_bits(b, mb) | flag_bits(c, mc)) & mb != 0) == b,
        ((flag_bits(a, ma) | flag_bits(b, mb) | flag_bits(c, mc)) & mc != 0) == c,
{
    let x = flag_bits(a, ma);
    let y = flag_bits(b, mb);
    let z = flag_bits(c, mc);
    assert((x | y | z) & ma == x & ma && (x | y | z) & mb == y & mb && (x | y | z) & mc == z & mc)
        by (bit_vector)
        requires
            x == 0 || x == ma,
            y == 0 || y == mb,
            z == 0 || z == mc,
            ma & mb == 0,
            ma & mc == 0,
            mb & mc == 0,
    ;
    assert(ma & ma == ma && mb & mb == mb && mc & mc == mc && 0u8 & ma == 0 && 0u8 & mb == 0 && 0u8 & mc == 0) by (bit_vector);
}

/// Two flags held in disjoint bits of one byte are read back one by one.
pub proof fn lemma_flag_bits2(a: bool, b: bool, ma: u8, mb: u8)
    requires
        ma & mb == 0,
        ma != 0,
        mb != 0,
    ensures
        ((flag_bits(a, ma) | flag_bits(b, mb)) & ma != 0) == a,
        ((flag_bits(a, ma) | flag_bits(b, mb)) & mb != 0) == b,
{
    let x = flag_bits(a, ma);
    let y = flag_bits(b, mb);
    assert((x | y) & ma == x & ma && (x | y) & mb == y & mb) by (bit_vector)
        requires
            x == 0 || x == ma,
            y == 0 || y == mb,
            ma & mb == 0,
    ;
    assert(ma & ma == ma && mb & mb == mb && 0u8 & ma == 0 && 0u8 & mb == 0) by (bit_vector);
}

/// A flag held in bit 0 is read back.
pub proof fn lemma_flag_bit0(a: bool)
    ensures
        (flag_bits(a, 1) & 1 != 0) == a,
{
    assert(1u8 & 1 == 1 && 0u8 & 1 == 0) by (bit_vector);
}

/// A value below `2^k` is kept by a mask of its low `k` bits.
pub proof fn lemma_low_bits(v: u8)
    ensures
        v < 2 ==> v & 1 == v,
        v < 8 ==> v & 7 == v,
{
    assert(v < 2 ==> v & 1 == v) by (bit_vector);
    assert(v < 8 ==> v & 7 == v) by (bit_vector);
}

} // verus!
