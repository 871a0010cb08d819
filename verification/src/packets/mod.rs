//! Packets of the mod channels: the direction of a packet, the errors of
//! decoding, and big-endian numbers as the channels write them.

use vstd::prelude::*;

pub mod customnpcs;
pub mod dwcity;
pub mod layout;
pub mod reader;
pub mod writer;

verus! {

/// The side a packet is bound for.
#[derive(Clone, Copy, Debug, PartialEq, Eq, Hash, Structural)]
pub enum Bound {
    Client,
    Server,
}

/// Why reading from a packet failed.
#[derive(Clone, Copy, Debug, PartialEq, Eq, Structural)]
pub enum PacketError {
    /// `need` bytes were asked for and only `available` are left.
    NotEnoughData { need: usize, available: usize },
    /// A variable-length integer goes on after its fifth byte.
    VarIntTooLong,
    /// A string is not valid UTF-8.
    InvalidUtf8,
    /// A string is not valid UTF-16.
    InvalidUtf16,
}

#[verifier::external_type_specification]
#[verifier::external_body]
pub struct ExUuid(uuid::Uuid);

/// The identifier whose 128 bits are `most` followed by `least`.
pub uninterp spec fn uuid_from_pair(most: u64, least: u64) -> uuid::Uuid;

/// `Uuid::from_u64_pair`: the identifier made of the two halves. The same
/// halves always give the same identifier.
#[verifier::external_body]
pub(crate) fn uuid_of_pair(most: u64, least: u64) -> (u: uuid::Uuid)
    ensures
        u == uuid_from_pair(most, least),
{
    uuid::Uuid::from_u64_pair(most, least)
}

/// `Uuid::as_u64_pair`: the two halves of an identifier, from which
/// `Uuid::from_u64_pair` makes the identifier again.
#[verifier::external_body]
pub(crate) fn pair_of_uuid(u: &uuid::Uuid) -> (p: (u64, u64))
    ensures
        uuid_from_pair(p.0, p.1) == *u,
{
    u.as_u64_pair()
}

/// The two bytes at `at`, most significant first.
pub open spec fn spec_u16_be(s: Seq<u8>, at: int) -> u16 {
    (s[at] * 0x100 + s[at + 1]) as u16
}

/// The four bytes at `at`, most significant first.
pub open spec fn spec_u32_be(s: Seq<u8>, at: int) -> u32 {
    (s[at] * 0x100_0000 + s[at + 1] * 0x1_0000 + s[at + 2] * 0x100 + s[at + 3]) as u32
}

/// The eight bytes at `at`, most significant first.
pub open spec fn spec_u64_be(s: Seq<u8>, at: int) -> u64 {
    (spec_u32_be(s, at) * 0x1_0000_0000 + spec_u32_be(s, at + 4)) as u64
}

/// The two bytes of `v`, most significant first.
pub open spec fn spec_be_bytes_u16(v: u16) -> Seq<u8> {
    seq![(v / 0x100) as u8, (v % 0x100) as u8]
}

/// The four bytes of `v`, most significant first.
pub open spec fn spec_be_bytes_u32(v: u32) -> Seq<u8> {
    seq![
        (v / 0x100_0000) as u8,
        ((v / 0x1_0000) % 0x100) as u8,
        ((v / 0x100) % 0x100) as u8,
        (v % 0x100) as u8,
    ]
}

/// The eight bytes of `v`, most significant first.
pub open spec fn spec_be_bytes_u64(v: u64) -> Seq<u8> {
    spec_be_bytes_u32((v / 0x1_0000_0000) as u32) + spec_be_bytes_u32((v % 0x1_0000_0000) as u32)
}

/// Reading back what was written gives the number again.
pub proof fn lemma_be_roundtrip_u16(v: u16)
    ensures
        spec_u16_be(spec_be_bytes_u16(v), 0) == v,
{
}

/// Reading back what was written gives the number again.
pub proof fn lemma_be_roundtrip_u32(v: u32)
    ensures
        spec_u32_be(spec_be_bytes_u32(v), 0) == v,
{
}

/// Reading back what was written gives the number again.
pub proof fn lemma_be_roundtrip_u64(v: u64)
    ensures
        spec_u64_be(spec_be_bytes_u64(v), 0) == v,
{
    let hi = (v / 0x1_0000_0000) as u32;
    let lo = (v % 0x1_0000_0000) as u32;
    let s = spec_be_bytes_u64(v);
    lemma_be_roundtrip_u32(hi);
    lemma_be_roundtrip_u32(lo);
    assert(spec_u32_be(s, 0) == spec_u32_be(spec_be_bytes_u32(hi), 0));
    assert(spec_u32_be(s, 4) == spec_u32_be(spec_be_bytes_u32(lo), 0));
}

} // verus!
