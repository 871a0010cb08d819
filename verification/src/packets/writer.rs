//! Building the bytes of one packet.

use crate::packets::{
    pair_of_uuid, spec_be_bytes_u16, spec_be_bytes_u32, spec_be_bytes_u64, uuid_from_pair,
    PacketError,
};
use vstd::prelude::*;
use vstd::string::StringSliceAdditionalSpecFns;

verus! {

/// Appends numbers and strings to a packet.
pub struct ModPacketWriter {
    data: Vec<u8>,
}

impl View for ModPacketWriter {
    type V = Seq<u8>;

    /// The bytes written so far.
    closed spec fn view(&self) -> Seq<u8> {
        self.data@
    }
}

/// The bytes of `v` as [`ModPacketWriter::write_varint`] writes them: groups
/// of seven bits, least significant first, shifting the sign in from the
/// left, until what is left is `0` or `-1`.
pub open spec fn spec_write_varint(v: int) -> Seq<u8>
    decreases
            (if v >= 0 {
                v
            } else {
                -v
            }),
{
    let low = v % 128;
    let rest = v / 128;
    if rest == 0 || rest == -1 {
        seq![low as u8]
    } else {
        seq![(low + 128) as u8] + spec_write_varint(rest)
    }
}

impl ModPacketWriter {
    /// An empty packet.
    pub fn new() -> (w: Self)
        ensures
            w@ == Seq::<u8>::empty(),
    {
        ModPacketWriter { data: Vec::new() }
    }

    /// The bytes written.
    pub fn into_bytes(self) -> (bytes: Vec<u8>)
        ensures
            bytes@ == self@,
    {
        self.data
    }

    pub fn write_u8(&mut self, value: u8)
        ensures
            final(self)@ == old(self)@.push(value),
    {
        self.data.push(value);
    }

    pub fn write_i8(&mut self, value: i8)
        ensures
            final(self)@ == old(self)@.push(value as u8),
    {
        self.data.push(#[verifier::truncate] (value as u8));
    }

    pub fn write_bool(&mut self, value: bool)
        ensures
            final(self)@ == old(self)@.push(
                if value {
                    1u8
                } else {
                    0u8
                },
            ),
    {
        self.data.push(
            if value {
                1
            } else {
                0
            },
        );
    }

    pub fn write_u16_be(&mut self, value: u16)
        ensures
            final(self)@ == old(self)@ + spec_be_bytes_u16(value),
    {
        self.data.push((value / 0x100) as u8);
        self.data.push((value % 0x100) as u8);
        assert(self.data@ =~= old(self)@ + spec_be_bytes_u16(value));
    }

    pub fn write_i16_be(&mut self, value: i16)
        ensures
            final(self)@ == old(self)@ + spec_be_bytes_u16(value as u16),
    {
        self.write_u16_be(#[verifier::truncate] (value as u16));
    }

    pub fn write_u32_be(&mut self, value: u32)
        ensures
            final(self)@ == old(self)@ + spec_be_bytes_u32(value),
    {
        self.data.push((value / 0x100_0000) as u8);
        self.data.push(((value / 0x1_0000) % 0x100) as u8);
        self.data.push(((value / 0x100) % 0x100) as u8);
        self.data.push((value % 0x100) as u8);
        assert(self.data@ =~= old(self)@ + spec_be_bytes_u32(value));
    }

    pub fn write_i32_be(&mut self, value: i32)
        ensures
            final(self)@ == old(self)@ + spec_be_bytes_u32(value as u32),
    {
        self.write_u32_be(#[verifier::truncate] (value as u32));
    }

    /// Writes the bits of a four-byte float, most significant byte first.
    pub fn write_f32_bits_be(&mut self, bits: u32)
        ensures
            final(self)@ == old(self)@ + spec_be_bytes_u32(bits),
    {
        self.write_u32_be(bits);
    }

    pub fn write_u64_be(&mut self, value: u64)
        ensures
            final(self)@ == old(self)@ + spec_be_bytes_u64(value),
    {
        let ghost before = self@;
        self.write_u32_be((value / 0x1_0000_0000) as u32);
        self.write_u32_be((value % 0x1_0000_0000) as u32);
        assert(self@ =~= before + spec_be_bytes_u64(value));
    }

    pub fn write_i64_be(&mut self, value: i64)
        ensures
            final(self)@ == old(self)@ + spec_be_bytes_u64(value as u64),
    {
        self.write_u64_be(#[verifier::truncate] (value as u64));
    }

    /// Writes a variable-length integer, see [`spec_write_varint`].
    pub fn write_varint(&mut self, value: i32)
        ensures
            final(self)@ == old(self)@ + spec_write_varint(value as int),
    {
        let mut left = value;
        loop
            invariant_except_break
                old(self)@ + spec_write_varint(value as int) == self@ + spec_write_varint(
                    left as int,
                ),
            ensures
                self@ == old(self)@ + spec_write_varint(value as int),
            decreases
                    (if left >= 0 {
                        left as int
                    } else {
                        -(left as int)
                    }),
        {
            let low = left & 0x7F;
            let rest = left >> 7;
            assert(low == left % 128 && rest == left / 128 && 0 <= low < 128) by (bit_vector)
                requires
                    low == left & 0x7F,
                    rest == left >> 7,
            ;
            let ghost before = self@;
            if rest != 0 && rest != -1 {
                self.data.push((low + 128) as u8);
                proof {
                    assert(before + (seq![(low + 128) as u8] + spec_write_varint(rest as int))
                        =~= before.push((low + 128) as u8) + spec_write_varint(rest as int));
                }
                left = rest;
            } else {
                self.data.push(low as u8);
                proof {
                    assert(before + seq![low as u8] =~= before.push(low as u8));
                }
                break ;
            }
        }
    }

    /// Writes a string: the length of its UTF-8 bytes as a variable-length
    /// integer (cut to 32 bits), then the bytes. It always succeeds.
    pub fn write_string_be_len(&mut self, value: &str) -> (r: Result<(), PacketError>)
        ensures
            r == Ok::<(), PacketError>(()),
            final(self)@ == old(self)@ + spec_write_varint(
                (value.spec_bytes().len() as i32) as int,
            ) + value.spec_bytes(),
    {
        let bytes = value.as_bytes();
        self.write_varint(#[verifier::truncate] (bytes.len() as i32));
        self.write_bytes(bytes);
        Ok(())
    }

    /// Appends `bytes` as they are.
    pub fn write_bytes(&mut self, bytes: &[u8])
        ensures
            final(self)@ == old(self)@ + bytes@,
    {
        let mut i: usize = 0;
        while i < bytes.len()
            invariant
                i <= bytes@.len(),
                self@ == old(self)@ + bytes@.take(i as int),
            decreases bytes@.len() - i,
        {
            self.data.push(bytes[i]);
            assert(self@ =~= old(self)@ + bytes@.take(i + 1));
            i += 1;
        }
        assert(bytes@.take(bytes@.len() as int) =~= bytes@);
    }

    /// Writes an identifier: its most significant half, then the other. The
    /// halves written are halves of `uuid`.
    pub fn write_uuid(&mut self, uuid: &uuid::Uuid)
        ensures
            exists|most: u64, least: u64|
                uuid_from_pair(most, least) == *uuid && final(self)@ == old(self)@
                    + spec_be_bytes_u64(most) + spec_be_bytes_u64(least),
    {
        let (most, least) = pair_of_uuid(uuid);
        self.write_u64_be(most);
        self.write_u64_be(least);
    }

    /// Writes a value of a type that knows how it is encoded.
    pub fn write<T: ModWritable>(&mut self, value: &T)
        ensures
            value.written(old(self)@, final(self)@),
    {
        value.write_to(self);
    }
}

/// A type with an encoding of its own in a packet.
pub trait ModWritable {
    /// Whether writing this value takes a packet from `before` to `after`.
    spec fn written(&self, before: Seq<u8>, after: Seq<u8>) -> bool;

    fn write_to(&self, w: &mut ModPacketWriter)
        ensures
            self.written(old(w)@, final(w)@),
    ;
}

impl ModWritable for u8 {
    open spec fn written(&self, before: Seq<u8>, after: Seq<u8>) -> bool {
        after == before.push(*self)
    }

    fn write_to(&self, w: &mut ModPacketWriter) {
        w.write_u8(*self)
    }
}

impl ModWritable for i8 {
    open spec fn written(&self, before: Seq<u8>, after: Seq<u8>) -> bool {
        after == before.push(*self as u8)
    }

    fn write_to(&self, w: &mut ModPacketWriter) {
        w.write_i8(*self)
    }
}

impl ModWritable for bool {
    open spec fn written(&self, before: Seq<u8>, after: Seq<u8>) -> bool {
        after == before.push(
            if *self {
                1u8
            } else {
                0u8
            },
        )
    }

    fn write_to(&self, w: &mut ModPacketWriter) {
        w.write_bool(*self)
    }
}

impl ModWritable for u16 {
    open spec fn written(&self, before: Seq<u8>, after: Seq<u8>) -> bool {
        after == before + spec_be_bytes_u16(*self)
    }

    fn write_to(&self, w: &mut ModPacketWriter) {
        w.write_u16_be(*self)
    }
}

impl ModWritable for i16 {
    open spec fn written(&self, before: Seq<u8>, after: Seq<u8>) -> bool {
        after == before + spec_be_bytes_u16(*self as u16)
    }

    fn write_to(&self, w: &mut ModPacketWriter) {
        w.write_i16_be(*self)
    }
}

impl ModWritable for u32 {
    open spec fn written(&self, before: Seq<u8>, after: Seq<u8>) -> bool {
        after == before + spec_be_bytes_u32(*self)
    }

    fn write_to(&self, w: &mut ModPacketWriter) {
        w.write_u32_be(*self)
    }
}

impl ModWritable for i32 {
    open spec fn written(&self, before: Seq<u8>, after: Seq<u8>) -> bool {
        after == before + spec_be_bytes_u32(*self as u32)
    }

    fn write_to(&self, w: &mut ModPacketWriter) {
        w.write_i32_be(*self)
    }
}

impl ModWritable for u64 {
    open spec fn written(&self, before: Seq<u8>, after: Seq<u8>) -> bool {
        after == before + spec_be_bytes_u64(*self)
    }

    fn write_to(&self, w: &mut ModPacketWriter) {
        w.write_u64_be(*self)
    }
}

impl ModWritable for i64 {
    open spec fn written(&self, before: Seq<u8>, after: Seq<u8>) -> bool {
        after == before + spec_be_bytes_u64(*self as u64)
    }

    fn write_to(&self, w: &mut ModPacketWriter) {
        w.write_i64_be(*self)
    }
}

impl ModWritable for String {
    open spec fn written(&self, before: Seq<u8>, after: Seq<u8>) -> bool {
        after == before + spec_write_varint(
            (vstd::utf8::encode_utf8(self@).len() as i32) as int,
        ) + vstd::utf8::encode_utf8(self@)
    }

    fn write_to(&self, w: &mut ModPacketWriter) {
        let _ = w.write_string_be_len(self.as_str());
    }
}

impl ModWritable for Vec<u8> {
    open spec fn written(&self, before: Seq<u8>, after: Seq<u8>) -> bool {
        after == before + spec_be_bytes_u32(self@.len() as u32) + self@
    }

    fn write_to(&self, w: &mut ModPacketWriter) {
        w.write_u32_be(#[verifier::truncate] (self.len() as u32));
        w.write_bytes(self.as_slice());
    }
}

impl ModWritable for uuid::Uuid {
    open spec fn written(&self, before: Seq<u8>, after: Seq<u8>) -> bool {
        exists|most: u64, least: u64|
            uuid_from_pair(most, least) == *self && after == before + spec_be_bytes_u64(most)
                + spec_be_bytes_u64(least)
    }

    fn write_to(&self, w: &mut ModPacketWriter) {
        w.write_uuid(self);
    }
}

/// A number that is not negative is written as its plain groups of seven
/// bits, so a reader reads it back. (A negative one is not: `-1` is written
/// as the single byte `0x7F`, which reads as 127.)
pub proof fn lemma_write_varint_of_nat(v: int)
    requires
        0 <= v,
    ensures
        spec_write_varint(v) == crate::varint::spec_encode(v as nat),
    decreases v,
{
    if v >= 128 {
        lemma_write_varint_of_nat(v / 128);
    }
}

/// Writing a number that is not negative and reading it back gives the
/// number, whatever follows it.
pub proof fn lemma_varint_round_trip(value: i32, rest: Seq<u8>)
    requires
        0 <= value,
    ensures
        crate::varint::spec_scan(spec_write_varint(value as int) + rest, 0) == (
        crate::varint::VarintScan::Complete {
            value,
            len: spec_write_varint(value as int).len() as usize,
        }),
{
    lemma_write_varint_of_nat(value as int);
    crate::varint::lemma_encode_round_trip(value, rest);
}

/// A signed number written as its unsigned bits is read back as itself.
pub proof fn lemma_signed_round_trip(a: i8, b: i16, c: i32, d: i64)
    by (bit_vector)
    ensures
        (a as u8) as i8 == a,
        (b as u16) as i16 == b,
        (c as u32) as i32 == c,
        (d as u64) as i64 == d,
{
}

impl ModWritable for &str {
    open spec fn written(&self, before: Seq<u8>, after: Seq<u8>) -> bool {
        after == before + spec_write_varint(
            (vstd::utf8::encode_utf8(self@).len() as i32) as int,
        ) + vstd::utf8::encode_utf8(self@)
    }

    fn write_to(&self, w: &mut ModPacketWriter) {
        let _ = w.write_string_be_len(*self);
    }
}

impl ModWritable for &[u8] {
    open spec fn written(&self, before: Seq<u8>, after: Seq<u8>) -> bool {
        after == before + spec_be_bytes_u32(self@.len() as u32) + self@
    }

    fn write_to(&self, w: &mut ModPacketWriter) {
        w.write_u32_be(#[verifier::truncate] (self.len() as u32));
        w.write_bytes(*self);
    }
}

/// The bytes of a run of strings, each with the length of its UTF-8 bytes
/// as a variable-length integer before them.
pub open spec fn spec_strings_bytes(list: Seq<String>) -> Seq<u8>
    decreases list.len(),
{
    if list.len() == 0 {
        Seq::<u8>::empty()
    } else {
        spec_strings_bytes(list.drop_last()) + spec_write_varint(
            (vstd::utf8::encode_utf8(list.last()@).len() as i32) as int,
        ) + vstd::utf8::encode_utf8(list.last()@)
    }
}

impl ModWritable for Vec<String> {
    /// The count of strings in four bytes, then the strings.
    open spec fn written(&self, before: Seq<u8>, after: Seq<u8>) -> bool {
        after == before + spec_be_bytes_u32(self@.len() as u32) + spec_strings_bytes(self@)
    }

    fn write_to(&self, w: &mut ModPacketWriter) {
        w.write_u32_be(#[verifier::truncate] (self.len() as u32));
        let ghost head = w@;
        let mut i: usize = 0;
        assert(w@ =~= head + spec_strings_bytes(self@.take(0)));
        while i < self.len()
            invariant
                i <= self@.len(),
                w@ == head + spec_strings_bytes(self@.take(i as int)),
            decreases self@.len() - i,
        {
            let ghost before = w@;
            let _ = w.write_string_be_len(self[i].as_str());
            proof {
                let next = self@.take(i + 1);
                assert(next.drop_last() =~= self@.take(i as int));
                assert(next.last() == self@[i as int]);
                assert(w@ =~= head + spec_strings_bytes(next));
            }
            i += 1;
        }
        assert(self@.take(self@.len() as int) =~= self@);
    }
}

} // verus!
