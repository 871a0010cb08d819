//! A cursor over the bytes of one packet.

use crate::packets::{
    spec_u16_be, spec_u32_be, spec_u64_be, uuid_from_pair, uuid_of_pair, PacketError,
};
use crate::text::utf8_to_string;
use crate::varint::{scan_varint, spec_scan, VarintScan};
use vstd::prelude::*;
use vstd::utf8::{decode_utf8, valid_utf8};

verus! {

/// Reads numbers and strings from a packet, front to back. A read that fails
/// for want of bytes leaves the cursor where it was.
pub struct ModPacketReader<'a> {
    data: &'a [u8],
    offset: usize,
}

impl<'a> View for ModPacketReader<'a> {
    type V = Seq<u8>;

    /// The bytes not yet read.
    open spec fn view(&self) -> Seq<u8> {
        self.spec_data().skip(self.spec_offset() as int)
    }
}

/// What reading a variable-length integer at `at` gives, and where the
/// cursor stands afterwards. The bytes of a whole number are consumed. A
/// number that goes on after five bytes is an error after its sixth byte was
/// consumed; when the packet ends inside the number, all that was left is
/// consumed.
pub open spec fn spec_read_varint(data: Seq<u8>, at: int) -> (Result<i32, PacketError>, int) {
    match spec_scan(data, at) {
        VarintScan::Complete { value, len } => (Ok(value), at + len),
        VarintScan::Overlong => if data.len() - at >= 6 {
            (Err(PacketError::VarIntTooLong), at + 6)
        } else {
            (Err(PacketError::NotEnoughData { need: 1, available: 0 }), data.len() as int)
        },
        VarintScan::Truncated => (
            Err(PacketError::NotEnoughData { need: 1, available: 0 }),
            data.len() as int,
        ),
    }
}

/// Whether reading a string at `at` gives `r` and leaves the cursor at
/// `end`. A string is its length in bytes as a variable-length integer,
/// taken as an unsigned number of the machine's width, then that many bytes
/// of UTF-8. When the length cannot be read, the error and the cursor are
/// those of reading the length; when the bytes are not all there, the cursor
/// stays behind the length; bytes that are not valid UTF-8 are consumed.
pub open spec fn string_read(data: Seq<u8>, at: int, r: Result<String, PacketError>, end: int) -> bool {
    match spec_read_varint(data, at) {
        (Err(e), stop) => r == Err::<String, PacketError>(e) && end == stop,
        (Ok(value), from) => {
            let n = value as usize;
            if data.len() - from < n {
                r == Err::<String, PacketError>(
                    PacketError::NotEnoughData { need: n, available: (data.len() - from) as usize },
                ) && end == from
            } else if valid_utf8(data.subrange(from, from + n)) {
                r is Ok && r->Ok_0@ == decode_utf8(data.subrange(from, from + n)) && end == from
                    + n
            } else {
                r == Err::<String, PacketError>(PacketError::InvalidUtf8) && end == from + n
            }
        },
    }
}

impl<'a> ModPacketReader<'a> {
    #[verifier::type_invariant]
    spec fn inv(self) -> bool {
        self.offset <= self.data@.len()
    }

    /// All the bytes of the packet.
    pub closed spec fn spec_data(&self) -> Seq<u8> {
        self.data@
    }

    /// How many bytes have been read.
    pub closed spec fn spec_offset(&self) -> nat {
        self.offset as nat
    }

    /// Whether `self` is `before` moved on by `n` bytes.
    pub open spec fn advanced(&self, before: &Self, n: int) -> bool {
        self.spec_data() == before.spec_data() && self.spec_offset() == before.spec_offset() + n
    }

    /// What a read of `n` bytes gives: `value` and the cursor moved on when
    /// the bytes are there, else the error and the cursor unmoved.
    pub open spec fn reads<T>(
        &self,
        before: &Self,
        n: usize,
        r: Result<T, PacketError>,
        value: T,
    ) -> bool {
        if before@.len() >= n {
            r == Ok::<T, PacketError>(value) && self.advanced(before, n as int)
        } else {
            r == Err::<T, PacketError>(
                PacketError::NotEnoughData { need: n, available: before@.len() as usize },
            ) && self.advanced(before, 0)
        }
    }

    /// A cursor at the start of `data`.
    pub fn new(data: &'a [u8]) -> (r: Self)
        ensures
            r.spec_data() == data@,
            r.spec_offset() == 0,
            r@ == data@,
    {
        ModPacketReader { data, offset: 0 }
    }

    /// The bytes not yet read.
    pub fn remaining(&self) -> (r: &[u8])
        ensures
            r@ == self@,
    {
        proof {
            use_type_invariant(self);
        }
        let r = vstd::slice::slice_subrange(self.data, self.offset, self.data.len());
        assert(r@ =~= self@);
        r
    }

    /// How many bytes are left.
    pub fn available(&self) -> (n: usize)
        ensures
            n == self@.len(),
            self.spec_offset() + n == self.spec_data().len(),
    {
        proof {
            use_type_invariant(self);
        }
        self.data.len() - self.offset
    }

    /// Checks that `need` bytes are left.
    pub fn ensure_available(&self, need: usize) -> (r: Result<(), PacketError>)
        ensures
            need <= self@.len() ==> r == Ok::<(), PacketError>(()),
            need > self@.len() ==> r == Err::<(), PacketError>(
                PacketError::NotEnoughData { need, available: self@.len() as usize },
            ),
    {
        let available = self.available();
        if need > available {
            Err(PacketError::NotEnoughData { need, available })
        } else {
            Ok(())
        }
    }

    pub fn read_u8(&mut self) -> (r: Result<u8, PacketError>)
        ensures
            final(self).reads(old(self), 1, r, old(self)@[0]),
    {
        proof {
            use_type_invariant(&*self);
        }
        self.ensure_available(1)?;
        let v = self.data[self.offset];
        self.offset += 1;
        Ok(v)
    }

    pub fn read_i8(&mut self) -> (r: Result<i8, PacketError>)
        ensures
            final(self).reads(old(self), 1, r, old(self)@[0] as i8),
    {
        match self.read_u8() {
            Ok(v) => Ok(#[verifier::truncate] (v as i8)),
            Err(e) => Err(e),
        }
    }

    pub fn read_bool(&mut self) -> (r: Result<bool, PacketError>)
        ensures
            final(self).reads(old(self), 1, r, old(self)@[0] != 0),
    {
        match self.read_u8() {
            Ok(v) => Ok(v != 0),
            Err(e) => Err(e),
        }
    }

    pub fn read_u16_be(&mut self) -> (r: Result<u16, PacketError>)
        ensures
            final(self).reads(old(self), 2, r, spec_u16_be(old(self)@, 0)),
    {
        proof {
            use_type_invariant(&*self);
        }
        self.ensure_available(2)?;
        let v = (self.data[self.offset] as u16) * 0x100 + (self.data[self.offset + 1] as u16);
        self.offset += 2;
        Ok(v)
    }

    pub fn read_i16_be(&mut self) -> (r: Result<i16, PacketError>)
        ensures
            final(self).reads(old(self), 2, r, spec_u16_be(old(self)@, 0) as i16),
    {
        match self.read_u16_be() {
            Ok(v) => Ok(#[verifier::truncate] (v as i16)),
            Err(e) => Err(e),
        }
    }

    pub fn read_u32_be(&mut self) -> (r: Result<u32, PacketError>)
        ensures
            final(self).reads(old(self), 4, r, spec_u32_be(old(self)@, 0)),
    {
        proof {
            use_type_invariant(&*self);
        }
        self.ensure_available(4)?;
        let at = self.offset;
        let v = (self.data[at] as u32) * 0x100_0000 + (self.data[at + 1] as u32) * 0x1_0000 + (
        self.data[at + 2] as u32) * 0x100 + (self.data[at + 3] as u32);
        self.offset += 4;
        Ok(v)
    }

    pub fn read_i32_be(&mut self) -> (r: Result<i32, PacketError>)
        ensures
            final(self).reads(old(self), 4, r, spec_u32_be(old(self)@, 0) as i32),
    {
        match self.read_u32_be() {
            Ok(v) => Ok(#[verifier::truncate] (v as i32)),
            Err(e) => Err(e),
        }
    }

    pub fn read_u64_be(&mut self) -> (r: Result<u64, PacketError>)
        ensures
            final(self).reads(old(self), 8, r, spec_u64_be(old(self)@, 0)),
    {
        proof {
            use_type_invariant(&*self);
        }
        self.ensure_available(8)?;
        let at = self.offset;
        let hi = (self.data[at] as u64) * 0x100_0000 + (self.data[at + 1] as u64) * 0x1_0000 + (
        self.data[at + 2] as u64) * 0x100 + (self.data[at + 3] as u64);
        let lo = (self.data[at + 4] as u64) * 0x100_0000 + (self.data[at + 5] as u64) * 0x1_0000
            + (self.data[at + 6] as u64) * 0x100 + (self.data[at + 7] as u64);
        self.offset += 8;
        Ok(hi * 0x1_0000_0000 + lo)
    }

    pub fn read_i64_be(&mut self) -> (r: Result<i64, PacketError>)
        ensures
            final(self).reads(old(self), 8, r, spec_u64_be(old(self)@, 0) as i64),
    {
        match self.read_u64_be() {
            Ok(v) => Ok(#[verifier::truncate] (v as i64)),
            Err(e) => Err(e),
        }
    }

    /// The bits of a four-byte float, most significant byte first.
    pub fn read_f32_bits_be(&mut self) -> (r: Result<u32, PacketError>)
        ensures
            final(self).reads(old(self), 4, r, spec_u32_be(old(self)@, 0)),
    {
        self.read_u32_be()
    }

    /// Reads a variable-length integer, see [`spec_read_varint`].
    pub fn read_varint(&mut self) -> (r: Result<i32, PacketError>)
        ensures
            final(self).spec_data() == old(self).spec_data(),
            (r, final(self).spec_offset() as int) == spec_read_varint(
                old(self).spec_data(),
                old(self).spec_offset() as int,
            ),
            final(self).spec_offset() <= final(self).spec_data().len(),
    {
        proof {
            use_type_invariant(&*self);
        }
        let total = self.data.len();
        match scan_varint(self.data, self.offset) {
            VarintScan::Complete { value, len } => {
                self.offset += len;
                Ok(value)
            },
            VarintScan::Overlong => {
                if self.data.len() - self.offset >= 6 {
                    self.offset += 6;
                    Err(PacketError::VarIntTooLong)
                } else {
                    self.offset = self.data.len();
                    Err(PacketError::NotEnoughData { need: 1, available: 0 })
                }
            },
            VarintScan::Truncated => {
                self.offset = self.data.len();
                Err(PacketError::NotEnoughData { need: 1, available: 0 })
            },
        }
    }

    /// Reads `len` bytes.
    pub fn read_bytes(&mut self, len: usize) -> (r: Result<Vec<u8>, PacketError>)
        ensures
            old(self)@.len() >= len ==> r is Ok && r->Ok_0@ == old(self)@.take(len as int) && final(self).advanced(old(self), len as int),
            old(self)@.len() < len ==> r == Err::<Vec<u8>, PacketError>(
                PacketError::NotEnoughData { need: len, available: old(self)@.len() as usize },
            ) && final(self).advanced(old(self), 0),
    {
        proof {
            use_type_invariant(&*self);
        }
        self.ensure_available(len)?;
        let total = self.data.len();
        let part = vstd::slice::slice_subrange(self.data, self.offset, self.offset + len);
        let out = vstd::slice::slice_to_vec(part);
        assert(out@ =~= old(self)@.take(len as int));
        self.offset += len;
        Ok(out)
    }

    /// Reads a string, see [`string_read`].
    pub fn read_string_varint(&mut self) -> (r: Result<String, PacketError>)
        ensures
            final(self).spec_data() == old(self).spec_data(),
            string_read(
                old(self).spec_data(),
                old(self).spec_offset() as int,
                r,
                final(self).spec_offset() as int,
            ),
    {
        let ghost data = self.spec_data();
        let ghost at = self.spec_offset() as int;
        let len = self.read_varint()?;
        let n = #[verifier::truncate] (len as usize);
        let ghost from = self.spec_offset() as int;
        proof {
            use_type_invariant(&*self);
        }
        let bytes = self.read_bytes(n)?;
        proof {
            assert(data.skip(from).take(n as int) =~= data.subrange(from, from + n));
        }
        match utf8_to_string(bytes.as_slice()) {
            Some(s) => Ok(s),
            None => Err(PacketError::InvalidUtf8),
        }
    }

    /// Reads an identifier: its most significant half, then the other.
    pub fn read_uuid(&mut self) -> (r: Result<uuid::Uuid, PacketError>)
        ensures
            final(self).reads(
                old(self),
                16,
                r,
                uuid_from_pair(spec_u64_be(old(self)@, 0), spec_u64_be(old(self)@, 8)),
            ),
    {
        proof {
            use_type_invariant(&*self);
        }
        self.ensure_available(16)?;
        let most = self.read_u64_be()?;
        proof {
            assert(self@ =~= old(self)@.skip(8));
        }
        let least = self.read_u64_be()?;
        Ok(uuid_of_pair(most, least))
    }

    /// Reads a value of a type that knows how it is encoded.
    pub fn read<T: ModReadable>(&mut self) -> (r: Result<T, PacketError>)
        ensures
            final(self).spec_data() == old(self).spec_data(),
            T::read_as(
                old(self).spec_data(),
                old(self).spec_offset() as int,
                r,
                final(self).spec_offset() as int,
            ),
    {
        T::read_from(self)
    }
}

/// The text at `at` whose length in bytes stands before it as a
/// variable-length integer, and the index behind it; `None` when the length
/// cannot be read, the packet ends inside the text, or the bytes are not
/// valid UTF-8.
pub open spec fn spec_var_string(data: Seq<u8>, at: int) -> Option<(Seq<char>, int)> {
    match spec_scan(data, at) {
        VarintScan::Complete { value, len } => {
            let n = value as usize;
            let from = at + len;
            if data.len() - from < n {
                None
            } else if valid_utf8(data.subrange(from, from + n)) {
                Some((decode_utf8(data.subrange(from, from + n)), from + n))
            } else {
                None
            }
        },
        _ => None,
    }
}

/// `n` texts one after the other from `at` on, and the index behind them.
pub open spec fn spec_var_strings(data: Seq<u8>, at: int, n: nat) -> Option<(Seq<Seq<char>>, int)>
    decreases n,
{
    if n == 0 {
        Some((Seq::<Seq<char>>::empty(), at))
    } else {
        match spec_var_strings(data, at, (n - 1) as nat) {
            None => None,
            Some((list, mid)) => match spec_var_string(data, mid) {
                None => None,
                Some((s, next)) => Some((list.push(s), next)),
            },
        }
    }
}

/// When the first `k` texts cannot be read, more of them cannot either.
pub proof fn lemma_var_strings_fail(data: Seq<u8>, at: int, k: nat, n: nat)
    requires
        k <= n,
        spec_var_strings(data, at, k) is None,
    ensures
        spec_var_strings(data, at, n) is None,
    decreases n,
{
    if k < n {
        lemma_var_strings_fail(data, at, k, (n - 1) as nat);
    }
}

/// A type with an encoding of its own in a packet.
pub trait ModReadable: Sized {
    /// Whether reading a value of this type at `at` in `data` gives `r` and
    /// leaves the cursor at `end`.
    spec fn read_as(data: Seq<u8>, at: int, r: Result<Self, PacketError>, end: int) -> bool;

    fn read_from(r: &mut ModPacketReader) -> (res: Result<Self, PacketError>)
        ensures
            final(r).spec_data() == old(r).spec_data(),
            Self::read_as(
                old(r).spec_data(),
                old(r).spec_offset() as int,
                res,
                final(r).spec_offset() as int,
            ),
    ;
}

/// What a read of `n` bytes at `at` gives, see [`ModPacketReader::reads`].
pub open spec fn fixed_read<T>(
    data: Seq<u8>,
    at: int,
    n: usize,
    r: Result<T, PacketError>,
    end: int,
    value: T,
) -> bool {
    if data.len() - at >= n {
        r == Ok::<T, PacketError>(value) && end == at + n
    } else {
        r == Err::<T, PacketError>(
            PacketError::NotEnoughData { need: n, available: (data.len() - at) as usize },
        ) && end == at
    }
}

impl ModReadable for u8 {
    open spec fn read_as(data: Seq<u8>, at: int, r: Result<Self, PacketError>, end: int) -> bool {
        fixed_read(data, at, 1, r, end, data[at])
    }

    fn read_from(r: &mut ModPacketReader) -> (res: Result<Self, PacketError>) {
        let _ = r.available();
        r.read_u8()
    }
}

impl ModReadable for i8 {
    open spec fn read_as(data: Seq<u8>, at: int, r: Result<Self, PacketError>, end: int) -> bool {
        fixed_read(data, at, 1, r, end, data[at] as i8)
    }

    fn read_from(r: &mut ModPacketReader) -> (res: Result<Self, PacketError>) {
        let _ = r.available();
        r.read_i8()
    }
}

impl ModReadable for bool {
    open spec fn read_as(data: Seq<u8>, at: int, r: Result<Self, PacketError>, end: int) -> bool {
        fixed_read(data, at, 1, r, end, data[at] != 0)
    }

    fn read_from(r: &mut ModPacketReader) -> (res: Result<Self, PacketError>) {
        let _ = r.available();
        r.read_bool()
    }
}

impl ModReadable for u16 {
    open spec fn read_as(data: Seq<u8>, at: int, r: Result<Self, PacketError>, end: int) -> bool {
        fixed_read(data, at, 2, r, end, spec_u16_be(data, at))
    }

    fn read_from(r: &mut ModPacketReader) -> (res: Result<Self, PacketError>) {
        let _ = r.available();
        r.read_u16_be()
    }
}

impl ModReadable for i16 {
    open spec fn read_as(data: Seq<u8>, at: int, r: Result<Self, PacketError>, end: int) -> bool {
        fixed_read(data, at, 2, r, end, spec_u16_be(data, at) as i16)
    }

    fn read_from(r: &mut ModPacketReader) -> (res: Result<Self, PacketError>) {
        let _ = r.available();
        r.read_i16_be()
    }
}

impl ModReadable for u32 {
    open spec fn read_as(data: Seq<u8>, at: int, r: Result<Self, PacketError>, end: int) -> bool {
        fixed_read(data, at, 4, r, end, spec_u32_be(data, at))
    }

    fn read_from(r: &mut ModPacketReader) -> (res: Result<Self, PacketError>) {
        let _ = r.available();
        r.read_u32_be()
    }
}

impl ModReadable for i32 {
    open spec fn read_as(data: Seq<u8>, at: int, r: Result<Self, PacketError>, end: int) -> bool {
        fixed_read(data, at, 4, r, end, spec_u32_be(data, at) as i32)
    }

    fn read_from(r: &mut ModPacketReader) -> (res: Result<Self, PacketError>) {
        let _ = r.available();
        r.read_i32_be()
    }
}

impl ModReadable for u64 {
    open spec fn read_as(data: Seq<u8>, at: int, r: Result<Self, PacketError>, end: int) -> bool {
        fixed_read(data, at, 8, r, end, spec_u64_be(data, at))
    }

    fn read_from(r: &mut ModPacketReader) -> (res: Result<Self, PacketError>) {
        let _ = r.available();
        r.read_u64_be()
    }
}

impl ModReadable for i64 {
    open spec fn read_as(data: Seq<u8>, at: int, r: Result<Self, PacketError>, end: int) -> bool {
        fixed_read(data, at, 8, r, end, spec_u64_be(data, at) as i64)
    }

    fn read_from(r: &mut ModPacketReader) -> (res: Result<Self, PacketError>) {
        let _ = r.available();
        r.read_i64_be()
    }
}

impl ModReadable for uuid::Uuid {
    open spec fn read_as(data: Seq<u8>, at: int, r: Result<Self, PacketError>, end: int) -> bool {
        fixed_read(
            data,
            at,
            16,
            r,
            end,
            uuid_from_pair(spec_u64_be(data, at), spec_u64_be(data, at + 8)),
        )
    }

    fn read_from(r: &mut ModPacketReader) -> (res: Result<Self, PacketError>) {
        let _ = r.available();
        r.read_uuid()
    }
}

impl ModReadable for String {
    open spec fn read_as(data: Seq<u8>, at: int, r: Result<Self, PacketError>, end: int) -> bool {
        string_read(data, at, r, end)
    }

    fn read_from(r: &mut ModPacketReader) -> (res: Result<Self, PacketError>) {
        r.read_string_varint()
    }
}

impl ModReadable for Vec<u8> {
    /// The count of bytes in four bytes, then the bytes.
    open spec fn read_as(data: Seq<u8>, at: int, r: Result<Self, PacketError>, end: int) -> bool {
        let left = data.len() - at;
        if left < 4 {
            r == Err::<Vec<u8>, PacketError>(
                PacketError::NotEnoughData { need: 4, available: left as usize },
            ) && end == at
        } else {
            let n = spec_u32_be(data, at) as usize;
            if left - 4 < n {
                r == Err::<Vec<u8>, PacketError>(
                    PacketError::NotEnoughData { need: n, available: (left - 4) as usize },
                ) && end == at + 4
            } else {
                r is Ok && r->Ok_0@ == data.subrange(at + 4, at + 4 + n) && end == at + 4 + n
            }
        }
    }

    fn read_from(r: &mut ModPacketReader) -> (res: Result<Self, PacketError>) {
        let left = r.available();
        let ghost data = r.spec_data();
        let ghost at = r.spec_offset() as int;
        proof {
            if left >= 4 {
                assert(r@[0] == data[at] && r@[1] == data[at + 1] && r@[2] == data[at + 2] && r@[3]
                    == data[at + 3]);
            }
        }
        let len = r.read_u32_be()? as usize;
        let _ = r.available();
        let res = r.read_bytes(len);
        proof {
            if left - 4 >= len {
                assert(data.skip(at + 4).take(len as int) =~= data.subrange(at + 4, at + 4 + len));
            }
        }
        res
    }
}

/// The texts of a list of strings.
pub open spec fn string_views(list: Seq<String>) -> Seq<Seq<char>> {
    list.map_values(|s: String| s@)
}

impl ModReadable for Vec<String> {
    /// The count of texts in four bytes, then the texts, each with its
    /// length in bytes before it. At least as many bytes as the count says
    /// must follow the count.
    open spec fn read_as(data: Seq<u8>, at: int, r: Result<Self, PacketError>, end: int) -> bool {
        let left = data.len() - at;
        if left < 4 {
            r == Err::<Vec<String>, PacketError>(
                PacketError::NotEnoughData { need: 4, available: left as usize },
            ) && end == at
        } else {
            let n = spec_u32_be(data, at) as usize;
            if left - 4 < n {
                r == Err::<Vec<String>, PacketError>(
                    PacketError::NotEnoughData { need: n, available: (left - 4) as usize },
                ) && end == at + 4
            } else {
                match spec_var_strings(data, at + 4, n as nat) {
                    Some((list, next)) => r is Ok && string_views(r->Ok_0@) == list && end == next,
                    None => r is Err,
                }
            }
        }
    }

    fn read_from(r: &mut ModPacketReader) -> (res: Result<Self, PacketError>) {
        let left = r.available();
        let ghost data = r.spec_data();
        let ghost at = r.spec_offset() as int;
        proof {
            if left >= 4 {
                assert(r@[0] == data[at] && r@[1] == data[at + 1] && r@[2] == data[at + 2] && r@[3]
                    == data[at + 3]);
            }
        }
        let len = r.read_u32_be()? as usize;
        let _ = r.available();
        r.ensure_available(len)?;
        let mut strings: Vec<String> = Vec::new();
        let mut i: usize = 0;
        assert(string_views(strings@) =~= Seq::<Seq<char>>::empty());
        while i < len
            invariant
                i <= len,
                r.spec_data() == data,
                data == old(r).spec_data(),
                at == old(r).spec_offset(),
                0 <= at,
                at + 4 <= data.len(),
                len == spec_u32_be(data, at),
                data.len() - at - 4 >= len,
                spec_var_strings(data, at + 4, i as nat) == Some(
                    (string_views(strings@), r.spec_offset() as int),
                ),
            decreases len - i,
        {
            let ghost from = r.spec_offset() as int;
            let _ = r.available();
            let item = String::read_from(r);
            match item {
                Ok(s) => {
                    let ghost before = string_views(strings@);
                    strings.push(s);
                    proof {
                        crate::varint::lemma_terminator_bounds(data, from);
                        assert(string_views(strings@) =~= before.push(s@));
                    }
                },
                Err(e) => {
                    proof {
                        crate::varint::lemma_terminator_bounds(data, from);
                        assert(spec_var_string(data, from) is None);
                        lemma_var_strings_fail(data, at + 4, (i + 1) as nat, len as nat);
                    }
                    return Err(e);
                },
            }
            i += 1;
        }
        Ok(strings)
    }
}

} // verus!
