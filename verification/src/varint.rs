//! Variable-length integers: seven value bits per byte, least significant
//! group first; the top bit of a byte says that another byte follows. A
//! 32-bit value takes at most five bytes.

use vstd::prelude::*;

verus! {

/// `128` to the power `k`.
pub open spec fn pow128(k: nat) -> nat
    decreases k,
{
    if k == 0 {
        1
    } else {
        128 * pow128((k - 1) as nat)
    }
}

/// The number that the value bits of the `n` bytes from `start` spell.
pub open spec fn groups_value(s: Seq<u8>, start: int, n: nat) -> nat
    decreases n,
{
    if n == 0 {
        0
    } else {
        groups_value(s, start, (n - 1) as nat) + ((s[start + n - 1] as nat) % 128) * pow128(
            (n - 1) as nat,
        )
    }
}

/// Index of the first byte at or after `i` without the continuation bit, or
/// `s.len()` when every byte from `i` on has it.
pub open spec fn terminator_from(s: Seq<u8>, i: int) -> int
    decreases s.len() - i,
{
    if i < 0 || i >= s.len() {
        s.len() as int
    } else if s[i] < 128 {
        i
    } else {
        terminator_from(s, i + 1)
    }
}

/// A number of up to 35 bits cut to 32 bits and read as two's complement.
pub open spec fn wrap_i32(v: nat) -> i32 {
    let m = v % 0x1_0000_0000;
    if m < 0x8000_0000 {
        m as i32
    } else {
        (m - 0x1_0000_0000) as i32
    }
}

/// The 32 bits of `v` read as an unsigned number.
pub open spec fn unsigned_of(v: i32) -> nat {
    if v >= 0 {
        v as nat
    } else {
        (v + 0x1_0000_0000) as nat
    }
}

/// What stands at the start of a run of bytes.
#[derive(Clone, Copy, Debug, PartialEq, Eq, Structural)]
pub enum VarintScan {
    /// A whole number of `len` bytes.
    Complete { value: i32, len: usize },
    /// The bytes end before the number does.
    Truncated,
    /// Five bytes in a row announce another one: too long for 32 bits.
    Overlong,
}

/// The number that starts at `start`, see [`VarintScan`].
pub open spec fn spec_scan(s: Seq<u8>, start: int) -> VarintScan {
    let t = terminator_from(s, start);
    if start < 0 || start > s.len() {
        VarintScan::Truncated
    } else if t < start + 5 && t < s.len() {
        VarintScan::Complete {
            value: wrap_i32(groups_value(s, start, (t + 1 - start) as nat)),
            len: (t + 1 - start) as usize,
        }
    } else if start + 5 <= s.len() {
        VarintScan::Overlong
    } else {
        VarintScan::Truncated
    }
}

pub proof fn lemma_terminator_bounds(s: Seq<u8>, i: int)
    requires
        0 <= i,
    ensures
        i <= terminator_from(s, i) || terminator_from(s, i) == s.len(),
        terminator_from(s, i) <= s.len(),
        terminator_from(s, i) < s.len() ==> s[terminator_from(s, i)] < 128,
        forall|j: int| i <= j < terminator_from(s, i) ==> s[j] >= 128,
    decreases s.len() - i,
{
    if i < s.len() && s[i] >= 128 {
        lemma_terminator_bounds(s, i + 1);
    }
}

/// The value bits of at most five bytes stay below `2^35`.
pub proof fn lemma_groups_value_bound(s: Seq<u8>, start: int, n: nat)
    requires
        n <= 5,
    ensures
        groups_value(s, start, n) < pow128(n),
        pow128(n) <= 0x8_0000_0000,
    decreases n,
{
    reveal_with_fuel(pow128, 6);
    if n > 0 {
        lemma_groups_value_bound(s, start, (n - 1) as nat);
        let g = (s[start + n - 1] as nat) % 128;
        let p = pow128((n - 1) as nat);
        assert(g * p <= 127 * p) by (nonlinear_arith)
            requires
                g <= 127,
        ;
    }
}

fn cut_to_i32(acc: u64) -> (r: i32)
    ensures
        r == wrap_i32(acc as nat),
{
    let m = acc % 0x1_0000_0000;
    if m < 0x8000_0000 {
        m as i32
    } else {
        (m as i64 - 0x1_0000_0000) as i32
    }
}

/// Reads the number that starts at `start` in `data`.
pub fn scan_varint(data: &[u8], start: usize) -> (r: VarintScan)
    ensures
        r == spec_scan(data@, start as int),
        r matches VarintScan::Complete { value, len } ==> 1 <= len <= 5 && start + len
            <= data@.len(),
{
    let n = data.len();
    if start > n {
        return VarintScan::Truncated;
    }
    let mut acc: u64 = 0;
    let mut mult: u64 = 1;
    let mut i: usize = 0;
    while i < 5
        invariant
            i <= 5,
            n == data@.len(),
            start + i <= n,
            acc == groups_value(data@, start as int, i as nat),
            i < 5 ==> mult == pow128(i as nat),
            terminator_from(data@, start as int) == terminator_from(data@, start + i),
        decreases 5 - i,
    {
        if i >= n - start {
            proof {
                lemma_terminator_bounds(data@, start + i);
            }
            return VarintScan::Truncated;
        }
        let b = data[start + i];
        proof {
            lemma_groups_value_bound(data@, start as int, i as nat);
            lemma_groups_value_bound(data@, start as int, (i + 1) as nat);
            reveal_with_fuel(pow128, 6);
        }
        acc = acc + ((b % 128) as u64) * mult;
        if b < 128 {
            return VarintScan::Complete { value: cut_to_i32(acc), len: i + 1 };
        }
        if i < 4 {
            mult = mult * 128;
        }
        i += 1;
    }
    proof {
        lemma_terminator_bounds(data@, start + 5);
    }
    VarintScan::Overlong
}

/// How many bytes a lenient read takes from the start of `s`: up to and
/// with the first byte without the continuation bit, but no more than five
/// and no more than there are.
pub open spec fn spec_prefix_len(s: Seq<u8>) -> nat {
    let t = terminator_from(s, 0);
    if t < 5 && t < s.len() {
        (t + 1) as nat
    } else if s.len() < 5 {
        s.len()
    } else {
        5
    }
}

/// Reads the number at the start of `buf` without judging it: the value bits
/// of the bytes taken, cut to 32 bits, and how many bytes were taken, see
/// [`spec_prefix_len`]. A number that is cut short or goes on too long is
/// read as far as it goes.
pub fn read_varint_prefix(buf: &[u8]) -> (r: (u32, usize))
    ensures
        r.1 == spec_prefix_len(buf@),
        r.0 == groups_value(buf@, 0, spec_prefix_len(buf@)) % 0x1_0000_0000,
{
    let n = buf.len();
    let mut acc: u64 = 0;
    let mut mult: u64 = 1;
    let mut i: usize = 0;
    while i < n && i < 5
        invariant
            i <= 5,
            i <= n,
            n == buf@.len(),
            acc == groups_value(buf@, 0, i as nat),
            i < 5 ==> mult == pow128(i as nat),
            terminator_from(buf@, 0) == terminator_from(buf@, i as int),
        decreases 5 - i,
    {
        let b = buf[i];
        proof {
            lemma_groups_value_bound(buf@, 0, i as nat);
            lemma_groups_value_bound(buf@, 0, (i + 1) as nat);
            reveal_with_fuel(pow128, 6);
        }
        acc = acc + ((b % 128) as u64) * mult;
        i += 1;
        if b < 128 {
            return ((acc % 0x1_0000_0000) as u32, i);
        }
        if i < 5 {
            mult = mult * 128;
        }
    }
    proof {
        lemma_terminator_bounds(buf@, i as int);
    }
    ((acc % 0x1_0000_0000) as u32, i)
}

/// The bytes of `v` in groups of seven bits, least significant first, every
/// byte but the last with the continuation bit.
pub open spec fn spec_encode(v: nat) -> Seq<u8>
    decreases v,
{
    if v < 128 {
        seq![v as u8]
    } else {
        seq![((v % 128) + 128) as u8] + spec_encode(v / 128)
    }
}

/// Encodes the 32 bits of `value`, read as an unsigned number.
pub fn encode_varint(value: i32) -> (buf: Vec<u8>)
    ensures
        buf@ == spec_encode(unsigned_of(value)),
        1 <= buf@.len() <= 5,
{
    let mut rest: u64 = if value >= 0 {
        value as u64
    } else {
        (value as i64 + 0x1_0000_0000) as u64
    };
    let mut buf: Vec<u8> = Vec::new();
    proof {
        lemma_encode_len(rest as nat);
    }
    while rest >= 128
        invariant
            spec_encode(unsigned_of(value)) == buf@ + spec_encode(rest as nat),
            buf@.len() + spec_encode(rest as nat).len() <= 5,
        decreases rest,
    {
        let ghost before = buf@;
        buf.push((rest % 128 + 128) as u8);
        proof {
            assert(before + (seq![((rest % 128) + 128) as u8] + spec_encode((rest / 128) as nat))
                =~= before.push(((rest % 128) + 128) as u8) + spec_encode((rest / 128) as nat));
        }
        rest = rest / 128;
    }
    let ghost before = buf@;
    buf.push(rest as u8);
    assert(before + seq![rest as u8] =~= before.push(rest as u8));
    buf
}

/// A number below `2^32` needs at most five bytes.
pub proof fn lemma_encode_len(v: nat)
    ensures
        spec_encode(v).len() >= 1,
        v < 0x80 ==> spec_encode(v).len() == 1,
        v < 0x4000 ==> spec_encode(v).len() <= 2,
        v < 0x20_0000 ==> spec_encode(v).len() <= 3,
        v < 0x1000_0000 ==> spec_encode(v).len() <= 4,
        v < 0x8_0000_0000 ==> spec_encode(v).len() <= 5,
    decreases v,
{
    if v >= 128 {
        lemma_encode_len(v / 128);
    }
}

/// The value of a run of groups is its first group plus 128 times the value
/// of the groups after it.
proof fn lemma_groups_value_front(s: Seq<u8>, start: int, n: nat)
    requires
        n > 0,
    ensures
        groups_value(s, start, n) == (s[start] as nat) % 128 + 128 * groups_value(
            s,
            start + 1,
            (n - 1) as nat,
        ),
    decreases n,
{
    if n > 1 {
        lemma_groups_value_front(s, start, (n - 1) as nat);
        let g = (s[start + n - 1] as nat) % 128;
        let p = pow128((n - 2) as nat);
        assert(pow128((n - 1) as nat) == 128 * p);
        assert(g * (128 * p) == 128 * (g * p)) by (nonlinear_arith);
        assert(128 * (groups_value(s, start + 1, (n - 2) as nat) + g * p) == 128 * groups_value(
            s,
            start + 1,
            (n - 2) as nat,
        ) + 128 * (g * p)) by (nonlinear_arith);
    } else {
        assert(groups_value(s, start + 1, 0) == 0);
        assert(groups_value(s, start, 0) == 0);
        assert(pow128(0) == 1);
        let g = (s[start] as nat) % 128;
        let p = pow128(0);
        assert(g * p == g) by (nonlinear_arith)
            requires
                p == 1,
        ;
        assert(groups_value(s, start, 1) == groups_value(s, start, 0) + g * p);
    }
}

/// The end of a number does not depend on what stands before it.
proof fn lemma_terminator_shift(s: Seq<u8>, k: int, i: int)
    requires
        0 <= k <= s.len(),
        0 <= i,
    ensures
        terminator_from(s.skip(k), i) + k == terminator_from(s, i + k),
    decreases s.len() - i,
{
    if i < s.skip(k).len() && s.skip(k)[i] >= 128 {
        lemma_terminator_shift(s, k, i + 1);
    }
}

/// The value of a run of groups does not depend on what stands before it.
proof fn lemma_groups_value_shift(s: Seq<u8>, k: int, i: int, n: nat)
    requires
        0 <= k,
        0 <= i,
        i + n + k <= s.len(),
    ensures
        groups_value(s.skip(k), i, n) == groups_value(s, i + k, n),
    decreases n,
{
    if n > 0 {
        lemma_groups_value_shift(s, k, i, (n - 1) as nat);
        assert(s.skip(k)[i + n - 1] == s[i + k + n - 1]);
    }
}

/// What was encoded is read back: whatever follows the bytes of a number
/// below `2^32`, a scan from their start gives the number, cut to 32 bits and
/// read as two's complement, and the count of its bytes.
pub proof fn lemma_scan_of_encoded(v: nat, rest: Seq<u8>)
    requires
        v < 0x1_0000_0000,
    ensures
        spec_scan(spec_encode(v) + rest, 0) == (VarintScan::Complete {
            value: wrap_i32(v),
            len: spec_encode(v).len() as usize,
        }),
{
    lemma_encode_len(v);
    lemma_encoded_parts(v, rest);
}

proof fn lemma_encoded_parts(v: nat, rest: Seq<u8>)
    ensures
        terminator_from(spec_encode(v) + rest, 0) == spec_encode(v).len() - 1,
        groups_value(spec_encode(v) + rest, 0, spec_encode(v).len()) == v,
    decreases v,
{
    let s = spec_encode(v) + rest;
    if v < 128 {
        assert(spec_encode(v) =~= seq![v as u8]);
        assert(s[0] == v as u8);
        assert((s[0] as nat) % 128 == v);
        assert(pow128(0) == 1);
        assert(groups_value(s, 0, 0) == 0);
        assert(groups_value(s, 0, 1) == groups_value(s, 0, 0) + ((s[0] as nat) % 128) * pow128(0));
        let g = (s[0] as nat) % 128;
        let p = pow128(0);
        assert(g * p == g) by (nonlinear_arith)
            requires
                p == 1,
        ;
        assert(groups_value(s, 0, 1) == v);
        assert(terminator_from(s, 0) == 0);
    } else {
        let tail = spec_encode(v / 128);
        let n = spec_encode(v).len();
        let first = ((v % 128) + 128) as u8;
        assert(spec_encode(v) =~= seq![first] + tail);
        assert(n == tail.len() + 1);
        assert(s[0] == first);
        assert(s.skip(1) =~= tail + rest);
        lemma_encoded_parts(v / 128, rest);
        lemma_terminator_shift(s, 1, 0);
        lemma_groups_value_shift(s, 1, 0, tail.len());
        lemma_groups_value_front(s, 0, n);
        assert(first >= 128);
        assert((first as nat) % 128 == v % 128);
        assert(groups_value(s, 1, tail.len()) == v / 128);
        assert(terminator_from(s, 0) == terminator_from(s, 1));
        assert(terminator_from(s, 1) == terminator_from(tail + rest, 0) + 1);
        assert(terminator_from(s, 0) == n - 1);
        assert(groups_value(s, 0, n) == (first as nat) % 128 + 128 * groups_value(
            s,
            1,
            (n - 1) as nat,
        ));
        assert(v % 128 + 128 * (v / 128) == v);
        assert(groups_value(s, 0, n) == v);
    }
}

/// The bytes of the 32 bits of `value` are read back as `value`.
pub proof fn lemma_encode_round_trip(value: i32, rest: Seq<u8>)
    ensures
        spec_scan(spec_encode(unsigned_of(value)) + rest, 0) == (VarintScan::Complete {
            value,
            len: spec_encode(unsigned_of(value)).len() as usize,
        }),
{
    lemma_scan_of_encoded(unsigned_of(value), rest);
}

} // verus!
