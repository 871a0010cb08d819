//! Looking through the packet log: searching records, and showing bytes in
//! hexadecimal.

use crate::netlog::{PacketDetails, PacketDirection, PacketRecord};
use crate::netlog::{texts_of, RecordModel};
use crate::text::{
    decimal_digits, hex_char, hex_digit, push_text, spec_decimal, spec_hex_byte, str_trim,
    string_of_chars, trimmed,
};
use vstd::prelude::*;
use vstd::string::{StringExecFns, StringSliceAdditionalSpecFns};
use vstd::utf8::encode_utf8;

verus! {

/// The lower-case form of an ASCII letter; every other byte as it is.
pub open spec fn spec_lower(b: u8) -> u8 {
    if 0x41 <= b <= 0x5A {
        (b + 32) as u8
    } else {
        b
    }
}

/// Whether `needle` stands at `i` in `hay`, letters compared without case.
pub open spec fn matches_at(hay: Seq<u8>, needle: Seq<u8>, i: int) -> bool {
    forall|j: int| 0 <= j < needle.len() ==> spec_lower(#[trigger] hay[i + j]) == spec_lower(needle[j])
}

/// Whether `needle` occurs in `hay`, ASCII letters compared without case.
/// The empty needle occurs everywhere.
pub open spec fn spec_contains_ci(hay: Seq<u8>, needle: Seq<u8>) -> bool {
    needle.len() == 0 || exists|i: int| 0 <= i <= hay.len() - needle.len() && matches_at(hay, needle, i)
}

fn lower(b: u8) -> (r: u8)
    ensures
        r == spec_lower(b),
{
    if 0x41 <= b && b <= 0x5A {
        b + 32
    } else {
        b
    }
}

/// Whether the bytes of `needle` occur in the bytes of `hay`, ASCII letters
/// compared without case.
pub fn contains_bytes_ci(hay: &[u8], needle: &[u8]) -> (r: bool)
    ensures
        r == spec_contains_ci(hay@, needle@),
{
    let n = needle.len();
    let h = hay.len();
    if n == 0 {
        return true;
    }
    if n > h {
        return false;
    }
    let mut i: usize = 0;
    while i <= h - n
        invariant
            0 < n <= h,
            n == needle@.len(),
            h == hay@.len(),
            i <= h - n + 1,
            forall|k: int| 0 <= k < i ==> !matches_at(hay@, needle@, k),
        decreases h - n + 1 - i,
    {
        let mut j: usize = 0;
        while j < n && lower(hay[i + j]) == lower(needle[j])
            invariant
                j <= n,
                n == needle@.len(),
                h == hay@.len(),
                i + n <= h,
                forall|k: int| 0 <= k < j ==> spec_lower(#[trigger] hay@[i + k]) == spec_lower(needle@[k]),
            decreases n - j,
        {
            j += 1;
        }
        if j == n {
            assert(matches_at(hay@, needle@, i as int));
            return true;
        }
        assert(!matches_at(hay@, needle@, i as int)) by {
            assert(spec_lower(hay@[i + j]) != spec_lower(needle@[j as int]));
        }
        i += 1;
    }
    false
}

/// Whether `needle_lc` occurs in `hay`, ASCII letters compared without case.
pub fn contains_ascii_ci(hay: &str, needle_lc: &str) -> (r: bool)
    ensures
        r == spec_contains_ci(hay.spec_bytes(), needle_lc.spec_bytes()),
{
    contains_bytes_ci(hay.as_bytes(), needle_lc.as_bytes())
}

/// The first `n` bytes of `data`, two upper-case hexadecimal digits each.
pub open spec fn spec_first_bytes_hex(data: Seq<u8>, n: nat) -> Seq<char>
    decreases n,
{
    if n == 0 || data.len() == 0 {
        Seq::<char>::empty()
    } else if n > data.len() {
        spec_first_bytes_hex(data, data.len())
    } else {
        spec_first_bytes_hex(data, (n - 1) as nat) + spec_hex_byte(data[n - 1])
    }
}

fn first_bytes_hex_chars(data: &[u8], n: usize) -> (out: Vec<char>)
    ensures
        out@ == spec_first_bytes_hex(data@, n as nat),
{
    let count = if n > data.len() {
        data.len()
    } else {
        n
    };
    let mut out: Vec<char> = Vec::new();
    let mut i: usize = 0;
    while i < count
        invariant
            i <= count <= data@.len(),
            out@ == spec_first_bytes_hex(data@, i as nat),
        decreases count - i,
    {
        let b = data[i];
        let ghost before = out@;
        out.push(hex_digit(b / 16));
        out.push(hex_digit(b % 16));
        assert(out@ =~= before + spec_hex_byte(b));
        i += 1;
    }
    out
}

/// The first `n` bytes of `data` in hexadecimal, without separators.
pub fn first_bytes_hex(data: &[u8], n: usize) -> (s: String)
    ensures
        s@ == spec_first_bytes_hex(data@, n as nat),
{
    let chars = first_bytes_hex_chars(data, n);
    string_of_chars(&chars)
}

/// `v` in upper-case hexadecimal, without leading zeros.
pub open spec fn spec_hex(v: nat) -> Seq<char>
    decreases v,
{
    if v < 16 {
        seq![hex_char(v)]
    } else {
        spec_hex(v / 16).push(hex_char(v % 16))
    }
}

/// `count` zeros.
pub open spec fn spec_zeros(count: nat) -> Seq<char> {
    Seq::new(count, |i: int| '0')
}

/// `v` in upper-case hexadecimal with at least four digits.
pub open spec fn spec_hex4(v: nat) -> Seq<char> {
    let digits = spec_hex(v);
    if digits.len() < 4 {
        spec_zeros((4 - digits.len()) as nat) + digits
    } else {
        digits
    }
}

/// The character shown for a byte beside its hexadecimal form: the byte
/// itself when it is printable ASCII or a space, else a dot.
pub open spec fn spec_shown(b: u8) -> char {
    if 0x20 <= b <= 0x7E {
        b as char
    } else {
        '.'
    }
}

/// The hexadecimal column of a line: each byte as two digits and a space.
pub open spec fn spec_hex_column(chunk: Seq<u8>) -> Seq<char>
    decreases chunk.len(),
{
    if chunk.len() == 0 {
        Seq::<char>::empty()
    } else {
        spec_hex_column(chunk.drop_last()) + spec_hex_byte(chunk.last()).push(' ')
    }
}

/// `count` spaces.
pub open spec fn spec_spaces(count: nat) -> Seq<char> {
    Seq::new(count, |i: int| ' ')
}

/// One line of a dump of lines of `width` bytes: the offset of the line in
/// at least four hexadecimal digits, a colon and two spaces, the bytes in
/// hexadecimal, padded to the width of a full line, a space, the bytes as
/// characters, and a line feed.
pub open spec fn spec_dump_line(offset: nat, chunk: Seq<u8>, width: nat) -> Seq<char> {
    spec_hex4(offset) + seq![':', ' ', ' '] + spec_hex_column(chunk) + spec_spaces(
        (3 * (width - chunk.len())) as nat,
    ) + seq![' '] + chunk.map_values(|b: u8| spec_shown(b)) + seq!['\n']
}

/// The dump of the bytes from `start` on, in lines of `width` bytes.
pub open spec fn spec_dump_from(data: Seq<u8>, width: nat, start: int) -> Seq<char>
    decreases data.len() - start,
{
    if start < 0 || start >= data.len() || width == 0 {
        Seq::<char>::empty()
    } else {
        let end = if start + width <= data.len() {
            start + width
        } else {
            data.len() as int
        };
        spec_dump_line(start as nat, data.subrange(start, end), width) + spec_dump_from(
            data,
            width,
            end,
        )
    }
}

/// The dump of `data` in lines of `width` bytes, see [`spec_dump_line`].
pub open spec fn spec_hex_dump(data: Seq<u8>, width: nat) -> Seq<char> {
    spec_dump_from(data, width, 0)
}

fn push_hex4(out: &mut Vec<char>, v: usize)
    ensures
        final(out)@ == old(out)@ + spec_hex4(v as nat),
{
    let mut low_first: Vec<char> = Vec::new();
    let mut rest = v;
    while rest >= 16
        invariant
            spec_hex(v as nat) == spec_hex(rest as nat) + low_first@.reverse(),
        decreases rest,
    {
        let ghost before = low_first@;
        low_first.push(hex_digit((rest % 16) as u8));
        proof {
            assert(low_first@.reverse() =~= seq![hex_char((rest % 16) as nat)] + before.reverse());
            assert(spec_hex((rest / 16) as nat).push(hex_char((rest % 16) as nat))
                + before.reverse() =~= spec_hex((rest / 16) as nat) + low_first@.reverse());
        }
        rest = rest / 16;
    }
    low_first.push(hex_digit(rest as u8));
    proof {
        let before = low_first@.drop_last();
        assert(low_first@.reverse() =~= seq![hex_char(rest as nat)] + before.reverse());
        assert(spec_hex(v as nat) =~= low_first@.reverse());
    }
    let digits = low_first.len();
    let ghost start = out@;
    let mut pad: usize = digits;
    while pad < 4
        invariant
            digits <= pad,
            pad <= 4 || pad == digits,
            digits == low_first@.len(),
            out@ == start + spec_zeros((pad - digits) as nat),
        decreases 4 - pad,
    {
        out.push('0');
        pad += 1;
        assert(out@ =~= start + spec_zeros((pad - digits) as nat));
    }
    let ghost padded = out@;
    let mut i: usize = digits;
    while i > 0
        invariant
            i <= digits,
            digits == low_first@.len(),
            out@ == padded + low_first@.reverse().take(digits - i),
        decreases i,
    {
        i -= 1;
        out.push(low_first[i]);
        proof {
            let r = low_first@.reverse();
            let k = digits - i;
            assert(r.take(k) =~= r.take(k - 1).push(low_first@[i as int]));
            assert(out@ =~= padded + r.take(k));
        }
    }
    proof {
        let r = low_first@.reverse();
        assert(r.take(digits as int) =~= r);
        assert(spec_zeros(0) =~= Seq::<char>::empty());
        assert(spec_hex(v as nat).len() == digits);
        if digits < 4 {
            assert(pad == 4);
            assert(out@ =~= start + (spec_zeros((4 - digits) as nat) + spec_hex(v as nat)));
        } else {
            assert(pad == digits);
            assert(out@ =~= start + spec_hex(v as nat));
        }
    }
}

fn push_hex_column(out: &mut Vec<char>, data: &[u8], start: usize, end: usize)
    requires
        start <= end <= data@.len(),
    ensures
        final(out)@ == old(out)@ + spec_hex_column(data@.subrange(start as int, end as int)),
{
    let mut i: usize = start;
    assert(out@ + spec_hex_column(data@.subrange(start as int, start as int)) =~= out@);
    while i < end
        invariant
            start <= i <= end <= data@.len(),
            out@ == old(out)@ + spec_hex_column(data@.subrange(start as int, i as int)),
        decreases end - i,
    {
        let b = data[i];
        let ghost before = out@;
        out.push(hex_digit(b / 16));
        out.push(hex_digit(b % 16));
        out.push(' ');
        proof {
            let done = data@.subrange(start as int, i as int);
            let next = data@.subrange(start as int, i + 1);
            assert(next.drop_last() =~= done);
            assert(next.last() == b);
            assert(out@ =~= before + spec_hex_byte(b).push(' '));
            assert(old(out)@ + (spec_hex_column(done) + spec_hex_byte(b).push(' ')) =~= (old(out)@
                + spec_hex_column(done)) + spec_hex_byte(b).push(' '));
        }
        i += 1;
    }
}

fn push_spaces(out: &mut Vec<char>, count: usize)
    ensures
        final(out)@ == old(out)@ + spec_spaces(3 * (count as nat)),
{
    let mut i: usize = 0;
    assert(out@ + spec_spaces(0) =~= out@);
    while i < count
        invariant
            i <= count,
            out@ == old(out)@ + spec_spaces(3 * (i as nat)),
        decreases count - i,
    {
        out.push(' ');
        out.push(' ');
        out.push(' ');
        assert(out@ =~= old(out)@ + spec_spaces(3 * ((i + 1) as nat)));
        i += 1;
    }
}

fn push_shown(out: &mut Vec<char>, data: &[u8], start: usize, end: usize)
    requires
        start <= end <= data@.len(),
    ensures
        final(out)@ == old(out)@ + data@.subrange(start as int, end as int).map_values(
            |b: u8| spec_shown(b),
        ),
{
    let mut k: usize = start;
    assert(out@ + data@.subrange(start as int, start as int).map_values(|b: u8| spec_shown(b))
        =~= out@);
    while k < end
        invariant
            start <= k <= end <= data@.len(),
            out@ == old(out)@ + data@.subrange(start as int, k as int).map_values(
                |b: u8| spec_shown(b),
            ),
        decreases end - k,
    {
        let b = data[k];
        let c = if 0x20 <= b && b <= 0x7E {
            b as char
        } else {
            '.'
        };
        out.push(c);
        assert(out@ =~= old(out)@ + data@.subrange(start as int, k + 1).map_values(
            |b: u8| spec_shown(b),
        ));
        k += 1;
    }
}

fn push_dump_line(out: &mut Vec<char>, data: &[u8], start: usize, end: usize, width: usize)
    requires
        start <= end <= data@.len(),
        end - start <= width,
    ensures
        final(out)@ == old(out)@ + spec_dump_line(
            start as nat,
            data@.subrange(start as int, end as int),
            width as nat,
        ),
{
    let ghost chunk = data@.subrange(start as int, end as int);
    push_hex4(out, start);
    out.push(':');
    out.push(' ');
    out.push(' ');
    let ghost a = out@;
    assert(a =~= old(out)@ + (spec_hex4(start as nat) + seq![':', ' ', ' ']));
    push_hex_column(out, data, start, end);
    let ghost b = out@;
    push_spaces(out, width - (end - start));
    let ghost c = out@;
    out.push(' ');
    let ghost d = out@;
    assert(d =~= c + seq![' ']);
    push_shown(out, data, start, end);
    let ghost e = out@;
    out.push('\n');
    proof {
        let hexed = spec_hex_column(chunk);
        let pad = spec_spaces((3 * (width - chunk.len())) as nat);
        let shown = chunk.map_values(|b: u8| spec_shown(b));
        assert(b == a + hexed);
        assert(c == b + pad);
        assert(e == d + shown);
        assert(out@ =~= e + seq!['\n']);
        assert(out@ =~= old(out)@ + (spec_hex4(start as nat) + seq![':', ' ', ' '] + hexed + pad
            + seq![' '] + shown + seq!['\n']));
    }
}

/// Shows `data` in lines of `width` bytes: the offset, the bytes in
/// hexadecimal and the bytes as characters, see [`spec_dump_line`].
pub fn hex_dump(data: &[u8], width: usize) -> (s: String)
    requires
        width > 0,
    ensures
        s@ == spec_hex_dump(data@, width as nat),
{
    let len = data.len();
    let mut out: Vec<char> = Vec::new();
    let mut start: usize = 0;
    assert(out@ + spec_dump_from(data@, width as nat, 0) =~= spec_dump_from(data@, width as nat, 0));
    while start < len
        invariant
            width > 0,
            len == data@.len(),
            start <= len,
            spec_hex_dump(data@, width as nat) == out@ + spec_dump_from(
                data@,
                width as nat,
                start as int,
            ),
        decreases len - start,
    {
        let end = if width > len - start {
            len
        } else {
            start + width
        };
        let ghost before = out@;
        push_dump_line(&mut out, data, start, end, width);
        proof {
            let line = spec_dump_line(
                start as nat,
                data@.subrange(start as int, end as int),
                width as nat,
            );
            let rest = spec_dump_from(data@, width as nat, end as int);
            assert(spec_dump_from(data@, width as nat, start as int) == line + rest);
            assert(before + (line + rest) =~= (before + line) + rest);
        }
        start = end;
    }
    assert(out@ + Seq::<char>::empty() =~= out@);
    string_of_chars(&out)
}

/// What a search or a highlight rule looks for.
#[derive(Debug)]
pub struct PacketTrigger {
    /// The text to find, in lower case.
    pub needle: String,
    /// The direction a packet must have, if any.
    pub dir: Option<PacketDirection>,
    /// The colour of a matching row.
    pub highlight: [u8; 3],
    /// Whether a matching record is pinned.
    pub pin: bool,
}

/// Whether one of the texts holds `needle`, ASCII letters compared without
/// case.
pub open spec fn spec_any_contains(texts: Seq<String>, needle: Seq<u8>) -> bool {
    exists|i: int| 0 <= i < texts.len() && spec_contains_ci(encode_utf8((#[trigger] texts[i])@), needle)
}

/// Whether a record answers a query: the query occurs, ASCII letters
/// compared without case, in the name of the packet, in its channel, in its
/// group, in the hexadecimal form of its first 64 bytes, or in one of its
/// tags.
pub open spec fn spec_record_matches(rec: PacketRecord, needle: Seq<u8>) -> bool {
    let channel = match rec.details {
        Some(PacketDetails::CustomPayload { channel, channel_len, preview }) => channel@,
        None => Seq::<char>::empty(),
    };
    let group = match rec.group {
        Some(g) => g@,
        None => Seq::<char>::empty(),
    };
    spec_contains_ci(encode_utf8(rec.name@), needle) || spec_contains_ci(
        encode_utf8(channel),
        needle,
    ) || spec_contains_ci(encode_utf8(group), needle) || spec_contains_ci(
        encode_utf8(spec_first_bytes_hex(rec.data@, 64)),
        needle,
    ) || spec_any_contains(rec.tags@, needle)
}

/// Whether a record answers a query, see [`spec_record_matches`].
pub fn record_matches_query(rec: &PacketRecord, needle_lc: &str) -> (r: bool)
    ensures
        r == spec_record_matches(*rec, needle_lc.spec_bytes()),
{
    proof {
        reveal_strlit("");
        assert(""@ =~= Seq::<char>::empty());
    }
    let needle = needle_lc.as_bytes();
    if contains_bytes_ci(rec.name.as_str().as_bytes(), needle) {
        return true;
    }
    let in_channel = match &rec.details {
        Some(PacketDetails::CustomPayload { channel, .. }) => contains_bytes_ci(
            channel.as_str().as_bytes(),
            needle,
        ),
        None => contains_bytes_ci("".as_bytes(), needle),
    };
    if in_channel {
        return true;
    }
    let in_group = match &rec.group {
        Some(g) => contains_bytes_ci(g.as_str().as_bytes(), needle),
        None => contains_bytes_ci("".as_bytes(), needle),
    };
    if in_group {
        return true;
    }
    let hex = first_bytes_hex(rec.data.as_slice(), 64);
    if contains_bytes_ci(hex.as_str().as_bytes(), needle) {
        return true;
    }
    let mut i: usize = 0;
    while i < rec.tags.len()
        invariant
            i <= rec.tags@.len(),
            needle@ == needle_lc.spec_bytes(),
            forall|k: int| 0 <= k < i ==> !spec_contains_ci(encode_utf8((#[trigger] rec.tags@[k])@), needle@),
        decreases rec.tags@.len() - i,
    {
        if contains_bytes_ci(rec.tags[i].as_str().as_bytes(), needle) {
            return true;
        }
        i += 1;
    }
    false
}

/// Whether a rule applies to a record: the record has the direction of the
/// rule, when the rule has one, and answers its query.
pub fn trigger_matches(rec: &PacketRecord, trig: &PacketTrigger) -> (r: bool)
    ensures
        r == ((trig.dir is None || trig.dir == Some(rec.dir)) && spec_record_matches(
            *rec,
            encode_utf8(trig.needle@),
        )),
{
    match trig.dir {
        Some(dir) => {
            if dir != rec.dir {
                return false;
            }
        },
        None => {},
    }
    record_matches_query(rec, trig.needle.as_str())
}

/// The value of a hexadecimal digit, `None` for every other byte.
pub open spec fn spec_hex_value(b: u8) -> Option<u8> {
    if 0x30 <= b <= 0x39 {
        Some((b - 0x30) as u8)
    } else if 0x41 <= b <= 0x46 {
        Some((b - 0x41 + 10) as u8)
    } else if 0x61 <= b <= 0x66 {
        Some((b - 0x61 + 10) as u8)
    } else {
        None
    }
}

/// The number that two characters spell in hexadecimal: two digits, or a
/// plus sign and one digit.
pub open spec fn spec_hex_pair(hi: u8, lo: u8) -> Option<u8> {
    match spec_hex_value(lo) {
        None => None,
        Some(l) => if hi == 0x2B {
            Some(l)
        } else {
            match spec_hex_value(hi) {
                Some(h) => Some((h * 16 + l) as u8),
                None => None,
            }
        },
    }
}

/// Index of the first byte from `i` on that is not `#`, or the number of
/// bytes when all of them are.
pub open spec fn hashes_end(b: Seq<u8>, i: int) -> int
    decreases b.len() - i,
{
    if i < 0 || i >= b.len() {
        b.len() as int
    } else if b[i] != 0x23 {
        i
    } else {
        hashes_end(b, i + 1)
    }
}

/// The colour that the bytes spell: after any number of `#`, exactly six
/// bytes, which are three numbers in hexadecimal.
pub open spec fn spec_hex_color(b: Seq<u8>) -> Option<[u8; 3]> {
    let at = hashes_end(b, 0);
    if b.len() - at != 6 {
        None
    } else {
        match (
            spec_hex_pair(b[at], b[at + 1]),
            spec_hex_pair(b[at + 2], b[at + 3]),
            spec_hex_pair(b[at + 4], b[at + 5]),
        ) {
            (Some(r), Some(g), Some(bl)) => Some([r, g, bl]),
            _ => None,
        }
    }
}

fn hex_value(b: u8) -> (r: Option<u8>)
    ensures
        r == spec_hex_value(b),
{
    if 0x30 <= b && b <= 0x39 {
        Some(b - 0x30)
    } else if 0x41 <= b && b <= 0x46 {
        Some(b - 0x41 + 10)
    } else if 0x61 <= b && b <= 0x66 {
        Some(b - 0x61 + 10)
    } else {
        None
    }
}

fn hex_pair(hi: u8, lo: u8) -> (r: Option<u8>)
    ensures
        r == spec_hex_pair(hi, lo),
{
    match hex_value(lo) {
        None => None,
        Some(l) => if hi == 0x2B {
            Some(l)
        } else {
            match hex_value(hi) {
                Some(h) => Some(h * 16 + l),
                None => None,
            }
        },
    }
}

/// Reads a colour such as `#1A2B3C`: white space at both ends and `#` at the
/// start are dropped; what is left must be three numbers of two hexadecimal
/// characters each.
pub fn parse_hex_color(s: &str) -> (r: Option<[u8; 3]>)
    ensures
        r == spec_hex_color(vstd::utf8::encode_utf8(trimmed(s@))),
{
    let b = str_trim(s).as_bytes();
    let n = b.len();
    let mut at: usize = 0;
    while at < n && b[at] == 0x23
        invariant
            at <= n,
            n == b@.len(),
            hashes_end(b@, 0) == hashes_end(b@, at as int),
        decreases n - at,
    {
        at += 1;
    }
    if n - at != 6 {
        return None;
    }
    let red = hex_pair(b[at], b[at + 1]);
    let green = hex_pair(b[at + 2], b[at + 3]);
    let blue = hex_pair(b[at + 4], b[at + 5]);
    match (red, green, blue) {
        (Some(r), Some(g), Some(bl)) => Some([r, g, bl]),
        _ => None,
    }
}

/// Index of the first byte in which `a` and `b` differ, looking from `i` on
/// through their common length; `None` when they agree there.
pub open spec fn spec_first_mismatch(a: Seq<u8>, b: Seq<u8>, i: int) -> Option<int>
    decreases a.len() - i,
{
    if i < 0 || i >= a.len() || i >= b.len() {
        None
    } else if a[i] != b[i] {
        Some(i)
    } else {
        spec_first_mismatch(a, b, i + 1)
    }
}

/// In how many of their first `upto` bytes `a` and `b` differ.
pub open spec fn spec_mismatches(a: Seq<u8>, b: Seq<u8>, upto: int) -> nat
    decreases upto,
{
    if upto <= 0 {
        0
    } else {
        spec_mismatches(a, b, upto - 1) + if a[upto - 1] != b[upto - 1] {
            1nat
        } else {
            0nat
        }
    }
}

/// The first byte in which two packets differ, and in how many bytes they
/// differ: the bytes that differ in their common length, and every byte by
/// which the longer one is longer.
pub fn diff_bytes(a: &[u8], b: &[u8]) -> (r: (Option<usize>, usize))
    ensures
        ({
            let common = if a@.len() <= b@.len() {
                a@.len() as int
            } else {
                b@.len() as int
            };
            &&& match spec_first_mismatch(a@, b@, 0) {
                Some(i) => r.0 == Some(i as usize),
                None => r.0 is None,
            }
            &&& r.1 == spec_mismatches(a@, b@, common) + (a@.len() - common) + (b@.len() - common)
        }),
{
    let common = if a.len() <= b.len() {
        a.len()
    } else {
        b.len()
    };
    let mut first: Option<usize> = None;
    let mut count: usize = 0;
    let mut i: usize = 0;
    while i < common
        invariant
            i <= common,
            common <= a@.len(),
            common <= b@.len(),
            count == spec_mismatches(a@, b@, i as int),
            count <= i,
            first is None ==> spec_first_mismatch(a@, b@, 0) == spec_first_mismatch(a@, b@, i as int),
            first is Some ==> spec_first_mismatch(a@, b@, 0) == Some(first->0 as int),
        decreases common - i,
    {
        if a[i] != b[i] {
            if first.is_none() {
                first = Some(i);
            }
            count += 1;
        }
        i += 1;
    }
    (first, count + (a.len() - common) + (b.len() - common))
}

/// The tags of a record in one text: a bar between two tags, and every comma
/// turned into a semicolon.
pub open spec fn spec_tags_text(tags: Seq<Seq<char>>) -> Seq<char>
    decreases tags.len(),
{
    if tags.len() == 0 {
        Seq::<char>::empty()
    } else {
        let last = tags.last().map_values(
            |c: char|
                if c == ',' {
                    ';'
                } else {
                    c
                },
        );
        if tags.len() == 1 {
            last
        } else {
            spec_tags_text(tags.drop_last()) + seq!['|'] + last
        }
    }
}

/// The line of a record in a table of comma-separated values: identifier,
/// time stamp, `in` or `out`, name, length and tags.
pub open spec fn spec_csv_row(rec: RecordModel) -> Seq<char> {
    spec_decimal(rec.id as nat) + seq![','] + spec_decimal(rec.ts_millis as nat) + seq![','] + (
    if rec.dir == PacketDirection::Inbound {
        "in"@
    } else {
        "out"@
    }) + seq![','] + rec.name + seq![','] + spec_decimal(rec.len as nat) + seq![','] + spec_tags_text(
        rec.tags,
    ) + seq!['\n']
}

/// The lines of the first `upto` records.
pub open spec fn spec_csv_rows(records: Seq<PacketRecord>, upto: int) -> Seq<char>
    decreases upto,
{
    if upto <= 0 {
        Seq::<char>::empty()
    } else {
        spec_csv_rows(records, upto - 1) + spec_csv_row(records[upto - 1]@)
    }
}

fn push_number(out: &mut Vec<char>, v: u64)
    ensures
        final(out)@ == old(out)@ + spec_decimal(v as nat),
{
    let digits = decimal_digits(v);
    let mut i: usize = 0;
    while i < digits.len()
        invariant
            i <= digits@.len(),
            out@ == old(out)@ + digits@.take(i as int),
        decreases digits@.len() - i,
    {
        out.push(digits[i]);
        assert(out@ =~= old(out)@ + digits@.take(i + 1));
        i += 1;
    }
    assert(digits@.take(digits@.len() as int) =~= digits@);
}

fn push_tags(out: &mut Vec<char>, tags: &Vec<String>)
    ensures
        final(out)@ == old(out)@ + spec_tags_text(texts_of(tags@)),
{
    let ghost all = texts_of(tags@);
    let mut t: usize = 0;
    assert(out@ + spec_tags_text(all.take(0)) =~= out@);
    while t < tags.len()
        invariant
            t <= tags@.len(),
            all == texts_of(tags@),
            out@ == old(out)@ + spec_tags_text(all.take(t as int)),
        decreases tags@.len() - t,
    {
        let ghost before = out@;
        if t > 0 {
            out.push('|');
        }
        let ghost started = out@;
        let tag = tags[t].as_str();
        let n = tag.unicode_len();
        let mut i: usize = 0;
        while i < n
            invariant
                i <= n,
                n == tag@.len(),
                out@ == started + tag@.take(i as int).map_values(
                    |c: char|
                        if c == ',' {
                            ';'
                        } else {
                            c
                        },
                ),
            decreases n - i,
        {
            let c = tag.get_char(i);
            out.push(
                if c == ',' {
                    ';'
                } else {
                    c
                },
            );
            assert(out@ =~= started + tag@.take(i + 1).map_values(
                |c: char|
                    if c == ',' {
                        ';'
                    } else {
                        c
                    },
            ));
            i += 1;
        }
        proof {
            assert(tag@.take(n as int) =~= tag@);
            let next = all.take(t + 1);
            assert(next.drop_last() =~= all.take(t as int));
            assert(next.last() == tag@);
            assert(out@ =~= old(out)@ + spec_tags_text(next));
        }
        t += 1;
    }
    assert(all.take(tags@.len() as int) =~= all);
}

/// A table of comma-separated values of the records: a heading, then one
/// line for each record, see [`spec_csv_row`].
pub fn packets_to_csv(records: &[PacketRecord]) -> (s: String)
    ensures
        s@ == "id,ts,dir,name,len,tags\n"@ + spec_csv_rows(records@, records@.len() as int),
{
    let mut out: Vec<char> = Vec::new();
    push_text(&mut out, "id,ts,dir,name,len,tags\n");
    let ghost head = out@;
    let mut i: usize = 0;
    assert(head + spec_csv_rows(records@, 0) =~= head);
    while i < records.len()
        invariant
            i <= records@.len(),
            out@ == head + spec_csv_rows(records@, i as int),
        decreases records@.len() - i,
    {
        let r = &records[i];
        let ghost before = out@;
        push_number(&mut out, r.id);
        out.push(',');
        push_number(&mut out, r.ts_millis);
        out.push(',');
        match r.dir {
            PacketDirection::Inbound => push_text(&mut out, "in"),
            PacketDirection::Outbound => push_text(&mut out, "out"),
        }
        out.push(',');
        push_text(&mut out, r.name.as_str());
        out.push(',');
        push_number(&mut out, r.len as u64);
        out.push(',');
        push_tags(&mut out, &r.tags);
        out.push('\n');
        proof {
            assert(out@ =~= before + spec_csv_row(r@));
            assert(head + (spec_csv_rows(records@, i as int) + spec_csv_row(r@)) =~= (head
                + spec_csv_rows(records@, i as int)) + spec_csv_row(r@));
        }
        i += 1;
    }
    string_of_chars(&out)
}

} // verus!
