//! The uniform call value: one tagged representation for every argument and
//! result that crosses the router, the callback and the original call.
//!
//! A raw slot is the native storage of one argument or result, read as an
//! unsigned integer of the slot's width and widened with zeros to 64 bits.
//! Floats travel as their IEEE-754 bit patterns.

use crate::signature::JTypeKind;
use vstd::prelude::*;

verus! {

/// A value of one of the kinds a descriptor can name.
#[derive(Clone, Copy, Debug, PartialEq, Eq, Structural)]
pub enum CallValue {
    Void,
    Boolean(u8),
    Byte(i8),
    Char(u16),
    Short(i16),
    Int(i32),
    Long(i64),
    /// The bits of a four-byte float.
    Float(u32),
    /// The bits of an eight-byte float.
    Double(u64),
    /// An opaque object handle.
    Object(usize),
}

impl CallValue {
    /// The kind whose representation this value is.
    pub open spec fn kind(self) -> JTypeKind {
        match self {
            CallValue::Void => JTypeKind::Void,
            CallValue::Boolean(_) => JTypeKind::Boolean,
            CallValue::Byte(_) => JTypeKind::Byte,
            CallValue::Char(_) => JTypeKind::Char,
            CallValue::Short(_) => JTypeKind::Short,
            CallValue::Int(_) => JTypeKind::Int,
            CallValue::Long(_) => JTypeKind::Long,
            CallValue::Float(_) => JTypeKind::Float,
            CallValue::Double(_) => JTypeKind::Double,
            CallValue::Object(_) => JTypeKind::Object,
        }
    }

    /// Whether this value can stand where a value of kind `k` is declared.
    pub open spec fn fits(self, k: JTypeKind) -> bool {
        self.kind() == k
    }

    /// The kind of this value.
    pub fn kind_of(&self) -> (k: JTypeKind)
        ensures
            k == self.kind(),
    {
        match self {
            CallValue::Void => JTypeKind::Void,
            CallValue::Boolean(_) => JTypeKind::Boolean,
            CallValue::Byte(_) => JTypeKind::Byte,
            CallValue::Char(_) => JTypeKind::Char,
            CallValue::Short(_) => JTypeKind::Short,
            CallValue::Int(_) => JTypeKind::Int,
            CallValue::Long(_) => JTypeKind::Long,
            CallValue::Float(_) => JTypeKind::Float,
            CallValue::Double(_) => JTypeKind::Double,
            CallValue::Object(_) => JTypeKind::Object,
        }
    }
}

/// Bytes that a slot of kind `k` occupies.
pub open spec fn spec_slot_width(k: JTypeKind) -> nat {
    match k {
        JTypeKind::Void => 0,
        JTypeKind::Boolean => 1,
        JTypeKind::Byte => 1,
        JTypeKind::Char => 2,
        JTypeKind::Short => 2,
        JTypeKind::Int => 4,
        JTypeKind::Float => 4,
        JTypeKind::Long => 8,
        JTypeKind::Double => 8,
        JTypeKind::Object => (usize::BITS / 8) as nat,
    }
}

/// Bytes that a slot of kind `k` occupies: what is read from an argument slot
/// and written to the result slot.
pub fn slot_width(k: JTypeKind) -> (w: usize)
    ensures
        w == spec_slot_width(k),
        w <= 8,
{
    match k {
        JTypeKind::Void => 0,
        JTypeKind::Boolean | JTypeKind::Byte => 1,
        JTypeKind::Char | JTypeKind::Short => 2,
        JTypeKind::Int | JTypeKind::Float => 4,
        JTypeKind::Long | JTypeKind::Double => 8,
        JTypeKind::Object => (usize::BITS / 8) as usize,
    }
}

/// The zero of kind `k`: what a call returns when its hook is gone.
pub open spec fn spec_zero(k: JTypeKind) -> CallValue {
    match k {
        JTypeKind::Void => CallValue::Void,
        JTypeKind::Boolean => CallValue::Boolean(0),
        JTypeKind::Byte => CallValue::Byte(0),
        JTypeKind::Char => CallValue::Char(0),
        JTypeKind::Short => CallValue::Short(0),
        JTypeKind::Int => CallValue::Int(0),
        JTypeKind::Long => CallValue::Long(0),
        JTypeKind::Float => CallValue::Float(0),
        JTypeKind::Double => CallValue::Double(0),
        JTypeKind::Object => CallValue::Object(0),
    }
}

/// The zero of kind `k`, see [`spec_zero`].
pub fn zero_value(k: JTypeKind) -> (v: CallValue)
    ensures
        v == spec_zero(k),
        v.fits(k),
{
    match k {
        JTypeKind::Void => CallValue::Void,
        JTypeKind::Boolean => CallValue::Boolean(0),
        JTypeKind::Byte => CallValue::Byte(0),
        JTypeKind::Char => CallValue::Char(0),
        JTypeKind::Short => CallValue::Short(0),
        JTypeKind::Int => CallValue::Int(0),
        JTypeKind::Long => CallValue::Long(0),
        JTypeKind::Float => CallValue::Float(0),
        JTypeKind::Double => CallValue::Double(0),
        JTypeKind::Object => CallValue::Object(0),
    }
}

/// The value of kind `k` that a raw slot holds: the slot's low bytes, read as
/// the kind's own integer type.
pub open spec fn spec_marshal(k: JTypeKind, raw: u64) -> CallValue {
    match k {
        JTypeKind::Void => CallValue::Void,
        JTypeKind::Boolean => CallValue::Boolean(raw as u8),
        JTypeKind::Byte => CallValue::Byte(raw as i8),
        JTypeKind::Char => CallValue::Char(raw as u16),
        JTypeKind::Short => CallValue::Short(raw as i16),
        JTypeKind::Int => CallValue::Int(raw as i32),
        JTypeKind::Long => CallValue::Long(raw as i64),
        JTypeKind::Float => CallValue::Float(raw as u32),
        JTypeKind::Double => CallValue::Double(raw),
        JTypeKind::Object => CallValue::Object(raw as usize),
    }
}

/// Reads a raw slot as a value of kind `k`, see [`spec_marshal`].
pub fn marshal(k: JTypeKind, raw: u64) -> (v: CallValue)
    ensures
        v == spec_marshal(k, raw),
        v.fits(k),
{
    match k {
        JTypeKind::Void => CallValue::Void,
        JTypeKind::Boolean => CallValue::Boolean(#[verifier::truncate] (raw as u8)),
        JTypeKind::Byte => CallValue::Byte(#[verifier::truncate] (raw as i8)),
        JTypeKind::Char => CallValue::Char(#[verifier::truncate] (raw as u16)),
        JTypeKind::Short => CallValue::Short(#[verifier::truncate] (raw as i16)),
        JTypeKind::Int => CallValue::Int(#[verifier::truncate] (raw as i32)),
        JTypeKind::Long => CallValue::Long(#[verifier::truncate] (raw as i64)),
        JTypeKind::Float => CallValue::Float(#[verifier::truncate] (raw as u32)),
        JTypeKind::Double => CallValue::Double(raw),
        JTypeKind::Object => CallValue::Object(#[verifier::truncate] (raw as usize)),
    }
}

/// The raw slot that holds `v`: its bits, widened with zeros.
pub open spec fn spec_demarshal(v: CallValue) -> u64 {
    match v {
        CallValue::Void => 0,
        CallValue::Boolean(x) => x as u64,
        CallValue::Byte(x) => (x as u8) as u64,
        CallValue::Char(x) => x as u64,
        CallValue::Short(x) => (x as u16) as u64,
        CallValue::Int(x) => (x as u32) as u64,
        CallValue::Long(x) => x as u64,
        CallValue::Float(x) => x as u64,
        CallValue::Double(x) => x,
        CallValue::Object(x) => x as u64,
    }
}

/// Writes `v` as a raw slot, see [`spec_demarshal`].
pub fn demarshal(v: CallValue) -> (raw: u64)
    ensures
        raw == spec_demarshal(v),
{
    match v {
        CallValue::Void => 0,
        CallValue::Boolean(x) => x as u64,
        CallValue::Byte(x) => (#[verifier::truncate] (x as u8)) as u64,
        CallValue::Char(x) => x as u64,
        CallValue::Short(x) => (#[verifier::truncate] (x as u16)) as u64,
        CallValue::Int(x) => (#[verifier::truncate] (x as u32)) as u64,
        CallValue::Long(x) => #[verifier::truncate] (x as u64),
        CallValue::Float(x) => x as u64,
        CallValue::Double(x) => x,
        CallValue::Object(x) => x as u64,
    }
}

/// The values that a list of raw slots holds, each read by its declared kind.
pub open spec fn spec_marshal_all(kinds: Seq<JTypeKind>, raw: Seq<u64>) -> Seq<CallValue> {
    Seq::new(kinds.len(), |i: int| spec_marshal(kinds[i], raw[i]))
}

/// Reads each raw argument slot by the kind declared for it. `None` when the
/// number of slots is not the number of declared arguments.
pub fn marshal_all(kinds: &Vec<JTypeKind>, raw: &Vec<u64>) -> (r: Option<Vec<CallValue>>)
    ensures
        kinds@.len() == raw@.len() ==> r == Some(r->0) && r->0@ == spec_marshal_all(
            kinds@,
            raw@,
        ),
        kinds@.len() != raw@.len() ==> r is None,
{
    if kinds.len() != raw.len() {
        return None;
    }
    let mut out: Vec<CallValue> = Vec::new();
    let mut i: usize = 0;
    while i < kinds.len()
        invariant
            i <= kinds@.len(),
            kinds@.len() == raw@.len(),
            out@.len() == i,
            forall|j: int| 0 <= j < i ==> out@[j] == spec_marshal(kinds@[j], raw@[j]),
        decreases kinds@.len() - i,
    {
        out.push(marshal(kinds[i], raw[i]));
        i += 1;
    }
    assert(out@ =~= spec_marshal_all(kinds@, raw@));
    Some(out)
}

proof fn lemma_slot_casts(raw: u64)
    by (bit_vector)
    ensures
        (raw as u8) as u64 == raw & 0xff,
        ((raw as i8) as u8) as u64 == raw & 0xff,
        (raw as u16) as u64 == raw & 0xffff,
        ((raw as i16) as u16) as u64 == raw & 0xffff,
        ((raw as i32) as u32) as u64 == raw & 0xffff_ffff,
        (raw as u32) as u64 == raw & 0xffff_ffff,
        (raw as i64) as u64 == raw,
{
}

proof fn lemma_value_casts(a: i8, b: i16, c: i32, d: i64)
    by (bit_vector)
    ensures
        ((a as u8) as u64) as i8 == a,
        ((b as u16) as u64) as i16 == b,
        ((c as u32) as u64) as i32 == c,
        (d as u64) as i64 == d,
{
}

proof fn lemma_handle_casts(h: usize)
    by (bit_vector)
    ensures
        (h as u64) as usize == h,
{
}

/// Writing a value and reading the slot back by the value's kind gives the
/// value again.
pub proof fn lemma_marshal_demarshal(v: CallValue)
    ensures
        spec_marshal(v.kind(), spec_demarshal(v)) == v,
{
    match v {
        CallValue::Byte(x) => lemma_value_casts(x, 0, 0, 0),
        CallValue::Short(x) => lemma_value_casts(0, x, 0, 0),
        CallValue::Int(x) => lemma_value_casts(0, 0, x, 0),
        CallValue::Long(x) => lemma_value_casts(0, 0, 0, x),
        CallValue::Object(x) => lemma_handle_casts(x),
        _ => {},
    }
}

/// The bits of a raw slot that belong to a value of kind `k`.
pub open spec fn spec_slot_mask(k: JTypeKind) -> u64 {
    match k {
        JTypeKind::Void => 0,
        JTypeKind::Boolean => 0xff,
        JTypeKind::Byte => 0xff,
        JTypeKind::Char => 0xffff,
        JTypeKind::Short => 0xffff,
        JTypeKind::Int => 0xffff_ffff,
        JTypeKind::Float => 0xffff_ffff,
        JTypeKind::Long => 0xffff_ffff_ffff_ffff,
        JTypeKind::Double => 0xffff_ffff_ffff_ffff,
        JTypeKind::Object => (0xffff_ffff_ffff_ffffu64 as usize) as u64,
    }
}

/// Reading a slot and writing the value back keeps the bytes of the slot that
/// belong to the kind: nothing of a result is lost on its way through the
/// uniform representation.
pub proof fn lemma_demarshal_marshal(k: JTypeKind, raw: u64)
    ensures
        spec_demarshal(spec_marshal(k, raw)) == raw & spec_slot_mask(k),
{
    lemma_slot_casts(raw);
    lemma_handle_casts(0);
    assert(raw & 0 == 0) by (bit_vector);
    assert(raw & 0xffff_ffff_ffff_ffff == raw) by (bit_vector);
    assert((raw as usize) as u64 == raw & ((0xffff_ffff_ffff_ffffu64 as usize) as u64)) by (bit_vector);
}

} // verus!
