//! Packet layouts: the fields of a packet kind as a list, and one reader
//! that shows the fields of any list.

use crate::custom_payload::{
    all_text, flat_fields, texts_in, DecodedField, DecodedStruct, DecodedValue, FlatField,
    FlatValue,
};
use crate::packets::reader::{spec_var_string, spec_var_strings, ModPacketReader};
use crate::packets::{spec_u16_be, spec_u32_be, spec_u64_be, PacketError};
use crate::text::{
    decimal_i64, decimal_u64, spec_decimal, spec_decimal_int, utf16_text, utf16_to_string,
};
use crate::varint::{spec_scan, VarintScan};
use vstd::prelude::*;
use vstd::string::StringExecFns;
use vstd::utf8::{decode_utf8, valid_utf8};

verus! {

/// How a field stands in a packet and how it is shown.
#[derive(Clone, Copy, Debug, PartialEq, Eq, Structural)]
pub enum FieldKind {
    /// Four bytes, shown as a signed decimal number.
    Int,
    /// Eight bytes, shown as a signed decimal number.
    Long,
    /// One byte, shown as `true` unless it is zero.
    Bool,
    /// Four bytes, the bits of a float.
    Float,
    /// A count of UTF-16 code units in two bytes, then the units.
    Str,
    /// Nested data to the end of the packet, shown as its size.
    Nbt,
    /// Nested data followed by a number of four bytes, shown as the size
    /// that is left for the nested data.
    NbtApprox,
    /// Bytes to the end of the packet, shown as their number.
    Raw,
    /// Nothing in the packet; a fixed text is shown.
    Const,
    /// Four bytes that are shown as a fixed text.
    IntNamed,
    /// A length in bytes as a variable-length integer, then UTF-8 text.
    VarStr,
    /// Eight bytes, the bits of a float.
    Double,
    /// A count in four bytes, then that many texts, each with its length in
    /// bytes as a variable-length integer. At least as many bytes as the
    /// count says must follow the count.
    StrList,
}

/// A field of a packet kind: its name, how it is read, and the fixed text of
/// a field that shows one.
#[derive(Clone, Copy, Debug)]
pub struct FieldSpec {
    pub name: &'static str,
    pub kind: FieldKind,
    pub text: &'static str,
}

/// Model of a [`FieldSpec`].
pub struct FieldModel {
    pub name: Seq<char>,
    pub kind: FieldKind,
    pub text: Seq<char>,
}

impl View for FieldSpec {
    type V = FieldModel;

    open spec fn view(&self) -> FieldModel {
        FieldModel { name: self.name@, kind: self.kind, text: self.text@ }
    }
}

/// The models of a layout.
pub open spec fn layout_models(layout: Seq<FieldSpec>) -> Seq<FieldModel> {
    layout.map_values(|f: FieldSpec| f@)
}

/// A field that is read from the packet.
pub open spec fn fm(name: &str, kind: FieldKind) -> FieldModel {
    FieldModel { name: name@, kind, text: ""@ }
}

/// A field that shows a fixed text.
pub open spec fn fmc(name: &str, kind: FieldKind, text: &str) -> FieldModel {
    FieldModel { name: name@, kind, text: text@ }
}

/// A field that is read from the packet.
pub fn fs(name: &'static str, kind: FieldKind) -> (f: FieldSpec)
    ensures
        f@ == fm(name, kind),
{
    FieldSpec { name, kind, text: "" }
}

/// A field that shows a fixed text.
pub fn fsc(name: &'static str, kind: FieldKind, text: &'static str) -> (f: FieldSpec)
    ensures
        f@ == fmc(name, kind, text),
{
    FieldSpec { name, kind, text }
}

/// The text that shows a size: `before`, the number, `after`.
pub open spec fn spec_size_text(before: Seq<char>, size: nat, after: Seq<char>) -> Seq<char> {
    before + spec_decimal(size) + after
}

/// The UTF-16 code units of a text of `n` units that starts at `at`.
pub open spec fn spec_units(data: Seq<u8>, at: int, n: nat) -> Seq<u16> {
    Seq::new(n, |i: int| spec_u16_be(data, at + 2 * i))
}

/// The text at `at` and the index behind it; `None` when the packet ends
/// inside the text or the units are not valid UTF-16.
pub open spec fn spec_java_string(data: Seq<u8>, at: int) -> Option<(Seq<char>, int)> {
    if at < 0 || at + 2 > data.len() {
        None
    } else {
        let n = spec_u16_be(data, at) as nat;
        if n == 0 {
            Some((Seq::<char>::empty(), at + 2))
        } else if at + 2 + 2 * n > data.len() {
            None
        } else {
            match utf16_text(spec_units(data, at + 2, n)) {
                Some(text) => Some((text, at + 2 + 2 * n)),
                None => None,
            }
        }
    }
}

/// What a field of the given kind shows for the bytes at `at`, and the index
/// behind the field; `None` when the field cannot be read.
pub open spec fn spec_read_value(kind: FieldKind, text: Seq<char>, data: Seq<u8>, at: int) -> Option<
    (FlatValue, int),
> {
    let left = data.len() - at;
    if at < 0 || left < 0 {
        None
    } else {
        match kind {
            FieldKind::Int => if left >= 4 {
                Some(
                    (
                        FlatValue::Text(spec_decimal_int((spec_u32_be(data, at) as i32) as int)),
                        at + 4,
                    ),
                )
            } else {
                None
            },
            FieldKind::Long => if left >= 8 {
                Some(
                    (
                        FlatValue::Text(spec_decimal_int((spec_u64_be(data, at) as i64) as int)),
                        at + 8,
                    ),
                )
            } else {
                None
            },
            FieldKind::Bool => if left >= 1 {
                Some(
                    (
                        FlatValue::Text(
                            if data[at] != 0 {
                                "true"@
                            } else {
                                "false"@
                            },
                        ),
                        at + 1,
                    ),
                )
            } else {
                None
            },
            FieldKind::Float => if left >= 4 {
                Some((FlatValue::Float32(spec_u32_be(data, at)), at + 4))
            } else {
                None
            },
            FieldKind::Str => match spec_java_string(data, at) {
                Some((s, next)) => Some((FlatValue::Text(s), next)),
                None => None,
            },
            FieldKind::Nbt => Some(
                (FlatValue::Text(spec_size_text("[NBT "@, left as nat, " bytes]"@)), at),
            ),
            FieldKind::NbtApprox => Some(
                (
                    FlatValue::Text(
                        spec_size_text(
                            "[NBT ~"@,
                            if left >= 4 {
                                (left - 4) as nat
                            } else {
                                0
                            },
                            " bytes]"@,
                        ),
                    ),
                    at,
                ),
            ),
            FieldKind::Raw => Some(
                (FlatValue::Text(spec_size_text("["@, left as nat, " bytes]"@)), at),
            ),
            FieldKind::Const => Some((FlatValue::Text(text), at)),
            FieldKind::IntNamed => if left >= 4 {
                Some((FlatValue::Text(text), at + 4))
            } else {
                None
            },
            FieldKind::VarStr => match spec_var_string(data, at) {
                Some((s, next)) => Some((FlatValue::Text(s), next)),
                None => None,
            },
            FieldKind::Double => if left >= 8 {
                Some((FlatValue::Float64(spec_u64_be(data, at)), at + 8))
            } else {
                None
            },
            FieldKind::StrList => if left >= 4 && left - 4 >= spec_u32_be(data, at) {
                match spec_var_strings(data, at + 4, spec_u32_be(data, at) as nat) {
                    Some((list, next)) => Some((FlatValue::Texts(list), next)),
                    None => None,
                }
            } else {
                None
            },
        }
    }
}

/// What the fields of `layout` show for the bytes from `at` on, read one
/// after the other; `None` when one of them cannot be read.
pub open spec fn spec_read_fields(layout: Seq<FieldModel>, data: Seq<u8>, at: int) -> Option<
    Seq<FlatField>,
>
    decreases layout.len(),
{
    if layout.len() == 0 {
        Some(Seq::<FlatField>::empty())
    } else {
        match spec_read_value(layout[0].kind, layout[0].text, data, at) {
            None => None,
            Some((value, next)) => match spec_read_fields(layout.drop_first(), data, next) {
                None => None,
                Some(rest) => Some(seq![FlatField { name: layout[0].name, value }] + rest),
            },
        }
    }
}

/// Whether reading a text at `at` gives `r` and leaves the cursor at `end`.
/// The text is read unit by unit: when the packet ends inside it, the units
/// that are whole are consumed and the error says that two bytes were asked
/// for; units that are not valid UTF-16 are consumed.
pub open spec fn java_string_read(
    data: Seq<u8>,
    at: int,
    r: Result<String, PacketError>,
    end: int,
) -> bool {
    let left = data.len() - at;
    if left < 2 {
        r == Err::<String, PacketError>(
            PacketError::NotEnoughData { need: 2, available: left as usize },
        ) && end == at
    } else {
        let n = spec_u16_be(data, at) as int;
        let room = (left - 2) / 2;
        if n == 0 {
            r is Ok && r->Ok_0@ == Seq::<char>::empty() && end == at + 2
        } else if room < n {
            r == Err::<String, PacketError>(
                PacketError::NotEnoughData { need: 2, available: (left - 2 - 2 * room) as usize },
            ) && end == at + 2 + 2 * room
        } else {
            match utf16_text(spec_units(data, at + 2, n as nat)) {
                Some(text) => r is Ok && r->Ok_0@ == text && end == at + 2 + 2 * n,
                None => r == Err::<String, PacketError>(PacketError::InvalidUtf16) && end == at + 2
                    + 2 * n,
            }
        }
    }
}

/// Reads a text: a count of UTF-16 code units in two bytes, then the units,
/// see [`java_string_read`]. It succeeds exactly when [`spec_java_string`]
/// gives a text.
pub fn read_java_string(reader: &mut ModPacketReader) -> (r: Result<String, PacketError>)
    ensures
        final(reader).spec_data() == old(reader).spec_data(),
        java_string_read(
            old(reader).spec_data(),
            old(reader).spec_offset() as int,
            r,
            final(reader).spec_offset() as int,
        ),
        match spec_java_string(old(reader).spec_data(), old(reader).spec_offset() as int) {
            Some((text, next)) => r is Ok && r->Ok_0@ == text && final(reader).spec_offset()
                == next,
            None => r is Err,
        },
{
    let ghost data = reader.spec_data();
    let ghost at = reader.spec_offset() as int;
    let _ = reader.available();
    let len = reader.read_u16_be()? as usize;
    if len == 0 {
        return Ok(String::new());
    }
    let mut chars: Vec<u16> = Vec::new();
    let mut i: usize = 0;
    while i < len
        invariant
            i <= len,
            0 < len == spec_u16_be(data, at),
            0 <= at,
            at + 2 <= data.len(),
            data == old(reader).spec_data(),
            at == old(reader).spec_offset(),
            reader.spec_data() == data,
            reader.spec_offset() == at + 2 + 2 * i,
            reader.spec_offset() <= data.len(),
            chars@ == spec_units(data, at + 2, i as nat),
        decreases len - i,
    {
        let left = reader.available();
        let unit = reader.read_u16_be()?;
        proof {
            assert(reader.spec_data().skip(at + 2 + 2 * i)[0] == data[at + 2 + 2 * i]);
            assert(reader.spec_data().skip(at + 2 + 2 * i)[1] == data[at + 2 + 2 * i + 1]);
        }
        chars.push(unit);
        assert(chars@ =~= spec_units(data, at + 2, (i + 1) as nat));
        i += 1;
    }
    match utf16_to_string(&chars) {
        Some(s) => Ok(s),
        None => Err(PacketError::InvalidUtf16),
    }
}

/// The text that shows a size: `before`, the number, `after`.
fn size_text(before: &str, size: usize, after: &str) -> (s: String)
    ensures
        s@ == spec_size_text(before@, size as nat, after@),
{
    let number = decimal_u64(size as u64);
    String::from_str(before).concat(number.as_str()).concat(after)
}

/// Reads a text with its length before it, see [`spec_var_string`].
fn read_var_string(reader: &mut ModPacketReader) -> (r: Option<String>)
    ensures
        final(reader).spec_data() == old(reader).spec_data(),
        final(reader).spec_offset() <= final(reader).spec_data().len(),
        match spec_var_string(old(reader).spec_data(), old(reader).spec_offset() as int) {
            Some((text, next)) => r is Some && r->0@ == text && final(reader).spec_offset() == next,
            None => r is None,
        },
{
    let _ = reader.available();
    let ghost data = reader.spec_data();
    let ghost at = reader.spec_offset() as int;
    let r = reader.read_string_varint();
    let _ = reader.available();
    proof {
        crate::varint::lemma_terminator_bounds(data, at);
    }
    match r {
        Ok(s) => Some(s),
        Err(_) => None,
    }
}

/// Reads a counted list of texts, see [`FieldKind::StrList`].
fn read_var_strings(reader: &mut ModPacketReader) -> (r: Option<DecodedValue>)
    ensures
        final(reader).spec_data() == old(reader).spec_data(),
        final(reader).spec_offset() <= final(reader).spec_data().len(),
        match spec_read_value(
            FieldKind::StrList,
            Seq::<char>::empty(),
            old(reader).spec_data(),
            old(reader).spec_offset() as int,
        ) {
            Some((value, next)) => r is Some && r->0.flat() == value && final(reader).spec_offset()
                == next,
            None => r is None,
        },
{
    let left = reader.available();
    let ghost data = reader.spec_data();
    let ghost at = reader.spec_offset() as int;
    proof {
        if left >= 4 {
            assert(reader@[0] == data[at] && reader@[1] == data[at + 1] && reader@[2] == data[at
                + 2] && reader@[3] == data[at + 3]);
        }
    }
    let count = match reader.read_u32_be() {
        Ok(c) => c as usize,
        Err(_) => {
            return None;
        },
    };
    if reader.ensure_available(count).is_err() {
        let _ = reader.available();
        return None;
    }
    let _ = reader.available();
    let mut items: Vec<DecodedValue> = Vec::new();
    let mut i: usize = 0;
    while i < count
        invariant
            i <= count,
            reader.spec_data() == data,
            data == old(reader).spec_data(),
            at == old(reader).spec_offset(),
            reader.spec_offset() <= data.len(),
            0 <= at,
            at + 4 <= data.len(),
            count == spec_u32_be(data, at),
            data.len() - at - 4 >= count,
            all_text(items@),
            spec_var_strings(data, at + 4, i as nat) == Some(
                (texts_in(items@), reader.spec_offset() as int),
            ),
        decreases count - i,
    {
        match read_var_string(reader) {
            None => {
                proof {
                    crate::packets::reader::lemma_var_strings_fail(data, at + 4, (i + 1) as nat, count as nat);
                }
                return None;
            },
            Some(s) => {
                let ghost before = items@;
                items.push(DecodedValue::Text(s));
                proof {
                    assert(texts_in(items@) =~= texts_in(before).push(s@));
                }
            },
        }
        i += 1;
    }
    Some(DecodedValue::List(items))
}

/// Reads one field, see [`spec_read_value`].
fn read_value(spec: &FieldSpec, reader: &mut ModPacketReader) -> (r: Option<DecodedValue>)
    ensures
        final(reader).spec_data() == old(reader).spec_data(),
        final(reader).spec_offset() <= final(reader).spec_data().len(),
        match spec_read_value(
            spec.kind,
            spec.text@,
            old(reader).spec_data(),
            old(reader).spec_offset() as int,
        ) {
            Some((value, next)) => r is Some && r->0.flat() == value && final(reader).spec_offset() == next,
            None => r is None,
        },
{
    let left = reader.available();
    let ghost data = reader.spec_data();
    let ghost at = reader.spec_offset() as int;
    proof {
        if left >= 1 {
            assert(reader@[0] == data[at]);
        }
        if left >= 4 {
            assert(reader@[1] == data[at + 1] && reader@[2] == data[at + 2] && reader@[3]
                == data[at + 3]);
        }
        if left >= 8 {
            assert(reader@[4] == data[at + 4] && reader@[5] == data[at + 5] && reader@[6]
                == data[at + 6] && reader@[7] == data[at + 7]);
        }
    }
    match spec.kind {
        FieldKind::Int => match reader.read_i32_be() {
            Ok(v) => Some(DecodedValue::Text(decimal_i64(v as i64))),
            Err(_) => None,
        },
        FieldKind::Long => match reader.read_i64_be() {
            Ok(v) => Some(DecodedValue::Text(decimal_i64(v))),
            Err(_) => None,
        },
        FieldKind::Bool => match reader.read_bool() {
            Ok(v) => Some(
                DecodedValue::Text(
                    if v {
                        String::from_str("true")
                    } else {
                        String::from_str("false")
                    },
                ),
            ),
            Err(_) => None,
        },
        FieldKind::Float => match reader.read_f32_bits_be() {
            Ok(bits) => Some(DecodedValue::Float32(bits)),
            Err(_) => None,
        },
        FieldKind::Str => match read_java_string(reader) {
            Ok(s) => Some(DecodedValue::Text(s)),
            Err(_) => {
                let _ = reader.available();
                None
            },
        },
        FieldKind::Nbt => Some(DecodedValue::Text(size_text("[NBT ", left, " bytes]"))),
        FieldKind::NbtApprox => Some(
            DecodedValue::Text(size_text("[NBT ~", left.saturating_sub(4), " bytes]")),
        ),
        FieldKind::Raw => Some(DecodedValue::Text(size_text("[", left, " bytes]"))),
        FieldKind::Const => Some(DecodedValue::Text(String::from_str(spec.text))),
        FieldKind::IntNamed => match reader.read_i32_be() {
            Ok(_) => Some(DecodedValue::Text(String::from_str(spec.text))),
            Err(_) => None,
        },
        FieldKind::VarStr => match read_var_string(reader) {
            Some(s) => Some(DecodedValue::Text(s)),
            None => None,
        },
        FieldKind::Double => match reader.read_u64_be() {
            Ok(bits) => Some(DecodedValue::Float64(bits)),
            Err(_) => None,
        },
        FieldKind::StrList => read_var_strings(reader),
    }
}

/// Reads the fields of `layout` one after the other, see
/// [`spec_read_fields`].
pub fn read_fields(layout: &Vec<FieldSpec>, reader: &mut ModPacketReader) -> (r: Option<
    Vec<DecodedField>,
>)
    ensures
        final(reader).spec_data() == old(reader).spec_data(),
        match spec_read_fields(
            layout_models(layout@),
            old(reader).spec_data(),
            old(reader).spec_offset() as int,
        ) {
            Some(fields) => r is Some && flat_fields(r->0@) == fields,
            None => r is None,
        },
{
    let ghost models = layout_models(layout@);
    let ghost data = reader.spec_data();
    let ghost start = reader.spec_offset() as int;
    let mut out: Vec<DecodedField> = Vec::new();
    let mut i: usize = 0;
    assert(models.skip(0) =~= models);
    assert(flat_fields(out@) =~= Seq::<FlatField>::empty());
    while i < layout.len()
        invariant
            i <= layout@.len(),
            models == layout_models(layout@),
            reader.spec_data() == data,
            data == old(reader).spec_data(),
            start == old(reader).spec_offset(),
            spec_read_fields(models, data, start) == (match spec_read_fields(
                models.skip(i as int),
                data,
                reader.spec_offset() as int,
            ) {
                Some(rest) => Some(flat_fields(out@) + rest),
                None => None,
            }),
        decreases layout@.len() - i,
    {
        let spec = layout[i];
        let ghost todo = models.skip(i as int);
        proof {
            assert(todo[0] == spec@);
            assert(todo.drop_first() =~= models.skip(i + 1));
        }
        match read_value(&spec, reader) {
            None => {
                return None;
            },
            Some(value) => {
                let ghost before = flat_fields(out@);
                let field = DecodedField { name: String::from_str(spec.name), value };
                out.push(field);
                proof {
                    assert(flat_fields(out@) =~= before.push(field.flat()));
                    match spec_read_fields(models.skip(i + 1), data, reader.spec_offset() as int) {
                        Some(rest) => {
                            assert(before + (seq![field.flat()] + rest) =~= before.push(
                                field.flat(),
                            ) + rest);
                        },
                        None => {},
                    }
                }
            },
        }
        i += 1;
    }
    proof {
        assert(models.skip(i as int) =~= Seq::<FieldModel>::empty());
        assert(flat_fields(out@) + Seq::<FlatField>::empty() =~= flat_fields(out@));
    }
    Some(out)
}

/// Whether `r` shows what `shown` says.
pub open spec fn shows(r: Option<DecodedStruct>, shown: Option<(Seq<char>, Seq<FlatField>)>) -> bool {
    match shown {
        Some((name, fields)) => r is Some && r->0.name@ == name && flat_fields(r->0.fields@)
            == fields,
        None => r is None,
    }
}

} // verus!
