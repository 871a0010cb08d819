//! Custom payloads: packets that carry a channel name and, behind a short
//! header, a payload that only a decoder for that channel can read.

use crate::packets::Bound;
use crate::text::{decimal_i64, decimal_u64, spec_decimal, spec_decimal_int};
use crate::varint::{scan_varint, spec_scan, VarintScan};
use vstd::prelude::*;
use vstd::string::StringExecFns;

verus! {

/// A decoded value. Floats are carried as their IEEE-754 bits.
#[derive(Debug, PartialEq, Eq)]
pub enum DecodedValue {
    Text(String),
    Bytes(Vec<u8>),
    List(Vec<DecodedValue>),
    Struct(DecodedStruct),
    Null,
    Float32(u32),
    Float64(u64),
}

/// A field of a decoded structure.
#[derive(Debug, PartialEq, Eq)]
pub struct DecodedField {
    pub name: String,
    pub value: DecodedValue,
}

/// A decoded packet or nested entity.
#[derive(Debug, PartialEq, Eq)]
pub struct DecodedStruct {
    pub name: String,
    pub fields: Vec<DecodedField>,
}

/// What a decoded value is, as far as it is not nested.
pub enum FlatValue {
    Text(Seq<char>),
    Bytes(Seq<u8>),
    Null,
    Float32(u32),
    Float64(u64),
    /// A list of texts.
    Texts(Seq<Seq<char>>),
    /// A structure, or a list of other things than texts.
    Nested,
}

/// Whether every value of a list is a text.
pub open spec fn all_text(items: Seq<DecodedValue>) -> bool {
    forall|i: int| 0 <= i < items.len() ==> (#[trigger] items[i]) is Text
}

/// The text in a value that is a text.
pub open spec fn text_in(v: DecodedValue) -> Seq<char> {
    match v {
        DecodedValue::Text(t) => t@,
        _ => Seq::<char>::empty(),
    }
}

/// The texts of a list of texts.
pub open spec fn texts_in(items: Seq<DecodedValue>) -> Seq<Seq<char>> {
    items.map_values(|v: DecodedValue| text_in(v))
}

/// Model of a decoded field whose value is not nested.
pub struct FlatField {
    pub name: Seq<char>,
    pub value: FlatValue,
}

impl DecodedValue {
    /// The value, as far as it is not nested.
    pub open spec fn flat(&self) -> FlatValue {
        match *self {
            DecodedValue::Text(t) => FlatValue::Text(t@),
            DecodedValue::Bytes(b) => FlatValue::Bytes(b@),
            DecodedValue::Null => FlatValue::Null,
            DecodedValue::Float32(b) => FlatValue::Float32(b),
            DecodedValue::Float64(b) => FlatValue::Float64(b),
            DecodedValue::List(items) => if all_text(items@) {
                FlatValue::Texts(texts_in(items@))
            } else {
                FlatValue::Nested
            },
            DecodedValue::Struct(_) => FlatValue::Nested,
        }
    }
}

impl DecodedField {
    /// The field, as far as its value is not nested.
    pub open spec fn flat(&self) -> FlatField {
        FlatField { name: self.name@, value: self.value.flat() }
    }
}

/// The fields of a structure, as far as their values are not nested.
pub open spec fn flat_fields(fields: Seq<DecodedField>) -> Seq<FlatField> {
    fields.map_values(|f: DecodedField| f.flat())
}

/// A value that can be shown as a decoded value.
pub trait ToDecodedValue {
    /// What the decoded value is.
    spec fn decoded(&self) -> FlatValue;

    fn to_decoded_value(&self) -> (r: DecodedValue)
        ensures
            r.flat() == self.decoded(),
    ;
}

impl ToDecodedValue for bool {
    open spec fn decoded(&self) -> FlatValue {
        FlatValue::Text(
            if *self {
                "true"@
            } else {
                "false"@
            },
        )
    }

    fn to_decoded_value(&self) -> (r: DecodedValue) {
        DecodedValue::Text(
            if *self {
                String::from_str("true")
            } else {
                String::from_str("false")
            },
        )
    }
}

impl ToDecodedValue for u8 {
    open spec fn decoded(&self) -> FlatValue {
        FlatValue::Text(spec_decimal(*self as nat))
    }

    fn to_decoded_value(&self) -> (r: DecodedValue) {
        DecodedValue::Text(decimal_u64(*self as u64))
    }
}

impl ToDecodedValue for u16 {
    open spec fn decoded(&self) -> FlatValue {
        FlatValue::Text(spec_decimal(*self as nat))
    }

    fn to_decoded_value(&self) -> (r: DecodedValue) {
        DecodedValue::Text(decimal_u64(*self as u64))
    }
}

impl ToDecodedValue for u32 {
    open spec fn decoded(&self) -> FlatValue {
        FlatValue::Text(spec_decimal(*self as nat))
    }

    fn to_decoded_value(&self) -> (r: DecodedValue) {
        DecodedValue::Text(decimal_u64(*self as u64))
    }
}

impl ToDecodedValue for u64 {
    open spec fn decoded(&self) -> FlatValue {
        FlatValue::Text(spec_decimal(*self as nat))
    }

    fn to_decoded_value(&self) -> (r: DecodedValue) {
        DecodedValue::Text(decimal_u64(*self))
    }
}

impl ToDecodedValue for usize {
    open spec fn decoded(&self) -> FlatValue {
        FlatValue::Text(spec_decimal(*self as nat))
    }

    fn to_decoded_value(&self) -> (r: DecodedValue) {
        DecodedValue::Text(decimal_u64(*self as u64))
    }
}

impl ToDecodedValue for i8 {
    open spec fn decoded(&self) -> FlatValue {
        FlatValue::Text(spec_decimal_int(*self as int))
    }

    fn to_decoded_value(&self) -> (r: DecodedValue) {
        DecodedValue::Text(decimal_i64(*self as i64))
    }
}

impl ToDecodedValue for i16 {
    open spec fn decoded(&self) -> FlatValue {
        FlatValue::Text(spec_decimal_int(*self as int))
    }

    fn to_decoded_value(&self) -> (r: DecodedValue) {
        DecodedValue::Text(decimal_i64(*self as i64))
    }
}

impl ToDecodedValue for i32 {
    open spec fn decoded(&self) -> FlatValue {
        FlatValue::Text(spec_decimal_int(*self as int))
    }

    fn to_decoded_value(&self) -> (r: DecodedValue) {
        DecodedValue::Text(decimal_i64(*self as i64))
    }
}

impl ToDecodedValue for i64 {
    open spec fn decoded(&self) -> FlatValue {
        FlatValue::Text(spec_decimal_int(*self as int))
    }

    fn to_decoded_value(&self) -> (r: DecodedValue) {
        DecodedValue::Text(decimal_i64(*self))
    }
}

impl ToDecodedValue for isize {
    open spec fn decoded(&self) -> FlatValue {
        FlatValue::Text(spec_decimal_int(*self as int))
    }

    fn to_decoded_value(&self) -> (r: DecodedValue) {
        DecodedValue::Text(decimal_i64(*self as i64))
    }
}

impl ToDecodedValue for String {
    open spec fn decoded(&self) -> FlatValue {
        FlatValue::Text(self@)
    }

    fn to_decoded_value(&self) -> (r: DecodedValue) {
        DecodedValue::Text(self.clone())
    }
}

impl ToDecodedValue for Vec<u8> {
    open spec fn decoded(&self) -> FlatValue {
        FlatValue::Bytes(self@)
    }

    fn to_decoded_value(&self) -> (r: DecodedValue) {
        DecodedValue::Bytes(vstd::slice::slice_to_vec(self.as_slice()))
    }
}

impl ToDecodedValue for Vec<String> {
    open spec fn decoded(&self) -> FlatValue {
        FlatValue::Texts(self@.map_values(|s: String| s@))
    }

    fn to_decoded_value(&self) -> (r: DecodedValue) {
        let mut items: Vec<DecodedValue> = Vec::new();
        let mut i: usize = 0;
        while i < self.len()
            invariant
                i <= self@.len(),
                items@.len() == i,
                all_text(items@),
                forall|j: int| 0 <= j < i ==> text_in(items@[j]) == self@[j]@,
            decreases self@.len() - i,
        {
            items.push(DecodedValue::Text(self[i].clone()));
            i += 1;
        }
        assert(texts_in(items@) =~= self@.map_values(|s: String| s@));
        DecodedValue::List(items)
    }
}

impl<T: ToDecodedValue> ToDecodedValue for Option<T> {
    open spec fn decoded(&self) -> FlatValue {
        match *self {
            Some(v) => v.decoded(),
            None => FlatValue::Null,
        }
    }

    fn to_decoded_value(&self) -> (r: DecodedValue) {
        match self {
            Some(v) => v.to_decoded_value(),
            None => DecodedValue::Null,
        }
    }
}

/// Reads the variable-length integer at `*off` and moves `*off` behind what
/// was read. Behind a whole number, `*off` stands after it. A number that
/// goes on after five bytes is refused after its sixth byte, when there is
/// one; when the bytes end first, `*off` stands at the end.
pub fn read_varint_at(data: &[u8], off: &mut usize) -> (r: Option<i32>)
    ensures
        match spec_scan(data@, *old(off) as int) {
            VarintScan::Complete { value, len } => r == Some(value) && *final(off) == *old(off)
                + len,
            VarintScan::Overlong => r is None && *final(off) == (if *old(off) + 6 <= data@.len() {
                (*old(off) + 6) as usize
            } else {
                data@.len() as usize
            }),
            VarintScan::Truncated => r is None && *final(off) == (if *old(off) <= data@.len() {
                data@.len() as usize
            } else {
                *old(off)
            }),
        },
        r is Some ==> *old(off) < *final(off) <= data@.len(),
{
    let n = data.len();
    match scan_varint(data, *off) {
        VarintScan::Complete { value, len } => {
            *off = *off + len;
            Some(value)
        },
        VarintScan::Overlong => {
            if n - *off >= 6 {
                *off = *off + 6;
            } else {
                *off = n;
            }
            None
        },
        VarintScan::Truncated => {
            if *off <= n {
                *off = n;
            }
            None
        },
    }
}

/// Where the payload stands in a full custom payload: the index of its first
/// byte and its length.
///
/// A full custom payload is the length of the channel name as a
/// variable-length integer, the name, the length of the payload, and the
/// payload. The length of the payload is two bytes, most significant first,
/// when the payload then ends exactly where the buffer ends; else three
/// bytes, when that makes it end there; else, for a buffer of more than 32
/// KiB, three bytes when the payload fits in the buffer.
pub open spec fn spec_payload_range(full: Seq<u8>) -> Option<(int, int)> {
    match spec_scan(full, 0) {
        VarintScan::Complete { value, len } => {
            let ch_len = value as usize;
            let off = len + ch_len;
            if off > full.len() {
                None
            } else {
                let len16 = full[off] * 0x100 + full[off + 1];
                let len24 = full[off] * 0x1_0000 + full[off + 1] * 0x100 + full[off + 2];
                if off + 2 <= full.len() && off + 2 + len16 == full.len() {
                    Some((off + 2, len16))
                } else if off + 3 <= full.len() && off + 3 + len24 == full.len() {
                    Some((off + 3, len24))
                } else if full.len() > 32 * 1024 && off + 3 <= full.len() && off + 3 + len24
                    <= full.len() {
                    Some((off + 3, len24))
                } else {
                    None
                }
            }
        },
        _ => None,
    }
}

/// Cuts the payload out of a full custom payload, see
/// [`spec_payload_range`].
pub fn slice_payload_from_full_custom_payload(full: &[u8]) -> (r: Option<&[u8]>)
    ensures
        match spec_payload_range(full@) {
            Some((start, len)) => r is Some && r->0@ == full@.subrange(start, start + len),
            None => r is None,
        },
{
    let n = full.len();
    let mut off: usize = 0;
    let ch_len = match read_varint_at(full, &mut off) {
        Some(v) => #[verifier::truncate] (v as usize),
        None => {
            return None;
        },
    };
    if ch_len > n - off {
        return None;
    }
    off = off + ch_len;
    if n - off >= 2 {
        let pay_len = (full[off] as usize) * 0x100 + (full[off + 1] as usize);
        if n - (off + 2) == pay_len {
            return Some(vstd::slice::slice_subrange(full, off + 2, off + 2 + pay_len));
        }
    }
    if n - off >= 3 {
        let pay_len = (full[off] as usize) * 0x1_0000 + (full[off + 1] as usize) * 0x100 + (
        full[off + 2] as usize);
        if n - (off + 3) == pay_len {
            return Some(vstd::slice::slice_subrange(full, off + 3, off + 3 + pay_len));
        }
        if n > 32 * 1024 && pay_len <= n - (off + 3) {
            return Some(vstd::slice::slice_subrange(full, off + 3, off + 3 + pay_len));
        }
    }
    None
}

/// A decoder for the payloads of one channel.
pub trait CustomPayloadDecoder {
    /// The channel whose payloads this decoder reads.
    spec fn spec_channel(&self) -> Seq<char>;

    /// Whether this decoder gives `r` for `payload` bound for `bound`.
    spec fn decodes(&self, payload: Seq<u8>, bound: Bound, r: Option<DecodedStruct>) -> bool;

    /// The channel whose payloads this decoder reads.
    fn channel(&self) -> (c: &'static str)
        ensures
            c@ == self.spec_channel(),
    ;

    /// Decodes a payload, without its header, bound for `bound`.
    fn try_decode(&self, payload: &[u8], bound: Bound) -> (r: Option<DecodedStruct>)
        ensures
            self.decodes(payload@, bound, r),
    ;
}

/// The decoders by channel, at most one for a channel.
pub struct DecoderRegistry<D: CustomPayloadDecoder> {
    decoders: Vec<D>,
}

/// Index of the first decoder from `i` on for the channel `channel`, or the
/// number of decoders when there is none.
pub open spec fn first_for_channel<D: CustomPayloadDecoder>(
    decoders: Seq<D>,
    channel: Seq<char>,
    i: int,
) -> int
    decreases decoders.len() - i,
{
    if i < 0 || i >= decoders.len() {
        decoders.len() as int
    } else if decoders[i].spec_channel() == channel {
        i
    } else {
        first_for_channel(decoders, channel, i + 1)
    }
}

pub proof fn lemma_first_for_channel_bounds<D: CustomPayloadDecoder>(
    decoders: Seq<D>,
    channel: Seq<char>,
    i: int,
)
    requires
        0 <= i,
    ensures
        i <= first_for_channel(decoders, channel, i) || first_for_channel(decoders, channel, i)
            == decoders.len(),
        first_for_channel(decoders, channel, i) <= decoders.len(),
        first_for_channel(decoders, channel, i) < decoders.len() ==> decoders[first_for_channel(
            decoders,
            channel,
            i,
        )].spec_channel() == channel,
        forall|j: int|
            i <= j < first_for_channel(decoders, channel, i) ==> decoders[j].spec_channel()
                != channel,
    decreases decoders.len() - i,
{
    if i < decoders.len() && decoders[i].spec_channel() != channel {
        lemma_first_for_channel_bounds(decoders, channel, i + 1);
    }
}

/// The decoders after `decoder` was registered: it takes the place of the
/// decoder for the same channel, or comes last.
pub open spec fn spec_registered<D: CustomPayloadDecoder>(decoders: Seq<D>, decoder: D) -> Seq<D> {
    let pos = first_for_channel(decoders, decoder.spec_channel(), 0);
    if 0 <= pos < decoders.len() {
        decoders.update(pos, decoder)
    } else {
        decoders.push(decoder)
    }
}

impl<D: CustomPayloadDecoder> View for DecoderRegistry<D> {
    type V = Seq<D>;

    closed spec fn view(&self) -> Seq<D> {
        self.decoders@
    }
}

impl<D: CustomPayloadDecoder> DecoderRegistry<D> {
    /// A registry without decoders.
    pub fn new() -> (r: Self)
        ensures
            r@ == Seq::<D>::empty(),
    {
        DecoderRegistry { decoders: Vec::new() }
    }

    fn position_of(&self, channel: &str) -> (pos: usize)
        ensures
            pos == first_for_channel(self@, channel@, 0),
            pos <= self@.len(),
    {
        let key = String::from_str(channel);
        let mut i: usize = 0;
        while i < self.decoders.len() && !(String::from_str(self.decoders[i].channel()) == key)
            invariant
                i <= self.decoders@.len(),
                key@ == channel@,
                first_for_channel(self@, channel@, 0) == first_for_channel(
                    self@,
                    channel@,
                    i as int,
                ),
            decreases self.decoders@.len() - i,
        {
            i += 1;
        }
        proof {
            lemma_first_for_channel_bounds(self@, channel@, i as int);
        }
        i
    }

    /// The number of decoders.
    pub fn len(&self) -> (n: usize)
        ensures
            n == self@.len(),
    {
        self.decoders.len()
    }
}

/// Registers a decoder for its channel. A decoder already registered for the
/// channel is replaced; else the decoder comes last.
pub fn register_decoder_boxed<D: CustomPayloadDecoder>(registry: &mut DecoderRegistry<D>, decoder: D)
    ensures
        final(registry)@ == spec_registered(old(registry)@, decoder),
{
    let pos = registry.position_of(decoder.channel());
    if pos < registry.decoders.len() {
        registry.decoders.set(pos, decoder);
    } else {
        registry.decoders.push(decoder);
    }
}

/// Whether `after` is `before` with one decoder registered.
pub open spec fn one_registered<D: CustomPayloadDecoder>(before: Seq<D>, after: Seq<D>) -> bool {
    exists|i: int| 0 <= i < after.len() && after == spec_registered(before, #[trigger] after[i])
}

/// Registers a decoder of the type `D` in its default state.
pub fn register_decoder<D: CustomPayloadDecoder + Default>(registry: &mut DecoderRegistry<D>)
    ensures
        one_registered(old(registry)@, final(registry)@),
{
    let d = D::default();
    let ghost pos = first_for_channel(registry@, d.spec_channel(), 0);
    register_decoder_boxed(registry, d);
    proof {
        lemma_first_for_channel_bounds(old(registry)@, d.spec_channel(), 0);
        if 0 <= pos < old(registry)@.len() {
            assert(registry@[pos] == d);
        } else {
            assert(registry@[old(registry)@.len() as int] == d);
        }
    }
}

/// Decodes a full custom payload of `channel`: cuts the payload out of the
/// buffer and hands it to the decoder of the channel. `None` when the header
/// is malformed or no decoder is registered for the channel; else what the
/// decoder gives.
pub fn decode_custom_payload<D: CustomPayloadDecoder>(
    registry: &DecoderRegistry<D>,
    channel: &str,
    full_buf: &[u8],
    bound: Bound,
) -> (r: Option<DecodedStruct>)
    ensures
        match spec_payload_range(full_buf@) {
            None => r is None,
            Some((start, len)) => {
                let pos = first_for_channel(registry@, channel@, 0);
                if pos < registry@.len() {
                    registry@[pos].decodes(full_buf@.subrange(start, start + len), bound, r)
                } else {
                    r is None
                }
            },
        },
{
    match slice_payload_from_full_custom_payload(full_buf) {
        None => None,
        Some(payload) => {
            let pos = registry.position_of(channel);
            if pos < registry.decoders.len() {
                registry.decoders[pos].try_decode(payload, bound)
            } else {
                None
            }
        },
    }
}

/// Registering for a channel that has a decoder replaces that decoder and
/// adds none; registering twice for one channel leaves the second decoder.
pub proof fn lemma_register_replaces<D: CustomPayloadDecoder>(decoders: Seq<D>, first: D, second: D)
    requires
        first.spec_channel() == second.spec_channel(),
    ensures
        spec_registered(spec_registered(decoders, first), second).len() == spec_registered(
            decoders,
            first,
        ).len(),
        spec_registered(spec_registered(decoders, first), second) == spec_registered(
            decoders,
            second,
        ),
{
    let channel = first.spec_channel();
    let once = spec_registered(decoders, first);
    lemma_first_for_channel_bounds(decoders, channel, 0);
    lemma_first_for_channel_bounds(once, channel, 0);
    let pos = first_for_channel(decoders, channel, 0);
    let pos2 = first_for_channel(once, channel, 0);
    if 0 <= pos < decoders.len() {
        assert(once[pos].spec_channel() == channel);
        assert forall|j: int| 0 <= j < pos implies once[j].spec_channel() != channel by {
            assert(once[j] == decoders[j]);
        }
        assert(pos2 == pos);
        assert(once.update(pos, second) =~= decoders.update(pos, second));
    } else {
        assert(once[decoders.len() as int].spec_channel() == channel);
        assert forall|j: int| 0 <= j < decoders.len() implies once[j].spec_channel()
            != channel by {
            assert(once[j] == decoders[j]);
        }
        assert(pos2 == decoders.len());
        assert(once.update(pos2, second) =~= decoders.push(second));
    }
}

/// The decoders that come with the library.
#[derive(Clone, Copy, Debug)]
pub enum ModDecoder {
    Dwcity(crate::packets::dwcity::DwcityPayloadDecoder),
    CustomNpcs(crate::packets::customnpcs::CustomNpcsPayloadDecoder),
}

impl CustomPayloadDecoder for ModDecoder {
    open spec fn spec_channel(&self) -> Seq<char> {
        match *self {
            ModDecoder::Dwcity(d) => d.spec_channel(),
            ModDecoder::CustomNpcs(d) => d.spec_channel(),
        }
    }

    open spec fn decodes(&self, payload: Seq<u8>, bound: Bound, r: Option<DecodedStruct>) -> bool {
        match *self {
            ModDecoder::Dwcity(d) => d.decodes(payload, bound, r),
            ModDecoder::CustomNpcs(d) => d.decodes(payload, bound, r),
        }
    }

    fn channel(&self) -> (c: &'static str) {
        match self {
            ModDecoder::Dwcity(d) => d.channel(),
            ModDecoder::CustomNpcs(d) => d.channel(),
        }
    }

    fn try_decode(&self, payload: &[u8], bound: Bound) -> (r: Option<DecodedStruct>) {
        match self {
            ModDecoder::Dwcity(d) => d.try_decode(payload, bound),
            ModDecoder::CustomNpcs(d) => d.try_decode(payload, bound),
        }
    }
}

/// Registers the decoders that come with the library: first the one of
/// `dwcity`, then the one of `CustomNPCs`.
pub fn init_default_decoders(registry: &mut DecoderRegistry<ModDecoder>)
    ensures
        final(registry)@ == spec_registered(
            spec_registered(
                old(registry)@,
                ModDecoder::Dwcity(crate::packets::dwcity::DwcityPayloadDecoder),
            ),
            ModDecoder::CustomNpcs(crate::packets::customnpcs::CustomNpcsPayloadDecoder),
        ),
{
    crate::packets::dwcity::register_mod_payload_decoders(registry);
    crate::packets::customnpcs::register_customnpcs_decoder(registry);
}

} // verus!
