//! The packet log: records of packets seen, in arrival order, kept within
//! limits by dropping the oldest records that are not pinned.

use crate::text::{
    ascii_text, decimal_u64, is_subtext, spec_decimal, str_contains, string_of_chars,
    utf8_to_string,
};
use crate::varint::{scan_varint, spec_scan, VarintScan};
use std::collections::VecDeque;
use vstd::prelude::*;
use vstd::string::StringExecFns;
use vstd::utf8::{decode_utf8, valid_utf8};

verus! {

/// Which way a packet travels.
#[derive(Clone, Copy, Debug, PartialEq, Eq, Structural)]
pub enum PacketDirection {
    /// Server to client.
    Inbound,
    /// Client to server.
    Outbound,
}

/// What is known of a packet beyond its bytes.
#[derive(Debug)]
pub enum PacketDetails {
    CustomPayload { channel: String, channel_len: usize, preview: Option<String> },
}

/// One logged packet.
#[derive(Debug)]
pub struct PacketRecord {
    pub id: u64,
    pub ts_millis: u64,
    pub dir: PacketDirection,
    pub name: String,
    pub len: usize,
    pub data: Vec<u8>,
    pub details: Option<PacketDetails>,
    pub pinned: bool,
    pub tags: Vec<String>,
    pub color: Option<[u8; 3]>,
    pub group: Option<String>,
}

/// The limits of a log. Only the bytes of the packets' data count.
#[derive(Clone, Copy, Debug, PartialEq, Eq, Structural)]
pub struct Limits {
    pub max_count: Option<usize>,
    pub max_bytes: Option<usize>,
    pub autoclear_oldest: bool,
}

/// The packet log.
pub struct PacketStore {
    buf: VecDeque<PacketRecord>,
    current_bytes: usize,
    limits: Limits,
}

/// Model of a [`PacketStore`]: the records, oldest first, the running count
/// of data bytes, and the limits.
pub struct StoreModel {
    pub records: Seq<PacketRecord>,
    pub current_bytes: usize,
    pub limits: Limits,
}

impl View for PacketStore {
    type V = StoreModel;

    closed spec fn view(&self) -> StoreModel {
        StoreModel { records: self.buf@, current_bytes: self.current_bytes, limits: self.limits }
    }
}

/// Model of a [`PacketDetails`].
pub enum DetailsModel {
    CustomPayload { channel: Seq<char>, channel_len: usize, preview: Option<Seq<char>> },
}

/// Model of a [`PacketRecord`].
pub struct RecordModel {
    pub id: u64,
    pub ts_millis: u64,
    pub dir: PacketDirection,
    pub name: Seq<char>,
    pub len: usize,
    pub data: Seq<u8>,
    pub details: Option<DetailsModel>,
    pub pinned: bool,
    pub tags: Seq<Seq<char>>,
    pub color: Option<[u8; 3]>,
    pub group: Option<Seq<char>>,
}

/// The text of an optional string.
pub open spec fn text_of(s: Option<String>) -> Option<Seq<char>> {
    match s {
        Some(t) => Some(t@),
        None => None,
    }
}

/// The texts of a list of strings.
pub open spec fn texts_of(list: Seq<String>) -> Seq<Seq<char>> {
    list.map_values(|t: String| t@)
}

impl View for PacketDetails {
    type V = DetailsModel;

    open spec fn view(&self) -> DetailsModel {
        match *self {
            PacketDetails::CustomPayload { channel, channel_len, preview } => {
                DetailsModel::CustomPayload {
                    channel: channel@,
                    channel_len,
                    preview: text_of(preview),
                }
            },
        }
    }
}

impl View for PacketRecord {
    type V = RecordModel;

    open spec fn view(&self) -> RecordModel {
        RecordModel {
            id: self.id,
            ts_millis: self.ts_millis,
            dir: self.dir,
            name: self.name@,
            len: self.len,
            data: self.data@,
            details: match self.details {
                Some(d) => Some(d@),
                None => None,
            },
            pinned: self.pinned,
            tags: texts_of(self.tags@),
            color: self.color,
            group: text_of(self.group),
        }
    }
}

/// A copy of an optional string.
pub fn clone_text(s: &Option<String>) -> (r: Option<String>)
    ensures
        text_of(r) == text_of(*s),
{
    match s {
        Some(t) => Some(t.clone()),
        None => None,
    }
}

/// A copy of a list of strings.
pub fn clone_texts(list: &Vec<String>) -> (r: Vec<String>)
    ensures
        texts_of(r@) == texts_of(list@),
{
    let mut out: Vec<String> = Vec::new();
    let mut i: usize = 0;
    while i < list.len()
        invariant
            i <= list@.len(),
            out@.len() == i,
            forall|j: int| 0 <= j < i ==> out@[j]@ == list@[j]@,
        decreases list@.len() - i,
    {
        out.push(list[i].clone());
        i += 1;
    }
    assert(texts_of(out@) =~= texts_of(list@));
    out
}

/// A copy of a run of bytes.
pub fn clone_bytes(bytes: &Vec<u8>) -> (r: Vec<u8>)
    ensures
        r@ == bytes@,
{
    vstd::slice::slice_to_vec(bytes.as_slice())
}

impl Clone for PacketDetails {
    fn clone(&self) -> (r: Self)
        ensures
            r@ == self@,
    {
        match self {
            PacketDetails::CustomPayload { channel, channel_len, preview } => {
                PacketDetails::CustomPayload {
                    channel: channel.clone(),
                    channel_len: *channel_len,
                    preview: clone_text(preview),
                }
            },
        }
    }
}

impl Clone for PacketRecord {
    fn clone(&self) -> (r: Self)
        ensures
            r@ == self@,
    {
        PacketRecord {
            id: self.id,
            ts_millis: self.ts_millis,
            dir: self.dir,
            name: self.name.clone(),
            len: self.len,
            data: clone_bytes(&self.data),
            details: match &self.details {
                Some(d) => Some(d.clone()),
                None => None,
            },
            pinned: self.pinned,
            tags: clone_texts(&self.tags),
            color: self.color,
            group: clone_text(&self.group),
        }
    }
}

/// The models of a run of records.
pub open spec fn models_of(records: Seq<PacketRecord>) -> Seq<RecordModel> {
    records.map_values(|r: PacketRecord| r@)
}

/// `a + b`, stopping at the largest number.
pub open spec fn sat_add(a: usize, b: nat) -> usize {
    if a + b > usize::MAX {
        usize::MAX
    } else {
        (a + b) as usize
    }
}

/// `a - b`, stopping at zero.
pub open spec fn sat_sub(a: usize, b: nat) -> usize {
    if a < b {
        0
    } else {
        (a - b) as usize
    }
}

/// Index of the first record from `i` on that is not pinned, or the number of
/// records when all of them are.
pub open spec fn first_unpinned(records: Seq<PacketRecord>, i: int) -> int
    decreases records.len() - i,
{
    if i < 0 || i >= records.len() {
        records.len() as int
    } else if !records[i].pinned {
        i
    } else {
        first_unpinned(records, i + 1)
    }
}

/// Index of the first record from `i` on with identifier `id`, or the number
/// of records when there is none.
pub open spec fn first_with_id(records: Seq<PacketRecord>, id: u64, i: int) -> int
    decreases records.len() - i,
{
    if i < 0 || i >= records.len() {
        records.len() as int
    } else if records[i].id == id {
        i
    } else {
        first_with_id(records, id, i + 1)
    }
}

impl StoreModel {
    /// More records than the limit allows.
    pub open spec fn over_count(self) -> bool {
        self.limits.max_count is Some && self.records.len() > self.limits.max_count->0
    }

    /// More data bytes than the limit allows.
    pub open spec fn over_bytes(self) -> bool {
        self.limits.max_bytes is Some && self.current_bytes > self.limits.max_bytes->0
    }

    /// The record that goes next when the log is over a limit: the oldest one
    /// that is not pinned, or the oldest one when all are pinned.
    pub open spec fn victim(self) -> int {
        let pos = first_unpinned(self.records, 0);
        if 0 <= pos < self.records.len() {
            pos
        } else {
            0
        }
    }

    /// The log without the record at `i`, its data bytes taken off the count.
    pub open spec fn without(self, i: int) -> StoreModel {
        StoreModel {
            records: self.records.remove(i),
            current_bytes: sat_sub(self.current_bytes, self.records[i].data@.len()),
            limits: self.limits,
        }
    }

    /// The log brought within its limits: while it is over one of them and
    /// holds a record, the next victim goes. Nothing goes when dropping is
    /// switched off.
    pub open spec fn trimmed(self) -> StoreModel
        decreases self.records.len(),
    {
        if !self.limits.autoclear_oldest || !(self.over_count() || self.over_bytes())
            || self.records.len() == 0 {
            self
        } else {
            self.without(self.victim()).trimmed()
        }
    }

    /// The log with one more record at its end.
    pub open spec fn with_record(self, rec: PacketRecord) -> StoreModel {
        StoreModel {
            records: self.records.push(rec),
            current_bytes: sat_add(self.current_bytes, rec.data@.len()),
            limits: self.limits,
        }
    }

    /// The log with the first record of identifier `id`, if there is one,
    /// replaced by `change` of it.
    pub open spec fn with_changed(
        self,
        id: u64,
        change: spec_fn(PacketRecord) -> PacketRecord,
    ) -> StoreModel {
        let pos = first_with_id(self.records, id, 0);
        if pos < self.records.len() {
            StoreModel { records: self.records.update(pos, change(self.records[pos])), ..self }
        } else {
            self
        }
    }
}

pub proof fn lemma_first_unpinned_bounds(records: Seq<PacketRecord>, i: int)
    requires
        0 <= i,
    ensures
        i <= first_unpinned(records, i) || first_unpinned(records, i) == records.len(),
        first_unpinned(records, i) <= records.len(),
        first_unpinned(records, i) < records.len() ==> !records[first_unpinned(records, i)].pinned,
        forall|j: int| i <= j < first_unpinned(records, i) ==> records[j].pinned,
    decreases records.len() - i,
{
    if i < records.len() && records[i].pinned {
        lemma_first_unpinned_bounds(records, i + 1);
    }
}

pub proof fn lemma_first_with_id_bounds(records: Seq<PacketRecord>, id: u64, i: int)
    requires
        0 <= i,
    ensures
        i <= first_with_id(records, id, i) || first_with_id(records, id, i) == records.len(),
        first_with_id(records, id, i) <= records.len(),
        first_with_id(records, id, i) < records.len() ==> records[first_with_id(
            records,
            id,
            i,
        )].id == id,
        forall|j: int| i <= j < first_with_id(records, id, i) ==> records[j].id != id,
    decreases records.len() - i,
{
    if i < records.len() && records[i].id != id {
        lemma_first_with_id_bounds(records, id, i + 1);
    }
}

impl PacketStore {
    /// A log for up to `cap` records, and at least one.
    pub fn new(cap: usize) -> (s: Self)
        ensures
            s@.records == Seq::<PacketRecord>::empty(),
            s@.current_bytes == 0,
            s@.limits == (Limits {
                max_count: Some(
                    if cap >= 1 {
                        cap
                    } else {
                        1usize
                    },
                ),
                max_bytes: None,
                autoclear_oldest: true,
            }),
    {
        let room = if cap <= 10_000_000 {
            cap
        } else {
            10_000_000
        };
        PacketStore {
            buf: VecDeque::with_capacity(room),
            current_bytes: 0,
            limits: Limits {
                max_count: Some(
                    if cap >= 1 {
                        cap
                    } else {
                        1
                    },
                ),
                max_bytes: None,
                autoclear_oldest: true,
            },
        }
    }

    /// Adds a record at the end, then brings the log within its limits.
    pub fn push(&mut self, rec: PacketRecord)
        ensures
            final(self)@ == old(self)@.with_record(rec).trimmed(),
    {
        let added = rec.data.len();
        self.buf.push_back(rec);
        self.current_bytes = self.current_bytes.saturating_add(added);
        self.trim_to_limits();
    }

    /// A copy of every record, oldest first.
    pub fn snapshot(&self) -> (r: Vec<PacketRecord>)
        ensures
            models_of(r@) == models_of(self@.records),
    {
        let mut out: Vec<PacketRecord> = Vec::new();
        let mut i: usize = 0;
        while i < self.buf.len()
            invariant
                i <= self.buf@.len(),
                out@.len() == i,
                forall|j: int| 0 <= j < i ==> out@[j]@ == self.buf@[j]@,
            decreases self.buf@.len() - i,
        {
            out.push(self.buf[i].clone());
            i += 1;
        }
        assert(models_of(out@) =~= models_of(self.buf@));
        out
    }

    /// A copy of the first record with identifier `id`.
    pub fn find_packet(&self, id: u64) -> (r: Option<PacketRecord>)
        ensures
            ({
                let pos = first_with_id(self@.records, id, 0);
                if pos < self@.records.len() {
                    r is Some && r->0@ == self@.records[pos]@
                } else {
                    r is None
                }
            }),
    {
        let pos = self.position_of(id);
        if pos < self.buf.len() {
            Some(self.buf[pos].clone())
        } else {
            None
        }
    }

    /// Forgets every record.
    pub fn clear(&mut self)
        ensures
            final(self)@ == (StoreModel {
                records: Seq::<PacketRecord>::empty(),
                current_bytes: 0,
                limits: old(self)@.limits,
            }),
    {
        self.buf.clear();
        self.current_bytes = 0;
    }

    /// Sets the limit on the number of records, then brings the log within
    /// its limits.
    pub fn set_max_count(&mut self, max: Option<usize>)
        ensures
            final(self)@ == (StoreModel {
                limits: Limits { max_count: max, ..old(self)@.limits },
                ..old(self)@
            }).trimmed(),
    {
        self.limits.max_count = max;
        self.trim_to_limits();
    }

    /// Sets the limit on the number of data bytes, then brings the log
    /// within its limits.
    pub fn set_max_bytes(&mut self, max: Option<usize>)
        ensures
            final(self)@ == (StoreModel {
                limits: Limits { max_bytes: max, ..old(self)@.limits },
                ..old(self)@
            }).trimmed(),
    {
        self.limits.max_bytes = max;
        self.trim_to_limits();
    }

    /// Switches the dropping of old records on or off. Nothing is dropped by
    /// the switch itself.
    pub fn set_autoclear_oldest(&mut self, on: bool)
        ensures
            final(self)@ == (StoreModel {
                limits: Limits { autoclear_oldest: on, ..old(self)@.limits },
                ..old(self)@
            }),
    {
        self.limits.autoclear_oldest = on;
    }

    /// The position of the first record with identifier `id`.
    fn position_of(&self, id: u64) -> (pos: usize)
        ensures
            pos == first_with_id(self@.records, id, 0),
            pos <= self@.records.len(),
    {
        let mut i: usize = 0;
        while i < self.buf.len() && self.buf[i].id != id
            invariant
                i <= self.buf@.len(),
                first_with_id(self.buf@, id, 0) == first_with_id(self.buf@, id, i as int),
            decreases self.buf@.len() - i,
        {
            i += 1;
        }
        proof {
            lemma_first_with_id_bounds(self.buf@, id, i as int);
        }
        i
    }

    /// Pins or unpins the first record with identifier `id`, then, when
    /// dropping is on, brings the log within its limits.
    pub fn pin(&mut self, id: u64, pinned: bool)
        ensures
            final(self)@ == ({
                let changed = old(self)@.with_changed(
                    id,
                    |r: PacketRecord| (PacketRecord { pinned, ..r }),
                );
                if changed.limits.autoclear_oldest {
                    changed.trimmed()
                } else {
                    changed
                }
            }),
    {
        let pos = self.position_of(id);
        if pos < self.buf.len() {
            match self.buf.remove(pos) {
                Some(mut r) => {
                    r.pinned = pinned;
                    self.buf.insert(pos, r);
                    assert(self.buf@ =~= old(self)@.records.update(
                        pos as int,
                        PacketRecord { pinned, ..old(self)@.records[pos as int] },
                    ));
                },
                None => {},
            }
        }
        if self.limits.autoclear_oldest {
            self.trim_to_limits();
        }
    }

    /// Replaces the tags of the first record with identifier `id`.
    pub fn set_tags(&mut self, id: u64, tags: Vec<String>)
        ensures
            final(self)@ == old(self)@.with_changed(id, |r: PacketRecord| (PacketRecord { tags, ..r })),
    {
        let pos = self.position_of(id);
        if pos < self.buf.len() {
            match self.buf.remove(pos) {
                Some(mut r) => {
                    r.tags = tags;
                    self.buf.insert(pos, r);
                    assert(self.buf@ =~= old(self)@.records.update(
                        pos as int,
                        PacketRecord { tags, ..old(self)@.records[pos as int] },
                    ));
                },
                None => {},
            }
        }
    }

    /// Sets or clears the colour of the first record with identifier `id`.
    pub fn set_color(&mut self, id: u64, color: Option<[u8; 3]>)
        ensures
            final(self)@ == old(self)@.with_changed(
                id,
                |r: PacketRecord| (PacketRecord { color, ..r }),
            ),
    {
        let pos = self.position_of(id);
        if pos < self.buf.len() {
            match self.buf.remove(pos) {
                Some(mut r) => {
                    r.color = color;
                    self.buf.insert(pos, r);
                    assert(self.buf@ =~= old(self)@.records.update(
                        pos as int,
                        PacketRecord { color, ..old(self)@.records[pos as int] },
                    ));
                },
                None => {},
            }
        }
    }

    /// Takes the oldest record out and takes its data bytes off the count.
    pub fn pop_front_and_account(&mut self) -> (r: Option<PacketRecord>)
        ensures
            old(self)@.records.len() == 0 ==> r is None && final(self)@ == old(self)@,
            old(self)@.records.len() > 0 ==> r == Some(old(self)@.records[0]) && final(self)@
                == old(self)@.without(0),
    {
        match self.buf.pop_front() {
            Some(r) => {
                self.current_bytes = self.current_bytes.saturating_sub(r.data.len());
                assert(self.buf@ =~= old(self)@.records.remove(0));
                Some(r)
            },
            None => None,
        }
    }

    /// Brings the log within its limits, see [`StoreModel::trimmed`].
    pub fn trim_to_limits(&mut self)
        ensures
            final(self)@ == old(self)@.trimmed(),
    {
        if !self.limits.autoclear_oldest {
            return ;
        }
        while self.is_over() && self.buf.len() > 0
            invariant
                self@.trimmed() == old(self)@.trimmed(),
                self@.limits.autoclear_oldest,
            decreases self@.records.len(),
        {
            let mut pos: usize = 0;
            while pos < self.buf.len() && self.buf[pos].pinned
                invariant
                    pos <= self.buf@.len(),
                    first_unpinned(self.buf@, 0) == first_unpinned(self.buf@, pos as int),
                decreases self.buf@.len() - pos,
            {
                pos += 1;
            }
            proof {
                lemma_first_unpinned_bounds(self.buf@, pos as int);
            }
            if pos < self.buf.len() {
                match self.buf.remove(pos) {
                    Some(removed) => {
                        self.current_bytes = self.current_bytes.saturating_sub(removed.data.len());
                    },
                    None => {},
                }
            } else {
                let _ = self.pop_front_and_account();
            }
        }
    }

    /// Whether the log is over one of its limits.
    fn is_over(&self) -> (r: bool)
        ensures
            r == (self@.over_count() || self@.over_bytes()),
    {
        let over_count = match self.limits.max_count {
            Some(m) => self.buf.len() > m,
            None => false,
        };
        let over_bytes = match self.limits.max_bytes {
            Some(m) => self.current_bytes > m,
            None => false,
        };
        over_count || over_bytes
    }

    /// The number of records and the count of their data bytes.
    pub fn stats(&self) -> (r: (usize, usize))
        ensures
            r.0 == self@.records.len(),
            r.1 == self@.current_bytes,
    {
        (self.buf.len(), self.current_bytes)
    }

    /// The limits in force.
    pub fn limits(&self) -> (r: Limits)
        ensures
            r == self@.limits,
    {
        self.limits
    }
}

/// A log that drops old records is never left over a limit while it holds a
/// record: after trimming, it is within its count and byte limits or empty.
pub proof fn lemma_trimmed_is_within_limits(m: StoreModel)
    requires
        m.limits.autoclear_oldest,
    ensures
        m.trimmed().limits == m.limits,
        m.trimmed().records.len() == 0 || !(m.trimmed().over_count() || m.trimmed().over_bytes()),
        m.trimmed().records.len() <= m.records.len(),
    decreases m.records.len(),
{
    if (m.over_count() || m.over_bytes()) && m.records.len() > 0 {
        lemma_first_unpinned_bounds(m.records, 0);
        lemma_trimmed_is_within_limits(m.without(m.victim()));
    }
}

/// With a limit on the count and none on the bytes, a log that drops old
/// records holds at most as many records as the limit says.
pub proof fn lemma_trimmed_count(m: StoreModel)
    requires
        m.limits.autoclear_oldest,
        m.limits.max_count is Some,
    ensures
        m.trimmed().records.len() <= m.limits.max_count->0,
{
    lemma_trimmed_is_within_limits(m);
}

/// Trimming twice drops nothing more than trimming once.
pub proof fn lemma_trimmed_is_idempotent(m: StoreModel)
    ensures
        m.trimmed().trimmed() == m.trimmed(),
    decreases m.records.len(),
{
    if m.limits.autoclear_oldest && (m.over_count() || m.over_bytes()) && m.records.len() > 0 {
        lemma_first_unpinned_bounds(m.records, 0);
        lemma_trimmed_is_idempotent(m.without(m.victim()));
    }
}

/// A pinned record outlives every record that is not pinned: while the log
/// holds a record that is not pinned, the victim is not a pinned one.
pub proof fn lemma_victim_spares_pinned(m: StoreModel)
    requires
        exists|i: int| 0 <= i < m.records.len() && !m.records[i].pinned,
    ensures
        0 <= m.victim() < m.records.len(),
        !m.records[m.victim()].pinned,
        forall|j: int| 0 <= j < m.victim() ==> m.records[j].pinned,
{
    lemma_first_unpinned_bounds(m.records, 0);
}

/// Reads the variable-length integer at the start of `input`: its value and
/// the number of bytes it takes. `None` when the bytes end inside the number
/// or the number goes on after its fifth byte.
pub fn read_varint(input: &[u8]) -> (r: Option<(i32, usize)>)
    ensures
        r == (match spec_scan(input@, 0) {
            VarintScan::Complete { value, len } => Some((value, len)),
            _ => None,
        }),
        r is Some ==> 1 <= r.unwrap().1 <= 5 && r.unwrap().1 <= input@.len(),
{
    match scan_varint(input, 0) {
        VarintScan::Complete { value, len } => Some((value, len)),
        _ => None,
    }
}

/// The header of a custom payload: the channel name and the number of bytes
/// that the header takes. The header is the length of the name in bytes, as a
/// variable-length integer that is not negative, then the name in UTF-8.
pub open spec fn spec_custom_payload_header(bytes: Seq<u8>) -> Option<(Seq<char>, usize)> {
    match spec_scan(bytes, 0) {
        VarintScan::Complete { value, len } => {
            if value < 0 || len + value > bytes.len() {
                None
            } else if valid_utf8(bytes.subrange(len as int, len + value)) {
                Some((decode_utf8(bytes.subrange(len as int, len + value)), (len + value) as usize))
            } else {
                None
            }
        },
        _ => None,
    }
}

/// Reads the header of a custom payload, see [`spec_custom_payload_header`].
pub fn try_decode_custom_payload(bytes: &[u8]) -> (r: Option<(String, usize)>)
    ensures
        match spec_custom_payload_header(bytes@) {
            Some((channel, used)) => r is Some && r.unwrap().0@ == channel && r.unwrap().1 == used,
            None => r is None,
        },
{
    match read_varint(bytes) {
        None => None,
        Some((strlen, used1)) => {
            if strlen < 0 {
                return None;
            }
            let u = strlen as usize;
            if u > bytes.len() - used1 {
                return None;
            }
            let sbytes = vstd::slice::slice_subrange(bytes, used1, used1 + u);
            match utf8_to_string(sbytes) {
                Some(channel) => Some((channel, used1 + u)),
                None => None,
            }
        },
    }
}

/// Whether a byte is a printable ASCII character or a space.
pub open spec fn is_printable(b: u8) -> bool {
    0x20 <= b <= 0x7E
}

/// The printable bytes among the first `upto` bytes of `bytes`, in order,
/// until there are `limit` of them.
pub open spec fn printable_prefix(bytes: Seq<u8>, upto: int, limit: nat) -> Seq<u8>
    decreases upto,
{
    if upto <= 0 {
        Seq::<u8>::empty()
    } else {
        let before = printable_prefix(bytes, upto - 1, limit);
        if before.len() < limit && is_printable(bytes[upto - 1]) {
            before.push(bytes[upto - 1])
        } else {
            before
        }
    }
}

/// The short text shown for what follows the header of a custom payload.
/// For text, its first 64 printable characters, when there are any; for
/// bytes that are no text on the channel `FML|HS`, the handshake step.
pub open spec fn spec_preview(channel: Seq<char>, rest: Seq<u8>) -> Option<Seq<char>> {
    if rest.len() == 0 {
        None
    } else if valid_utf8(rest) {
        let clean = printable_prefix(rest, rest.len() as int, 64);
        if clean.len() > 0 {
            Some(ascii_text(clean))
        } else {
            None
        }
    } else if channel == "FML|HS"@ {
        Some("FML handshake step "@ + spec_decimal(rest[0] as nat))
    } else {
        None
    }
}

/// The first printable bytes of `rest`, at most `limit` of them, as text.
fn printable_text(rest: &[u8], limit: usize) -> (r: Vec<char>)
    ensures
        r@ == ascii_text(printable_prefix(rest@, rest@.len() as int, limit as nat)),
{
    let mut out: Vec<char> = Vec::new();
    let mut i: usize = 0;
    while i < rest.len() && out.len() < limit
        invariant
            i <= rest@.len(),
            out@ == ascii_text(printable_prefix(rest@, i as int, limit as nat)),
            printable_prefix(rest@, i as int, limit as nat).len() <= limit,
        decreases rest@.len() - i,
    {
        let b = rest[i];
        let ghost before = printable_prefix(rest@, i as int, limit as nat);
        if 0x20 <= b && b <= 0x7E {
            out.push(b as char);
            assert(out@ =~= ascii_text(before.push(b)));
        }
        i += 1;
    }
    proof {
        lemma_printable_prefix_full(rest@, i as int, rest@.len() as int, limit as nat);
    }
    out
}

/// Once the limit is reached, further bytes add nothing.
proof fn lemma_printable_prefix_full(bytes: Seq<u8>, from: int, upto: int, limit: nat)
    requires
        0 <= from <= upto,
        from == upto || printable_prefix(bytes, from, limit).len() >= limit,
    ensures
        printable_prefix(bytes, upto, limit) == printable_prefix(bytes, from, limit),
    decreases upto - from,
{
    if from < upto {
        lemma_printable_prefix_full(bytes, from, upto - 1, limit);
    }
}

/// What a new record knows of its packet beyond the bytes. A packet whose
/// name holds `CustomPayload` and whose data starts with a well-formed header
/// has its channel, the length of its header and a preview.
pub open spec fn spec_details(name: Seq<char>, data: Seq<u8>) -> Option<DetailsModel> {
    if is_subtext(name, "CustomPayload"@) {
        match spec_custom_payload_header(data) {
            Some((channel, channel_len)) => Some(
                DetailsModel::CustomPayload {
                    channel,
                    channel_len,
                    preview: spec_preview(channel, data.skip(channel_len as int)),
                },
            ),
            None => None,
        }
    } else {
        None
    }
}

/// The record of a packet that was just seen.
pub open spec fn spec_make_record(
    id: u64,
    ts_millis: u64,
    dir: PacketDirection,
    name: Seq<char>,
    data: Seq<u8>,
) -> RecordModel {
    let details = spec_details(name, data);
    RecordModel {
        id,
        ts_millis,
        dir,
        name,
        len: data.len() as usize,
        data,
        details,
        pinned: false,
        tags: Seq::<Seq<char>>::empty(),
        color: None,
        group: match details {
            Some(DetailsModel::CustomPayload { channel, channel_len, preview }) => Some(channel),
            None => Some(name),
        },
    }
}

/// Makes the record of a packet that was just seen, with the identifier and
/// the time stamp the caller drew for it. The record is not pinned and has no
/// tags and no colour; it is grouped by its channel, or by its name when no
/// channel is known.
pub fn make_record(
    id: u64,
    ts_millis: u64,
    dir: PacketDirection,
    name: String,
    data: Vec<u8>,
) -> (r: PacketRecord)
    ensures
        r@ == spec_make_record(id, ts_millis, dir, name@, data@),
{
    let mut details: Option<PacketDetails> = None;
    let mut group: Option<String> = None;
    if str_contains(name.as_str(), "CustomPayload") {
        match try_decode_custom_payload(data.as_slice()) {
            Some((channel, channel_len)) => {
                let rest = vstd::slice::slice_subrange(data.as_slice(), channel_len, data.len());
                assert(rest@ =~= data@.skip(channel_len as int));
                let mut preview: Option<String> = None;
                if rest.len() > 0 {
                    match utf8_to_string(rest) {
                        Some(_) => {
                            let clean = printable_text(rest, 64);
                            if clean.len() > 0 {
                                preview = Some(string_of_chars(&clean));
                            }
                        },
                        None => {
                            let marker = String::from_str("FML|HS");
                            if channel == marker {
                                let step = decimal_u64(rest[0] as u64);
                                preview = Some(
                                    String::from_str("FML handshake step ").concat(step.as_str()),
                                );
                            }
                        },
                    }
                }
                group = Some(channel.clone());
                details = Some(PacketDetails::CustomPayload { channel, channel_len, preview });
            },
            None => {},
        }
    }
    if group.is_none() {
        group = Some(name.clone());
    }
    let len = data.len();
    let r = PacketRecord {
        id,
        ts_millis,
        dir,
        name,
        len,
        data,
        details,
        pinned: false,
        tags: Vec::new(),
        color: None,
        group,
    };
    assert(texts_of(r.tags@) =~= Seq::<Seq<char>>::empty());
    r
}

/// Logs a packet that was just seen, unless logging is paused: its record is
/// made and pushed, and the log is brought within its limits.
pub fn push_packet_log(
    store: &mut PacketStore,
    paused: bool,
    id: u64,
    ts_millis: u64,
    direction: PacketDirection,
    name: String,
    bytes: Vec<u8>,
)
    ensures
        paused ==> final(store)@ == old(store)@,
        !paused ==> exists|rec: PacketRecord|
            rec@ == spec_make_record(id, ts_millis, direction, name@, bytes@) && final(store)@
                == (#[trigger] old(store)@.with_record(rec)).trimmed(),
{
    if !paused {
        let rec = make_record(id, ts_millis, direction, name, bytes);
        store.push(rec);
        assert(store@ == old(store)@.with_record(rec).trimmed());
    }
}

} // verus!
