//! The `dwcity` channel: balances, player statistics and tile limits.
//!
//! A packet is its kind as a variable-length integer, then the fields of
//! that kind. A number names two kinds, one for each side.

use crate::custom_payload::{
    flat_fields, CustomPayloadDecoder, DecodedStruct, DecoderRegistry, FlatField, ModDecoder,
};
use crate::packets::layout::{
    fm, fs, layout_models, read_fields, shows, spec_read_fields, FieldKind, FieldModel, FieldSpec,
};
use crate::packets::reader::ModPacketReader;
use crate::packets::Bound;
use crate::varint::{spec_scan, VarintScan};
use vstd::prelude::*;
use vstd::string::StringExecFns;

verus! {

/// The name of the channel.
pub const CHANNEL: &'static str = "dwcity";

/// The kinds of packets of the channel.
#[derive(Clone, Copy, Debug, PartialEq, Eq, Structural)]
pub enum PacketKind {
    EmeraldBalanceRequest,
    EmeraldBalanceResponse,
    CoinBalanceRequest,
    CoinBalanceResponse,
    PlayerStatsResponse,
    PlayerStatsRequest,
    SendClientName,
    UpdateTileLimits,
}

impl PacketKind {
    /// The number that stands for this kind on the wire.
    pub open spec fn spec_packet_id(self) -> i32 {
        match self {
            PacketKind::EmeraldBalanceRequest => 1,
            PacketKind::EmeraldBalanceResponse => 1,
            PacketKind::CoinBalanceRequest => 3,
            PacketKind::CoinBalanceResponse => 3,
            PacketKind::PlayerStatsResponse => 9,
            PacketKind::PlayerStatsRequest => 9,
            PacketKind::SendClientName => 18,
            PacketKind::UpdateTileLimits => 27,
        }
    }

    /// The side this kind is bound for.
    pub open spec fn spec_packet_bound(self) -> Bound {
        match self {
            PacketKind::EmeraldBalanceRequest => Bound::Client,
            PacketKind::EmeraldBalanceResponse => Bound::Server,
            PacketKind::CoinBalanceRequest => Bound::Client,
            PacketKind::CoinBalanceResponse => Bound::Server,
            PacketKind::PlayerStatsResponse => Bound::Server,
            PacketKind::PlayerStatsRequest => Bound::Client,
            PacketKind::SendClientName => Bound::Client,
            PacketKind::UpdateTileLimits => Bound::Server,
        }
    }

    /// The name of this kind.
    pub open spec fn spec_name(self) -> Seq<char> {
        match self {
            PacketKind::EmeraldBalanceRequest => "EmeraldBalanceRequest"@,
            PacketKind::EmeraldBalanceResponse => "EmeraldBalanceResponse"@,
            PacketKind::CoinBalanceRequest => "CoinBalanceRequest"@,
            PacketKind::CoinBalanceResponse => "CoinBalanceResponse"@,
            PacketKind::PlayerStatsResponse => "PlayerStatsResponse"@,
            PacketKind::PlayerStatsRequest => "PlayerStatsRequest"@,
            PacketKind::SendClientName => "SendClientName"@,
            PacketKind::UpdateTileLimits => "UpdateTileLimits"@,
        }
    }

    /// The kind with the number `id` that is bound for `bound`.
    pub open spec fn spec_find(id: i32, bound: Bound) -> Option<PacketKind> {
        if id == 1 {
            Some(
                if bound == Bound::Client {
                    PacketKind::EmeraldBalanceRequest
                } else {
                    PacketKind::EmeraldBalanceResponse
                },
            )
        } else if id == 3 {
            Some(
                if bound == Bound::Client {
                    PacketKind::CoinBalanceRequest
                } else {
                    PacketKind::CoinBalanceResponse
                },
            )
        } else if id == 9 {
            Some(
                if bound == Bound::Client {
                    PacketKind::PlayerStatsRequest
                } else {
                    PacketKind::PlayerStatsResponse
                },
            )
        } else if id == 18 && bound == Bound::Client {
            Some(PacketKind::SendClientName)
        } else if id == 27 && bound == Bound::Server {
            Some(PacketKind::UpdateTileLimits)
        } else {
            None
        }
    }

    /// The fields of this kind.
    pub open spec fn spec_layout(self) -> Seq<FieldModel> {
        match self {
            PacketKind::EmeraldBalanceRequest
            | PacketKind::PlayerStatsRequest
            | PacketKind::SendClientName => seq![fm("username", FieldKind::VarStr)],
            PacketKind::EmeraldBalanceResponse => seq![
                fm("username", FieldKind::VarStr),
                fm("emeralds", FieldKind::Float),
            ],
            PacketKind::CoinBalanceRequest => Seq::<FieldModel>::empty(),
            PacketKind::CoinBalanceResponse => seq![fm("coins", FieldKind::Float)],
            PacketKind::PlayerStatsResponse => seq![
                fm("username", FieldKind::VarStr),
                fm("first_int", FieldKind::Int),
                fm("second_int", FieldKind::Int),
                fm("last_updated_at", FieldKind::Long),
                fm("total_playtime", FieldKind::Long),
                fm("playtime", FieldKind::Long),
                fm("blocks_mined", FieldKind::Long),
                fm("blocks_placed", FieldKind::Long),
                fm("player_kills", FieldKind::Long),
                fm("counter_h", FieldKind::Long),
                fm("mob_kills", FieldKind::Long),
                fm("dragon_kills", FieldKind::Long),
                fm("counter_i", FieldKind::Long),
                fm("crafted_items", FieldKind::Long),
                fm("walked_distance", FieldKind::Double),
                fm("total_distance", FieldKind::Double),
                fm("jumps", FieldKind::Long),
                fm("consumed", FieldKind::Long),
                fm("enchanted", FieldKind::Long),
                fm("global_messages", FieldKind::Long),
                fm("casino", FieldKind::Long),
                fm("grades", FieldKind::Long),
                fm("timer_b", FieldKind::Long),
                fm("timer_c", FieldKind::Long),
                fm("timer_d", FieldKind::Long),
            ],
            PacketKind::UpdateTileLimits => seq![fm("limits", FieldKind::StrList)],
        }
    }

    /// The kind with the number `id` that is bound for `bound`, if there is
    /// one.
    pub fn find(id: i32, bound: Bound) -> (r: Option<PacketKind>)
        ensures
            r == Self::spec_find(id, bound),
            r is Some ==> r->0.spec_packet_id() == id && r->0.spec_packet_bound() == bound,
    {
        let to_client = match bound {
            Bound::Client => true,
            Bound::Server => false,
        };
        if id == 1 {
            Some(
                if to_client {
                    PacketKind::EmeraldBalanceRequest
                } else {
                    PacketKind::EmeraldBalanceResponse
                },
            )
        } else if id == 3 {
            Some(
                if to_client {
                    PacketKind::CoinBalanceRequest
                } else {
                    PacketKind::CoinBalanceResponse
                },
            )
        } else if id == 9 {
            Some(
                if to_client {
                    PacketKind::PlayerStatsRequest
                } else {
                    PacketKind::PlayerStatsResponse
                },
            )
        } else if id == 18 && to_client {
            Some(PacketKind::SendClientName)
        } else if id == 27 && !to_client {
            Some(PacketKind::UpdateTileLimits)
        } else {
            None
        }
    }

    /// The name of this kind.
    pub fn name(&self) -> (r: &'static str)
        ensures
            r@ == self.spec_name(),
    {
        match self {
            PacketKind::EmeraldBalanceRequest => "EmeraldBalanceRequest",
            PacketKind::EmeraldBalanceResponse => "EmeraldBalanceResponse",
            PacketKind::CoinBalanceRequest => "CoinBalanceRequest",
            PacketKind::CoinBalanceResponse => "CoinBalanceResponse",
            PacketKind::PlayerStatsResponse => "PlayerStatsResponse",
            PacketKind::PlayerStatsRequest => "PlayerStatsRequest",
            PacketKind::SendClientName => "SendClientName",
            PacketKind::UpdateTileLimits => "UpdateTileLimits",
        }
    }

    /// The fields of this kind.
    pub fn layout(&self) -> (layout: Vec<FieldSpec>)
        ensures
            layout_models(layout@) == self.spec_layout(),
    {
        let layout: Vec<FieldSpec> = match self {
            PacketKind::EmeraldBalanceRequest
            | PacketKind::PlayerStatsRequest
            | PacketKind::SendClientName => vec![fs("username", FieldKind::VarStr)],
            PacketKind::EmeraldBalanceResponse => vec![
                fs("username", FieldKind::VarStr),
                fs("emeralds", FieldKind::Float),
            ],
            PacketKind::CoinBalanceRequest => Vec::new(),
            PacketKind::CoinBalanceResponse => vec![fs("coins", FieldKind::Float)],
            PacketKind::PlayerStatsResponse => vec![
                fs("username", FieldKind::VarStr),
                fs("first_int", FieldKind::Int),
                fs("second_int", FieldKind::Int),
                fs("last_updated_at", FieldKind::Long),
                fs("total_playtime", FieldKind::Long),
                fs("playtime", FieldKind::Long),
                fs("blocks_mined", FieldKind::Long),
                fs("blocks_placed", FieldKind::Long),
                fs("player_kills", FieldKind::Long),
                fs("counter_h", FieldKind::Long),
                fs("mob_kills", FieldKind::Long),
                fs("dragon_kills", FieldKind::Long),
                fs("counter_i", FieldKind::Long),
                fs("crafted_items", FieldKind::Long),
                fs("walked_distance", FieldKind::Double),
                fs("total_distance", FieldKind::Double),
                fs("jumps", FieldKind::Long),
                fs("consumed", FieldKind::Long),
                fs("enchanted", FieldKind::Long),
                fs("global_messages", FieldKind::Long),
                fs("casino", FieldKind::Long),
                fs("grades", FieldKind::Long),
                fs("timer_b", FieldKind::Long),
                fs("timer_c", FieldKind::Long),
                fs("timer_d", FieldKind::Long),
            ],
            PacketKind::UpdateTileLimits => vec![fs("limits", FieldKind::StrList)],
        };
        assert(layout_models(layout@) =~= self.spec_layout());
        layout
    }
}

/// What is shown of a payload of the channel bound for `bound`: the name of
/// its kind and its fields. `None` when the kind cannot be read or is none
/// of that side, and when a field cannot be read.
pub open spec fn spec_try_decode(payload: Seq<u8>, bound: Bound) -> Option<
    (Seq<char>, Seq<FlatField>),
> {
    match spec_scan(payload, 0) {
        VarintScan::Complete { value, len } => match PacketKind::spec_find(value, bound) {
            None => None,
            Some(kind) => match spec_read_fields(kind.spec_layout(), payload, len as int) {
                None => None,
                Some(fields) => Some((kind.spec_name(), fields)),
            },
        },
        _ => None,
    }
}

/// Decodes a payload of the channel, see [`spec_try_decode`].
pub fn try_decode(payload: &[u8], bound: Bound) -> (r: Option<DecodedStruct>)
    ensures
        shows(r, spec_try_decode(payload@, bound)),
{
    let mut reader = ModPacketReader::new(payload);
    let packet_id = match reader.read_varint() {
        Ok(id) => id,
        Err(_) => {
            return None;
        },
    };
    let kind = match PacketKind::find(packet_id, bound) {
        Some(kind) => kind,
        None => {
            return None;
        },
    };
    let layout = kind.layout();
    match read_fields(&layout, &mut reader) {
        Some(fields) => Some(DecodedStruct { name: String::from_str(kind.name()), fields }),
        None => None,
    }
}

/// The decoder of the channel.
#[derive(Clone, Copy, Debug)]
pub struct DwcityPayloadDecoder;

impl Default for DwcityPayloadDecoder {
    fn default() -> Self {
        DwcityPayloadDecoder
    }
}

impl CustomPayloadDecoder for DwcityPayloadDecoder {
    open spec fn spec_channel(&self) -> Seq<char> {
        CHANNEL@
    }

    open spec fn decodes(&self, payload: Seq<u8>, bound: Bound, r: Option<DecodedStruct>) -> bool {
        shows(r, spec_try_decode(payload, bound))
    }

    fn channel(&self) -> (c: &'static str) {
        CHANNEL
    }

    fn try_decode(&self, payload: &[u8], bound: Bound) -> (r: Option<DecodedStruct>) {
        try_decode(payload, bound)
    }
}

/// Registers the decoder of the channel.
pub fn register_mod_payload_decoders(registry: &mut DecoderRegistry<ModDecoder>)
    ensures
        final(registry)@ == crate::custom_payload::spec_registered(
            old(registry)@,
            ModDecoder::Dwcity(DwcityPayloadDecoder),
        ),
{
    crate::custom_payload::register_decoder_boxed(registry, ModDecoder::Dwcity(DwcityPayloadDecoder));
}

} // verus!
