use jhook::custom_payload::{
    decode_custom_payload, init_default_decoders, read_varint_at, register_decoder,
    register_decoder_boxed, slice_payload_from_full_custom_payload, CustomPayloadDecoder,
    DecodedField, DecodedStruct, DecodedValue, DecoderRegistry, ModDecoder, ToDecodedValue,
};
use jhook::packets::customnpcs::{
    register_customnpcs_decoder, CustomNpcsPayloadDecoder, EnumPacketClient, EnumPacketServer,
};
use jhook::packets::dwcity::{register_mod_payload_decoders, DwcityPayloadDecoder, PacketKind};
use jhook::packets::layout::{read_fields, read_java_string, FieldKind, FieldSpec};
use jhook::packets::reader::ModPacketReader;
use jhook::packets::{Bound, PacketError};

fn text(name: &str, value: &str) -> DecodedField {
    DecodedField { name: name.to_string(), value: DecodedValue::Text(value.to_string()) }
}

fn shown(name: &str, fields: Vec<DecodedField>) -> Option<DecodedStruct> {
    Some(DecodedStruct { name: name.to_string(), fields })
}

fn java(s: &str) -> Vec<u8> {
    let units: Vec<u16> = s.encode_utf16().collect();
    let mut out = (units.len() as u16).to_be_bytes().to_vec();
    for u in units {
        out.extend_from_slice(&u.to_be_bytes());
    }
    out
}

fn npc(id: i32, body: &[u8]) -> Vec<u8> {
    let mut out = id.to_be_bytes().to_vec();
    out.extend_from_slice(body);
    out
}

fn full(channel: &str, payload: &[u8]) -> Vec<u8> {
    let mut out = vec![channel.len() as u8];
    out.extend_from_slice(channel.as_bytes());
    out.extend_from_slice(&(payload.len() as u16).to_be_bytes());
    out.extend_from_slice(payload);
    out
}

#[test]
fn values_show_as_text() {
    assert_eq!(true.to_decoded_value(), DecodedValue::Text("true".to_string()));
    assert_eq!(false.to_decoded_value(), DecodedValue::Text("false".to_string()));
    assert_eq!(0u8.to_decoded_value(), DecodedValue::Text("0".to_string()));
    assert_eq!(255u8.to_decoded_value(), DecodedValue::Text("255".to_string()));
    assert_eq!(65535u16.to_decoded_value(), DecodedValue::Text("65535".to_string()));
    assert_eq!(u32::MAX.to_decoded_value(), DecodedValue::Text(u32::MAX.to_string()));
    assert_eq!(u64::MAX.to_decoded_value(), DecodedValue::Text(u64::MAX.to_string()));
    assert_eq!(1234usize.to_decoded_value(), DecodedValue::Text("1234".to_string()));
    assert_eq!((-128i8).to_decoded_value(), DecodedValue::Text("-128".to_string()));
    assert_eq!((-1i16).to_decoded_value(), DecodedValue::Text("-1".to_string()));
    assert_eq!(i32::MIN.to_decoded_value(), DecodedValue::Text(i32::MIN.to_string()));
    assert_eq!(i64::MIN.to_decoded_value(), DecodedValue::Text(i64::MIN.to_string()));
    assert_eq!(i64::MAX.to_decoded_value(), DecodedValue::Text(i64::MAX.to_string()));
    assert_eq!((-5isize).to_decoded_value(), DecodedValue::Text("-5".to_string()));
    assert_eq!("abc".to_string().to_decoded_value(), DecodedValue::Text("abc".to_string()));
    assert_eq!(vec![1u8, 2].to_decoded_value(), DecodedValue::Bytes(vec![1, 2]));
    assert_eq!(
        vec!["a".to_string(), "b".to_string()].to_decoded_value(),
        DecodedValue::List(vec![
            DecodedValue::Text("a".to_string()),
            DecodedValue::Text("b".to_string())
        ])
    );
    assert_eq!(Some(7i32).to_decoded_value(), DecodedValue::Text("7".to_string()));
    assert_eq!(None::<i32>.to_decoded_value(), DecodedValue::Null);
}

#[test]
fn reads_a_varint_at_an_offset() {
    let data = [9u8, 0xAC, 0x02, 7];
    let mut off = 1usize;
    assert_eq!(read_varint_at(&data, &mut off), Some(300));
    assert_eq!(off, 3);
    let mut off = 4usize;
    assert_eq!(read_varint_at(&data, &mut off), None);
    assert_eq!(off, 4);
    let data = [0x80u8, 0x80, 0x80, 0x80, 0x80, 0x80, 0x01];
    let mut off = 0usize;
    assert_eq!(read_varint_at(&data, &mut off), None);
    assert_eq!(off, 6);
    let data = [0x80u8, 0x80];
    let mut off = 0usize;
    assert_eq!(read_varint_at(&data, &mut off), None);
    assert_eq!(off, 2);
}

#[test]
fn cuts_the_payload_with_a_two_byte_length() {
    let buf = full("chan", &[1, 2, 3]);
    assert_eq!(slice_payload_from_full_custom_payload(&buf), Some(&[1u8, 2, 3][..]));
    let buf = full("", &[]);
    assert_eq!(slice_payload_from_full_custom_payload(&buf), Some(&[][..]));
}

#[test]
fn cuts_the_payload_with_a_three_byte_length() {
    let mut buf = vec![2u8, b'a', b'b', 0, 0, 4, 9, 8, 7, 6];
    assert_eq!(slice_payload_from_full_custom_payload(&buf), Some(&[9u8, 8, 7, 6][..]));
    buf.push(5);
    assert_eq!(slice_payload_from_full_custom_payload(&buf), None);
}

#[test]
fn a_large_buffer_may_carry_a_tail() {
    let mut buf = vec![1u8, b'c', 0, 0, 3, 1, 2, 3];
    buf.resize(40000, 0xEE);
    assert_eq!(slice_payload_from_full_custom_payload(&buf), Some(&[1u8, 2, 3][..]));
    let mut small = vec![1u8, b'c', 0, 0, 3, 1, 2, 3];
    small.resize(32 * 1024, 0xEE);
    assert_eq!(slice_payload_from_full_custom_payload(&small), None);
}

#[test]
fn refuses_a_malformed_header() {
    assert_eq!(slice_payload_from_full_custom_payload(&[]), None);
    assert_eq!(slice_payload_from_full_custom_payload(&[5, b'a']), None);
    assert_eq!(slice_payload_from_full_custom_payload(&[1, b'a']), None);
    assert_eq!(slice_payload_from_full_custom_payload(&[1, b'a', 0]), None);
    assert_eq!(slice_payload_from_full_custom_payload(&[1, b'a', 0, 2, 1]), None);
    assert_eq!(slice_payload_from_full_custom_payload(&[0x80, 0x80, 0x80, 0x80, 0x80, 0]), None);
    assert_eq!(slice_payload_from_full_custom_payload(&[0xFF, 0xFF, 0xFF, 0xFF, 0x0F, 0, 0]), None);
}

#[test]
fn packet_kinds_by_number_and_name() {
    assert_eq!(EnumPacketClient::from_id(0), Some(EnumPacketClient::CHAT));
    assert_eq!(EnumPacketClient::from_id(25), Some(EnumPacketClient::CHATBUBBLE));
    assert_eq!(EnumPacketClient::from_id(45), Some(EnumPacketClient::STOP_SOUNDS));
    assert_eq!(EnumPacketClient::from_id(46), None);
    assert_eq!(EnumPacketClient::from_id(-1), None);
    assert_eq!(EnumPacketClient::CHATBUBBLE.name(), "CHATBUBBLE");
    assert_eq!(EnumPacketClient::PLAY_SOUND_TO_NO_ID.name(), "PLAY_SOUND_TO_NO_ID");
    assert_eq!(EnumPacketClient::CONFIG.id(), 30);
    assert_eq!(EnumPacketServer::from_id(0), Some(EnumPacketServer::Delete));
    assert_eq!(EnumPacketServer::from_id(131), Some(EnumPacketServer::CustomGuiButton));
    assert_eq!(EnumPacketServer::from_id(135), Some(EnumPacketServer::ServerUpdateSkinOverlays));
    assert_eq!(EnumPacketServer::from_id(136), None);
    assert_eq!(EnumPacketServer::from_id(i32::MIN), None);
    assert_eq!(EnumPacketServer::MainmenuAISave.name(), "MainmenuAISave");
    assert_eq!(EnumPacketServer::MainmenuInvGet.id(), 11);
    for id in 0..46 {
        assert_eq!(EnumPacketClient::from_id(id).unwrap().id(), id);
    }
    for id in 0..136 {
        assert_eq!(EnumPacketServer::from_id(id).unwrap().id(), id);
    }
}

#[test]
fn reads_java_strings() {
    let bytes = java("Привет");
    let mut r = ModPacketReader::new(&bytes);
    assert_eq!(read_java_string(&mut r), Ok("Привет".to_string()));
    assert_eq!(r.available(), 0);

    let bytes = [0u8, 0, 9];
    let mut r = ModPacketReader::new(&bytes);
    assert_eq!(read_java_string(&mut r), Ok(String::new()));
    assert_eq!(r.available(), 1);

    let bytes = java("😀");
    assert_eq!(bytes.len(), 6);
    let mut r = ModPacketReader::new(&bytes);
    assert_eq!(read_java_string(&mut r), Ok("😀".to_string()));

    let bytes = [0u8, 2, 0, 65, 0];
    let mut r = ModPacketReader::new(&bytes);
    assert_eq!(read_java_string(&mut r), Err(PacketError::NotEnoughData { need: 2, available: 1 }));

    let bytes = [0u8];
    let mut r = ModPacketReader::new(&bytes);
    assert_eq!(read_java_string(&mut r), Err(PacketError::NotEnoughData { need: 2, available: 1 }));

    let bytes = [0u8, 1, 0xD8, 0x00];
    let mut r = ModPacketReader::new(&bytes);
    assert_eq!(read_java_string(&mut r), Err(PacketError::InvalidUtf16));
}

#[test]
fn decodes_a_chat_bubble() {
    let mut body = (-7i32).to_be_bytes().to_vec();
    body.extend_from_slice(&java("Hi"));
    body.push(1);
    let payload = npc(25, &body);
    assert_eq!(
        jhook::packets::customnpcs::try_decode(&payload, Bound::Client),
        shown(
            "CHATBUBBLE",
            vec![text("entity_id", "-7"), text("text", "Hi"), text("show_in_chat", "true")]
        )
    );
    assert_eq!(
        jhook::packets::customnpcs::try_decode(&payload[..payload.len() - 1], Bound::Client),
        None
    );
}

#[test]
fn decodes_client_packets_of_each_shape() {
    let d = |id: i32, body: &[u8]| jhook::packets::customnpcs::try_decode(&npc(id, body), Bound::Client);
    assert_eq!(
        d(4, &[0, 0, 0, 9, 1, 2, 3]),
        shown("DIALOG", vec![text("entity_id", "9"), text("nbt_data", "[NBT 3 bytes]")])
    );
    assert_eq!(d(6, &[0, 0, 1, 0]), shown("EDIT_NPC", vec![text("entity_id", "256")]));
    assert_eq!(d(14, &[0, 0, 1, 0, 5]), shown("DELETE_NPC", vec![text("entity_id", "256")]));
    let mut sound = java("step");
    sound.extend_from_slice(&1.5f32.to_be_bytes());
    sound.extend_from_slice(&(-2.0f32).to_be_bytes());
    sound.extend_from_slice(&0f32.to_be_bytes());
    assert_eq!(
        d(7, &sound),
        shown(
            "PLAY_SOUND",
            vec![
                text("sound", "step"),
                DecodedField { name: "x".to_string(), value: DecodedValue::Float32(1.5f32.to_bits()) },
                DecodedField { name: "y".to_string(), value: DecodedValue::Float32((-2.0f32).to_bits()) },
                DecodedField { name: "z".to_string(), value: DecodedValue::Float32(0) },
            ]
        )
    );
    let mut mouse = 5000i64.to_be_bytes().to_vec();
    mouse.extend_from_slice(&java("LR"));
    assert_eq!(
        d(39, &mouse),
        shown("DISABLE_MOUSE_INPUT", vec![text("length_ms", "5000"), text("buttons", "LR")])
    );
    assert_eq!(d(31, &[1, 2, 3]), shown("ISGUIOPEN", vec![]));
    assert_eq!(d(2, &[1, 2, 3]), shown("SYNCRECIPES_ADD", vec![text("nbt_data", "[NBT 3 bytes]")]));
    assert_eq!(d(0, &[1, 2]), shown("CHAT", vec![text("raw_data", "[2 bytes]")]));
    assert_eq!(d(0, &[]), shown("CHAT", vec![text("raw_data", "[0 bytes]")]));
    assert_eq!(d(46, &[]), None);
    assert_eq!(d(6, &[0, 0, 1]), None);
    assert_eq!(jhook::packets::customnpcs::try_decode(&[0, 0, 0], Bound::Client), None);
}

#[test]
fn decodes_the_config_packet_by_its_type() {
    let d = |body: &[u8]| jhook::packets::customnpcs::try_decode(&npc(30, body), Bound::Client);
    let mut font = 0i32.to_be_bytes().to_vec();
    font.extend_from_slice(&java("Arial"));
    font.extend_from_slice(&12i32.to_be_bytes());
    assert_eq!(
        d(&font),
        shown("CONFIG", vec![text("config_type", "FONT"), text("font", "Arial"), text("size", "12")])
    );
    assert_eq!(d(&[0, 0, 0, 3, 9, 9]), shown("CONFIG", vec![text("config_type", "3")]));
    assert_eq!(d(&[0, 0, 0, 0]), None);
    assert_eq!(d(&[0, 0]), None);
}

#[test]
fn decodes_server_packets_of_each_shape() {
    let d = |id: i32, body: &[u8]| jhook::packets::customnpcs::try_decode(&npc(id, body), Bound::Server);
    let id_of = |k: EnumPacketServer| k.id();
    assert_eq!(d(0, &[0xFF, 0xFF, 0xFF, 0xFF]), shown("Delete", vec![text("entity_id", "-1")]));
    let mut spawn = vec![1u8];
    spawn.extend_from_slice(&1i32.to_be_bytes());
    spawn.extend_from_slice(&2i32.to_be_bytes());
    spawn.extend_from_slice(&3i32.to_be_bytes());
    spawn.extend_from_slice(&java("Bob"));
    spawn.extend_from_slice(&4i32.to_be_bytes());
    assert_eq!(
        d(id_of(EnumPacketServer::SpawnMob), &spawn),
        shown(
            "SpawnMob",
            vec![
                text("from_server", "true"),
                text("x", "1"),
                text("y", "2"),
                text("z", "3"),
                text("clone_name", "Bob"),
                text("tab", "4"),
            ]
        )
    );
    spawn[0] = 0;
    assert_eq!(
        d(id_of(EnumPacketServer::MobSpawner), &spawn),
        shown(
            "MobSpawner",
            vec![
                text("from_server", "false"),
                text("x", "1"),
                text("y", "2"),
                text("z", "3"),
                text("nbt_data", "[NBT 12 bytes]"),
            ]
        )
    );
    let mut get = 2i32.to_be_bytes().to_vec();
    get.extend_from_slice(&java("Al"));
    assert_eq!(
        d(id_of(EnumPacketServer::PlayerDataGet), &get),
        shown("PlayerDataGet", vec![text("data_type", "2"), text("player_name", "Al")])
    );
    assert_eq!(
        d(id_of(EnumPacketServer::PlayerDataGet), &[0, 0, 0, 0, 9]),
        shown("PlayerDataGet", vec![text("data_type", "Players")])
    );
    assert_eq!(d(id_of(EnumPacketServer::PlayerDataGet), &[0, 0, 0]), None);
    let mut job = vec![7u8];
    job.extend_from_slice(&java("C"));
    job.extend_from_slice(&1i32.to_be_bytes());
    job.extend_from_slice(&2i32.to_be_bytes());
    assert_eq!(
        d(id_of(EnumPacketServer::JobSpawnerAdd), &job),
        shown(
            "JobSpawnerAdd",
            vec![text("from_clone", "true"), text("clone_name", "C"), text("tab", "1"), text("slot", "2")]
        )
    );
    assert_eq!(
        d(id_of(EnumPacketServer::JobSpawnerAdd), &[0, 0, 0, 0, 5, 1, 2]),
        shown(
            "JobSpawnerAdd",
            vec![text("from_clone", "false"), text("slot", "5"), text("nbt_data", "[NBT 2 bytes]")]
        )
    );
    assert_eq!(
        d(131, &[1, 2, 3, 4, 5, 6]),
        shown("CustomGuiButton", vec![text("gui_nbt", "[NBT ~2 bytes]"), text("button_id", "(at end)")])
    );
    assert_eq!(
        d(131, &[1, 2]),
        shown("CustomGuiButton", vec![text("gui_nbt", "[NBT ~0 bytes]"), text("button_id", "(at end)")])
    );
    assert_eq!(
        d(134, &[]),
        shown("CustomGuiUnfocused", vec![text("gui_nbt", "[NBT]"), text("element_id", "(int)")])
    );
    assert_eq!(
        d(id_of(EnumPacketServer::MerchantUpdate), &[0, 0, 0, 1, 9, 9, 9]),
        shown("MerchantUpdate", vec![text("entity_id", "1"), text("recipe_list", "[3 bytes]")])
    );
    assert_eq!(
        d(id_of(EnumPacketServer::TraderMarketSave), &[0, 1, 0, 77, 0]),
        shown("TraderMarketSave", vec![text("market", "M"), text("load", "false")])
    );
    assert_eq!(
        d(id_of(EnumPacketServer::PlayerDataRemove), &[1]),
        shown("PlayerDataRemove", vec![text("raw_data", "[1 bytes]")])
    );
    assert_eq!(d(136, &[]), None);
}

#[test]
fn dwcity_kinds() {
    assert_eq!(PacketKind::find(1, Bound::Client), Some(PacketKind::EmeraldBalanceRequest));
    assert_eq!(PacketKind::find(1, Bound::Server), Some(PacketKind::EmeraldBalanceResponse));
    assert_eq!(PacketKind::find(3, Bound::Client), Some(PacketKind::CoinBalanceRequest));
    assert_eq!(PacketKind::find(3, Bound::Server), Some(PacketKind::CoinBalanceResponse));
    assert_eq!(PacketKind::find(9, Bound::Client), Some(PacketKind::PlayerStatsRequest));
    assert_eq!(PacketKind::find(9, Bound::Server), Some(PacketKind::PlayerStatsResponse));
    assert_eq!(PacketKind::find(18, Bound::Client), Some(PacketKind::SendClientName));
    assert_eq!(PacketKind::find(18, Bound::Server), None);
    assert_eq!(PacketKind::find(27, Bound::Server), Some(PacketKind::UpdateTileLimits));
    assert_eq!(PacketKind::find(27, Bound::Client), None);
    assert_eq!(PacketKind::find(2, Bound::Client), None);
    assert_eq!(PacketKind::PlayerStatsResponse.layout().len(), 25);
    assert_eq!(PacketKind::SendClientName.name(), "SendClientName");
}

#[test]
fn decodes_dwcity_packets() {
    let d = jhook::packets::dwcity::try_decode;
    assert_eq!(
        d(&[1, 3, b'b', b'o', b'b'], Bound::Client),
        shown("EmeraldBalanceRequest", vec![text("username", "bob")])
    );
    let mut resp = vec![1u8, 3, b'b', b'o', b'b'];
    resp.extend_from_slice(&2.5f32.to_be_bytes());
    assert_eq!(
        d(&resp, Bound::Server),
        shown(
            "EmeraldBalanceResponse",
            vec![
                text("username", "bob"),
                DecodedField { name: "emeralds".to_string(), value: DecodedValue::Float32(2.5f32.to_bits()) },
            ]
        )
    );
    assert_eq!(d(&[3], Bound::Client), shown("CoinBalanceRequest", vec![]));
    assert_eq!(d(&[3], Bound::Server), None);
    let limits = [27u8, 0, 0, 0, 2, 1, b'a', 2, b'b', b'c'];
    assert_eq!(
        d(&limits, Bound::Server),
        shown(
            "UpdateTileLimits",
            vec![DecodedField {
                name: "limits".to_string(),
                value: DecodedValue::List(vec![
                    DecodedValue::Text("a".to_string()),
                    DecodedValue::Text("bc".to_string()),
                ]),
            }]
        )
    );
    assert_eq!(d(&[27, 0, 0, 0, 2, 1, b'a'], Bound::Server), None);
    assert_eq!(d(&[27, 0, 0, 0, 9, 1, b'a'], Bound::Server), None);
    assert_eq!(d(&[27, 0, 0, 0, 0], Bound::Server), shown("UpdateTileLimits", vec![DecodedField {
        name: "limits".to_string(),
        value: DecodedValue::List(vec![]),
    }]));
    assert_eq!(d(&[], Bound::Server), None);
    assert_eq!(d(&[2], Bound::Server), None);
}

#[test]
fn decodes_player_stats() {
    let mut p = vec![9u8, 2, b'a', b'l'];
    p.extend_from_slice(&1i32.to_be_bytes());
    p.extend_from_slice(&(-2i32).to_be_bytes());
    for i in 0..11i64 {
        p.extend_from_slice(&(i * 10).to_be_bytes());
    }
    p.extend_from_slice(&1.25f64.to_be_bytes());
    p.extend_from_slice(&(-0.5f64).to_be_bytes());
    for i in 0..9i64 {
        p.extend_from_slice(&(-i).to_be_bytes());
    }
    let s = jhook::packets::dwcity::try_decode(&p, Bound::Server).unwrap();
    assert_eq!(s.name, "PlayerStatsResponse");
    assert_eq!(s.fields.len(), 25);
    assert_eq!(s.fields[0], text("username", "al"));
    assert_eq!(s.fields[1], text("first_int", "1"));
    assert_eq!(s.fields[2], text("second_int", "-2"));
    assert_eq!(s.fields[3], text("last_updated_at", "0"));
    assert_eq!(s.fields[13], text("crafted_items", "100"));
    assert_eq!(
        s.fields[14],
        DecodedField { name: "walked_distance".to_string(), value: DecodedValue::Float64(1.25f64.to_bits()) }
    );
    assert_eq!(
        s.fields[15],
        DecodedField { name: "total_distance".to_string(), value: DecodedValue::Float64((-0.5f64).to_bits()) }
    );
    assert_eq!(s.fields[16], text("jumps", "0"));
    assert_eq!(s.fields[24], text("timer_d", "-8"));
    p.pop();
    assert_eq!(jhook::packets::dwcity::try_decode(&p, Bound::Server), None);
}

#[test]
fn read_fields_follows_a_layout() {
    let layout = vec![
        FieldSpec { name: "a", kind: FieldKind::Bool, text: "" },
        FieldSpec { name: "b", kind: FieldKind::Const, text: "fixed" },
        FieldSpec { name: "c", kind: FieldKind::IntNamed, text: "named" },
        FieldSpec { name: "d", kind: FieldKind::Raw, text: "" },
    ];
    let data = [0u8, 1, 2, 3, 4, 5];
    let mut r = ModPacketReader::new(&data);
    assert_eq!(
        read_fields(&layout, &mut r),
        Some(vec![text("a", "false"), text("b", "fixed"), text("c", "named"), text("d", "[1 bytes]")])
    );
    let mut r = ModPacketReader::new(&data[..4]);
    assert_eq!(read_fields(&layout, &mut r), None);
}

#[test]
fn registry_decodes_by_channel() {
    let mut registry: DecoderRegistry<ModDecoder> = DecoderRegistry::new();
    init_default_decoders(&mut registry);
    assert_eq!(registry.len(), 2);
    let buf = full("dwcity", &[18, 2, b'm', b'e']);
    assert_eq!(
        decode_custom_payload(&registry, "dwcity", &buf, Bound::Client),
        shown("SendClientName", vec![text("username", "me")])
    );
    assert_eq!(decode_custom_payload(&registry, "dwcity", &buf, Bound::Server), None);
    assert_eq!(decode_custom_payload(&registry, "other", &buf, Bound::Client), None);
    let buf = full("CustomNPCs", &npc(14, &[0, 0, 0, 5]));
    assert_eq!(
        decode_custom_payload(&registry, "CustomNPCs", &buf, Bound::Client),
        shown("DELETE_NPC", vec![text("entity_id", "5")])
    );
    assert_eq!(decode_custom_payload(&registry, "CustomNPCs", &buf[..5], Bound::Client), None);
}

#[test]
fn registering_twice_for_a_channel_keeps_one_decoder() {
    let mut registry: DecoderRegistry<ModDecoder> = DecoderRegistry::new();
    register_customnpcs_decoder(&mut registry);
    register_mod_payload_decoders(&mut registry);
    register_customnpcs_decoder(&mut registry);
    register_decoder_boxed(&mut registry, ModDecoder::Dwcity(DwcityPayloadDecoder));
    assert_eq!(registry.len(), 2);
    let mut npcs: DecoderRegistry<CustomNpcsPayloadDecoder> = DecoderRegistry::new();
    register_decoder::<CustomNpcsPayloadDecoder>(&mut npcs);
    register_decoder::<CustomNpcsPayloadDecoder>(&mut npcs);
    assert_eq!(npcs.len(), 1);
    assert_eq!(CustomNpcsPayloadDecoder.channel(), "CustomNPCs");
    assert_eq!(DwcityPayloadDecoder.channel(), "dwcity");
    assert_eq!(ModDecoder::Dwcity(DwcityPayloadDecoder).channel(), "dwcity");
}
