use jhook::netlog::{
    make_record, read_varint, try_decode_custom_payload, Limits, PacketDetails, PacketDirection,
    PacketRecord, PacketStore,
};

fn rec(id: u64, size: usize, pinned: bool) -> PacketRecord {
    let mut r = make_record(id, 1000 + id, PacketDirection::Inbound, format!("Packet{}", id), vec![0u8; size]);
    r.pinned = pinned;
    r
}

fn ids(store: &PacketStore) -> Vec<u64> {
    store.snapshot().iter().map(|r| r.id).collect()
}

#[test]
fn new_store_has_limits() {
    let s = PacketStore::new(3);
    assert_eq!(s.stats(), (0, 0));
    assert_eq!(s.limits(), Limits { max_count: Some(3), max_bytes: None, autoclear_oldest: true });
    assert_eq!(PacketStore::new(0).limits().max_count, Some(1));
}

#[test]
fn push_drops_the_oldest_over_the_count() {
    let mut s = PacketStore::new(2);
    s.push(rec(1, 10, false));
    s.push(rec(2, 20, false));
    assert_eq!(s.stats(), (2, 30));
    s.push(rec(3, 5, false));
    assert_eq!(ids(&s), vec![2, 3]);
    assert_eq!(s.stats(), (2, 25));
}

#[test]
fn pinned_records_outlive_the_others() {
    let mut s = PacketStore::new(2);
    s.push(rec(1, 10, true));
    s.push(rec(2, 20, false));
    s.push(rec(3, 5, false));
    assert_eq!(ids(&s), vec![1, 3]);
    assert_eq!(s.stats(), (2, 15));
    s.push(rec(4, 1, true));
    assert_eq!(ids(&s), vec![1, 4]);
    s.push(rec(5, 2, false));
    assert_eq!(ids(&s), vec![1, 4]);
    s.push(rec(6, 3, true));
    assert_eq!(ids(&s), vec![4, 6]);
    assert_eq!(s.stats(), (2, 4));
}

#[test]
fn byte_limit_drops_until_it_fits() {
    let mut s = PacketStore::new(10);
    s.set_max_bytes(Some(25));
    s.push(rec(1, 10, false));
    s.push(rec(2, 10, false));
    s.push(rec(3, 10, false));
    assert_eq!(ids(&s), vec![2, 3]);
    assert_eq!(s.stats(), (2, 20));
    s.push(rec(4, 30, false));
    assert_eq!(ids(&s), Vec::<u64>::new());
    assert_eq!(s.stats(), (0, 0));
}

#[test]
fn nothing_is_dropped_when_dropping_is_off() {
    let mut s = PacketStore::new(1);
    s.set_autoclear_oldest(false);
    s.push(rec(1, 1, false));
    s.push(rec(2, 1, false));
    s.push(rec(3, 1, false));
    assert_eq!(ids(&s), vec![1, 2, 3]);
    s.pin(2, true);
    assert_eq!(ids(&s), vec![1, 2, 3]);
    s.set_autoclear_oldest(true);
    assert_eq!(ids(&s), vec![1, 2, 3]);
    s.trim_to_limits();
    assert_eq!(ids(&s), vec![2]);
}

#[test]
fn set_max_count_trims() {
    let mut s = PacketStore::new(5);
    for i in 1..=5 {
        s.push(rec(i, 1, false));
    }
    s.set_max_count(Some(2));
    assert_eq!(ids(&s), vec![4, 5]);
    s.set_max_count(None);
    for i in 6..=9 {
        s.push(rec(i, 1, false));
    }
    assert_eq!(ids(&s), vec![4, 5, 6, 7, 8, 9]);
    s.set_max_count(Some(0));
    assert_eq!(ids(&s), Vec::<u64>::new());
}

#[test]
fn pin_tags_and_color_change_the_first_match() {
    let mut s = PacketStore::new(5);
    s.push(rec(1, 1, false));
    s.push(rec(2, 1, false));
    s.push(rec(2, 3, false));
    s.pin(2, true);
    s.set_tags(2, vec!["a".to_string(), "b".to_string()]);
    s.set_color(2, Some([1, 2, 3]));
    s.set_color(9, Some([9, 9, 9]));
    let snap = s.snapshot();
    assert_eq!(snap[0].pinned, false);
    assert_eq!(snap[1].pinned, true);
    assert_eq!(snap[1].tags, vec!["a".to_string(), "b".to_string()]);
    assert_eq!(snap[1].color, Some([1, 2, 3]));
    assert_eq!(snap[1].data.len(), 1);
    assert_eq!(snap[2].pinned, false);
    assert!(snap[2].tags.is_empty());
    assert_eq!(snap[2].color, None);
    s.set_color(2, None);
    assert_eq!(s.snapshot()[1].color, None);
}

#[test]
fn pop_front_and_clear() {
    let mut s = PacketStore::new(5);
    assert!(s.pop_front_and_account().is_none());
    s.push(rec(1, 4, false));
    s.push(rec(2, 6, false));
    let r = s.pop_front_and_account().unwrap();
    assert_eq!(r.id, 1);
    assert_eq!(s.stats(), (1, 6));
    s.clear();
    assert_eq!(s.stats(), (0, 0));
    assert_eq!(s.limits().max_count, Some(5));
}

#[test]
fn find_packet_copies_the_first_match() {
    let mut s = PacketStore::new(5);
    s.push(rec(1, 4, false));
    s.push(rec(2, 6, false));
    let found = s.find_packet(2).unwrap();
    assert_eq!(found.id, 2);
    assert_eq!(found.name, "Packet2");
    assert_eq!(found.data.len(), 6);
    assert!(s.find_packet(3).is_none());
}

#[test]
fn reads_a_leading_varint() {
    assert_eq!(read_varint(&[0xAC, 0x02, 7]), Some((300, 2)));
    assert_eq!(read_varint(&[0x80]), None);
    assert_eq!(read_varint(&[]), None);
    assert_eq!(read_varint(&[0x80, 0x80, 0x80, 0x80, 0x80, 0x00]), None);
}

#[test]
fn decodes_a_custom_payload_header() {
    let mut bytes = vec![6u8];
    bytes.extend_from_slice(b"FML|HS");
    bytes.extend_from_slice(&[2, 0xFF]);
    assert_eq!(try_decode_custom_payload(&bytes), Some(("FML|HS".to_string(), 7)));
    assert_eq!(try_decode_custom_payload(&[3, b'a', b'b']), None);
    assert_eq!(try_decode_custom_payload(&[2, 0xFF, 0xFE]), None);
    assert_eq!(try_decode_custom_payload(&[0xFF, 0xFF, 0xFF, 0xFF, 0x0F]), None);
    assert_eq!(try_decode_custom_payload(&[0]), Some((String::new(), 1)));
    assert_eq!(try_decode_custom_payload(&[]), None);
}

#[test]
fn record_of_a_plain_packet() {
    let r = make_record(7, 99, PacketDirection::Outbound, "C01PacketChatMessage".to_string(), vec![1, 2, 3]);
    assert_eq!(r.id, 7);
    assert_eq!(r.ts_millis, 99);
    assert_eq!(r.dir, PacketDirection::Outbound);
    assert_eq!(r.name, "C01PacketChatMessage");
    assert_eq!(r.len, 3);
    assert_eq!(r.data, vec![1, 2, 3]);
    assert!(r.details.is_none());
    assert!(!r.pinned);
    assert!(r.tags.is_empty());
    assert_eq!(r.color, None);
    assert_eq!(r.group, Some("C01PacketChatMessage".to_string()));
}

#[test]
fn record_of_a_custom_payload_with_text() {
    let mut data = vec![4u8];
    data.extend_from_slice(b"chan");
    data.extend_from_slice("hi\u{1}there П!".as_bytes());
    let r = make_record(1, 2, PacketDirection::Inbound, "S3FPacketCustomPayload".to_string(), data);
    match r.details {
        Some(PacketDetails::CustomPayload { channel, channel_len, preview }) => {
            assert_eq!(channel, "chan");
            assert_eq!(channel_len, 5);
            assert_eq!(preview, Some("hithere !".to_string()));
        }
        None => panic!("no details"),
    }
    assert_eq!(r.group, Some("chan".to_string()));
}

#[test]
fn preview_keeps_sixty_four_characters() {
    let mut data = vec![1u8, b'c'];
    data.extend_from_slice(&[b'x'; 100]);
    let r = make_record(1, 2, PacketDirection::Inbound, "CustomPayload".to_string(), data);
    match r.details {
        Some(PacketDetails::CustomPayload { preview, .. }) => {
            assert_eq!(preview, Some("x".repeat(64)));
        }
        None => panic!("no details"),
    }
}

#[test]
fn record_of_a_handshake_step() {
    let mut data = vec![6u8];
    data.extend_from_slice(b"FML|HS");
    data.extend_from_slice(&[0xFF, 0x01]);
    let r = make_record(1, 2, PacketDirection::Inbound, "C17PacketCustomPayload".to_string(), data);
    match r.details {
        Some(PacketDetails::CustomPayload { channel, channel_len, preview }) => {
            assert_eq!(channel, "FML|HS");
            assert_eq!(channel_len, 7);
            assert_eq!(preview, Some("FML handshake step 255".to_string()));
        }
        None => panic!("no details"),
    }
}

#[test]
fn record_without_preview() {
    let mut data = vec![2u8];
    data.extend_from_slice(b"ab");
    let r = make_record(1, 2, PacketDirection::Inbound, "CustomPayload".to_string(), data.clone());
    match r.details {
        Some(PacketDetails::CustomPayload { preview, .. }) => assert_eq!(preview, None),
        None => panic!("no details"),
    }
    data.extend_from_slice(&[0xFF]);
    let r = make_record(1, 2, PacketDirection::Inbound, "CustomPayload".to_string(), data.clone());
    match r.details {
        Some(PacketDetails::CustomPayload { preview, .. }) => assert_eq!(preview, None),
        None => panic!("no details"),
    }
    let r = make_record(1, 2, PacketDirection::Inbound, "CustomPayload".to_string(), vec![1, 2, 3]);
    match r.details {
        Some(PacketDetails::CustomPayload { preview, .. }) => assert_eq!(preview, None),
        None => panic!("no details"),
    }
    let r = make_record(1, 2, PacketDirection::Inbound, "CustomPayload".to_string(), vec![9]);
    assert!(r.details.is_none());
    assert_eq!(r.group, Some("CustomPayload".to_string()));
}

#[test]
fn record_clone_is_equal_in_every_field() {
    let mut data = vec![4u8];
    data.extend_from_slice(b"chanhello");
    let mut r = make_record(1, 2, PacketDirection::Inbound, "CustomPayload".to_string(), data);
    r.tags = vec!["t".to_string()];
    r.color = Some([1, 2, 3]);
    let c = r.clone();
    assert_eq!(format!("{:?}", c), format!("{:?}", r));
}
