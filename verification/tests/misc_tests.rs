use jhook::analyzer::{
    contains_ascii_ci, contains_bytes_ci, first_bytes_hex, hex_dump, record_matches_query,
    trigger_matches, PacketTrigger,
};
use jhook::auth::{
    build_handshake, build_login_payload, padded_modulus_be, token_length, AUTH_REQUEST_TYPE,
    HANDSHAKE_MAGIC,
};
use jhook::netlog::{make_record, push_packet_log, PacketDirection, PacketStore};
use jhook::text::{decimal_digits, decimal_i64, decimal_u64, hex_digit};
use jhook::ui::{format_modifiers, AppTab, NotificationState, NotificationType, SoundNotification};

fn dump_oracle(data: &[u8], width: usize) -> String {
    let mut out = String::new();
    for (i, chunk) in data.chunks(width).enumerate() {
        out.push_str(&format!("{:04X}:  ", i * width));
        for b in chunk {
            out.push_str(&format!("{:02X} ", b));
        }
        for _ in 0..(width - chunk.len()) * 3 {
            out.push(' ');
        }
        out.push(' ');
        for b in chunk {
            out.push(if b.is_ascii_graphic() || *b == b' ' { *b as char } else { '.' });
        }
        out.push('\n');
    }
    out
}

fn modifiers_oracle(modifiers: i32, is_class: bool) -> String {
    let table = [
        (0x0001, "public"),
        (0x0004, "protected"),
        (0x0002, "private"),
        (0x0008, "static"),
        (0x0010, "final"),
        (0x0400, "abstract"),
        (0x0020, "synchronized"),
        (0x0040, "volatile"),
        (0x0080, "transient"),
        (0x0100, "native"),
        (0x0800, "strictfp"),
    ];
    let mut words: Vec<&str> = Vec::new();
    for (bit, word) in table {
        if modifiers & bit != 0 {
            words.push(word);
        }
    }
    if is_class && modifiers & 0x0200 != 0 {
        words.push("interface");
    }
    words.join(" ")
}

#[test]
fn decimal_text() {
    for v in [0u64, 1, 9, 10, 11, 99, 100, 12345, u32::MAX as u64, u64::MAX] {
        assert_eq!(decimal_u64(v), v.to_string());
        assert_eq!(decimal_digits(v), v.to_string().chars().collect::<Vec<char>>());
    }
    for v in [0i64, 1, -1, 9, -9, 10, -10, 1234567, -1234567, i64::MAX, i64::MIN, i64::MIN + 1] {
        assert_eq!(decimal_i64(v), v.to_string());
    }
    for d in 0..16u8 {
        assert_eq!(hex_digit(d).to_string(), format!("{:X}", d));
    }
}

#[test]
fn hex_dump_of_two_lines() {
    let data = b"Hello, World!\x00\x01";
    assert_eq!(
        hex_dump(data, 8),
        "0000:  48 65 6C 6C 6F 2C 20 57  Hello, W\n0008:  6F 72 6C 64 21 00 01     orld!..\n"
    );
}

#[test]
fn hex_dump_matches_the_line_format() {
    let data: Vec<u8> = (0..=255u8).collect();
    for width in [1usize, 2, 7, 16, 255, 256, 300] {
        assert_eq!(hex_dump(&data, width), dump_oracle(&data, width));
    }
    assert_eq!(hex_dump(&[], 16), "");
    assert_eq!(hex_dump(&[0x7F], 1), "0000:  7F  .\n");
    let big = vec![0x41u8; 70000];
    assert_eq!(hex_dump(&big, 16), dump_oracle(&big, 16));
    assert!(hex_dump(&big, 16).contains("\n10000:  41"));
}

#[test]
fn first_bytes_in_hex() {
    assert_eq!(first_bytes_hex(&[0x00, 0x0F, 0xA0, 0xFF], 3), "000FA0");
    assert_eq!(first_bytes_hex(&[0x00, 0x0F, 0xA0, 0xFF], 10), "000FA0FF");
    assert_eq!(first_bytes_hex(&[0x00, 0x0F], 0), "");
    assert_eq!(first_bytes_hex(&[], 5), "");
}

#[test]
fn search_without_case() {
    assert!(contains_ascii_ci("S3FPacketCustomPayload", "custompayload"));
    assert!(contains_ascii_ci("S3FPacketCustomPayload", "PACKET"));
    assert!(contains_ascii_ci("abc", ""));
    assert!(contains_ascii_ci("", ""));
    assert!(!contains_ascii_ci("", "a"));
    assert!(!contains_ascii_ci("abc", "abcd"));
    assert!(contains_ascii_ci("xxabc", "ABC"));
    assert!(!contains_ascii_ci("ab-c", "abc"));
    assert!(contains_ascii_ci("Привет", "привет") == "Привет".as_bytes().eq_ignore_ascii_case("привет".as_bytes()));
    assert!(contains_ascii_ci("[`{", "[`{"));
    assert!(!contains_ascii_ci("@", "`"));
    assert!(contains_bytes_ci(&[0xFF, 0x41, 0x00], &[0x61, 0x00]));
}

#[test]
fn record_queries() {
    let mut data = vec![4u8];
    data.extend_from_slice(b"Chan\xAB\xCD");
    let mut rec = make_record(1, 2, PacketDirection::Inbound, "S3FPacketCustomPayload".to_string(), data);
    rec.tags = vec!["Boss".to_string(), "loot".to_string()];
    assert!(record_matches_query(&rec, "s3f"));
    assert!(record_matches_query(&rec, "chan"));
    assert!(record_matches_query(&rec, "abcd"));
    assert!(record_matches_query(&rec, "04436861"));
    assert!(record_matches_query(&rec, "boss"));
    assert!(record_matches_query(&rec, "LOOT"));
    assert!(record_matches_query(&rec, ""));
    assert!(!record_matches_query(&rec, "zzz"));
    let plain = make_record(1, 2, PacketDirection::Outbound, "Ping".to_string(), vec![0xEE]);
    assert!(record_matches_query(&plain, "ping"));
    assert!(record_matches_query(&plain, "ee"));
    assert!(!record_matches_query(&plain, "chan"));

    let trig = |needle: &str, dir| PacketTrigger { needle: needle.to_string(), dir, highlight: [1, 2, 3], pin: false };
    assert!(trigger_matches(&rec, &trig("chan", None)));
    assert!(trigger_matches(&rec, &trig("chan", Some(PacketDirection::Inbound))));
    assert!(!trigger_matches(&rec, &trig("chan", Some(PacketDirection::Outbound))));
    assert!(!trigger_matches(&rec, &trig("zzz", None)));
}

#[test]
fn pushing_to_the_log() {
    let mut store = PacketStore::new(2);
    push_packet_log(&mut store, false, 1, 10, PacketDirection::Inbound, "A".to_string(), vec![1, 2]);
    push_packet_log(&mut store, true, 2, 11, PacketDirection::Inbound, "B".to_string(), vec![1]);
    push_packet_log(&mut store, false, 3, 12, PacketDirection::Outbound, "C".to_string(), vec![1, 2, 3]);
    push_packet_log(&mut store, false, 4, 13, PacketDirection::Outbound, "D".to_string(), vec![]);
    let snap = store.snapshot();
    assert_eq!(snap.iter().map(|r| r.id).collect::<Vec<u64>>(), vec![3, 4]);
    assert_eq!(snap[0].ts_millis, 12);
    assert_eq!(snap[0].name, "C");
    assert_eq!(store.stats(), (2, 3));
}

#[test]
fn handshake_bytes() {
    assert_eq!(HANDSHAKE_MAGIC, 1917264919);
    assert_eq!(AUTH_REQUEST_TYPE, 4);
    let modulus = vec![0xABu8; 257];
    let hs = build_handshake(&modulus, AUTH_REQUEST_TYPE);
    let mut expected = 1917264919u32.to_be_bytes().to_vec();
    expected.extend_from_slice(&[0x81, 0x02]);
    expected.extend_from_slice(&modulus);
    expected.push(4);
    assert_eq!(hs, expected);
    assert_eq!(build_handshake(&[], -1), vec![0x72, 0x47, 0x24, 0x17, 0, 0xFF, 0xFF, 0xFF, 0xFF, 0x0F]);
}

#[test]
fn login_bytes() {
    assert_eq!(
        build_login_payload("bob", &[9, 8]),
        vec![3, b'b', b'o', b'b', 2, 9, 8, 1]
    );
    assert_eq!(build_login_payload("", &[]), vec![0, 0, 1]);
    let long = "x".repeat(200);
    let p = build_login_payload(&long, &[7; 300]);
    assert_eq!(&p[..2], &[0xC8, 0x01]);
    assert_eq!(&p[202..204], &[0xAC, 0x02]);
    assert_eq!(p.len(), 2 + 200 + 2 + 300 + 1);
    assert_eq!(build_login_payload("Я", &[]), vec![2, 0xD0, 0xAF, 0, 1]);
}

#[test]
fn modulus_padding() {
    let m = vec![0x7Fu8; 256];
    let p = padded_modulus_be(&m).unwrap();
    assert_eq!(p.len(), 257);
    assert_eq!(p[0], 0);
    assert_eq!(&p[1..], &m[..]);
    let m = vec![0x80u8; 256];
    let p = padded_modulus_be(&m).unwrap();
    assert_eq!(p.len(), 257);
    assert_eq!(p[0], 0);
    assert_eq!(&p[1..], &m[..]);
    let m = vec![0x80u8, 1];
    let p = padded_modulus_be(&m).unwrap();
    assert_eq!(p.len(), 257);
    assert_eq!(&p[..255], &[0u8; 255][..]);
    assert_eq!(&p[255..], &[0x80, 1]);
    assert_eq!(padded_modulus_be(&[]).unwrap(), vec![0u8; 257]);
    assert_eq!(padded_modulus_be(&vec![0x7Fu8; 257]).unwrap(), vec![0x7Fu8; 257]);
    assert_eq!(padded_modulus_be(&vec![0x80u8; 257]), None);
    assert_eq!(padded_modulus_be(&vec![1u8; 258]), None);
}

#[test]
fn token_lengths() {
    assert_eq!(token_length(0), Some(0));
    assert_eq!(token_length(32), Some(32));
    assert_eq!(token_length(-32), Some(32));
    assert_eq!(token_length(1024), Some(1024));
    assert_eq!(token_length(-1024), Some(1024));
    assert_eq!(token_length(1025), None);
    assert_eq!(token_length(-1025), None);
    assert_eq!(token_length(i32::MIN), None);
    assert_eq!(token_length(i32::MAX), None);
}

#[test]
fn modifier_words() {
    assert_eq!(format_modifiers(0, true), "");
    assert_eq!(format_modifiers(0x0001, false), "public");
    assert_eq!(format_modifiers(0x0019, false), "public static final");
    assert_eq!(format_modifiers(0x0601, true), "public abstract interface");
    assert_eq!(format_modifiers(0x0601, false), "public abstract");
    assert_eq!(format_modifiers(0x0200, true), "interface");
    assert_eq!(format_modifiers(0x0200, false), "");
    for m in [0, 1, 0x7, 0xFFF, 0x1000, -1, 0x0A5A, i32::MIN, 0x0DF7] {
        for c in [false, true] {
            assert_eq!(format_modifiers(m, c), modifiers_oracle(m, c));
        }
    }
}

#[test]
fn small_things() {
    assert_eq!(NotificationType::Info.icon_name(), "info");
    assert_eq!(NotificationType::Success.icon_name(), "success");
    assert_eq!(NotificationType::Warning.icon_name(), "warning");
    assert_eq!(NotificationType::Error.icon_name(), "error");
    assert_eq!(AppTab::default(), AppTab::SessionChanger);
    assert_ne!(NotificationState::FadingIn, NotificationState::FadingOut);
    assert!(SoundNotification::is_local_message("<a> [L] hello"));
    assert!(SoundNotification::is_local_message("[L]"));
    assert!(!SoundNotification::is_local_message("[G] hello"));
    assert!(!SoundNotification::is_local_message("[ L]"));
    assert!(!SoundNotification::is_local_message(""));
}
