use jhook::packets::reader::{ModPacketReader, ModReadable};
use jhook::packets::writer::ModPacketWriter;
use jhook::packets::{Bound, PacketError};
use jhook::varint::{encode_varint, read_varint_prefix, scan_varint, VarintScan};
use uuid::Uuid;

#[test]
fn scans_small_and_large_numbers() {
    assert_eq!(scan_varint(&[0x00], 0), VarintScan::Complete { value: 0, len: 1 });
    assert_eq!(scan_varint(&[0x7F], 0), VarintScan::Complete { value: 127, len: 1 });
    assert_eq!(scan_varint(&[0x80, 0x01], 0), VarintScan::Complete { value: 128, len: 2 });
    assert_eq!(scan_varint(&[0xAC, 0x02], 0), VarintScan::Complete { value: 300, len: 2 });
    assert_eq!(
        scan_varint(&[0xFF, 0xFF, 0xFF, 0xFF, 0x07], 0),
        VarintScan::Complete { value: i32::MAX, len: 5 }
    );
    assert_eq!(
        scan_varint(&[0xFF, 0xFF, 0xFF, 0xFF, 0x0F], 0),
        VarintScan::Complete { value: -1, len: 5 }
    );
    assert_eq!(
        scan_varint(&[0x80, 0x80, 0x80, 0x80, 0x08], 0),
        VarintScan::Complete { value: i32::MIN, len: 5 }
    );
}

#[test]
fn fifth_byte_is_cut_to_thirty_two_bits() {
    assert_eq!(
        scan_varint(&[0x80, 0x80, 0x80, 0x80, 0x7F], 0),
        VarintScan::Complete { value: -268435456, len: 5 }
    );
    assert_eq!(
        scan_varint(&[0x81, 0x80, 0x80, 0x80, 0x10], 0),
        VarintScan::Complete { value: 1, len: 5 }
    );
}

#[test]
fn scans_from_an_offset() {
    assert_eq!(scan_varint(&[9, 9, 0x96, 0x01, 9], 2), VarintScan::Complete { value: 150, len: 2 });
    assert_eq!(scan_varint(&[1, 2], 2), VarintScan::Truncated);
    assert_eq!(scan_varint(&[1, 2], 3), VarintScan::Truncated);
}

#[test]
fn truncated_and_overlong_numbers() {
    assert_eq!(scan_varint(&[], 0), VarintScan::Truncated);
    assert_eq!(scan_varint(&[0x80], 0), VarintScan::Truncated);
    assert_eq!(scan_varint(&[0x80, 0x80, 0x80, 0x80], 0), VarintScan::Truncated);
    assert_eq!(scan_varint(&[0x80, 0x80, 0x80, 0x80, 0x80], 0), VarintScan::Overlong);
    assert_eq!(scan_varint(&[0x80, 0x80, 0x80, 0x80, 0x80, 0x01], 0), VarintScan::Overlong);
}

#[test]
fn encodes_numbers() {
    assert_eq!(encode_varint(0), vec![0x00]);
    assert_eq!(encode_varint(1), vec![0x01]);
    assert_eq!(encode_varint(127), vec![0x7F]);
    assert_eq!(encode_varint(128), vec![0x80, 0x01]);
    assert_eq!(encode_varint(257), vec![0x81, 0x02]);
    assert_eq!(encode_varint(300), vec![0xAC, 0x02]);
    assert_eq!(encode_varint(i32::MAX), vec![0xFF, 0xFF, 0xFF, 0xFF, 0x07]);
    assert_eq!(encode_varint(-1), vec![0xFF, 0xFF, 0xFF, 0xFF, 0x0F]);
    assert_eq!(encode_varint(i32::MIN), vec![0x80, 0x80, 0x80, 0x80, 0x08]);
}

#[test]
fn encode_then_scan_round_trips() {
    for v in [0, 1, 63, 64, 127, 128, 255, 16383, 16384, 2097151, 2097152, 268435455, 268435456, i32::MAX, -1, -2, -128, -129, i32::MIN] {
        let bytes = encode_varint(v);
        assert_eq!(scan_varint(&bytes, 0), VarintScan::Complete { value: v, len: bytes.len() });
    }
}

#[test]
fn reads_fixed_width_numbers() {
    let data = [
        0xFF, 0x80, 0x00, 0x01, 0x12, 0x34, 0xFF, 0xFE, 0x12, 0x34, 0x56, 0x78, 0xFF, 0xFF, 0xFF,
        0xFD, 0x01, 0x02, 0x03, 0x04, 0x05, 0x06, 0x07, 0x08, 0xFF, 0xFF, 0xFF, 0xFF, 0xFF, 0xFF,
        0xFF, 0xFC,
    ];
    let mut r = ModPacketReader::new(&data);
    assert_eq!(r.read_u8(), Ok(0xFF));
    assert_eq!(r.read_i8(), Ok(-128));
    assert_eq!(r.read_bool(), Ok(false));
    assert_eq!(r.read_bool(), Ok(true));
    assert_eq!(r.read_u16_be(), Ok(0x1234));
    assert_eq!(r.read_i16_be(), Ok(-2));
    assert_eq!(r.read_u32_be(), Ok(0x12345678));
    assert_eq!(r.read_i32_be(), Ok(-3));
    assert_eq!(r.read_u64_be(), Ok(0x0102030405060708));
    assert_eq!(r.read_i64_be(), Ok(-4));
    assert_eq!(r.available(), 0);
    assert_eq!(r.remaining(), &[] as &[u8]);
}

#[test]
fn a_short_read_fails_and_leaves_the_cursor() {
    let data = [1u8, 2, 3];
    let mut r = ModPacketReader::new(&data);
    assert_eq!(r.read_u32_be(), Err(PacketError::NotEnoughData { need: 4, available: 3 }));
    assert_eq!(r.read_u64_be(), Err(PacketError::NotEnoughData { need: 8, available: 3 }));
    assert_eq!(r.remaining(), &[1u8, 2, 3][..]);
    assert_eq!(r.read_u16_be(), Ok(0x0102));
    assert_eq!(r.read_u16_be(), Err(PacketError::NotEnoughData { need: 2, available: 1 }));
    assert_eq!(r.read_u8(), Ok(3));
    assert_eq!(r.read_u8(), Err(PacketError::NotEnoughData { need: 1, available: 0 }));
    assert_eq!(r.ensure_available(0), Ok(()));
    assert_eq!(r.ensure_available(1), Err(PacketError::NotEnoughData { need: 1, available: 0 }));
}

#[test]
fn reads_float_bits() {
    let data = 1.5f32.to_bits().to_be_bytes();
    let mut r = ModPacketReader::new(&data);
    assert_eq!(r.read_f32_bits_be().map(f32::from_bits), Ok(1.5f32));
}

#[test]
fn reader_varint_semantics() {
    let data = [0xAC, 0x02, 0x05];
    let mut r = ModPacketReader::new(&data);
    assert_eq!(r.read_varint(), Ok(300));
    assert_eq!(r.remaining(), &[0x05u8][..]);

    let data = [0x80, 0x80, 0x80, 0x80, 0x80, 0x01, 0x07];
    let mut r = ModPacketReader::new(&data);
    assert_eq!(r.read_varint(), Err(PacketError::VarIntTooLong));
    assert_eq!(r.remaining(), &[0x07u8][..]);

    let data = [0x80, 0x80, 0x80, 0x80, 0x80];
    let mut r = ModPacketReader::new(&data);
    assert_eq!(r.read_varint(), Err(PacketError::NotEnoughData { need: 1, available: 0 }));
    assert_eq!(r.available(), 0);

    let data = [0x80, 0x80];
    let mut r = ModPacketReader::new(&data);
    assert_eq!(r.read_varint(), Err(PacketError::NotEnoughData { need: 1, available: 0 }));
    assert_eq!(r.available(), 0);
}

#[test]
fn reads_strings() {
    let data = [5, b'h', b'e', b'l', b'l', b'o', 9];
    let mut r = ModPacketReader::new(&data);
    assert_eq!(r.read_string_varint(), Ok("hello".to_string()));
    assert_eq!(r.remaining(), &[9u8][..]);

    let data = [2, 0xD0, 0x9F];
    let mut r = ModPacketReader::new(&data);
    assert_eq!(r.read_string_varint(), Ok("П".to_string()));

    let data = [0];
    let mut r = ModPacketReader::new(&data);
    assert_eq!(r.read_string_varint(), Ok(String::new()));
}

#[test]
fn string_errors() {
    let data = [5, b'h', b'e'];
    let mut r = ModPacketReader::new(&data);
    assert_eq!(
        r.read_string_varint(),
        Err(PacketError::NotEnoughData { need: 5, available: 2 })
    );
    assert_eq!(r.remaining(), &[b'h', b'e'][..]);

    let data = [2, 0xFF, 0xFE];
    let mut r = ModPacketReader::new(&data);
    assert_eq!(r.read_string_varint(), Err(PacketError::InvalidUtf8));
    assert_eq!(r.available(), 0);

    let data = [0xFF, 0xFF, 0xFF, 0xFF, 0x0F, 1, 2];
    let mut r = ModPacketReader::new(&data);
    assert_eq!(
        r.read_string_varint(),
        Err(PacketError::NotEnoughData { need: usize::MAX, available: 2 })
    );
}

#[test]
fn reads_bytes() {
    let data = [1u8, 2, 3, 4];
    let mut r = ModPacketReader::new(&data);
    assert_eq!(r.read_bytes(3), Ok(vec![1, 2, 3]));
    assert_eq!(r.read_bytes(2), Err(PacketError::NotEnoughData { need: 2, available: 1 }));
    assert_eq!(r.read_bytes(0), Ok(vec![]));
}

#[test]
fn reads_uuid() {
    let data = [
        0xa1, 0xa2, 0xa3, 0xa4, 0xb1, 0xb2, 0xc1, 0xc2, 0xd1, 0xd2, 0xd3, 0xd4, 0xd5, 0xd6, 0xd7,
        0xd8, 0x00,
    ];
    let mut r = ModPacketReader::new(&data);
    let u = r.read_uuid().unwrap();
    assert_eq!(u, Uuid::parse_str("a1a2a3a4-b1b2-c1c2-d1d2-d3d4d5d6d7d8").unwrap());
    assert_eq!(r.available(), 1);
    assert_eq!(r.read_uuid(), Err(PacketError::NotEnoughData { need: 16, available: 1 }));
    assert_eq!(r.available(), 1);
}

#[test]
fn generic_read_dispatches_on_the_type() {
    let data = [0x01, 0xFF, 0x00, 0x12, 0x34, 0xFF, 0xFF, 0x00, 0x00, 0x00, 0x2A];
    let mut r = ModPacketReader::new(&data);
    assert_eq!(r.read::<u8>(), Ok(1));
    assert_eq!(r.read::<i8>(), Ok(-1));
    assert_eq!(r.read::<bool>(), Ok(false));
    assert_eq!(r.read::<u16>(), Ok(0x1234));
    assert_eq!(r.read::<i16>(), Ok(-1));
    assert_eq!(r.read::<u32>(), Ok(42));
    assert_eq!(r.read::<u64>(), Err(PacketError::NotEnoughData { need: 8, available: 0 }));
    assert_eq!(<i32 as ModReadable>::read_from(&mut r), Err(PacketError::NotEnoughData { need: 4, available: 0 }));
}

#[test]
fn writes_fixed_width_numbers() {
    let mut w = ModPacketWriter::new();
    w.write_u8(0xFF);
    w.write_i8(-128);
    w.write_bool(false);
    w.write_bool(true);
    w.write_u16_be(0x1234);
    w.write_i16_be(-2);
    w.write_u32_be(0x12345678);
    w.write_i32_be(-3);
    w.write_u64_be(0x0102030405060708);
    w.write_i64_be(-4);
    assert_eq!(
        w.into_bytes(),
        vec![
            0xFF, 0x80, 0x00, 0x01, 0x12, 0x34, 0xFF, 0xFE, 0x12, 0x34, 0x56, 0x78, 0xFF, 0xFF,
            0xFF, 0xFD, 0x01, 0x02, 0x03, 0x04, 0x05, 0x06, 0x07, 0x08, 0xFF, 0xFF, 0xFF, 0xFF,
            0xFF, 0xFF, 0xFF, 0xFC,
        ]
    );
}

#[test]
fn writes_float_bits() {
    let mut w = ModPacketWriter::new();
    w.write_f32_bits_be(1.5f32.to_bits());
    assert_eq!(w.into_bytes(), 1.5f32.to_be_bytes().to_vec());
}

#[test]
fn writer_varint_semantics() {
    let cases: [(i32, Vec<u8>); 9] = [
        (0, vec![0x00]),
        (1, vec![0x01]),
        (64, vec![0x40]),
        (127, vec![0x7F]),
        (128, vec![0x80, 0x01]),
        (300, vec![0xAC, 0x02]),
        (i32::MAX, vec![0xFF, 0xFF, 0xFF, 0xFF, 0x07]),
        (-1, vec![0x7F]),
        (-129, vec![0xFF, 0x7E]),
    ];
    for (v, bytes) in cases {
        let mut w = ModPacketWriter::new();
        w.write_varint(v);
        assert_eq!(w.into_bytes(), bytes, "for {}", v);
    }
}

#[test]
fn a_written_number_that_is_not_negative_reads_back() {
    for v in [0, 1, 64, 127, 128, 300, 65535, 1 << 21, i32::MAX] {
        let mut w = ModPacketWriter::new();
        w.write_varint(v);
        let bytes = w.into_bytes();
        let mut r = ModPacketReader::new(&bytes);
        assert_eq!(r.read_varint(), Ok(v));
        assert_eq!(r.available(), 0);
    }
}

#[test]
fn writes_strings_and_bytes() {
    let mut w = ModPacketWriter::new();
    assert_eq!(w.write_string_be_len("hello"), Ok(()));
    w.write_bytes(&[1, 2]);
    w.write(&"П".to_string());
    w.write(&vec![7u8, 8]);
    assert_eq!(
        w.into_bytes(),
        vec![5, b'h', b'e', b'l', b'l', b'o', 1, 2, 2, 0xD0, 0x9F, 0, 0, 0, 2, 7, 8]
    );
}

#[test]
fn written_values_read_back() {
    let mut w = ModPacketWriter::new();
    w.write(&0xABu8);
    w.write(&-5i8);
    w.write(&true);
    w.write(&0xBEEFu16);
    w.write(&-300i16);
    w.write(&0xDEADBEEFu32);
    w.write(&-70000i32);
    w.write(&0x0123456789ABCDEFu64);
    w.write(&i64::MIN);
    w.write(&"text".to_string());
    let id = Uuid::parse_str("a1a2a3a4-b1b2-c1c2-d1d2-d3d4d5d6d7d8").unwrap();
    w.write(&id);
    w.write_uuid(&id);
    let bytes = w.into_bytes();
    let mut r = ModPacketReader::new(&bytes);
    assert_eq!(r.read::<u8>(), Ok(0xAB));
    assert_eq!(r.read::<i8>(), Ok(-5));
    assert_eq!(r.read::<bool>(), Ok(true));
    assert_eq!(r.read::<u16>(), Ok(0xBEEF));
    assert_eq!(r.read::<i16>(), Ok(-300));
    assert_eq!(r.read::<u32>(), Ok(0xDEADBEEF));
    assert_eq!(r.read::<i32>(), Ok(-70000));
    assert_eq!(r.read::<u64>(), Ok(0x0123456789ABCDEF));
    assert_eq!(r.read::<i64>(), Ok(i64::MIN));
    assert_eq!(r.read_string_varint(), Ok("text".to_string()));
    assert_eq!(r.read::<Uuid>(), Ok(id));
    assert_eq!(r.read_uuid(), Ok(id));
    assert_eq!(r.available(), 0);
}

#[test]
fn writes_uuid_halves_in_order() {
    let id = Uuid::from_u64_pair(0x0102030405060708, 0x090A0B0C0D0E0F10);
    let mut w = ModPacketWriter::new();
    w.write_uuid(&id);
    assert_eq!(w.into_bytes(), (1u8..=16).collect::<Vec<u8>>());
}

#[test]
fn bounds_are_two() {
    assert_ne!(Bound::Client, Bound::Server);
}

#[test]
fn reads_counted_bytes_and_strings() {
    let data = [0u8, 0, 0, 2, 7, 8, 0, 0, 0, 2, 1, b'a', 2, b'b', b'c', 3, b'x', b'y', b'z'];
    let mut r = ModPacketReader::new(&data);
    assert_eq!(r.read::<Vec<u8>>(), Ok(vec![7, 8]));
    assert_eq!(r.read::<Vec<String>>(), Ok(vec!["a".to_string(), "bc".to_string()]));
    assert_eq!(r.read::<String>(), Ok("xyz".to_string()));
    assert_eq!(r.available(), 0);

    let data = [0u8, 0, 0, 5, 7, 8];
    let mut r = ModPacketReader::new(&data);
    assert_eq!(r.read::<Vec<u8>>(), Err(PacketError::NotEnoughData { need: 5, available: 2 }));
    assert_eq!(r.available(), 2);
    let mut r = ModPacketReader::new(&data[..3]);
    assert_eq!(r.read::<Vec<u8>>(), Err(PacketError::NotEnoughData { need: 4, available: 3 }));
    assert_eq!(r.read::<Vec<String>>(), Err(PacketError::NotEnoughData { need: 4, available: 3 }));

    let data = [0u8, 0, 0, 3, 1, b'a', 1];
    let mut r = ModPacketReader::new(&data);
    assert_eq!(r.read::<Vec<String>>(), Err(PacketError::NotEnoughData { need: 1, available: 0 }));
    let data = [0u8, 0, 0, 9, 1, b'a'];
    let mut r = ModPacketReader::new(&data);
    assert_eq!(r.read::<Vec<String>>(), Err(PacketError::NotEnoughData { need: 9, available: 2 }));
    let data = [0u8, 0, 0, 2, 1, 0xFF, 0];
    let mut r = ModPacketReader::new(&data);
    assert_eq!(r.read::<Vec<String>>(), Err(PacketError::InvalidUtf8));
    let data = [2u8, b'a'];
    let mut r = ModPacketReader::new(&data);
    assert_eq!(r.read::<String>(), Err(PacketError::NotEnoughData { need: 2, available: 1 }));
}

#[test]
fn writes_counted_bytes_and_strings() {
    let mut w = ModPacketWriter::new();
    w.write(&"ab");
    w.write(&&[5u8, 6][..]);
    w.write(&vec!["x".to_string(), "".to_string(), "yz".to_string()]);
    let bytes = w.into_bytes();
    assert_eq!(
        bytes,
        vec![2, b'a', b'b', 0, 0, 0, 2, 5, 6, 0, 0, 0, 3, 1, b'x', 0, 2, b'y', b'z']
    );
    let mut r = ModPacketReader::new(&bytes);
    assert_eq!(r.read::<String>(), Ok("ab".to_string()));
    assert_eq!(r.read::<Vec<u8>>(), Ok(vec![5, 6]));
    assert_eq!(
        r.read::<Vec<String>>(),
        Ok(vec!["x".to_string(), "".to_string(), "yz".to_string()])
    );
}

#[test]
fn lenient_prefix_read() {
    assert_eq!(read_varint_prefix(&[]), (0, 0));
    assert_eq!(read_varint_prefix(&[0x05, 0x80]), (5, 1));
    assert_eq!(read_varint_prefix(&[0xAC, 0x02, 0x07]), (300, 2));
    assert_eq!(read_varint_prefix(&[0x80, 0x80]), (0, 2));
    assert_eq!(read_varint_prefix(&[0x81]), (1, 1));
    assert_eq!(read_varint_prefix(&[0xFF, 0xFF, 0xFF, 0xFF, 0x0F, 0x01]), (u32::MAX, 5));
    assert_eq!(read_varint_prefix(&[0xFF, 0xFF, 0xFF, 0xFF, 0xFF, 0x01]), (u32::MAX, 5));
    assert_eq!(read_varint_prefix(&[0x80, 0x80, 0x80, 0x80, 0x90, 0x01]), (0, 5));
}
