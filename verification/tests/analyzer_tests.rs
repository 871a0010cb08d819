use jhook::analyzer::{diff_bytes, packets_to_csv, parse_hex_color};
use jhook::netlog::{make_record, PacketDirection, PacketRecord};
use jhook::ui::matches_search;

fn color_oracle(s: &str) -> Option<[u8; 3]> {
    let clean = s.trim().trim_start_matches('#');
    if clean.len() == 6 {
        let r = u8::from_str_radix(&clean[0..2], 16).ok()?;
        let g = u8::from_str_radix(&clean[2..4], 16).ok()?;
        let b = u8::from_str_radix(&clean[4..6], 16).ok()?;
        Some([r, g, b])
    } else {
        None
    }
}

fn csv_oracle(records: &[PacketRecord]) -> String {
    let mut out = String::from("id,ts,dir,name,len,tags\n");
    for r in records {
        let dir = match r.dir {
            PacketDirection::Inbound => "in",
            PacketDirection::Outbound => "out",
        };
        let tags = r.tags.join("|").replace(',', ";");
        out.push_str(&format!("{},{},{},{},{},{}\n", r.id, r.ts_millis, dir, r.name, r.len, tags));
    }
    out
}

fn diff_oracle(a: &[u8], b: &[u8]) -> (Option<usize>, usize) {
    let min_len = a.len().min(b.len());
    let first = (0..min_len).find(|i| a[*i] != b[*i]);
    let count = a.iter().take(min_len).zip(b.iter()).filter(|(x, y)| x != y).count()
        + a.len().saturating_sub(min_len)
        + b.len().saturating_sub(min_len);
    (first, count)
}

#[test]
fn colours() {
    assert_eq!(parse_hex_color("#1A2B3C"), Some([0x1A, 0x2B, 0x3C]));
    assert_eq!(parse_hex_color("  ##ffFF00\t\n"), Some([255, 255, 0]));
    assert_eq!(parse_hex_color("000000"), Some([0, 0, 0]));
    assert_eq!(parse_hex_color("+1+a+F"), Some([1, 10, 15]));
    assert_eq!(parse_hex_color("#12345"), None);
    assert_eq!(parse_hex_color("#1234567"), None);
    assert_eq!(parse_hex_color("#12345G"), None);
    assert_eq!(parse_hex_color("#-12345"), None);
    assert_eq!(parse_hex_color("1+2345"), None);
    assert_eq!(parse_hex_color("#12 345"), None);
    assert_eq!(parse_hex_color(""), None);
    assert_eq!(parse_hex_color("###"), None);
    assert_eq!(parse_hex_color("1234#6"), None);
    assert_eq!(parse_hex_color("ééé"), None);
    assert_eq!(parse_hex_color("\u{2003}#a0B1c2\u{2003}"), Some([0xA0, 0xB1, 0xC2]));
    for s in [
        "#1A2B3C", "1a2b3c", " #000000 ", "+1+2+3", "++1234", "12+456", "#GGGGGG", "#12345", "",
        "#", "######", "abcdef", "ABCDEF", "#0x1234", "12 456", "#+f+f+f", "1234+6", "0000++",
    ] {
        assert_eq!(parse_hex_color(s), color_oracle(s), "for {:?}", s);
    }
}

#[test]
fn packet_differences() {
    assert_eq!(diff_bytes(&[], &[]), (None, 0));
    assert_eq!(diff_bytes(&[1, 2, 3], &[1, 2, 3]), (None, 0));
    assert_eq!(diff_bytes(&[1, 2, 3], &[1, 9, 3, 4, 5]), (Some(1), 3));
    assert_eq!(diff_bytes(&[1, 2, 3, 4], &[1, 2]), (None, 2));
    assert_eq!(diff_bytes(&[], &[7]), (None, 1));
    let cases: [(&[u8], &[u8]); 5] = [
        (&[0, 0, 0], &[1, 1, 1]),
        (&[5; 40], &[5; 39]),
        (&[1, 2, 3, 4, 5], &[1, 2, 0, 4, 0]),
        (&[9], &[]),
        (&[1, 2], &[2, 1, 0, 0]),
    ];
    for (a, b) in cases {
        assert_eq!(diff_bytes(a, b), diff_oracle(a, b));
    }
}

#[test]
fn table_of_records() {
    assert_eq!(packets_to_csv(&[]), "id,ts,dir,name,len,tags\n");
    let mut a = make_record(7, 1234, PacketDirection::Inbound, "Ping".to_string(), vec![1, 2, 3]);
    a.tags = vec!["boss,loot".to_string(), "x".to_string(), "".to_string(), ",".to_string()];
    let b = make_record(u64::MAX, 0, PacketDirection::Outbound, "Имя,пакета".to_string(), vec![]);
    assert_eq!(
        packets_to_csv(&[a.clone(), b.clone()]),
        format!(
            "id,ts,dir,name,len,tags\n7,1234,in,Ping,3,boss;loot|x||;\n{},0,out,Имя,пакета,0,\n",
            u64::MAX
        )
    );
    assert_eq!(packets_to_csv(&[a.clone(), b.clone()]), csv_oracle(&[a, b]));
}

#[test]
fn search_in_lower_case() {
    assert!(matches_search("", "anything"));
    assert!(matches_search("", ""));
    assert!(matches_search("STRING", "java.lang.String"));
    assert!(matches_search("lang", "java.LANG.String"));
    assert!(matches_search("привет", "ПРИВЕТ МИР"));
    assert!(!matches_search("x", ""));
    assert!(!matches_search("strings", "java.lang.String"));
}
