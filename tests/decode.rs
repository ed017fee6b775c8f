use binlog_events::column::ColumnTypeDict;
use binlog_events::{
    read_body, read_next_event, BinlogEvent, ByteCursor, Config, DecodeError, EventBody, EventHeader,
    GtidEvent, InitHeader, InitValue, QueryEvent, RotateLog, TableMap, Tell, XidEvent,
};

fn conf(mode: &str) -> Config {
    Config { conntype: mode.to_string() }
}

fn le32(v: u32) -> Vec<u8> {
    v.to_le_bytes().to_vec()
}

fn header_bytes(type_code: u8, event_length: u32) -> Vec<u8> {
    let mut b = Vec::new();
    b.extend(le32(0x5d8b_1c20));
    b.push(type_code);
    b.extend(le32(7));
    b.extend(le32(event_length));
    b.extend(le32(4096));
    b.extend(0x0001u16.to_le_bytes());
    b
}

fn header_for(type_code: u8, event_length: u32) -> EventHeader {
    let mut cur = ByteCursor::new(header_bytes(type_code, event_length));
    EventHeader::new(&mut cur, &conf("file")).unwrap()
}

#[test]
fn header_fields_default_mode() {
    let mut cur = ByteCursor::new(header_bytes(2, 60));
    let h = EventHeader::new(&mut cur, &conf("file")).unwrap();
    assert_eq!(h.timestamp, 0x5d8b_1c20);
    assert_eq!(h.type_code, BinlogEvent::QueryEvent);
    assert_eq!(h.server_id, 7);
    assert_eq!(h.event_length, 60);
    assert_eq!(h.next_position, 4096);
    assert_eq!(h.flags, 1);
    assert_eq!(h.header_length, 19);
    assert_eq!(cur.tell(), 19);
}

#[test]
fn header_repl_mode_takes_one_more_byte() {
    let mut bytes = vec![0u8];
    bytes.extend(header_bytes(2, 60));
    let mut cur = ByteCursor::new(bytes);
    let h = EventHeader::new(&mut cur, &conf("repl")).unwrap();
    assert_eq!(h.header_length, 20);
    assert_eq!(cur.tell(), 20);
    assert_eq!(h.timestamp, 0x5d8b_1c20);
    assert_eq!(h.event_length, 60);
    assert_eq!(h.flags, 1);
}

#[test]
fn header_truncated_input() {
    let mut bytes = header_bytes(2, 60);
    bytes.truncate(12);
    let mut cur = ByteCursor::new(bytes);
    assert_eq!(EventHeader::new(&mut cur, &conf("file")).unwrap_err(), DecodeError::TruncatedHeader);
    assert_eq!(cur.tell(), 0);
}

#[test]
fn header_event_length_below_header_length() {
    let mut cur = ByteCursor::new(header_bytes(2, 10));
    assert_eq!(EventHeader::new(&mut cur, &conf("file")).unwrap_err(), DecodeError::TruncatedHeader);
    assert_eq!(cur.tell(), 0);
    let mut bytes = vec![0u8];
    bytes.extend(header_bytes(2, 19));
    let mut cur = ByteCursor::new(bytes);
    assert_eq!(EventHeader::new(&mut cur, &conf("repl")).unwrap_err(), DecodeError::TruncatedHeader);
}

#[test]
fn type_codes_classified() {
    let cases = [
        (4u8, BinlogEvent::RotateLogEvent),
        (2, BinlogEvent::QueryEvent),
        (33, BinlogEvent::GtidEvent),
        (19, BinlogEvent::TableMapEvent),
        (30, BinlogEvent::WriteEvent),
        (31, BinlogEvent::UpdateEvent),
        (32, BinlogEvent::DeleteEvent),
        (16, BinlogEvent::XidEvent),
        (38, BinlogEvent::XAPREPARELOGEVENT),
        (99, BinlogEvent::UNKNOWNEVENT),
        (0, BinlogEvent::UNKNOWNEVENT),
    ];
    for (code, kind) in cases {
        assert_eq!(EventHeader::get_type_code_event(&Some(code)), kind);
    }
    assert_eq!(EventHeader::get_type_code_event(&None), BinlogEvent::UNKNOWNEVENT);
}

#[test]
fn unknown_event_refused_without_reading() {
    let mut bytes = header_bytes(99, 25);
    bytes.extend([1, 2, 3, 4, 5, 6]);
    let mut cur = ByteCursor::new(bytes);
    let h = EventHeader::new(&mut cur, &conf("file")).unwrap();
    assert_eq!(h.type_code, BinlogEvent::UNKNOWNEVENT);
    assert_eq!(read_body(&h, &mut cur).unwrap_err(), DecodeError::UnsupportedEventKind);
    assert_eq!(cur.tell(), 19);
}

#[test]
fn row_events_left_to_row_decoder() {
    let mut bytes = header_bytes(30, 25);
    bytes.extend([1, 2, 3, 4, 5, 6]);
    let mut cur = ByteCursor::new(bytes);
    let h = EventHeader::new(&mut cur, &conf("file")).unwrap();
    assert!(matches!(read_body(&h, &mut cur), Ok(EventBody::Rows)));
    assert_eq!(cur.tell(), 19);
}

fn query_body() -> Vec<u8> {
    let mut b = Vec::new();
    b.extend(le32(11));
    b.extend(le32(3));
    b.push(4);
    b.extend(0u16.to_le_bytes());
    b.extend(3u16.to_le_bytes());
    b.extend([9, 9, 9]);
    b.extend(b"test");
    b.push(0);
    b.extend(b"BEGIN");
    b
}

#[test]
fn query_event_fields() {
    let body = query_body();
    let el = 19 + body.len() as u32;
    let h = header_for(2, el);
    let mut cur = ByteCursor::new(body.clone());
    let q = QueryEvent::read_event(&h, &mut cur).unwrap();
    assert_eq!(q.thread_id, 11);
    assert_eq!(q.execute_seconds, 3);
    assert_eq!(q.database, "test");
    assert_eq!(q.command, "BEGIN");
    assert_eq!(cur.tell(), body.len() as u64);
    assert_eq!(q.database.len() + q.command.len() + 13 + 1 + 3, (el - 19) as usize);
}

#[test]
fn query_event_invalid_utf8_replaced() {
    let mut body = query_body();
    body.truncate(body.len() - 5);
    body.extend([b'A', 0xff, b'B']);
    let h = header_for(2, 19 + body.len() as u32);
    let mut cur = ByteCursor::new(body);
    let q = QueryEvent::read_event(&h, &mut cur).unwrap();
    assert_eq!(q.command, "A\u{fffd}B");
}

#[test]
fn query_event_length_underflow() {
    let body = query_body();
    let h = header_for(2, 19 + 20);
    let mut cur = ByteCursor::new(body);
    assert_eq!(QueryEvent::read_event(&h, &mut cur).unwrap_err(), DecodeError::NegativeRemainingLength);
    assert_eq!(cur.tell(), 0);
}

#[test]
fn query_event_truncated() {
    let mut body = query_body();
    let h = header_for(2, 19 + body.len() as u32);
    body.truncate(body.len() - 2);
    let mut cur = ByteCursor::new(body);
    assert_eq!(QueryEvent::read_event(&h, &mut cur).unwrap_err(), DecodeError::TruncatedBody);
    let mut cur = ByteCursor::new(vec![1, 2, 3]);
    assert_eq!(QueryEvent::read_event(&h, &mut cur).unwrap_err(), DecodeError::TruncatedBody);
}

#[test]
fn xid_event_value() {
    let h = header_for(16, 31);
    let mut cur = ByteCursor::new(0x0102_0304_0506_0708u64.to_le_bytes().to_vec());
    let x = XidEvent::read_event(&h, &mut cur).unwrap();
    assert_eq!(x.xid, 0x0102_0304_0506_0708);
    assert_eq!(cur.tell(), 8);
    let mut cur = ByteCursor::new(vec![1, 2, 3]);
    assert_eq!(XidEvent::read_event(&h, &mut cur).unwrap_err(), DecodeError::TruncatedBody);
}

#[test]
fn rotate_event_file_name() {
    let mut body = 4u64.to_le_bytes().to_vec();
    body.extend(b"mysql-bin.000002");
    let h = header_for(4, 19 + body.len() as u32);
    let mut cur = ByteCursor::new(body);
    let r = RotateLog::read_event(&h, &mut cur).unwrap();
    assert_eq!(r.binlog_file, "mysql-bin.000002");
    assert_eq!(cur.tell(), 24);
}

#[test]
fn rotate_event_short_length() {
    let h = header_for(4, 19 + 5);
    let mut cur = ByteCursor::new(vec![0u8; 12]);
    assert_eq!(RotateLog::read_event(&h, &mut cur).unwrap_err(), DecodeError::NegativeRemainingLength);
    assert_eq!(cur.tell(), 0);
}

fn gtid_body(with_order: bool) -> Vec<u8> {
    let mut b = vec![1u8];
    b.extend(1u8..=16);
    b.extend(42u64.to_le_bytes());
    if with_order {
        b.extend(100u64.to_le_bytes());
        b.extend(101u64.to_le_bytes());
    }
    b
}

#[test]
fn gtid_event_fields() {
    let body = gtid_body(true);
    let h = header_for(33, 19 + 41);
    let mut cur = ByteCursor::new(body);
    let g = GtidEvent::read_event(&h, &mut cur).unwrap();
    let sid: Vec<u8> = (1u8..=16).collect();
    assert_eq!(g.gtid.as_bytes().to_vec(), sid);
    assert_eq!(g.gno_id, 42);
    assert_eq!(g.last_committed, 100);
    assert_eq!(g.sequence_number, 101);
    assert!(!g.legacy_format);
    assert_eq!(cur.tell(), 41);
}

#[test]
fn gtid_event_legacy_format() {
    let body = gtid_body(false);
    let h = header_for(33, 19 + 25);
    let mut cur = ByteCursor::new(body);
    let g = GtidEvent::read_event(&h, &mut cur).unwrap();
    assert_eq!(g.gno_id, 42);
    assert_eq!(g.last_committed, 0);
    assert_eq!(g.sequence_number, 0);
    assert!(g.legacy_format);
    assert_eq!(cur.tell(), 25);
}

#[test]
fn gtid_event_truncated() {
    let mut body = gtid_body(true);
    body.truncate(30);
    let h = header_for(33, 19 + 41);
    let mut cur = ByteCursor::new(body);
    assert_eq!(GtidEvent::read_event(&h, &mut cur).unwrap_err(), DecodeError::TruncatedBody);
    assert_eq!(cur.tell(), 0);
}

fn table_map_body() -> Vec<u8> {
    let mut b = vec![0x21, 0, 0, 0, 0, 0, 1, 0];
    b.push(2);
    b.extend(b"db");
    b.push(0);
    b.push(5);
    b.extend(b"users");
    b.push(0);
    let codes = [15u8, 15, 246, 254, 254, 252, 3];
    b.push(codes.len() as u8);
    b.extend(codes);
    let meta = [
        44u8, 1, // varchar, max length 300
        10, 0, // varchar, max length 10
        10, 2, // decimal(10, 2)
        247, 1, // enum stored in a string column
        254, 20, // char(20)
        2, // blob
    ];
    b.push(meta.len() as u8);
    b.extend(meta);
    b
}

#[test]
fn table_map_event_columns() {
    let body = table_map_body();
    let h = header_for(19, 19 + body.len() as u32);
    let mut cur = ByteCursor::new(body.clone());
    let t = TableMap::read_event(&h, &mut cur).unwrap();
    assert_eq!(t.database_name, "db");
    assert_eq!(t.table_name, "users");
    assert_eq!(t.column_count, 7);
    assert_eq!(t.column_info.len(), 7);
    let expect: [(ColumnTypeDict, Vec<usize>); 7] = [
        (ColumnTypeDict::MYSQL_TYPE_VARCHAR, vec![2]),
        (ColumnTypeDict::MYSQL_TYPE_VARCHAR, vec![1]),
        (ColumnTypeDict::MYSQL_TYPE_NEWDECIMAL, vec![10, 2]),
        (ColumnTypeDict::MYSQL_TYPE_STRING, vec![65535]),
        (ColumnTypeDict::MYSQL_TYPE_STRING, vec![20]),
        (ColumnTypeDict::MYSQL_TYPE_BLOB, vec![2]),
        (ColumnTypeDict::MYSQL_TYPE_LONG, vec![0]),
    ];
    for (c, (ty, meta)) in t.column_info.iter().zip(expect.iter()) {
        assert_eq!(c.column_type, *ty);
        assert_eq!(&c.column_meta, meta);
    }
    assert_eq!(cur.tell(), body.len() as u64);
}

#[test]
fn table_map_event_truncated() {
    let mut body = table_map_body();
    body.pop();
    let h = header_for(19, 19 + body.len() as u32);
    let mut cur = ByteCursor::new(body);
    assert_eq!(TableMap::read_event(&h, &mut cur).unwrap_err(), DecodeError::TruncatedBody);
    assert_eq!(cur.tell(), 0);
}

#[test]
fn table_map_new_is_empty() {
    let t = TableMap::new();
    assert_eq!(t.database_name, "");
    assert_eq!(t.table_name, "");
    assert_eq!(t.column_count, 0);
    assert!(t.column_info.is_empty());
}

#[test]
fn varchar_meta_prefix_width() {
    let mut cur = ByteCursor::new(300u16.to_le_bytes().to_vec());
    assert_eq!(TableMap::read_column_meta(&mut cur, &15).unwrap(), vec![2]);
    let mut cur = ByteCursor::new(10u16.to_le_bytes().to_vec());
    assert_eq!(TableMap::read_column_meta(&mut cur, &253).unwrap(), vec![1]);
    let mut cur = ByteCursor::new(255u16.to_le_bytes().to_vec());
    assert_eq!(TableMap::read_string_meta(&mut cur).unwrap(), vec![1]);
    let mut cur = ByteCursor::new(256u16.to_le_bytes().to_vec());
    assert_eq!(TableMap::read_string_meta(&mut cur).unwrap(), vec![2]);
}

#[test]
fn string_meta_stored_type_differs() {
    for m in [0u8, 1, 200, 255] {
        let mut cur = ByteCursor::new(vec![248, m]);
        assert_eq!(TableMap::read_column_meta(&mut cur, &254).unwrap(), vec![65535]);
        assert_eq!(cur.tell(), 2);
    }
    let mut cur = ByteCursor::new(vec![254, 30]);
    assert_eq!(TableMap::read_string_type(&mut cur, &254).unwrap(), vec![30]);
}

#[test]
fn decimal_meta_precision_scale() {
    let mut cur = ByteCursor::new(vec![10, 2]);
    assert_eq!(TableMap::read_column_meta(&mut cur, &246).unwrap(), vec![10, 2]);
    let mut cur = ByteCursor::new(vec![10, 2]);
    assert_eq!(TableMap::read_newdecimal(&mut cur).unwrap(), [10, 2]);
}

#[test]
fn one_byte_meta_and_absent_meta() {
    for code in [249u8, 250, 251, 252, 245, 17, 18, 19, 4, 5] {
        let mut cur = ByteCursor::new(vec![3]);
        assert_eq!(TableMap::read_column_meta(&mut cur, &code).unwrap(), vec![3]);
        assert_eq!(cur.tell(), 1);
    }
    let mut cur = ByteCursor::new(vec![7]);
    assert_eq!(TableMap::read_one_bytes(&mut cur).unwrap(), vec![7]);
    let mut cur = ByteCursor::new(vec![3]);
    assert_eq!(TableMap::read_column_meta(&mut cur, &100).unwrap(), vec![0]);
    assert_eq!(cur.tell(), 0);
    assert_eq!(ColumnTypeDict::from_type_code(&100), ColumnTypeDict::MYSQL_TYPE_UNRECOGNIZED);
}

#[test]
fn column_meta_truncated() {
    let mut cur = ByteCursor::new(vec![10]);
    assert_eq!(TableMap::read_column_meta(&mut cur, &246).unwrap_err(), DecodeError::TruncatedBody);
    assert_eq!(cur.tell(), 0);
}

#[test]
fn next_event_header_and_body() {
    let mut bytes = vec![0u8];
    bytes.extend(header_bytes(16, 20 + 8));
    bytes.extend(77u64.to_le_bytes());
    let mut cur = ByteCursor::new(bytes);
    let (h, body) = read_next_event(&mut cur, &conf("repl")).unwrap();
    assert_eq!(h.header_length, 20);
    match body {
        EventBody::Xid(x) => assert_eq!(x.xid, 77),
        other => panic!("unexpected body {:?}", other),
    }
    assert_eq!(cur.tell(), 28);
}

#[test]
fn session_mode_recognised() {
    assert!(conf("repl").repl_mode());
    assert!(!conf("file").repl_mode());
    assert!(!conf("rep").repl_mode());
    assert!(!conf("").repl_mode());
}
