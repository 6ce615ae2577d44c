use camrig::notice::{parse_record, read_word, ByteOrder, ADDED, HEADER_SIZE, RECORD_SIZE, REMOVED};

fn record(order: ByteOrder, watch: i32, mask: u32, cookie: u32, name: &[u8], pad: usize) -> Vec<u8> {
    let mut bytes = Vec::new();
    let len = (name.len() + pad) as u32;
    for word in [watch as u32, mask, cookie, len] {
        match order {
            ByteOrder::Little => bytes.extend_from_slice(&word.to_le_bytes()),
            ByteOrder::Big => bytes.extend_from_slice(&word.to_be_bytes()),
        }
    }
    bytes.extend_from_slice(name);
    bytes.resize(bytes.len() + pad, 0);
    bytes
}

#[test]
fn layout_constants() {
    assert_eq!(HEADER_SIZE, 16);
    assert_eq!(RECORD_SIZE, 272);
    assert_eq!(ADDED, 0x100);
    assert_eq!(REMOVED, 0x200);
}

#[test]
fn read_word_in_both_orders() {
    let bytes = [0x01u8, 0x02, 0x03, 0x04, 0xff];
    assert_eq!(read_word(&bytes, 0, ByteOrder::Little), 0x0403_0201);
    assert_eq!(read_word(&bytes, 0, ByteOrder::Big), 0x0102_0304);
    assert_eq!(read_word(&bytes, 1, ByteOrder::Little), 0xff04_0302);
    assert_eq!(read_word(&bytes, 1, ByteOrder::Big), 0x0203_04ff);
}

#[test]
fn parse_little_endian_record() {
    let bytes = record(ByteOrder::Little, 1, 0x200, 7, b"video0", 10);
    let notice = parse_record(&bytes, ByteOrder::Little).unwrap();
    assert_eq!(notice.watch, 1);
    assert_eq!(notice.mask, 0x200);
    assert_eq!(notice.cookie, 7);
    assert_eq!(notice.name_len, 16);
    assert_eq!(notice.name, b"video0".to_vec());
    assert!(notice.is_removal());
    assert!(!notice.is_addition());
}

#[test]
fn parse_big_endian_record() {
    let bytes = record(ByteOrder::Big, -2, 0x100, 0xdead_beef, b"video12", 1);
    let notice = parse_record(&bytes, ByteOrder::Big).unwrap();
    assert_eq!(notice.watch, -2);
    assert_eq!(notice.mask, 0x100);
    assert_eq!(notice.cookie, 0xdead_beef);
    assert_eq!(notice.name_len, 8);
    assert_eq!(notice.name, b"video12".to_vec());
    assert!(notice.is_addition());
    assert!(!notice.is_removal());
}

#[test]
fn negative_watch_edges() {
    let bytes = record(ByteOrder::Little, i32::MIN, 0, 0, b"", 0);
    assert_eq!(parse_record(&bytes, ByteOrder::Little).unwrap().watch, i32::MIN);
    let bytes = record(ByteOrder::Little, -1, 0, 0, b"", 0);
    assert_eq!(parse_record(&bytes, ByteOrder::Little).unwrap().watch, -1);
    let bytes = record(ByteOrder::Little, i32::MAX, 0, 0, b"", 0);
    assert_eq!(parse_record(&bytes, ByteOrder::Little).unwrap().watch, i32::MAX);
}

#[test]
fn short_input_gives_nothing() {
    assert!(parse_record(&[], ByteOrder::Little).is_none());
    assert!(parse_record(&[0u8; 15], ByteOrder::Little).is_none());
    assert!(parse_record(&[0u8; 16], ByteOrder::Little).is_some());
}

#[test]
fn header_alone_has_empty_name() {
    let notice = parse_record(&[0u8; 16], ByteOrder::Big).unwrap();
    assert_eq!(notice.name, Vec::<u8>::new());
    assert_eq!(notice.mask, 0);
    assert!(!notice.is_removal());
    assert!(!notice.is_addition());
}

#[test]
fn name_ends_at_first_zero() {
    let mut bytes = record(ByteOrder::Little, 1, 0x300, 0, b"vid", 1);
    bytes.extend_from_slice(b"eo0");
    let notice = parse_record(&bytes, ByteOrder::Little).unwrap();
    assert_eq!(notice.name, b"vid".to_vec());
    assert!(notice.is_removal());
    assert!(notice.is_addition());
}

#[test]
fn name_without_zero_runs_to_the_end() {
    let bytes = record(ByteOrder::Little, 1, 0x200, 0, b"video3", 0);
    let notice = parse_record(&bytes, ByteOrder::Little).unwrap();
    assert_eq!(notice.name, b"video3".to_vec());
}

#[test]
fn name_field_stops_at_record_size() {
    let long = vec![b'a'; 300];
    let bytes = record(ByteOrder::Little, 1, 0x200, 0, &long, 0);
    let notice = parse_record(&bytes, ByteOrder::Little).unwrap();
    assert_eq!(notice.name, vec![b'a'; 256]);
}

#[test]
fn mask_bits_are_read_alone() {
    let bytes = record(ByteOrder::Little, 1, 0xffff_fdff, 0, b"x", 0);
    let notice = parse_record(&bytes, ByteOrder::Little).unwrap();
    assert!(!notice.is_removal());
    assert!(notice.is_addition());
    let bytes = record(ByteOrder::Little, 1, 0x4000_0200, 0, b"x", 0);
    let notice = parse_record(&bytes, ByteOrder::Little).unwrap();
    assert!(notice.is_removal());
    assert!(!notice.is_addition());
}
