use mem_viewer::{
    _get_type_of,
    address_text, ascii_label, byte_record, byte_records, decimal_string, fixed_digits, isolate_bytes,
    isolate_str, isolate_u16, isolate_u64, isolation_buffer, label_column, render_table, type_label,
    TableKind, HEADER_LEN,
};

#[test]
fn byte_69_renders_in_every_column() {
    let r = byte_record(0x10, 69);
    assert_eq!(r.address, 0x10);
    assert_eq!(r.hex, "45");
    assert_eq!(r.dec, "069");
    assert_eq!(r.bin, "01000101");
    assert_eq!(r.label, "E");
}

#[test]
fn special_labels() {
    assert_eq!(ascii_label(0), "NUL");
    assert_eq!(ascii_label(32), "SPC");
    assert_eq!(ascii_label(127), "DEL");
    assert_eq!(ascii_label(8), "BS");
    assert_eq!(ascii_label(27), "ESC");
    assert_eq!(ascii_label(31), "US");
    assert_eq!(ascii_label(128), "...");
    assert_eq!(ascii_label(255), "...");
    assert_eq!(ascii_label(33), "!");
    assert_eq!(ascii_label(126), "~");
}

#[test]
fn label_columns_are_three_wide() {
    assert_eq!(label_column(69), " E ");
    assert_eq!(label_column(8), "BS ");
    assert_eq!(label_column(0), "NUL");
    assert_eq!(label_column(200), "...");
    for b in 0..=255u8 {
        assert_eq!(label_column(b).chars().count(), 3);
    }
}

#[test]
fn extreme_bytes() {
    let r = byte_record(0, 255);
    assert_eq!((r.hex.as_str(), r.dec.as_str(), r.bin.as_str()), ("ff", "255", "11111111"));
    let z = byte_record(0, 0);
    assert_eq!((z.hex.as_str(), z.dec.as_str(), z.bin.as_str()), ("00", "000", "00000000"));
}

#[test]
fn hex_column_reads_back() {
    let bytes: Vec<u8> = (0..=255u8).rev().collect();
    let column: String = byte_records(0x4000, &bytes).iter().map(|r| r.hex.clone()).collect();
    let decoded: Vec<u8> = (0..column.len())
        .step_by(2)
        .map(|i| u8::from_str_radix(&column[i..i + 2], 16).unwrap())
        .collect();
    assert_eq!(decoded, bytes);
}

#[test]
fn hex_column_reads_back_serialized() {
    let container = isolate_bytes(&[1, 2, 3, 250], 24).unwrap();
    let column: String = byte_records(0, &container).iter().map(|r| r.hex.clone()).collect();
    assert_eq!(column, "010203fa");
}

#[test]
fn header_rule() {
    assert_eq!(isolation_buffer(vec![1, 2, 3, 4, 5, 6, 7, 8], 8), vec![1, 2, 3, 4, 5, 6, 7, 8]);
    assert_eq!(isolation_buffer(vec![1, 2], 8), vec![1, 2]);
    assert_eq!(isolation_buffer(vec![1, 2, 3, 4, 5, 6, 7, 8, 9, 10], 8), vec![9, 10]);
    assert_eq!(isolation_buffer(vec![1, 2, 3, 4, 5, 6, 7, 8], 16), Vec::<u8>::new());
    assert_eq!(isolation_buffer(Vec::new(), 0), Vec::<u8>::new());
    assert_eq!(HEADER_LEN, 8);
}

#[test]
fn scalars_keep_their_bytes() {
    assert_eq!(isolate_u64(69, 8).unwrap(), vec![69, 0, 0, 0, 0, 0, 0, 0]);
    assert_eq!(isolate_u64(0x0102030405060708, 8).unwrap(), vec![8, 7, 6, 5, 4, 3, 2, 1]);
    assert_eq!(isolate_u16(0xabcd, 2).unwrap(), vec![0xcd, 0xab]);
    assert_eq!(isolate_u16(0xabcd, 8).unwrap(), vec![0xcd, 0xab]);
}

#[test]
fn containers_lose_their_header() {
    assert_eq!(isolate_bytes(&[7, 8, 9], 24).unwrap(), vec![7, 8, 9]);
    assert_eq!(isolate_bytes(&[], 24).unwrap(), Vec::<u8>::new());
    assert_eq!(isolate_str("ab", 16).unwrap(), b"ab".to_vec());
    let whole = isolate_bytes(&[], 8).unwrap();
    assert_eq!(whole, vec![0; 8]);
}

#[test]
fn two_byte_value_table() {
    let table = render_table(TableKind::Memory, 0x1000, &[0x45, 0x00]);
    let lines: Vec<&str> = table.lines().collect();
    assert_eq!(lines.len(), 5);
    assert_eq!(lines[2], " 0000000000001000 | 45  | 069 | 01000101 |   E ");
    assert_eq!(lines[3], " 0000000000001001 | 00  | 000 | 00000000 |  NUL");
    assert_eq!(lines[4], "");
}

#[test]
fn hello_labels() {
    let labels: Vec<String> = byte_records(0, "Hello".as_bytes()).into_iter().map(|r| r.label).collect();
    assert_eq!(labels, vec!["H", "e", "l", "l", "o"]);
}

#[test]
fn container_table_layout() {
    let table = render_table(TableKind::Container, 0xff, &[32, 127]);
    assert_eq!(
        table,
        "     Address     | Hex | Dec |    Bin   | ASCII\n\
         ---------------Container Content---------------\n\
         00000000000000ff | 20  | 032 | 00100000 | SPC\n\
         0000000000000100 | 7f  | 127 | 01111111 | DEL\n\n"
    );
}

#[test]
fn empty_table() {
    let table = render_table(TableKind::Memory, 0, &[]);
    assert_eq!(
        table,
        "     Address      | Hex | Dec |    Bin   | ASCII\n-----------------Memory Content-----------------\n\n"
    );
}

#[test]
fn numbers_in_text() {
    assert_eq!(decimal_string(0), "0");
    assert_eq!(decimal_string(10), "10");
    assert_eq!(decimal_string(u64::MAX), "18446744073709551615");
    assert_eq!(fixed_digits(255, 16, 4), "00ff");
    assert_eq!(fixed_digits(0x1ff, 16, 2), "ff");
    assert_eq!(fixed_digits(5, 2, 0), "");
    assert_eq!(address_text(0xdeadbeef), "00000000deadbeef");
    assert_eq!(address_text(usize::MAX), "ffffffffffffffff");
}

#[test]
fn reference_sigil_is_stripped() {
    assert_eq!(type_label("&u16"), "u16");
    assert_eq!(type_label("&&str"), "&str");
    assert_eq!(type_label("u16"), "u16");
    assert_eq!(type_label(""), "");
}

#[test]
fn records_count_matches_size() {
    assert_eq!(byte_records(0, &7u64.to_le_bytes()).len(), 8);
    assert_eq!(byte_records(0, &1.5f32.to_le_bytes()).len(), 4);
    assert_eq!(byte_records(0, &[]).len(), 0);
    let top = byte_records(usize::MAX, &[1]);
    assert_eq!(top[0].address, usize::MAX);
}

#[test]
fn type_tags_follow_compiler_names() {
    let my_u16: u16 = 69;
    assert_eq!(_get_type_of(&my_u16), "&u16");
    assert_eq!(_get_type_of("Hello"), "&str");
    let v: Vec<Box<u8>> = vec![Box::new(1)];
    assert_eq!(_get_type_of(&v), "&alloc::vec::Vec<alloc::boxed::Box<u8>>");
    assert_eq!(_get_type_of(7usize), "usize");
    assert_eq!(_get_type_of(vec![1u64]), "alloc::vec::Vec<u64>");
}
