use photosort::cursor::ScanCursor;
use photosort::error::{FileParseError, Marker};
use photosort::scanner::{same_bytes, scan_header};

const TAIL: [u8; 8] = [0x00, 0x00, 0x00, 0x01, 0x00, 0x00, 0x00, 0x48];
const FILLER: [u8; 7] = [0x00, 0x00, 0x00, 0x01, 0x00, 0x00, 0x00];

fn scanner_header(prefix: &[u8], text: &[u8]) -> Vec<u8> {
    let mut h: Vec<u8> = Vec::new();
    h.extend_from_slice(prefix);
    h.extend_from_slice(&[0x49, 0x49, 0x2a, 0x00, 0x08, 0x00, 0x00, 0x00]);
    h.extend_from_slice(&[0x0b, 0x00, 0x25, 0x88, 0x04, 0x00, 0x01]);
    h.push(0x48);
    h.extend_from_slice(&TAIL);
    h.extend_from_slice(&FILLER);
    h.extend_from_slice(text);
    while h.len() < 1024 {
        h.push(0x00);
    }
    h
}

fn seek_error(r: Result<Vec<u8>, FileParseError>) -> (Marker, Vec<u8>) {
    match r {
        Err(FileParseError::FileSeekError { marker, found }) => (marker, found),
        other => panic!("expected a seek error, got {:?}", other),
    }
}

#[test]
fn scan_finds_date_at_start_of_raw_file() {
    let h = scanner_header(&[], b"2020:02:01 14:32:14");
    assert_eq!(h.len(), 1024);
    assert_eq!(scan_header(&h).unwrap(), b"2020:02:01".to_vec());
}

#[test]
fn scan_ignores_prefix_before_first_marker() {
    let jpeg = [0xff, 0xd8, 0xff, 0xe1, 0x3b, 0xfe, 0x45, 0x78, 0x69, 0x66, 0x00, 0x00];
    let h = scanner_header(&jpeg, b"2019:12:31 23:59:59");
    assert_eq!(scan_header(&h).unwrap(), b"2019:12:31".to_vec());
    let long: Vec<u8> = (0..500).map(|_| 0x11u8).collect();
    let h = scanner_header(&long, b"2019:12:31 23:59:59");
    assert_eq!(scan_header(&h).unwrap(), b"2019:12:31".to_vec());
}

#[test]
fn scan_takes_exactly_ten_bytes() {
    let h = scanner_header(&[], b"ABCDEFGHIJKLMNOPQRS");
    assert_eq!(scan_header(&h).unwrap(), b"ABCDEFGHIJ".to_vec());
}

#[test]
fn scan_accepts_header_that_ends_with_the_date() {
    let mut h = scanner_header(&[1, 2, 3], b"2020:02:01");
    h.truncate(3 + 8 + 7 + 1 + 8 + 7 + 10);
    assert_eq!(scan_header(&h).unwrap(), b"2020:02:01".to_vec());
}

#[test]
fn scan_names_byte_order_when_second_i_is_missing() {
    let mut h = scanner_header(&[], b"2020:02:01 14:32:14");
    h[1] = 0x4d;
    let (marker, found) = seek_error(scan_header(&h));
    assert_eq!(marker, Marker::ByteOrder);
    assert_eq!(found, h[1..]);
    h[40] = 0x49;
    let (marker, found) = seek_error(scan_header(&h));
    assert_eq!(marker, Marker::ByteOrder);
    assert_eq!(found, h[1..41]);
}

#[test]
fn scan_names_byte_order_when_first_i_is_altered() {
    let mut h = scanner_header(&[], b"2020:02:01 14:32:14");
    h[0] = 0x4d;
    let (marker, found) = seek_error(scan_header(&h));
    assert_eq!(marker, Marker::ByteOrder);
    assert_eq!(found, h[2..]);
}

#[test]
fn scan_names_magic_when_star_is_missing() {
    let mut h = scanner_header(&[0xff, 0xd8], b"2020:02:01 14:32:14");
    h[4] = 0x00;
    let (marker, found) = seek_error(scan_header(&h));
    assert_eq!(marker, Marker::Magic);
    assert_eq!(found, h[4..]);
    h[6] = 0x2a;
    let (marker, found) = seek_error(scan_header(&h));
    assert_eq!(marker, Marker::Magic);
    assert_eq!(found, vec![0x00, 0x00, 0x2a]);
}

#[test]
fn scan_names_pattern_when_block_tail_is_altered() {
    for at in 0..8 {
        let mut h = scanner_header(&[], b"2020:02:01 14:32:14");
        h[16 + at] ^= 0x10;
        let (marker, _) = seek_error(scan_header(&h));
        assert_eq!(marker, Marker::Pattern);
    }
    let mut h = scanner_header(&[], b"2020:02:01 14:32:14");
    h[18] = 0x48;
    let (marker, found) = seek_error(scan_header(&h));
    assert_eq!(marker, Marker::Pattern);
    assert_eq!(found, vec![0x00, 0x00, 0x48]);
}

#[test]
fn scan_names_pattern_when_separator_is_absent() {
    let mut h = scanner_header(&[], b"2020:02:01 14:32:14");
    h[10] = 0x00;
    let (marker, found) = seek_error(scan_header(&h));
    assert_eq!(marker, Marker::Pattern);
    assert_eq!(found, Vec::<u8>::new());
}

#[test]
fn scan_names_date_when_header_is_cut_short() {
    let full = scanner_header(&[], b"2020:02:01 14:32:14");
    let date_at = 8 + 7 + 1 + 8 + 7;
    for n in (date_at - 7)..(date_at + 10) {
        let (marker, found) = seek_error(scan_header(&full[..n]));
        assert_eq!(marker, Marker::DateField);
        if n <= date_at {
            assert_eq!(found, Vec::<u8>::new());
        } else {
            assert_eq!(found, full[date_at..n]);
        }
    }
    assert!(scan_header(&full[..date_at + 10]).is_ok());
}

#[test]
fn scan_names_first_missing_step_of_cut_header() {
    let full = scanner_header(&[9, 9], b"2020:02:01 14:32:14");
    assert_eq!(seek_error(scan_header(&full[..0])).0, Marker::ByteOrder);
    assert_eq!(seek_error(scan_header(&full[..2])).0, Marker::ByteOrder);
    assert_eq!(seek_error(scan_header(&full[..3])).0, Marker::ByteOrder);
    assert_eq!(seek_error(scan_header(&full[..4])).0, Marker::Magic);
    assert_eq!(seek_error(scan_header(&full[..5])).0, Marker::Pattern);
    assert_eq!(seek_error(scan_header(&full[..25])).0, Marker::Pattern);
    assert_eq!(seek_error(scan_header(&full[..26])).0, Marker::DateField);
}

#[test]
fn scan_rejects_header_without_any_marker() {
    let h = vec![0u8; 1024];
    let (marker, found) = seek_error(scan_header(&h));
    assert_eq!(marker, Marker::ByteOrder);
    assert_eq!(found, Vec::<u8>::new());
}

#[test]
fn scan_does_not_take_a_stray_last_byte_for_a_marker() {
    let (marker, found) = seek_error(scan_header(&[0x49, 0x00]));
    assert_eq!(marker, Marker::ByteOrder);
    assert_eq!(found, vec![0x00]);
    let (marker, found) = seek_error(scan_header(&[0x49, 0x49, 0x00]));
    assert_eq!(marker, Marker::Magic);
    assert_eq!(found, vec![0x00]);
}

#[test]
fn cursor_reads_through_delimiter() {
    let bytes = [1u8, 2, 3, 2, 5];
    let mut cursor = ScanCursor::new(&bytes);
    assert_eq!(cursor.offset(), 0);
    assert_eq!(cursor.read_until(2), vec![1, 2]);
    assert_eq!(cursor.offset(), 2);
    assert_eq!(cursor.read_until(2), vec![3, 2]);
    assert_eq!(cursor.offset(), 4);
    assert_eq!(cursor.read_until(2), vec![5]);
    assert_eq!(cursor.offset(), 5);
    assert_eq!(cursor.read_until(2), Vec::<u8>::new());
    assert_eq!(cursor.offset(), 5);
}

#[test]
fn cursor_takes_and_advances_within_bounds() {
    let bytes = [1u8, 2, 3, 4, 5, 6];
    let mut cursor = ScanCursor::new(&bytes);
    assert_eq!(cursor.take(2), vec![1, 2]);
    cursor.advance(1);
    assert_eq!(cursor.offset(), 3);
    assert_eq!(cursor.take(0), Vec::<u8>::new());
    assert_eq!(cursor.take(5), vec![4, 5, 6]);
    assert_eq!(cursor.offset(), 6);
    cursor.advance(usize::MAX);
    assert_eq!(cursor.offset(), 6);
    assert_eq!(cursor.take(usize::MAX), Vec::<u8>::new());
}

#[test]
fn same_bytes_compares_contents() {
    assert!(same_bytes(&[], &[]));
    assert!(same_bytes(&[1, 2, 3], &[1, 2, 3]));
    assert!(!same_bytes(&[1, 2, 3], &[1, 2]));
    assert!(!same_bytes(&[1, 2, 3], &[1, 2, 4]));
}

#[test]
fn marker_knows_its_bytes() {
    assert_eq!(Marker::ByteOrder.expected(), vec![0x49]);
    assert_eq!(Marker::Magic.expected(), vec![0x2a]);
    assert_eq!(Marker::Pattern.expected(), TAIL.to_vec());
    assert_eq!(Marker::DateField.expected(), Vec::<u8>::new());
    assert_eq!(Marker::ByteOrder.expected_len(), 1);
    assert_eq!(Marker::Magic.expected_len(), 1);
    assert_eq!(Marker::Pattern.expected_len(), 8);
    assert_eq!(Marker::DateField.expected_len(), 10);
}
