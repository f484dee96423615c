use std::io::{Cursor, Read, Write};

use mojiharau::engine::decide_entry;
use mojiharau::path_safety::is_safe_entry_name;
use mojiharau::{check_and_canonicalize, fix_mojibake, open_source, EntryAction, FixError};
use zip::write::FileOptions;
use zip::{CompressionMethod, ZipArchive, ZipWriter};

/// "日本語" in Shift_JIS.
const NIHONGO: [u8; 6] = [0x93, 0xFA, 0x96, 0x7B, 0x8C, 0xEA];
/// "日本/" in Shift_JIS.
const NIHON_DIR: [u8; 5] = [0x93, 0xFA, 0x96, 0x7B, b'/'];
/// A lead byte followed by a byte that cannot trail it.
const BROKEN: [u8; 3] = [0x81, 0x20, b'a'];

enum Item<'a> {
    File(&'a str, &'a [u8]),
    Dir(&'a str),
}

fn build(items: &[Item], method: CompressionMethod) -> Vec<u8> {
    let mut w = ZipWriter::new(Cursor::new(Vec::new()));
    let options = FileOptions::default().compression_method(method);
    for item in items {
        match item {
            Item::File(name, data) => {
                w.start_file(*name, options).unwrap();
                w.write_all(data).unwrap();
            }
            Item::Dir(name) => {
                w.add_directory(*name, options).unwrap();
            }
        }
    }
    w.finish().unwrap().into_inner()
}

/// Replaces every occurrence of the placeholder `from` by raw bytes of the
/// same length.
fn patch(mut bytes: Vec<u8>, from: &[u8], to: &[u8]) -> Vec<u8> {
    assert_eq!(from.len(), to.len());
    let mut i = 0;
    let mut found = 0;
    while i + from.len() <= bytes.len() {
        if &bytes[i..i + from.len()] == from {
            bytes[i..i + from.len()].copy_from_slice(to);
            found += 1;
            i += from.len();
        } else {
            i += 1;
        }
    }
    assert!(found >= 2);
    bytes
}

fn convert(bytes: Vec<u8>) -> Result<mojiharau::Converted, FixError> {
    let mut src = open_source(bytes).unwrap_or_else(|_| panic!("source does not open"));
    fix_mojibake(&mut src)
}

/// Names and stored data of every entry, as the zip reader reads them back.
fn contents(bytes: &[u8]) -> Vec<(String, Vec<u8>, Vec<u8>, u32, CompressionMethod)> {
    let mut a = ZipArchive::new(Cursor::new(bytes.to_vec())).unwrap();
    let mut out = Vec::new();
    for i in 0..a.len() {
        let mut f = a.by_index(i).unwrap();
        let name = f.name().to_string();
        let raw = f.name_raw().to_vec();
        let crc = f.crc32();
        let method = f.compression();
        let mut data = Vec::new();
        f.read_to_end(&mut data).unwrap();
        out.push((name, raw, data, crc, method));
    }
    out
}

#[test]
fn two_shift_jis_entries_are_renamed() {
    let src = build(
        &[Item::File("QQQQQQ", b"hello"), Item::Dir("RRRR")],
        CompressionMethod::Stored,
    );
    let src = patch(src, b"QQQQQQ", &NIHONGO);
    let src = patch(src, b"RRRR/", &NIHON_DIR);
    let converted = convert(src.clone()).unwrap_or_else(|_| panic!("conversion failed"));
    let out = contents(&converted.archive);
    assert_eq!(out.len(), 2);
    assert_eq!(out[0].0, "日本語");
    assert_eq!(out[0].2, b"hello".to_vec());
    assert_eq!(out[1].0, "日本/");
    let before = contents(&src);
    assert_eq!(out[0].3, before[0].3);
    assert_eq!(out[0].4, before[0].4);
    assert_eq!(converted.reports.len(), 2);
    assert_eq!(converted.reports[0].decoded_name, "日本語");
    assert_eq!(converted.reports[0].encoding, "Shift_JIS");
    assert!(converted.reports[0].copied);
    assert!(!converted.reports[0].is_dir);
    assert_eq!(converted.reports[0].size, 5);
    assert!(converted.reports[1].is_dir);
    assert!(converted.reports[1].copied);
}

#[test]
fn malformed_name_fails_the_run() {
    let src = build(&[Item::File("QQQ", b"data")], CompressionMethod::Stored);
    let src = patch(src, b"QQQ", &BROKEN);
    match convert(src) {
        Err(FixError::MalformedName { index }) => assert_eq!(index, 0),
        _ => panic!("expected a malformed name"),
    }
}

#[test]
fn malformed_name_after_good_entries_fails_the_run() {
    let src = build(
        &[Item::File("a.txt", b"1"), Item::File("b.txt", b"2"), Item::File("QQQ", b"3")],
        CompressionMethod::Stored,
    );
    let src = patch(src, b"QQQ", &BROKEN);
    match convert(src) {
        Err(FixError::MalformedName { index }) => assert_eq!(index, 2),
        _ => panic!("expected a malformed name"),
    }
}

#[test]
fn traversal_entry_is_left_out() {
    let src = build(
        &[
            Item::File("a.txt", b"first"),
            Item::File("../evil.txt", b"bad"),
            Item::File("b.txt", b"second"),
        ],
        CompressionMethod::Stored,
    );
    let converted = convert(src).unwrap_or_else(|_| panic!("conversion failed"));
    let out = contents(&converted.archive);
    let names: Vec<&str> = out.iter().map(|e| e.0.as_str()).collect();
    assert_eq!(names, vec!["a.txt", "b.txt"]);
    assert_eq!(out[1].2, b"second".to_vec());
    assert_eq!(converted.reports.len(), 3);
    assert!(!converted.reports[1].copied);
    assert_eq!(converted.reports[1].decoded_name, "../evil.txt");
}

#[test]
fn absolute_entry_is_left_out() {
    let src = build(
        &[Item::File("/etc/passwd", b"x"), Item::File("ok.txt", b"y")],
        CompressionMethod::Stored,
    );
    let converted = convert(src).unwrap_or_else(|_| panic!("conversion failed"));
    let out = contents(&converted.archive);
    assert_eq!(out.len(), 1);
    assert_eq!(out[0].0, "ok.txt");
}

#[test]
fn compressed_payloads_read_back_the_same() {
    let big: Vec<u8> = (0..5000u32).map(|i| (i % 7) as u8).collect();
    let src = build(
        &[Item::File("one.bin", &big), Item::Dir("d"), Item::File("d/two.txt", b"two two two")],
        CompressionMethod::Deflated,
    );
    let converted = convert(src.clone()).unwrap_or_else(|_| panic!("conversion failed"));
    let before = contents(&src);
    let after = contents(&converted.archive);
    assert_eq!(before.len(), after.len());
    for (b, a) in before.iter().zip(after.iter()) {
        assert_eq!(b.0, a.0);
        assert_eq!(b.2, a.2);
        assert_eq!(b.3, a.3);
        assert_eq!(b.4, a.4);
    }
    assert_eq!(after[0].2, big);
    assert_eq!(after[0].4, CompressionMethod::Deflated);
}

#[test]
fn second_run_changes_nothing() {
    let src = build(
        &[Item::File("x.txt", b"xx"), Item::Dir("sub"), Item::File("sub/y.txt", b"yy")],
        CompressionMethod::Deflated,
    );
    let first = convert(src).unwrap_or_else(|_| panic!("first run failed"));
    let second = convert(first.archive.clone()).unwrap_or_else(|_| panic!("second run failed"));
    assert_eq!(contents(&first.archive), contents(&second.archive));
}

#[test]
fn order_is_kept() {
    let src = build(
        &[Item::File("c", b"3"), Item::File("a", b"1"), Item::File("b", b"2")],
        CompressionMethod::Stored,
    );
    let converted = convert(src).unwrap_or_else(|_| panic!("conversion failed"));
    let out = contents(&converted.archive);
    let names: Vec<&str> = out.iter().map(|e| e.0.as_str()).collect();
    assert_eq!(names, vec!["c", "a", "b"]);
    for (k, r) in converted.reports.iter().enumerate() {
        assert_eq!(r.index, k);
    }
}

#[test]
fn empty_archive_gives_empty_archive() {
    let src = build(&[], CompressionMethod::Stored);
    let converted = convert(src).unwrap_or_else(|_| panic!("conversion failed"));
    assert!(contents(&converted.archive).is_empty());
    assert!(converted.reports.is_empty());
}

#[test]
fn garbage_is_no_container() {
    assert!(matches!(open_source(b"not a zip at all".to_vec()), Err(FixError::Open(_))));
    assert!(matches!(open_source(Vec::new()), Err(FixError::Open(_))));
}

#[test]
fn comment_is_reported() {
    let src = build(&[Item::File("a.txt", b"1")], CompressionMethod::Stored);
    let converted = convert(src).unwrap_or_else(|_| panic!("conversion failed"));
    assert_eq!(converted.reports[0].comment, "");
    assert_eq!(converted.reports[0].stored_name, "a.txt");
}

#[test]
fn safe_names() {
    assert!(is_safe_entry_name("a/b/c.txt"));
    assert!(is_safe_entry_name(""));
    assert!(is_safe_entry_name("..a/b"));
    assert!(is_safe_entry_name("a/b.."));
    assert!(is_safe_entry_name("日本語/ファイル"));
    assert!(!is_safe_entry_name("/abs"));
    assert!(!is_safe_entry_name("\\abs"));
    assert!(!is_safe_entry_name("C:x"));
    assert!(!is_safe_entry_name(".."));
    assert!(!is_safe_entry_name("../x"));
    assert!(!is_safe_entry_name("a/../x"));
    assert!(!is_safe_entry_name("a\\..\\x"));
    assert!(!is_safe_entry_name("a/.."));
    assert!(!is_safe_entry_name("a\0b"));
}

#[test]
fn entry_decisions() {
    assert_eq!(decide_entry("x", true), EntryAction::Abort);
    assert_eq!(decide_entry("../x", true), EntryAction::Abort);
    assert_eq!(decide_entry("../x", false), EntryAction::Skip);
    assert_eq!(decide_entry("x/y", false), EntryAction::Copy);
}

#[test]
fn missing_path_is_an_error() {
    assert!(check_and_canonicalize("").is_err());
    assert!(check_and_canonicalize("/no/such/dir/for/this/test.zip").is_err());
}

/// Sets `bits` in the byte at `offset` past the `nth` occurrence of `sig`.
fn mark(mut bytes: Vec<u8>, sig: [u8; 4], nth: usize, offset: usize, bits: u8) -> Vec<u8> {
    let mut seen = 0;
    let mut i = 0;
    while i + 4 <= bytes.len() {
        if bytes[i..i + 4] == sig {
            if seen == nth {
                bytes[i + offset] |= bits;
                return bytes;
            }
            seen += 1;
        }
        i += 1;
    }
    panic!("signature not found");
}

#[test]
fn broken_local_header_cannot_be_read() {
    let src = build(&[Item::File("a.txt", b"1"), Item::File("b.txt", b"2")], CompressionMethod::Stored);
    let src = mark(src, [0x50, 0x4b, 0x03, 0x04], 1, 0, 0x80);
    match convert(src) {
        Err(FixError::Read { index, .. }) => assert_eq!(index, 1),
        _ => panic!("expected a read failure"),
    }
}

#[test]
fn encrypted_entry_stops_the_run() {
    let src = build(&[Item::File("a.txt", b"1"), Item::File("b.txt", b"22")], CompressionMethod::Stored);
    let src = mark(src, [0x50, 0x4b, 0x01, 0x02], 1, 8, 1);
    match convert(src) {
        Err(FixError::Read { index }) => assert_eq!(index, 1),
        _ => panic!("expected the encrypted entry to stop the run"),
    }
}

#[test]
fn canonical_path_is_absolute() {
    let p = check_and_canonicalize(".").unwrap_or_else(|_| panic!("current directory"));
    assert!(p.is_absolute());
}

#[test]
fn aes_field_without_flag_stops_the_run() {
    let mut w = ZipWriter::new(Cursor::new(Vec::new()));
    let options = FileOptions::default().compression_method(CompressionMethod::Stored);
    w.start_file_with_extra_data("x.txt", options).unwrap();
    w.write_all(&[0x77, 0x77, 7, 0, 2, 0, b'A', b'E', 3, 0, 0]).unwrap();
    w.end_extra_data().unwrap();
    w.write_all(b"data").unwrap();
    let src = w.finish().unwrap().into_inner();
    // The writer refuses the AES header id, so it is put in afterwards.
    let src = patch(src, &[0x77, 0x77, 7, 0], &[0x01, 0x99, 7, 0]);
    match convert(src) {
        Err(FixError::Read { index }) => assert_eq!(index, 0),
        _ => panic!("expected the entry to stop the run"),
    }
}
