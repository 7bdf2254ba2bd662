use gcookie::error::GcookieError;
use gcookie::extract::{check_extract, StreamRequest, VolumePath};
use gcookie::navigator::{best_file_name, CdOutcome, CdStep, FileNameEntry, FileNamespace, Lookup, Navigator};
use gcookie::record::{parse_file_arg, parse_u64, FileArg};
use gcookie::sector::SectorCursor;

const ROOT: u64 = 5;

/// A synthetic volume: (parent record, name, record, is directory).
const TREE: [(u64, &str, u64, bool); 3] = [(ROOT, "a", 100, true), (100, "b", 101, true), (101, "c.txt", 102, false)];

fn lookup(parent: u64, name: &str) -> Lookup {
    for (p, n, record, is_directory) in TREE {
        if p == parent && n.eq_ignore_ascii_case(name) {
            return Lookup::Found {
                record,
                is_directory,
                names: vec![FileNameEntry { namespace: FileNamespace::Win32, parent, name: n.to_string() }],
            };
        }
    }
    Lookup::Missing
}

fn find_file(nav: &Navigator, arg: &str) -> Result<u64, GcookieError> {
    match parse_file_arg(arg)? {
        FileArg::Record(n) => Ok(n),
        FileArg::Name(name) => match lookup(nav.current(), &name) {
            Lookup::Found { record, .. } => Ok(record),
            Lookup::Missing => Err(GcookieError::PathResolutionFailed),
        },
    }
}

/// Walks every component but the last, then finds the last in the directory reached.
fn resolve(nav: &mut Navigator, path: &str) -> Result<u64, GcookieError> {
    let parts: Vec<&str> = path.split('/').collect();
    let (file, dirs) = parts.split_last().unwrap();
    for d in dirs {
        let outcome = match nav.plan_cd(d) {
            CdStep::Stay => CdOutcome::Unchanged,
            CdStep::Up => nav.up(),
            CdStep::Lookup => {
                let found = lookup(nav.current(), d);
                nav.enter(found)
            }
        };
        outcome.into_result()?;
    }
    find_file(nav, file)
}

#[test]
fn resolves_path_and_record_number_alike() {
    let mut nav = Navigator::new(ROOT);
    let by_name = resolve(&mut nav, "a/b/c.txt").unwrap();
    assert_eq!(by_name, 102);
    assert_eq!(nav.current(), 101);
    assert_eq!(nav.depth(), 2);
    assert_eq!(nav.display_path(), r"a\b");
    assert_eq!(find_file(&nav, "/102").unwrap(), by_name);
    assert_eq!(find_file(&nav, "/0x66").unwrap(), by_name);
}

#[test]
fn missing_directory_fails_and_stays_at_a() {
    let mut nav = Navigator::new(ROOT);
    assert_eq!(resolve(&mut nav, "a/x/c.txt"), Err(GcookieError::PathResolutionFailed));
    assert_eq!(nav.current(), 100);
    assert_eq!(nav.depth(), 1);
    assert_eq!(nav.display_path(), "a");
    assert_eq!(Navigator::new(ROOT).display_path(), "");
}

#[test]
fn file_is_not_a_directory() {
    let mut nav = Navigator::new(ROOT);
    resolve(&mut nav, "a/b/x").unwrap_err();
    let outcome = nav.enter(lookup(101, "c.txt"));
    assert_eq!(outcome, CdOutcome::NotADirectory);
    assert_eq!(nav.current(), 101);
}

#[test]
fn dot_dot_pops_but_not_past_root() {
    let mut nav = Navigator::new(ROOT);
    assert_eq!(nav.plan_cd(".."), CdStep::Up);
    assert_eq!(nav.plan_cd(""), CdStep::Stay);
    assert_eq!(nav.plan_cd("..."), CdStep::Lookup);
    assert_eq!(nav.up(), CdOutcome::Unchanged);
    assert_eq!(nav.current(), ROOT);
    assert_eq!(resolve(&mut nav, "a/b/../b/c.txt").unwrap(), 102);
    assert_eq!(nav.up(), CdOutcome::WentUp);
    assert_eq!(nav.current(), 100);
}

#[test]
fn unnamed_entry_is_not_entered() {
    let mut nav = Navigator::new(ROOT);
    let found = Lookup::Found {
        record: 9,
        is_directory: true,
        names: vec![FileNameEntry { namespace: FileNamespace::Win32, parent: 77, name: "elsewhere".to_string() }],
    };
    assert_eq!(nav.enter(found), CdOutcome::Unnamed);
    assert_eq!(nav.current(), ROOT);
    assert_eq!(CdOutcome::Unnamed.into_result(), Err(GcookieError::PathResolutionFailed));
    assert_eq!(CdOutcome::NotFound.into_result(), Err(GcookieError::PathResolutionFailed));
    assert_eq!(CdOutcome::Resolved.into_result(), Ok(()));
}

fn entry(namespace: FileNamespace, parent: u64, name: &str) -> FileNameEntry {
    FileNameEntry { namespace, parent, name: name.to_string() }
}

#[test]
fn best_name_prefers_win32_then_win32_and_dos() {
    let names = vec![
        entry(FileNamespace::Dos, 5, "COOKIE~1"),
        entry(FileNamespace::Win32, 9, "Other"),
        entry(FileNamespace::Win32AndDos, 5, "COOKIES"),
        entry(FileNamespace::Win32, 5, "Cookies"),
    ];
    assert_eq!(best_file_name(&names, 5), Some(3));
    assert_eq!(best_file_name(&names[..3].to_vec(), 5), Some(2));
    assert_eq!(best_file_name(&names[..2].to_vec(), 5), Some(0));
    assert_eq!(best_file_name(&names, 9), Some(1));
    assert_eq!(best_file_name(&names, 6), None);
    let posix = vec![entry(FileNamespace::Posix, 5, "p")];
    assert_eq!(best_file_name(&posix, 5), Some(0));
}

#[test]
fn record_numbers_parse_like_from_str_radix() {
    assert_eq!(parse_file_arg("/0x1f"), Ok(FileArg::Record(31)));
    assert_eq!(parse_file_arg("/0xFF"), Ok(FileArg::Record(255)));
    assert_eq!(parse_file_arg("/42"), Ok(FileArg::Record(42)));
    assert_eq!(parse_file_arg("/+42"), Ok(FileArg::Record(42)));
    assert_eq!(parse_file_arg("/18446744073709551615"), Ok(FileArg::Record(u64::MAX)));
    assert_eq!(parse_file_arg("/18446744073709551616"), Err(GcookieError::PathResolutionFailed));
    assert_eq!(parse_file_arg("/0xffffffffffffffff"), Ok(FileArg::Record(u64::MAX)));
    assert_eq!(parse_file_arg("/0x10000000000000000"), Err(GcookieError::PathResolutionFailed));
    assert_eq!(parse_file_arg("/12a"), Err(GcookieError::PathResolutionFailed));
    assert_eq!(parse_file_arg("/"), Err(GcookieError::PathResolutionFailed));
    assert_eq!(parse_file_arg("/0x"), Err(GcookieError::PathResolutionFailed));
    assert_eq!(parse_file_arg("/+"), Err(GcookieError::PathResolutionFailed));
    assert_eq!(parse_file_arg("/-1"), Err(GcookieError::PathResolutionFailed));
    assert_eq!(parse_file_arg(""), Err(GcookieError::PathResolutionFailed));
    assert_eq!(parse_file_arg("Cookies"), Ok(FileArg::Name("Cookies".to_string())));
    for s in ["0", "7", "+9", "123456789", "99999999999999999999", "", "1_0"] {
        assert_eq!(parse_u64(s, 0, 10), u64::from_str_radix(s, 10).ok(), "{}", s);
    }
    for s in ["aB", "fffffffffffffffff", "G", "+", "00ff"] {
        assert_eq!(parse_u64(s, 0, 16), u64::from_str_radix(s, 16).ok(), "{}", s);
    }
}

#[test]
fn stream_argument_and_output_name() {
    let r = StreamRequest::parse("Cookies:Zone.Identifier");
    assert_eq!(r.file_name, "Cookies");
    assert_eq!(r.stream_name, "Zone.Identifier");
    assert_eq!(r.output_name(), "Cookies_Zone.Identifier");
    let r = StreamRequest::parse("Cookies");
    assert_eq!(r.file_name, "Cookies");
    assert_eq!(r.stream_name, "");
    assert_eq!(r.output_name(), "Cookies");
    let r = StreamRequest::parse("a:b:c");
    assert_eq!(r.file_name, "a");
    assert_eq!(r.stream_name, "b:c");
    assert_eq!(r.output_name(), "a_b:c");
}

#[test]
fn missing_stream_creates_nothing() {
    assert_eq!(check_extract(false, false), Err(GcookieError::AttributeNotFound));
    assert_eq!(check_extract(false, true), Err(GcookieError::AttributeNotFound));
    assert_eq!(check_extract(true, false), Ok(()));
}

#[test]
fn second_extract_into_same_destination_conflicts() {
    assert_eq!(check_extract(true, false), Ok(()));
    assert_eq!(check_extract(true, true), Err(GcookieError::DestinationConflict));
}

#[test]
fn volume_path_is_split() {
    let v = VolumePath::parse(r"C:\Users\me\AppData\Network\Cookies").unwrap();
    assert_eq!(v.device, r"\\.\C:");
    assert_eq!(v.directories, vec!["Users", "me", "AppData", "Network"]);
    assert_eq!(v.file, "Cookies");
    let v = VolumePath::parse("D:/a//b/").unwrap();
    assert_eq!(v.device, r"\\.\D:");
    assert_eq!(v.directories, vec!["a"]);
    assert_eq!(v.file, "b");
    assert_eq!(VolumePath::parse(r"C:\").err(), Some(GcookieError::PathResolutionFailed));
    assert_eq!(VolumePath::parse("").err(), Some(GcookieError::PathResolutionFailed));
}

/// Reads `len` bytes at the cursor from an in-memory volume, sector by sector.
fn read(cursor: &mut SectorCursor, volume: &[u8], len: usize) -> Vec<u8> {
    let w = cursor.window(len);
    let start = w.start as usize;
    assert_eq!(start % 4096, 0);
    assert_eq!(w.total % 4096, 0);
    let fetched = &volume[start..start + w.total];
    cursor.take(fetched, w, len)
}

#[test]
fn sector_reads_copy_a_10000_byte_file_exactly() {
    let content: Vec<u8> = (0..10000u32).map(|i| (i * 7 % 251) as u8).collect();
    let mut volume = content.clone();
    volume.resize(3 * 4096, 0);
    let mut cursor = SectorCursor::new(4096).unwrap();
    let mut copy = Vec::new();
    while copy.len() < content.len() {
        let n = std::cmp::min(4096, content.len() - copy.len());
        copy.extend(read(&mut cursor, &volume, n));
    }
    assert_eq!(copy, content);
    assert_eq!(cursor.position(), 10000);
}

#[test]
fn sector_window_for_unaligned_reads() {
    let volume: Vec<u8> = (0..4 * 4096u32).map(|i| (i % 256) as u8).collect();
    let mut cursor = SectorCursor::new(4096).unwrap();
    assert_eq!(cursor.seek_to(5000), 4096);
    let w = cursor.window(100);
    assert_eq!((w.start, w.skip, w.total), (4096, 904, 4096));
    let w = cursor.window(4000);
    assert_eq!((w.start, w.skip, w.total), (4096, 904, 8192));
    assert_eq!(read(&mut cursor, &volume, 10), volume[5000..5010].to_vec());
    assert_eq!(cursor.seek_by(-5010), Some(0));
    assert_eq!(cursor.position(), 0);
    assert_eq!(cursor.seek_by(-1), None);
    assert_eq!(cursor.position(), 0);
    assert_eq!(cursor.seek_by(8191), Some(4096));
    assert!(SectorCursor::new(0).is_none());
    assert!(SectorCursor::new(4095).is_none());
    assert!(SectorCursor::new(512).is_some());
    assert!(SectorCursor::new(1).is_some());
}
