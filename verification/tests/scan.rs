use yanu::scan::{
    clone_entry, find_first, first_definitive, has_nca_extension, scan_for, ContentEntry,
    ContentType, ScanError,
};

fn entry(path: &str, content_type: ContentType, size: u64) -> ContentEntry {
    ContentEntry {
        path: path.to_string(),
        content_type,
        title_id: None,
        size,
    }
}

#[test]
fn scan_for_picks_largest_of_kind() {
    let entries = vec![
        entry("a.nca", ContentType::Program, 10),
        entry("b.nca", ContentType::Control, 999),
        entry("c.nca", ContentType::Program, 500),
        entry("d.nca", ContentType::Program, 200),
    ];
    assert_eq!(scan_for(&entries, ContentType::Program), Ok(2));
    assert_eq!(scan_for(&entries, ContentType::Control), Ok(1));
}

#[test]
fn scan_for_resolves_ties_to_first_in_walk_order() {
    let entries = vec![
        entry("a.nca", ContentType::Program, 500),
        entry("b.nca", ContentType::Program, 500),
        entry("c.nca", ContentType::Program, 100),
    ];
    assert_eq!(scan_for(&entries, ContentType::Program), Ok(0));
}

#[test]
fn scan_for_reports_missing_kind() {
    let entries = vec![entry("a.nca", ContentType::Control, 10)];
    assert_eq!(
        scan_for(&entries, ContentType::Program),
        Err(ScanError::NotFound(ContentType::Program))
    );
    let none: Vec<ContentEntry> = Vec::new();
    assert_eq!(
        scan_for(&none, ContentType::Control),
        Err(ScanError::NotFound(ContentType::Control))
    );
}

#[test]
fn find_first_ignores_size() {
    let entries = vec![
        entry("a.nca", ContentType::Meta, 1),
        entry("b.nca", ContentType::Program, 10),
        entry("c.nca", ContentType::Program, 9999),
    ];
    assert_eq!(find_first(&entries, ContentType::Program), Ok(1));
    assert_eq!(
        find_first(&entries, ContentType::Control),
        Err(ScanError::NotFound(ContentType::Control))
    );
}

#[test]
fn first_definitive_takes_reader_order() {
    let attempts = vec![
        None,
        Some(entry("x.nca", ContentType::Program, 5)),
        Some(entry("x.nca", ContentType::Control, 5)),
        Some(entry("x.nca", ContentType::Control, 7)),
    ];
    assert_eq!(first_definitive(&attempts, ContentType::Control), Some(2));
    assert_eq!(first_definitive(&attempts, ContentType::Program), Some(1));
    assert_eq!(first_definitive(&attempts, ContentType::Meta), None);
}

#[test]
fn nca_extension_is_detected_at_path_end() {
    assert!(has_nca_extension("dir/entry.nca"));
    assert!(has_nca_extension("a.nca"));
    assert!(has_nca_extension("dir/..nca"));
    assert!(!has_nca_extension(".nc"));
    assert!(!has_nca_extension(".nca"));
    assert!(!has_nca_extension("dir/.nca"));
    assert!(!has_nca_extension("entry.nsp"));
    assert!(!has_nca_extension("entry.nca.bak"));
    assert!(!has_nca_extension(""));
}

#[test]
fn clone_entry_copies_every_field() {
    let mut e = entry("p.nca", ContentType::Program, 42);
    e.title_id = Some("0100ABCDEF123456".to_string());
    let c = clone_entry(&e);
    assert_eq!(c.path, e.path);
    assert_eq!(c.content_type, e.content_type);
    assert_eq!(c.title_id, e.title_id);
    assert_eq!(c.size, e.size);
}
