use yanu::pack::{find_nacp, get_nacp_data, pack_fs_data, pack_fs_finish, NacpError, PackError};
use yanu::scan::{ContentEntry, ContentType};

fn entry(path: &str, content_type: ContentType) -> ContentEntry {
    ContentEntry {
        path: path.to_string(),
        content_type,
        title_id: None,
        size: 0,
    }
}

#[test]
fn repackage_starts_on_the_first_reader_that_validates_control() {
    let attempts = vec![
        None,
        Some(entry("/c.nca", ContentType::Control)),
    ];
    let s = |x: &str| x.to_string();
    let start = pack_fs_data(
        &attempts,
        &s("/c.nca"),
        "0100ABCDEF1234560800",
        &s("/k"),
        &s("/romfs"),
        &s("/exefs"),
        &s("/staging"),
        &s("/control_romfs"),
    )
    .unwrap();
    assert_eq!(start.control_index, 1);
    assert_eq!(start.title_id, "0100abcdef123456");
    assert_eq!(
        start.unpack_args,
        vec![s("--romfsdir"), s("/control_romfs"), s("/c.nca")]
    );
    assert_eq!(
        start.program_args,
        vec![
            s("--keyset"), s("/k"), s("--type"), s("nca"), s("--ncatype"), s("program"),
            s("--plaintext"), s("--exefsdir"), s("/exefs"), s("--romfsdir"), s("/romfs"),
            s("--titleid"), s("0100abcdef123456"), s("--outdir"), s("/staging"),
        ]
    );
}

#[test]
fn repackage_refuses_an_entry_no_reader_validates() {
    let attempts = vec![
        Some(entry("/c.nca", ContentType::Program)),
        None,
    ];
    let s = |x: &str| x.to_string();
    match pack_fs_data(
        &attempts,
        &s("/c.nca"),
        "0100abcdef123456",
        &s("/k"),
        &s("/romfs"),
        &s("/exefs"),
        &s("/staging"),
        &s("/control_romfs"),
    ) {
        Err(PackError::NotControl { path }) => assert_eq!(path, "/c.nca"),
        _ => panic!("an entry no reader validates must be refused"),
    }
}

#[test]
fn repackage_decisions_differ_only_in_the_final_destination() {
    let s = |x: &str| x.to_string();
    let one = pack_fs_finish(
        &s("0100abcdef123456"),
        &s("/k"),
        &s("/staging/new.nca"),
        &s("/elsewhere/c.nca"),
        &s("/staging"),
        &s("/cache"),
        &s("/out/a"),
    );
    let two = pack_fs_finish(
        &s("0100abcdef123456"),
        &s("/k"),
        &s("/staging/new.nca"),
        &s("/elsewhere/c.nca"),
        &s("/staging"),
        &s("/cache"),
        &s("/out/b"),
    );
    assert_eq!(one.meta_args, two.meta_args);
    assert_eq!(one.nsp_args, two.nsp_args);
    assert_eq!(one.control_copy_to, two.control_copy_to);
    assert_eq!(one.control_copy_to, "/staging/c.nca");
    assert_eq!(one.move_from, two.move_from);
    assert_eq!(one.move_from, "/cache/0100abcdef123456.nsp");
    assert_eq!(one.move_to, "/out/a/0100abcdef123456[patched].nsp");
    assert_eq!(two.move_to, "/out/b/0100abcdef123456[patched].nsp");
    assert_eq!(
        one.meta_args,
        vec![
            s("--keyset"), s("/k"), s("--type"), s("nca"), s("--ncatype"), s("meta"),
            s("--titletype"), s("application"), s("--programnca"), s("/staging/new.nca"),
            s("--controlnca"), s("/elsewhere/c.nca"), s("--titleid"), s("0100abcdef123456"),
            s("--outdir"), s("/staging"),
        ]
    );
}

#[test]
fn nacp_record_reads_the_fixed_fields() {
    let mut nacp = vec![0u8; 0x4000];
    nacp[0x0] = b'G';
    nacp[0x1] = b'a';
    nacp[0x1ff] = 0x7f;
    nacp[0x200] = b'P';
    nacp[0x2ff] = 0x42;
    let data = get_nacp_data(&nacp).unwrap();
    assert_eq!(data.name().len(), 0x200);
    assert_eq!(data.name()[0], b'G');
    assert_eq!(data.name()[1], b'a');
    assert_eq!(data.name()[0x1ff], 0x7f);
    assert_eq!(data.publisher().len(), 0x100);
    assert_eq!(data.publisher()[0], b'P');
    assert_eq!(data.publisher()[0xff], 0x42);
}

#[test]
fn short_nacp_is_rejected() {
    let nacp = vec![0u8; 0x2ff];
    match get_nacp_data(&nacp) {
        Err(NacpError::TooShort { len }) => assert_eq!(len, 0x2ff),
        _ => panic!("a truncated metadata file must be rejected"),
    }
}

#[test]
fn nacp_file_is_the_first_with_the_extension() {
    let files = vec![
        "romfs/icon_AmericanEnglish.dat".to_string(),
        "romfs/control.nacp".to_string(),
        "romfs/other.nacp".to_string(),
    ];
    assert_eq!(find_nacp(&files), Some(1));
    let none = vec!["romfs/icon.dat".to_string(), "romfs/.nacp".to_string()];
    assert_eq!(find_nacp(&none), None);
    let empty: Vec<String> = Vec::new();
    assert_eq!(find_nacp(&empty), None);
}
