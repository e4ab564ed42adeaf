use yanu::backend::{Backend, BackendKind, Store};
use yanu::patch::{
    extract_fs_args, file_name, normalize_title_id, pack_meta_args, pack_nsp_args,
    pack_program_args, patched_filename, path_join, staged_filename, Action, Event, PatchConfig,
    PatchError, PatchPipeline, Stage,
};
use yanu::scan::{ContentEntry, ContentType};
use yanu::ticket::get_title_key;

fn entry(path: &str, content_type: ContentType, title_id: Option<&str>, size: u64) -> ContentEntry {
    ContentEntry {
        path: path.to_string(),
        content_type,
        title_id: title_id.map(|t| t.to_string()),
        size,
    }
}

fn pipeline() -> PatchPipeline {
    let store = Store::new(
        "/cache".to_string(),
        vec!["hactoolnet".to_string(), "hacpack".to_string()],
    );
    let extractor = Backend::new(BackendKind::Hactoolnet, &store).unwrap();
    let packer = Backend::new(BackendKind::Hacpack, &store).unwrap();
    let cfg = PatchConfig {
        base_path: "/in/base.nsp".to_string(),
        update_path: "/in/update.nsp".to_string(),
        keyset_path: "/keys/prod.keys".to_string(),
        keystore_path: "/home/u/.switch/title.keys".to_string(),
        cache_dir: "/cache".to_string(),
        outdir: "/out".to_string(),
        base_data_dir: "/tmp/w/basedata".to_string(),
        update_data_dir: "/tmp/w/updatedata".to_string(),
        romfs_dir: "/tmp/w/patch/romfs".to_string(),
        exefs_dir: "/tmp/w/patch/exefs".to_string(),
        nca_dir: "/tmp/w/patch/nca".to_string(),
    };
    PatchPipeline::new(cfg, &extractor, &packer)
}

#[test]
fn output_filename_is_title_id_plus_fixed_suffix() {
    assert_eq!(
        patched_filename("0100abcdef123456"),
        "0100abcdef123456[patched].nsp"
    );
    assert_eq!(staged_filename("0100abcdef123456"), "0100abcdef123456.nsp");
}

#[test]
fn title_ids_are_lowercased_and_truncated() {
    assert_eq!(
        normalize_title_id("0100ABCDEF123456"),
        "0100abcdef123456"
    );
    assert_eq!(
        normalize_title_id("0100ABCDEF1234560800"),
        "0100abcdef123456"
    );
    assert_eq!(normalize_title_id("abc"), "abc");
    assert_eq!(normalize_title_id(""), "");
}

#[test]
fn file_name_is_the_last_path_component() {
    assert_eq!(file_name("/a/b/c.nca"), "c.nca");
    assert_eq!(file_name("c.nca"), "c.nca");
    assert_eq!(file_name("/a/b/"), "");
    assert_eq!(path_join(&"/a".to_string(), "b.nca"), "/a/b.nca");
}

#[test]
fn command_lines_match_the_tool_contracts() {
    let s = |x: &str| x.to_string();
    assert_eq!(
        extract_fs_args(&s("/b.nca"), &s("/u.nca"), &s("/romfs"), &s("/exefs")),
        vec![
            s("--basenca"), s("/b.nca"), s("/u.nca"),
            s("--romfsdir"), s("/romfs"), s("--exefsdir"), s("/exefs"),
        ]
    );
    assert_eq!(
        pack_program_args(&s("/k"), &s("/e"), &s("/r"), &s("0100abcdef123456"), &s("/o")),
        vec![
            s("--keyset"), s("/k"), s("--type"), s("nca"), s("--ncatype"), s("program"),
            s("--plaintext"), s("--exefsdir"), s("/e"), s("--romfsdir"), s("/r"),
            s("--titleid"), s("0100abcdef123456"), s("--outdir"), s("/o"),
        ]
    );
    assert_eq!(
        pack_meta_args(&s("/k"), &s("/p.nca"), &s("/c.nca"), &s("0100abcdef123456"), &s("/o")),
        vec![
            s("--keyset"), s("/k"), s("--type"), s("nca"), s("--ncatype"), s("meta"),
            s("--titletype"), s("application"), s("--programnca"), s("/p.nca"),
            s("--controlnca"), s("/c.nca"), s("--titleid"), s("0100abcdef123456"),
            s("--outdir"), s("/o"),
        ]
    );
    assert_eq!(
        pack_nsp_args(&s("/k"), &s("/ncas"), &s("0100abcdef123456"), &s("/cache")),
        vec![
            s("--keyset"), s("/k"), s("--type"), s("nsp"), s("--ncadir"), s("/ncas"),
            s("--titleid"), s("0100abcdef123456"), s("--outdir"), s("/cache"),
        ]
    );
}

#[test]
fn full_run_with_failed_key_derivations_still_completes() {
    let mut p = pipeline();

    assert!(matches!(p.action(), Action::Extract { .. }));
    p.step(Event::Exit(0));
    assert_eq!(p.stage, Stage::ExtractUpdate);
    p.step(Event::Exit(0));
    assert_eq!(p.stage, Stage::DeriveKeys);
    assert!(matches!(p.action(), Action::DeriveKeys { .. }));

    // Both derivations failed: a warning, never fatal.
    p.step(Event::Keys { base: None, update: None });
    assert_eq!(p.stage, Stage::WriteKeystore);
    match p.action() {
        Action::AppendKeystore { path, text } => {
            assert_eq!(path, "/home/u/.switch/title.keys");
            assert_eq!(text, "");
        },
        a => panic!("expected a key-store append, got {:?}", a),
    }
    p.step(Event::Io { ok: true });

    assert_eq!(p.stage, Stage::ScanBase);
    p.step(Event::Entries(vec![
        entry("/tmp/w/basedata/small.nca", ContentType::Program, Some("0100ABCDEF123456"), 10),
        entry("/tmp/w/basedata/big.nca", ContentType::Program, Some("0100ABCDEF123456"), 900),
        entry("/tmp/w/basedata/ctl.nca", ContentType::Control, None, 50),
    ]));
    assert_eq!(p.stage, Stage::ScanUpdate);
    assert_eq!(p.base_program.as_ref().unwrap().path, "/tmp/w/basedata/big.nca");

    p.step(Event::Entries(vec![
        entry("/tmp/w/updatedata/up.nca", ContentType::Program, None, 700),
        entry("/tmp/w/updatedata/uc.nca", ContentType::Control, None, 30),
    ]));

    // The diff-extraction reads both workspaces, so it runs while they are
    // still alive; a non-zero exit is recorded as a warning only.
    assert_eq!(p.stage, Stage::ExtractFs);
    match p.action() {
        Action::Run { program, args } => {
            assert_eq!(program, "/cache/hactoolnet");
            assert_eq!(
                args,
                vec![
                    "--basenca".to_string(),
                    "/tmp/w/basedata/big.nca".to_string(),
                    "/tmp/w/updatedata/up.nca".to_string(),
                    "--romfsdir".to_string(),
                    "/tmp/w/patch/romfs".to_string(),
                    "--exefsdir".to_string(),
                    "/tmp/w/patch/exefs".to_string(),
                ]
            );
        },
        a => panic!("expected the diff-extraction run, got {:?}", a),
    }
    p.step(Event::Exit(7));
    assert_eq!(p.fs_extract_code, Some(7));

    assert_eq!(p.stage, Stage::RelocateControl);
    match p.action() {
        Action::Rename { from, to } => {
            assert_eq!(from, "/tmp/w/updatedata/uc.nca");
            assert_eq!(to, "/tmp/w/patch/nca/uc.nca");
        },
        a => panic!("expected the control relocation, got {:?}", a),
    }
    p.step(Event::Io { ok: true });
    assert_eq!(p.control.as_ref().unwrap().path, "/tmp/w/patch/nca/uc.nca");

    // Workspaces are released only now, before any repacking.
    assert_eq!(p.stage, Stage::Cleanup);
    assert!(matches!(p.action(), Action::RemoveDirs { .. }));
    p.step(Event::Done);

    assert_eq!(p.stage, Stage::PackProgram);
    assert_eq!(p.title_id.as_deref(), Some("0100abcdef123456"));

    p.step(Event::Exit(0));
    assert_eq!(p.stage, Stage::ScanPacked);
    p.step(Event::Entries(vec![
        entry("/tmp/w/patch/nca/uc.nca", ContentType::Control, None, 30),
        entry("/tmp/w/patch/nca/new.nca", ContentType::Program, None, 800),
    ]));
    assert_eq!(p.stage, Stage::PackMeta);
    p.step(Event::Exit(0));
    assert_eq!(p.stage, Stage::PackNsp);
    p.step(Event::Exit(0));

    assert_eq!(p.stage, Stage::MoveOut);
    match p.action() {
        Action::MoveFile { from, to } => {
            assert_eq!(from, "/cache/0100abcdef123456.nsp");
            assert_eq!(to, "/out/0100abcdef123456[patched].nsp");
        },
        a => panic!("expected the final move, got {:?}", a),
    }
    p.step(Event::Io { ok: true });

    assert_eq!(p.stage, Stage::Done);
    assert!(matches!(p.action(), Action::Halt));
    assert_eq!(p.output.as_deref(), Some("/out/0100abcdef123456[patched].nsp"));
}

#[test]
fn update_without_program_entry_fails_and_writes_nothing() {
    let mut p = pipeline();
    p.step(Event::Exit(0));
    p.step(Event::Exit(0));
    p.step(Event::Keys { base: None, update: None });
    p.step(Event::Io { ok: true });
    p.step(Event::Entries(vec![entry(
        "/tmp/w/basedata/big.nca",
        ContentType::Program,
        Some("0100ABCDEF123456"),
        900,
    )]));
    assert_eq!(p.stage, Stage::ScanUpdate);

    p.step(Event::Entries(vec![entry(
        "/tmp/w/updatedata/uc.nca",
        ContentType::Control,
        None,
        30,
    )]));
    assert_eq!(p.stage, Stage::Failed);
    match p.error.as_ref().unwrap() {
        PatchError::NotFound { kind, dir } => {
            assert_eq!(*kind, ContentType::Program);
            assert_eq!(dir, "/tmp/w/updatedata");
        },
        e => panic!("expected a missing Program entry, got {:?}", e),
    }
    assert!(p.output.is_none());
    assert!(matches!(p.action(), Action::Halt));

    // A halted machine ignores further events and still writes nothing.
    p.step(Event::Exit(0));
    assert_eq!(p.stage, Stage::Failed);
    assert!(p.output.is_none());
}

#[test]
fn fatal_stage_failures_carry_the_exit_code() {
    let mut p = pipeline();
    p.step(Event::Exit(2));
    assert_eq!(p.stage, Stage::Failed);
    match p.error.as_ref().unwrap() {
        PatchError::ExternalToolFailed { stage, exit_code } => {
            assert_eq!(*stage, Stage::ExtractBase);
            assert_eq!(*exit_code, 2);
        },
        e => panic!("expected a tool failure, got {:?}", e),
    }
    assert!(p.output.is_none());
}

#[test]
fn derived_keys_are_appended_to_the_keystore() {
    let mut p = pipeline();
    p.step(Event::Exit(0));
    p.step(Event::Exit(0));

    let mut ticket = vec![0u8; 0x2b0];
    ticket[0x2a0] = 0xab;
    ticket[0x180] = 0xcd;
    let tk = get_title_key(&ticket).unwrap();
    p.step(Event::Keys { base: Some(tk), update: None });
    match p.action() {
        Action::AppendKeystore { text, .. } => assert_eq!(
            text,
            "ab000000000000000000000000000000=cd000000000000000000000000000000\n"
        ),
        a => panic!("expected a key-store append, got {:?}", a),
    }
    // A failed key-store write is fatal.
    p.step(Event::Io { ok: false });
    assert_eq!(p.stage, Stage::Failed);
    assert!(matches!(
        p.error.as_ref().unwrap(),
        PatchError::IoFailed { stage: Stage::WriteKeystore }
    ));
}
