//! The apply-update-patch pipeline: an explicit state machine whose actions
//! (child-process runs, directory scans, renames, the final move) a thin
//! unverified shell performs, handing the outcome back as an event.

use vstd::prelude::*;
use vstd::string::*;
use crate::backend::Backend;
use crate::scan::{ContentEntry, ContentType};
use crate::ticket::{keystore_lines_spec, TitleKey};

verus! {

/// Length of a title identifier as embedded in command lines and filenames.
pub const TITLE_ID_LEN: usize = 16;

/// A path under a directory: the directory, a separator, the name.
pub open spec fn path_join_spec(dir: Seq<char>, name: Seq<char>) -> Seq<char> {
    dir + "/"@ + name
}

/// The path `name` has under `dir`.
pub fn path_join(dir: &String, name: &str) -> (r: String)
    ensures
        r@ == path_join_spec(dir@, name@),
{
    dir.clone().concat("/").concat(name)
}

/// The final component of a path: the longest suffix holding no separator.
pub open spec fn file_name_spec(s: Seq<char>) -> Seq<char>
    decreases s.len(),
{
    if s.len() == 0 || s.last() == '/' {
        Seq::empty()
    } else {
        file_name_spec(s.drop_last()) + seq![s.last()]
    }
}

proof fn lemma_file_name_suffix(s: Seq<char>, i: int)
    requires
        0 <= i <= s.len(),
        forall|j: int| i <= j < s.len() ==> s[j] != '/',
        i > 0 ==> s[i - 1] == '/',
    ensures
        file_name_spec(s) == s.subrange(i, s.len() as int),
    decreases s.len(),
{
    if i == s.len() {
        if i == 0 {
            assert(file_name_spec(s) =~= s.subrange(0, 0));
        } else {
            assert(s.last() == '/');
            assert(file_name_spec(s) =~= s.subrange(i, s.len() as int));
        }
    } else {
        assert(s.last() != '/');
        lemma_file_name_suffix(s.drop_last(), i);
        assert(file_name_spec(s) =~= s.subrange(i, s.len() as int));
    }
}

/// The final component of `path`.
pub fn file_name(path: &str) -> (r: String)
    ensures
        r@ == file_name_spec(path@),
{
    let n = path.unicode_len();
    let mut i: usize = n;
    loop
        invariant
            0 <= i <= n == path@.len(),
            forall|j: int| i <= j < n ==> path@[j] != '/',
        ensures
            0 <= i <= n == path@.len(),
            forall|j: int| i <= j < n ==> path@[j] != '/',
            i > 0 ==> path@[i - 1] == '/',
        decreases i,
    {
        if i == 0 {
            break;
        }
        if path.get_char(i - 1) == '/' {
            break;
        }
        i -= 1;
    }
    proof {
        lemma_file_name_suffix(path@, i as int);
    }
    String::from_str(path.substring_char(i, n))
}

/// ASCII lowercase folding of one character: uppercase ASCII letters map to
/// their lowercase form, every other character is unchanged.
pub open spec fn lower_char(c: char) -> char {
    if c == 'A' { 'a' } else if c == 'B' { 'b' } else if c == 'C' { 'c' }
    else if c == 'D' { 'd' } else if c == 'E' { 'e' } else if c == 'F' { 'f' }
    else if c == 'G' { 'g' } else if c == 'H' { 'h' } else if c == 'I' { 'i' }
    else if c == 'J' { 'j' } else if c == 'K' { 'k' } else if c == 'L' { 'l' }
    else if c == 'M' { 'm' } else if c == 'N' { 'n' } else if c == 'O' { 'o' }
    else if c == 'P' { 'p' } else if c == 'Q' { 'q' } else if c == 'R' { 'r' }
    else if c == 'S' { 's' } else if c == 'T' { 't' } else if c == 'U' { 'u' }
    else if c == 'V' { 'v' } else if c == 'W' { 'w' } else if c == 'X' { 'x' }
    else if c == 'Y' { 'y' } else if c == 'Z' { 'z' } else { c }
}

/// Relies on str::to_ascii_lowercase: each character is mapped to its ASCII
/// lowercase equivalent and non-ASCII characters are left unchanged.
#[verifier::external_body]
fn ascii_lowercase(s: &str) -> (r: String)
    ensures
        r@.len() == s@.len(),
        forall|i: int| 0 <= i < s@.len() ==> r@[i] == lower_char(#[trigger] s@[i]),
{
    s.to_ascii_lowercase()
}

/// A title identifier as it is embedded anywhere: lowercased and truncated
/// to `TITLE_ID_LEN` characters.
pub open spec fn normalized_id_spec(s: Seq<char>) -> Seq<char> {
    Seq::new(
        if s.len() < TITLE_ID_LEN { s.len() } else { TITLE_ID_LEN as nat },
        |i: int| lower_char(s[i]),
    )
}

/// Lowercase `id` and truncate it to the fixed identifier width.
pub fn normalize_title_id(id: &str) -> (r: String)
    ensures
        r@ == normalized_id_spec(id@),
{
    let low = ascii_lowercase(id);
    let n = low.as_str().unicode_len();
    let keep = if n < TITLE_ID_LEN { n } else { TITLE_ID_LEN };
    let out = String::from_str(low.as_str().substring_char(0, keep));
    proof {
        assert(out@ =~= normalized_id_spec(id@));
    }
    out
}

/// The deterministic name of the produced archive for a title identifier.
pub open spec fn patched_filename_spec(title_id: Seq<char>) -> Seq<char> {
    title_id + "[patched].nsp"@
}

/// The output archive filename for a resolved title identifier.
pub fn patched_filename(title_id: &str) -> (r: String)
    ensures
        r@ == patched_filename_spec(title_id@),
{
    String::from_str(title_id).concat("[patched].nsp")
}

/// The name under which the packer first writes the archive.
pub open spec fn staged_filename_spec(title_id: Seq<char>) -> Seq<char> {
    title_id + ".nsp"@
}

/// The filename the packer gives the assembled archive before the move.
pub fn staged_filename(title_id: &str) -> (r: String)
    ensures
        r@ == staged_filename_spec(title_id@),
{
    String::from_str(title_id).concat(".nsp")
}

/// The views of a list of command-line arguments.
pub open spec fn strs(args: Seq<String>) -> Seq<Seq<char>> {
    args.map_values(|s: String| s@)
}

/// Arguments of the romfs/exefs diff-extraction run.
pub open spec fn extract_fs_args_spec(
    base_nca: Seq<char>,
    update_nca: Seq<char>,
    romfs_dir: Seq<char>,
    exefs_dir: Seq<char>,
) -> Seq<Seq<char>> {
    seq!["--basenca"@, base_nca, update_nca, "--romfsdir"@, romfs_dir, "--exefsdir"@, exefs_dir]
}

/// Build the argument list for extracting merged romfs/exefs trees from the
/// base and update entries.
pub fn extract_fs_args(
    base_nca: &String,
    update_nca: &String,
    romfs_dir: &String,
    exefs_dir: &String,
) -> (r: Vec<String>)
    ensures
        strs(r@) =~= extract_fs_args_spec(base_nca@, update_nca@, romfs_dir@, exefs_dir@),
{
    let mut r: Vec<String> = Vec::new();
    r.push(String::from_str("--basenca"));
    r.push(base_nca.clone());
    r.push(update_nca.clone());
    r.push(String::from_str("--romfsdir"));
    r.push(romfs_dir.clone());
    r.push(String::from_str("--exefsdir"));
    r.push(exefs_dir.clone());
    r
}

/// Arguments of the plaintext Program-entry packing run.
pub open spec fn pack_program_args_spec(
    keyset: Seq<char>,
    exefs_dir: Seq<char>,
    romfs_dir: Seq<char>,
    title_id: Seq<char>,
    outdir: Seq<char>,
) -> Seq<Seq<char>> {
    seq![
        "--keyset"@, keyset, "--type"@, "nca"@, "--ncatype"@, "program"@, "--plaintext"@,
        "--exefsdir"@, exefs_dir, "--romfsdir"@, romfs_dir, "--titleid"@, title_id,
        "--outdir"@, outdir,
    ]
}

/// Build the argument list for packing the merged trees into a new
/// plaintext Program-kind entry.
pub fn pack_program_args(
    keyset: &String,
    exefs_dir: &String,
    romfs_dir: &String,
    title_id: &String,
    outdir: &String,
) -> (r: Vec<String>)
    ensures
        strs(r@) =~= pack_program_args_spec(keyset@, exefs_dir@, romfs_dir@, title_id@, outdir@),
{
    let mut r: Vec<String> = Vec::new();
    r.push(String::from_str("--keyset"));
    r.push(keyset.clone());
    r.push(String::from_str("--type"));
    r.push(String::from_str("nca"));
    r.push(String::from_str("--ncatype"));
    r.push(String::from_str("program"));
    r.push(String::from_str("--plaintext"));
    r.push(String::from_str("--exefsdir"));
    r.push(exefs_dir.clone());
    r.push(String::from_str("--romfsdir"));
    r.push(romfs_dir.clone());
    r.push(String::from_str("--titleid"));
    r.push(title_id.clone());
    r.push(String::from_str("--outdir"));
    r.push(outdir.clone());
    r
}

/// Arguments of the Meta-entry generation run.
pub open spec fn pack_meta_args_spec(
    keyset: Seq<char>,
    program_nca: Seq<char>,
    control_nca: Seq<char>,
    title_id: Seq<char>,
    outdir: Seq<char>,
) -> Seq<Seq<char>> {
    seq![
        "--keyset"@, keyset, "--type"@, "nca"@, "--ncatype"@, "meta"@, "--titletype"@,
        "application"@, "--programnca"@, program_nca, "--controlnca"@, control_nca,
        "--titleid"@, title_id, "--outdir"@, outdir,
    ]
}

/// Build the argument list for generating the Meta entry from the new
/// Program entry and the relocated Control entry.
pub fn pack_meta_args(
    keyset: &String,
    program_nca: &String,
    control_nca: &String,
    title_id: &String,
    outdir: &String,
) -> (r: Vec<String>)
    ensures
        strs(r@) =~= pack_meta_args_spec(keyset@, program_nca@, control_nca@, title_id@, outdir@),
{
    let mut r: Vec<String> = Vec::new();
    r.push(String::from_str("--keyset"));
    r.push(keyset.clone());
    r.push(String::from_str("--type"));
    r.push(String::from_str("nca"));
    r.push(String::from_str("--ncatype"));
    r.push(String::from_str("meta"));
    r.push(String::from_str("--titletype"));
    r.push(String::from_str("application"));
    r.push(String::from_str("--programnca"));
    r.push(program_nca.clone());
    r.push(String::from_str("--controlnca"));
    r.push(control_nca.clone());
    r.push(String::from_str("--titleid"));
    r.push(title_id.clone());
    r.push(String::from_str("--outdir"));
    r.push(outdir.clone());
    r
}

/// Arguments of the final archive-assembly run.
pub open spec fn pack_nsp_args_spec(
    keyset: Seq<char>,
    nca_dir: Seq<char>,
    title_id: Seq<char>,
    outdir: Seq<char>,
) -> Seq<Seq<char>> {
    seq![
        "--keyset"@, keyset, "--type"@, "nsp"@, "--ncadir"@, nca_dir, "--titleid"@, title_id,
        "--outdir"@, outdir,
    ]
}

/// Build the argument list for assembling every entry in the staging
/// directory into the final archive.
pub fn pack_nsp_args(
    keyset: &String,
    nca_dir: &String,
    title_id: &String,
    outdir: &String,
) -> (r: Vec<String>)
    ensures
        strs(r@) =~= pack_nsp_args_spec(keyset@, nca_dir@, title_id@, outdir@),
{
    let mut r: Vec<String> = Vec::new();
    r.push(String::from_str("--keyset"));
    r.push(keyset.clone());
    r.push(String::from_str("--type"));
    r.push(String::from_str("nsp"));
    r.push(String::from_str("--ncadir"));
    r.push(nca_dir.clone());
    r.push(String::from_str("--titleid"));
    r.push(title_id.clone());
    r.push(String::from_str("--outdir"));
    r.push(outdir.clone());
    r
}


/// The stages of an apply-update-patch run, in their fixed order.  The
/// diff-extraction reads the two extraction workspaces, so it runs before
/// the Control entry is relocated out of them; both workspaces are then
/// released at `Cleanup`, before any repacking, to bound peak disk usage.
#[derive(Debug, Clone, Copy, PartialEq, Eq, Structural)]
pub enum Stage {
    ExtractBase,
    ExtractUpdate,
    DeriveKeys,
    WriteKeystore,
    ScanBase,
    ScanUpdate,
    ExtractFs,
    RelocateControl,
    Cleanup,
    PackProgram,
    ScanPacked,
    PackMeta,
    PackNsp,
    MoveOut,
    Done,
    Failed,
}

/// Why a patch run aborted.
#[derive(Debug, Clone)]
pub enum PatchError {
    /// No entry of the required kind exists in the scanned directory.
    NotFound { kind: ContentType, dir: String },
    /// The selected base Program entry carries no title identifier.
    MissingTitleId { path: String },
    /// A child process of a fatal stage exited with a non-zero status.
    ExternalToolFailed { stage: Stage, exit_code: i32 },
    /// A filesystem action of the named stage failed.
    IoFailed { stage: Stage },
}

/// What the shell reports back after performing an action.
#[derive(Debug)]
pub enum Event {
    /// A child process exited with this status code.
    Exit(i32),
    /// The outcome of the two title-key derivations; a failed derivation is
    /// handed back as `None`.
    Keys { base: Option<TitleKey>, update: Option<TitleKey> },
    /// The classified container-image entries of the scanned directory, in
    /// walk order.
    Entries(Vec<ContentEntry>),
    /// Whether a filesystem action succeeded.
    Io { ok: bool },
    /// An action that cannot fail has been performed.
    Done,
}

/// What the shell must perform next.
#[derive(Debug)]
pub enum Action {
    /// Extract an archive's contents into a workspace directory.
    Extract { tool: String, archive: String, to: String },
    /// Derive the title keys from the tickets of both workspaces.
    DeriveKeys { base_dir: String, update_dir: String },
    /// Append `text` to the key-store file at `path`.
    AppendKeystore { path: String, text: String },
    /// Walk `dir` and classify its container-image entries.
    Scan { dir: String },
    /// Rename a file.
    Rename { from: String, to: String },
    /// Remove the two extraction workspaces.
    RemoveDirs { first: String, second: String },
    /// Run a child process and report its exit status.
    Run { program: String, args: Vec<String> },
    /// Move a file across directories.
    MoveFile { from: String, to: String },
    /// The run is over; inspect the pipeline for its outcome.
    Halt,
}

/// The caller-supplied paths of one patch run.
#[derive(Debug)]
pub struct PatchConfig {
    pub base_path: String,
    pub update_path: String,
    pub keyset_path: String,
    pub keystore_path: String,
    pub cache_dir: String,
    pub outdir: String,
    pub base_data_dir: String,
    pub update_data_dir: String,
    pub romfs_dir: String,
    pub exefs_dir: String,
    pub nca_dir: String,
}

/// Which event a stage expects; halted stages expect none.
pub open spec fn accepts(stage: Stage, event: Event) -> bool {
    match stage {
        Stage::ExtractBase | Stage::ExtractUpdate | Stage::ExtractFs | Stage::PackProgram
        | Stage::PackMeta | Stage::PackNsp => event is Exit,
        Stage::DeriveKeys => event is Keys,
        Stage::ScanBase | Stage::ScanUpdate | Stage::ScanPacked => event is Entries,
        Stage::WriteKeystore | Stage::RelocateControl | Stage::MoveOut => event is Io,
        Stage::Cleanup => event is Done,
        Stage::Done | Stage::Failed => false,
    }
}

/// The apply-update-patch run: a sequential state machine.  The shell asks
/// for the current `action`, performs it, and hands the outcome to `step`
/// until the action is `Halt`.
#[derive(Debug)]
pub struct PatchPipeline {
    pub stage: Stage,
    pub cfg: PatchConfig,
    pub extractor_path: String,
    pub packer_path: String,
    pub base_key: Option<TitleKey>,
    pub update_key: Option<TitleKey>,
    pub base_program: Option<ContentEntry>,
    pub update_program: Option<ContentEntry>,
    pub control: Option<ContentEntry>,
    pub patched: Option<ContentEntry>,
    pub title_id: Option<String>,
    pub fs_extract_code: Option<i32>,
    pub error: Option<PatchError>,
    pub output: Option<String>,
}

impl PatchPipeline {
    /// The machine's invariant: the failure and output markers agree with
    /// the stage, and every stage has the data its action needs.
    pub open spec fn wf(&self) -> bool {
        &&& (self.stage == Stage::Failed <==> self.error is Some)
        &&& (self.stage == Stage::Done <==> self.output is Some)
        &&& (match self.stage {
            Stage::ScanUpdate => self.base_program is Some,
            Stage::ExtractFs => self.base_program is Some && self.update_program is Some
                && self.control is Some,
            Stage::RelocateControl | Stage::Cleanup => self.base_program is Some && self.control
                is Some,
            Stage::PackProgram | Stage::ScanPacked => self.control is Some && self.title_id
                is Some,
            Stage::PackMeta => self.control is Some && self.patched is Some && self.title_id
                is Some,
            Stage::PackNsp | Stage::MoveOut => self.title_id is Some,
            _ => true,
        })
    }

    /// A fresh run over `cfg`, using the given reader and writer backends.
    pub fn new(cfg: PatchConfig, extractor: &Backend, packer: &Backend) -> (r: PatchPipeline)
        ensures
            r.wf(),
            r == (PatchPipeline {
                stage: Stage::ExtractBase,
                cfg,
                extractor_path: r.extractor_path,
                packer_path: r.packer_path,
                base_key: None,
                update_key: None,
                base_program: None,
                update_program: None,
                control: None,
                patched: None,
                title_id: None,
                fs_extract_code: None,
                error: None,
                output: None,
            }),
            r.extractor_path@ == extractor.path_spec(),
            r.packer_path@ == packer.path_spec(),
    {
        PatchPipeline {
            stage: Stage::ExtractBase,
            cfg,
            extractor_path: extractor.path().clone(),
            packer_path: packer.path().clone(),
            base_key: None,
            update_key: None,
            base_program: None,
            update_program: None,
            control: None,
            patched: None,
            title_id: None,
            fs_extract_code: None,
            error: None,
            output: None,
        }
    }

    /// The action the shell must perform for the current stage.
    pub fn action(&self) -> (a: Action)
        requires
            self.wf(),
        ensures
            match self.stage {
                Stage::ExtractBase => a == (Action::Extract {
                    tool: self.extractor_path,
                    archive: self.cfg.base_path,
                    to: self.cfg.base_data_dir,
                }),
                Stage::ExtractUpdate => a == (Action::Extract {
                    tool: self.extractor_path,
                    archive: self.cfg.update_path,
                    to: self.cfg.update_data_dir,
                }),
                Stage::DeriveKeys => a == (Action::DeriveKeys {
                    base_dir: self.cfg.base_data_dir,
                    update_dir: self.cfg.update_data_dir,
                }),
                Stage::WriteKeystore => a matches Action::AppendKeystore { path, text }
                    && path == self.cfg.keystore_path
                    && text@ == keystore_lines_spec(self.base_key, self.update_key),
                Stage::ScanBase => a == (Action::Scan { dir: self.cfg.base_data_dir }),
                Stage::ScanUpdate => a == (Action::Scan { dir: self.cfg.update_data_dir }),
                Stage::RelocateControl => a matches Action::Rename { from, to }
                    && from == self.control->Some_0.path
                    && to@ == path_join_spec(
                        self.cfg.nca_dir@,
                        file_name_spec(self.control->Some_0.path@),
                    ),
                Stage::Cleanup => a == (Action::RemoveDirs {
                    first: self.cfg.base_data_dir,
                    second: self.cfg.update_data_dir,
                }),
                Stage::ExtractFs => a matches Action::Run { program, args }
                    && program == self.extractor_path
                    && strs(args@) == extract_fs_args_spec(
                        self.base_program->Some_0.path@,
                        self.update_program->Some_0.path@,
                        self.cfg.romfs_dir@,
                        self.cfg.exefs_dir@,
                    ),
                Stage::PackProgram => a matches Action::Run { program, args }
                    && program == self.packer_path
                    && strs(args@) == pack_program_args_spec(
                        self.cfg.keyset_path@,
                        self.cfg.exefs_dir@,
                        self.cfg.romfs_dir@,
                        self.title_id->Some_0@,
                        self.cfg.nca_dir@,
                    ),
                Stage::ScanPacked => a == (Action::Scan { dir: self.cfg.nca_dir }),
                Stage::PackMeta => a matches Action::Run { program, args }
                    && program == self.packer_path
                    && strs(args@) == pack_meta_args_spec(
                        self.cfg.keyset_path@,
                        self.patched->Some_0.path@,
                        self.control->Some_0.path@,
                        self.title_id->Some_0@,
                        self.cfg.nca_dir@,
                    ),
                Stage::PackNsp => a matches Action::Run { program, args }
                    && program == self.packer_path
                    && strs(args@) == pack_nsp_args_spec(
                        self.cfg.keyset_path@,
                        self.cfg.nca_dir@,
                        self.title_id->Some_0@,
                        self.cfg.cache_dir@,
                    ),
                Stage::MoveOut => a matches Action::MoveFile { from, to }
                    && from@ == path_join_spec(
                        self.cfg.cache_dir@,
                        staged_filename_spec(self.title_id->Some_0@),
                    )
                    && to@ == path_join_spec(
                        self.cfg.outdir@,
                        patched_filename_spec(self.title_id->Some_0@),
                    ),
                Stage::Done | Stage::Failed => a == Action::Halt,
            },
    {
        match self.stage {
            Stage::ExtractBase => Action::Extract {
                tool: self.extractor_path.clone(),
                archive: self.cfg.base_path.clone(),
                to: self.cfg.base_data_dir.clone(),
            },
            Stage::ExtractUpdate => Action::Extract {
                tool: self.extractor_path.clone(),
                archive: self.cfg.update_path.clone(),
                to: self.cfg.update_data_dir.clone(),
            },
            Stage::DeriveKeys => Action::DeriveKeys {
                base_dir: self.cfg.base_data_dir.clone(),
                update_dir: self.cfg.update_data_dir.clone(),
            },
            Stage::WriteKeystore => Action::AppendKeystore {
                path: self.cfg.keystore_path.clone(),
                text: crate::ticket::keystore_lines(&self.base_key, &self.update_key),
            },
            Stage::ScanBase => Action::Scan { dir: self.cfg.base_data_dir.clone() },
            Stage::ScanUpdate => Action::Scan { dir: self.cfg.update_data_dir.clone() },
            Stage::RelocateControl => {
                match &self.control {
                    Some(c) => Action::Rename {
                        from: c.path.clone(),
                        to: path_join(&self.cfg.nca_dir, file_name(c.path.as_str()).as_str()),
                    },
                    None => vstd::pervasive::unreached(),
                }
            },
            Stage::Cleanup => Action::RemoveDirs {
                first: self.cfg.base_data_dir.clone(),
                second: self.cfg.update_data_dir.clone(),
            },
            Stage::ExtractFs => {
                match (&self.base_program, &self.update_program) {
                    (Some(bp), Some(up)) => Action::Run {
                        program: self.extractor_path.clone(),
                        args: extract_fs_args(
                            &bp.path,
                            &up.path,
                            &self.cfg.romfs_dir,
                            &self.cfg.exefs_dir,
                        ),
                    },
                    _ => vstd::pervasive::unreached(),
                }
            },
            Stage::PackProgram => {
                match &self.title_id {
                    Some(tid) => Action::Run {
                        program: self.packer_path.clone(),
                        args: pack_program_args(
                            &self.cfg.keyset_path,
                            &self.cfg.exefs_dir,
                            &self.cfg.romfs_dir,
                            tid,
                            &self.cfg.nca_dir,
                        ),
                    },
                    None => vstd::pervasive::unreached(),
                }
            },
            Stage::ScanPacked => Action::Scan { dir: self.cfg.nca_dir.clone() },
            Stage::PackMeta => {
                match (&self.patched, &self.control, &self.title_id) {
                    (Some(p), Some(c), Some(tid)) => Action::Run {
                        program: self.packer_path.clone(),
                        args: pack_meta_args(
                            &self.cfg.keyset_path,
                            &p.path,
                            &c.path,
                            tid,
                            &self.cfg.nca_dir,
                        ),
                    },
                    _ => vstd::pervasive::unreached(),
                }
            },
            Stage::PackNsp => {
                match &self.title_id {
                    Some(tid) => Action::Run {
                        program: self.packer_path.clone(),
                        args: pack_nsp_args(
                            &self.cfg.keyset_path,
                            &self.cfg.nca_dir,
                            tid,
                            &self.cfg.cache_dir,
                        ),
                    },
                    None => vstd::pervasive::unreached(),
                }
            },
            Stage::MoveOut => {
                match &self.title_id {
                    Some(tid) => Action::MoveFile {
                        from: path_join(&self.cfg.cache_dir, staged_filename(tid.as_str()).as_str()),
                        to: path_join(&self.cfg.outdir, patched_filename(tid.as_str()).as_str()),
                    },
                    None => vstd::pervasive::unreached(),
                }
            },
            Stage::Done | Stage::Failed => Action::Halt,
        }
    }

    /// Advance the machine on the outcome of the performed action.
    ///
    /// A failed title-key derivation (a `None` in the `Keys` event) and a
    /// non-zero exit of the romfs/exefs diff-extraction run are warnings:
    /// the run goes on.  Every other failure is fatal and halts the run with
    /// its error; a halted machine ignores events.
    pub fn step(&mut self, event: Event)
        requires
            old(self).wf(),
        ensures
            final(self).wf(),
            final(self).cfg == old(self).cfg,
            final(self).extractor_path == old(self).extractor_path,
            final(self).packer_path == old(self).packer_path,
            !accepts(old(self).stage, event) ==> *final(self) == *old(self),
            old(self).stage == Stage::ExtractBase ==> (event matches Event::Exit(code) ==> (
                if code == 0 {
                    *final(self) == (PatchPipeline { stage: Stage::ExtractUpdate, ..*old(self) })
                } else {
                    *final(self) == (PatchPipeline {
                        stage: Stage::Failed,
                        error: Some(PatchError::ExternalToolFailed {
                            stage: Stage::ExtractBase,
                            exit_code: code,
                        }),
                        ..*old(self)
                    })
                }
            )),
            old(self).stage == Stage::ExtractUpdate ==> (event matches Event::Exit(code) ==> (
                if code == 0 {
                    *final(self) == (PatchPipeline { stage: Stage::DeriveKeys, ..*old(self) })
                } else {
                    *final(self) == (PatchPipeline {
                        stage: Stage::Failed,
                        error: Some(PatchError::ExternalToolFailed {
                            stage: Stage::ExtractUpdate,
                            exit_code: code,
                        }),
                        ..*old(self)
                    })
                }
            )),
            old(self).stage == Stage::DeriveKeys ==> (event matches Event::Keys { base, update }
                ==> *final(self) == (PatchPipeline {
                    stage: Stage::WriteKeystore,
                    base_key: base,
                    update_key: update,
                    ..*old(self)
                })),
            // Key derivation is best-effort: its outcome never fails the run.
            old(self).stage == Stage::DeriveKeys && accepts(old(self).stage, event)
                ==> final(self).stage == Stage::WriteKeystore,
            old(self).stage == Stage::WriteKeystore ==> (event matches Event::Io { ok } ==> (
                if ok {
                    *final(self) == (PatchPipeline { stage: Stage::ScanBase, ..*old(self) })
                } else {
                    *final(self) == (PatchPipeline {
                        stage: Stage::Failed,
                        error: Some(PatchError::IoFailed { stage: Stage::WriteKeystore }),
                        ..*old(self)
                    })
                }
            )),
            old(self).stage == Stage::ScanBase ==> (event matches Event::Entries(es) ==> (
                if crate::scan::has_kind(es@, ContentType::Program) {
                    exists|i: int|
                        crate::scan::is_largest_first(es@, ContentType::Program, i)
                        && *final(self) == (PatchPipeline {
                            stage: Stage::ScanUpdate,
                            base_program: Some(es@[i]),
                            ..*old(self)
                        })
                } else {
                    *final(self) == (PatchPipeline {
                        stage: Stage::Failed,
                        error: Some(PatchError::NotFound {
                            kind: ContentType::Program,
                            dir: old(self).cfg.base_data_dir,
                        }),
                        ..*old(self)
                    })
                }
            )),
            old(self).stage == Stage::ScanUpdate ==> (event matches Event::Entries(es) ==> (
                if !crate::scan::has_kind(es@, ContentType::Program) {
                    *final(self) == (PatchPipeline {
                        stage: Stage::Failed,
                        error: Some(PatchError::NotFound {
                            kind: ContentType::Program,
                            dir: old(self).cfg.update_data_dir,
                        }),
                        ..*old(self)
                    })
                } else if !crate::scan::has_kind(es@, ContentType::Control) {
                    *final(self) == (PatchPipeline {
                        stage: Stage::Failed,
                        error: Some(PatchError::NotFound {
                            kind: ContentType::Control,
                            dir: old(self).cfg.update_data_dir,
                        }),
                        ..*old(self)
                    })
                } else {
                    exists|p: int, c: int|
                        crate::scan::is_first_of(es@, ContentType::Program, p)
                        && crate::scan::is_first_of(es@, ContentType::Control, c)
                        && *final(self) == (PatchPipeline {
                            stage: Stage::ExtractFs,
                            update_program: Some(es@[p]),
                            control: Some(es@[c]),
                            ..*old(self)
                        })
                }
            )),
            old(self).stage == Stage::RelocateControl ==> (event matches Event::Io { ok } ==> (
                if ok {
                    exists|t: String|
                        #![trigger t@]
                        t@ == path_join_spec(
                            old(self).cfg.nca_dir@,
                            file_name_spec(old(self).control->Some_0.path@),
                        )
                        && *final(self) == (PatchPipeline {
                            stage: Stage::Cleanup,
                            control: Some(ContentEntry {
                                path: t,
                                ..old(self).control->Some_0
                            }),
                            ..*old(self)
                        })
                } else {
                    *final(self) == (PatchPipeline {
                        stage: Stage::Failed,
                        error: Some(PatchError::IoFailed { stage: Stage::RelocateControl }),
                        ..*old(self)
                    })
                }
            )),
            // The diff-extraction exit code is recorded, never fatal.
            old(self).stage == Stage::ExtractFs ==> (event matches Event::Exit(code)
                ==> *final(self) == (PatchPipeline {
                    stage: Stage::RelocateControl,
                    fs_extract_code: Some(code),
                    ..*old(self)
                })),
            old(self).stage == Stage::Cleanup ==> (event is Done ==> (
                match old(self).base_program->Some_0.title_id {
                    Some(raw) => exists|t: String|
                        #![trigger t@]
                        t@ == normalized_id_spec(raw@)
                        && *final(self) == (PatchPipeline {
                            stage: Stage::PackProgram,
                            title_id: Some(t),
                            ..*old(self)
                        }),
                    None => *final(self) == (PatchPipeline {
                        stage: Stage::Failed,
                        error: Some(PatchError::MissingTitleId {
                            path: old(self).base_program->Some_0.path,
                        }),
                        ..*old(self)
                    }),
                }
            )),
            old(self).stage == Stage::PackProgram ==> (event matches Event::Exit(code) ==> (
                if code == 0 {
                    *final(self) == (PatchPipeline { stage: Stage::ScanPacked, ..*old(self) })
                } else {
                    *final(self) == (PatchPipeline {
                        stage: Stage::Failed,
                        error: Some(PatchError::ExternalToolFailed {
                            stage: Stage::PackProgram,
                            exit_code: code,
                        }),
                        ..*old(self)
                    })
                }
            )),
            old(self).stage == Stage::ScanPacked ==> (event matches Event::Entries(es) ==> (
                if crate::scan::has_kind(es@, ContentType::Program) {
                    exists|i: int|
                        crate::scan::is_first_of(es@, ContentType::Program, i)
                        && *final(self) == (PatchPipeline {
                            stage: Stage::PackMeta,
                            patched: Some(es@[i]),
                            ..*old(self)
                        })
                } else {
                    *final(self) == (PatchPipeline {
                        stage: Stage::Failed,
                        error: Some(PatchError::NotFound {
                            kind: ContentType::Program,
                            dir: old(self).cfg.nca_dir,
                        }),
                        ..*old(self)
                    })
                }
            )),
            old(self).stage == Stage::PackMeta ==> (event matches Event::Exit(code) ==> (
                if code == 0 {
                    *final(self) == (PatchPipeline { stage: Stage::PackNsp, ..*old(self) })
                } else {
                    *final(self) == (PatchPipeline {
                        stage: Stage::Failed,
                        error: Some(PatchError::ExternalToolFailed {
                            stage: Stage::PackMeta,
                            exit_code: code,
                        }),
                        ..*old(self)
                    })
                }
            )),
            old(self).stage == Stage::PackNsp ==> (event matches Event::Exit(code) ==> (
                if code == 0 {
                    *final(self) == (PatchPipeline { stage: Stage::MoveOut, ..*old(self) })
                } else {
                    *final(self) == (PatchPipeline {
                        stage: Stage::Failed,
                        error: Some(PatchError::ExternalToolFailed {
                            stage: Stage::PackNsp,
                            exit_code: code,
                        }),
                        ..*old(self)
                    })
                }
            )),
            old(self).stage == Stage::MoveOut ==> (event matches Event::Io { ok } ==> (
                if ok {
                    exists|o: String|
                        #![trigger o@]
                        o@ == path_join_spec(
                            old(self).cfg.outdir@,
                            patched_filename_spec(old(self).title_id->Some_0@),
                        )
                        && *final(self) == (PatchPipeline {
                            stage: Stage::Done,
                            output: Some(o),
                            ..*old(self)
                        })
                } else {
                    *final(self) == (PatchPipeline {
                        stage: Stage::Failed,
                        error: Some(PatchError::IoFailed { stage: Stage::MoveOut }),
                        ..*old(self)
                    })
                }
            )),
    {
        match (self.stage, event) {
            (Stage::ExtractBase, Event::Exit(code)) => {
                if code == 0 {
                    self.stage = Stage::ExtractUpdate;
                } else {
                    self.error = Some(PatchError::ExternalToolFailed {
                        stage: Stage::ExtractBase,
                        exit_code: code,
                    });
                    self.stage = Stage::Failed;
                }
            },
            (Stage::ExtractUpdate, Event::Exit(code)) => {
                if code == 0 {
                    self.stage = Stage::DeriveKeys;
                } else {
                    self.error = Some(PatchError::ExternalToolFailed {
                        stage: Stage::ExtractUpdate,
                        exit_code: code,
                    });
                    self.stage = Stage::Failed;
                }
            },
            (Stage::DeriveKeys, Event::Keys { base, update }) => {
                self.base_key = base;
                self.update_key = update;
                self.stage = Stage::WriteKeystore;
            },
            (Stage::WriteKeystore, Event::Io { ok }) => {
                if ok {
                    self.stage = Stage::ScanBase;
                } else {
                    self.error = Some(PatchError::IoFailed { stage: Stage::WriteKeystore });
                    self.stage = Stage::Failed;
                }
            },
            (Stage::ScanBase, Event::Entries(es)) => {
                match crate::scan::scan_for(&es, ContentType::Program) {
                    Ok(i) => {
                        self.base_program = Some(crate::scan::clone_entry(&es[i]));
                        self.stage = Stage::ScanUpdate;
                    },
                    Err(_) => {
                        self.error = Some(PatchError::NotFound {
                            kind: ContentType::Program,
                            dir: self.cfg.base_data_dir.clone(),
                        });
                        self.stage = Stage::Failed;
                    },
                }
            },
            (Stage::ScanUpdate, Event::Entries(es)) => {
                match crate::scan::find_first(&es, ContentType::Program) {
                    Ok(p) => {
                        match crate::scan::find_first(&es, ContentType::Control) {
                            Ok(c) => {
                                self.update_program = Some(crate::scan::clone_entry(&es[p]));
                                self.control = Some(crate::scan::clone_entry(&es[c]));
                                self.stage = Stage::ExtractFs;
                            },
                            Err(_) => {
                                self.error = Some(PatchError::NotFound {
                                    kind: ContentType::Control,
                                    dir: self.cfg.update_data_dir.clone(),
                                });
                                self.stage = Stage::Failed;
                            },
                        }
                    },
                    Err(_) => {
                        self.error = Some(PatchError::NotFound {
                            kind: ContentType::Program,
                            dir: self.cfg.update_data_dir.clone(),
                        });
                        self.stage = Stage::Failed;
                    },
                }
            },
            (Stage::RelocateControl, Event::Io { ok }) => {
                if ok {
                    match &self.control {
                        Some(c) => {
                            let moved = ContentEntry {
                                path: path_join(
                                    &self.cfg.nca_dir,
                                    file_name(c.path.as_str()).as_str(),
                                ),
                                content_type: c.content_type,
                                title_id: match &c.title_id {
                                    Some(t) => Some(t.clone()),
                                    None => None,
                                },
                                size: c.size,
                            };
                            self.control = Some(moved);
                            self.stage = Stage::Cleanup;
                        },
                        None => {
                            proof {
                                assert(false);
                            }
                        },
                    }
                } else {
                    self.error = Some(PatchError::IoFailed { stage: Stage::RelocateControl });
                    self.stage = Stage::Failed;
                }
            },
            (Stage::ExtractFs, Event::Exit(code)) => {
                self.fs_extract_code = Some(code);
                self.stage = Stage::RelocateControl;
            },
            (Stage::Cleanup, Event::Done) => {
                let raw: Option<String> = match &self.base_program {
                    Some(bp) => match &bp.title_id {
                        Some(t) => Some(t.clone()),
                        None => None,
                    },
                    None => vstd::pervasive::unreached(),
                };
                match raw {
                    Some(t) => {
                        self.title_id = Some(normalize_title_id(t.as_str()));
                        self.stage = Stage::PackProgram;
                    },
                    None => {
                        match &self.base_program {
                            Some(bp) => {
                                self.error = Some(PatchError::MissingTitleId {
                                    path: bp.path.clone(),
                                });
                                self.stage = Stage::Failed;
                            },
                            None => {
                                proof {
                                    assert(false);
                                }
                            },
                        }
                    },
                }
            },
            (Stage::PackProgram, Event::Exit(code)) => {
                if code == 0 {
                    self.stage = Stage::ScanPacked;
                } else {
                    self.error = Some(PatchError::ExternalToolFailed {
                        stage: Stage::PackProgram,
                        exit_code: code,
                    });
                    self.stage = Stage::Failed;
                }
            },
            (Stage::ScanPacked, Event::Entries(es)) => {
                match crate::scan::find_first(&es, ContentType::Program) {
                    Ok(i) => {
                        self.patched = Some(crate::scan::clone_entry(&es[i]));
                        self.stage = Stage::PackMeta;
                    },
                    Err(_) => {
                        self.error = Some(PatchError::NotFound {
                            kind: ContentType::Program,
                            dir: self.cfg.nca_dir.clone(),
                        });
                        self.stage = Stage::Failed;
                    },
                }
            },
            (Stage::PackMeta, Event::Exit(code)) => {
                if code == 0 {
                    self.stage = Stage::PackNsp;
                } else {
                    self.error = Some(PatchError::ExternalToolFailed {
                        stage: Stage::PackMeta,
                        exit_code: code,
                    });
                    self.stage = Stage::Failed;
                }
            },
            (Stage::PackNsp, Event::Exit(code)) => {
                if code == 0 {
                    self.stage = Stage::MoveOut;
                } else {
                    self.error = Some(PatchError::ExternalToolFailed {
                        stage: Stage::PackNsp,
                        exit_code: code,
                    });
                    self.stage = Stage::Failed;
                }
            },
            (Stage::MoveOut, Event::Io { ok }) => {
                if ok {
                    match &self.title_id {
                        Some(tid) => {
                            self.output = Some(path_join(
                                &self.cfg.outdir,
                                patched_filename(tid.as_str()).as_str(),
                            ));
                            self.stage = Stage::Done;
                        },
                        None => {
                            proof {
                                assert(false);
                            }
                        },
                    }
                } else {
                    self.error = Some(PatchError::IoFailed { stage: Stage::MoveOut });
                    self.stage = Stage::Failed;
                }
            },
            _ => {},
        }
    }
}


/// Law: an aborted run writes no output archive.  Only a run that reached
/// its final stage holds an output path, so a failure at any stage — a
/// required entry missing from a scan included — leaves nothing behind.
pub proof fn lemma_failed_run_has_no_output(p: PatchPipeline)
    requires
        p.wf(),
        p.stage == Stage::Failed,
    ensures
        p.output is None,
{
}

} // verus!
