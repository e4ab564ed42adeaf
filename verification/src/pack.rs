//! Repackage-from-filesystem: given a validated Control entry and two
//! replacement filesystem trees, decide every invocation of the run — the
//! unpack of the Control entry's romfs that yields its metadata record, the
//! packing of the new Program entry, its companion Meta entry, the Control
//! copy, and the assembled archive — and where the finished archive goes.

use vstd::prelude::*;
use vstd::string::*;
use crate::patch::{
    file_name_spec, normalize_title_id, normalized_id_spec, pack_meta_args, pack_meta_args_spec,
    pack_nsp_args, pack_nsp_args_spec, pack_program_args, pack_program_args_spec, patched_filename,
    patched_filename_spec, path_join, path_join_spec, staged_filename, staged_filename_spec,
    strs, file_name,
};
use crate::scan::{is_definitive, ContentEntry, ContentType};

verus! {


/// Byte offset of the application name in a metadata file's first title
/// entry.
pub const NACP_NAME_OFFSET: usize = 0x0;

/// Width of the application name field.
pub const NACP_NAME_WIDTH: usize = 0x200;

/// Byte offset of the publisher field in the first title entry.
pub const NACP_PUBLISHER_OFFSET: usize = 0x200;

/// Width of the publisher field.
pub const NACP_PUBLISHER_WIDTH: usize = 0x100;

/// Smallest metadata file that holds one whole title entry.
pub const MIN_NACP_LEN: usize = 0x300;

/// Why a metadata file yielded no record.
#[derive(Debug, Clone, Copy, PartialEq, Eq, Structural)]
pub enum NacpError {
    /// The file holds fewer bytes than one title entry requires.
    TooShort { len: usize },
}

/// The application metadata record a Control entry embeds: the name and
/// publisher fields of the first title entry of its NACP file, as raw
/// fixed-width bytes (zero-padded on the wire).
#[derive(Debug, Clone)]
pub struct NacpData {
    name: Vec<u8>,
    publisher: Vec<u8>,
}

impl NacpData {
    /// The application name bytes, for contracts.
    pub closed spec fn name_spec(&self) -> Seq<u8> {
        self.name@
    }

    /// The publisher bytes, for contracts.
    pub closed spec fn publisher_spec(&self) -> Seq<u8> {
        self.publisher@
    }

    /// Both fields have their fixed width.
    pub open spec fn wf(&self) -> bool {
        self.name_spec().len() == NACP_NAME_WIDTH
            && self.publisher_spec().len() == NACP_PUBLISHER_WIDTH
    }

    /// The application name bytes.
    pub fn name(&self) -> (r: &Vec<u8>)
        ensures
            r@ == self.name_spec(),
    {
        &self.name
    }

    /// The publisher bytes.
    pub fn publisher(&self) -> (r: &Vec<u8>)
        ensures
            r@ == self.publisher_spec(),
    {
        &self.publisher
    }
}

/// Extract the metadata record from the raw bytes of a NACP file: the two
/// fixed-width fields of its first title entry, read positionally.  A file
/// shorter than one title entry is rejected.
pub fn get_nacp_data(nacp: &Vec<u8>) -> (r: Result<NacpData, NacpError>)
    ensures
        match r {
            Ok(d) => nacp@.len() >= MIN_NACP_LEN
                && d.wf()
                && d.name_spec() == nacp@.subrange(
                    NACP_NAME_OFFSET as int,
                    NACP_NAME_OFFSET as int + NACP_NAME_WIDTH as int,
                )
                && d.publisher_spec() == nacp@.subrange(
                    NACP_PUBLISHER_OFFSET as int,
                    NACP_PUBLISHER_OFFSET as int + NACP_PUBLISHER_WIDTH as int,
                ),
            Err(e) => nacp@.len() < MIN_NACP_LEN
                && e == (NacpError::TooShort { len: nacp@.len() as usize }),
        },
{
    if nacp.len() < MIN_NACP_LEN {
        return Err(NacpError::TooShort { len: nacp.len() });
    }
    let name = crate::ticket::copy_range(nacp, NACP_NAME_OFFSET, NACP_NAME_WIDTH);
    let publisher = crate::ticket::copy_range(nacp, NACP_PUBLISHER_OFFSET, NACP_PUBLISHER_WIDTH);
    Ok(NacpData { name, publisher })
}

/// Whether a path ends in the metadata-file extension; as with the
/// container-image extension, a bare dotfile does not count.
pub open spec fn has_nacp_ext_spec(s: Seq<char>) -> bool {
    s.len() >= 6
        && s[s.len() - 6] != '/'
        && s[s.len() - 5] == '.'
        && s[s.len() - 4] == 'n'
        && s[s.len() - 3] == 'a'
        && s[s.len() - 2] == 'c'
        && s[s.len() - 1] == 'p'
}

/// Whether `path` names a metadata file, by its extension.
pub fn has_nacp_extension(path: &str) -> (r: bool)
    ensures
        r == has_nacp_ext_spec(path@),
{
    let n = path.unicode_len();
    if n < 6 {
        return false;
    }
    path.get_char(n - 6) != '/' && path.get_char(n - 5) == '.'
        && path.get_char(n - 4) == 'n' && path.get_char(n - 3) == 'a'
        && path.get_char(n - 2) == 'c' && path.get_char(n - 1) == 'p'
}

/// Select the metadata file among the files of the unpacked Control romfs:
/// the first path with the metadata extension, in listing order; `None`
/// when the unpack produced no such file.
pub fn find_nacp(files: &Vec<String>) -> (r: Option<usize>)
    ensures
        match r {
            Some(i) => 0 <= i < files@.len()
                && has_nacp_ext_spec(files@[i as int]@)
                && (forall|j: int| 0 <= j < i ==> !has_nacp_ext_spec(files@[j]@)),
            None => forall|j: int| 0 <= j < files@.len() ==> !has_nacp_ext_spec(files@[j]@),
        },
{
    let mut i: usize = 0;
    while i < files.len()
        invariant
            0 <= i <= files@.len(),
            forall|j: int| 0 <= j < i ==> !has_nacp_ext_spec(files@[j]@),
        decreases files@.len() - i,
    {
        if has_nacp_extension(files[i].as_str()) {
            return Some(i);
        }
        i += 1;
    }
    None
}

/// Arguments of the Control-romfs unpack run that exposes the metadata
/// file.
pub open spec fn unpack_romfs_args_spec(
    control_nca: Seq<char>,
    romfs_dir: Seq<char>,
) -> Seq<Seq<char>> {
    seq!["--romfsdir"@, romfs_dir, control_nca]
}

/// Build the argument list for unpacking the Control entry's romfs, where
/// its metadata file lives.
pub fn unpack_romfs_args(control_nca: &String, romfs_dir: &String) -> (r: Vec<String>)
    ensures
        strs(r@) =~= unpack_romfs_args_spec(control_nca@, romfs_dir@),
{
    let mut r: Vec<String> = Vec::new();
    r.push(String::from_str("--romfsdir"));
    r.push(romfs_dir.clone());
    r.push(control_nca.clone());
    r
}

/// Why a repackage run could not start.
#[derive(Debug, Clone)]
pub enum PackError {
    /// No configured reader classified the given entry as Control kind.
    NotControl { path: String },
}

/// The decisions available before any packing has run: which reader
/// validated the Control entry, the normalized title identifier, the unpack
/// of the Control romfs that yields the metadata record, and the
/// Program-entry packer invocation.
#[derive(Debug)]
pub struct PackStart {
    pub control_index: usize,
    pub title_id: String,
    pub unpack_args: Vec<String>,
    pub program_args: Vec<String>,
}

/// The decisions of the second half of a repackage run, once the new
/// Program entry's path is known.
#[derive(Debug)]
pub struct PackFinish {
    pub meta_args: Vec<String>,
    pub control_copy_to: String,
    pub nsp_args: Vec<String>,
    pub move_from: String,
    pub move_to: String,
}

/// What `pack_fs_data` promises of its result.
pub open spec fn start_matches(
    r: PackStart,
    attempts: Seq<Option<ContentEntry>>,
    program_id: Seq<char>,
    keyset: Seq<char>,
    romfs_dir: Seq<char>,
    exefs_dir: Seq<char>,
    staging_dir: Seq<char>,
    control_path: Seq<char>,
    control_romfs_dir: Seq<char>,
) -> bool {
    &&& 0 <= r.control_index < attempts.len()
    &&& is_definitive(attempts[r.control_index as int], ContentType::Control)
    &&& forall|j: int| 0 <= j < r.control_index
        ==> !is_definitive(attempts[j], ContentType::Control)
    &&& r.title_id@ == normalized_id_spec(program_id)
    &&& strs(r.unpack_args@) == unpack_romfs_args_spec(control_path, control_romfs_dir)
    &&& strs(r.program_args@) == pack_program_args_spec(
        keyset,
        exefs_dir,
        romfs_dir,
        normalized_id_spec(program_id),
        staging_dir,
    )
}

/// Begin a repackage run: take the per-reader classification attempts for
/// the given entry in reader order, accept the first definitive Control
/// answer, normalize the title identifier, and decide the unpack of the
/// Control romfs (whose metadata file `find_nacp` then selects and
/// `get_nacp_data` reads) and the Program-entry packing invocation.  When
/// no reader validates the entry as Control, the run is refused.
pub fn pack_fs_data(
    attempts: &Vec<Option<ContentEntry>>,
    control_path: &String,
    program_id: &str,
    keyset: &String,
    romfs_dir: &String,
    exefs_dir: &String,
    staging_dir: &String,
    control_romfs_dir: &String,
) -> (r: Result<PackStart, PackError>)
    ensures
        match r {
            Ok(s) => start_matches(
                s,
                attempts@,
                program_id@,
                keyset@,
                romfs_dir@,
                exefs_dir@,
                staging_dir@,
                control_path@,
                control_romfs_dir@,
            ),
            Err(e) => (forall|j: int| 0 <= j < attempts@.len()
                ==> !is_definitive(attempts@[j], ContentType::Control))
                && (e matches PackError::NotControl { path } && path == control_path),
        },
{
    match crate::scan::first_definitive(attempts, ContentType::Control) {
        Some(i) => {
            let title_id = normalize_title_id(program_id);
            let unpack_args = unpack_romfs_args(control_path, control_romfs_dir);
            let program_args = pack_program_args(
                keyset,
                exefs_dir,
                romfs_dir,
                &title_id,
                staging_dir,
            );
            Ok(PackStart { control_index: i, title_id, unpack_args, program_args })
        },
        None => Err(PackError::NotControl { path: control_path.clone() }),
    }
}

/// What `pack_fs_finish` promises of its result.
pub open spec fn finish_matches(
    r: PackFinish,
    title_id: Seq<char>,
    keyset: Seq<char>,
    patched_path: Seq<char>,
    control_path: Seq<char>,
    staging_dir: Seq<char>,
    cache_dir: Seq<char>,
    outdir: Seq<char>,
) -> bool {
    &&& strs(r.meta_args@) == pack_meta_args_spec(
        keyset,
        patched_path,
        control_path,
        title_id,
        staging_dir,
    )
    &&& r.control_copy_to@ == path_join_spec(staging_dir, file_name_spec(control_path))
    &&& strs(r.nsp_args@) == pack_nsp_args_spec(keyset, staging_dir, title_id, cache_dir)
    &&& r.move_from@ == path_join_spec(cache_dir, staged_filename_spec(title_id))
    &&& r.move_to@ == path_join_spec(outdir, patched_filename_spec(title_id))
}

/// Finish a repackage run once the new Program entry's path is known:
/// decide the Meta-entry invocation, where the Control entry is copied, the
/// archive-assembly invocation, and the move of the finished archive into
/// the output directory under its deterministic name.
pub fn pack_fs_finish(
    title_id: &String,
    keyset: &String,
    patched_path: &String,
    control_path: &String,
    staging_dir: &String,
    cache_dir: &String,
    outdir: &String,
) -> (r: PackFinish)
    ensures
        finish_matches(
            r,
            title_id@,
            keyset@,
            patched_path@,
            control_path@,
            staging_dir@,
            cache_dir@,
            outdir@,
        ),
{
    PackFinish {
        meta_args: pack_meta_args(keyset, patched_path, control_path, title_id, staging_dir),
        control_copy_to: path_join(staging_dir, file_name(control_path.as_str()).as_str()),
        nsp_args: pack_nsp_args(keyset, staging_dir, title_id, cache_dir),
        move_from: path_join(cache_dir, staged_filename(title_id.as_str()).as_str()),
        move_to: path_join(outdir, patched_filename(title_id.as_str()).as_str()),
    }
}

/// Law: the output directory affects nothing a repackage run classifies or
/// packs.  Two runs over identical inputs whose output directories differ
/// issue the very same Program, Meta and archive-assembly invocations and
/// the same Control copy, and so assemble archives with identical internal
/// entry classifications; only the destination of the final move differs,
/// each under the deterministic name for the title identifier.
pub proof fn lemma_repack_outdir_independent(
    a: PackFinish,
    b: PackFinish,
    title_id: Seq<char>,
    keyset: Seq<char>,
    patched_path: Seq<char>,
    control_path: Seq<char>,
    staging_dir: Seq<char>,
    cache_dir: Seq<char>,
    outdir_a: Seq<char>,
    outdir_b: Seq<char>,
)
    requires
        finish_matches(a, title_id, keyset, patched_path, control_path, staging_dir, cache_dir, outdir_a),
        finish_matches(b, title_id, keyset, patched_path, control_path, staging_dir, cache_dir, outdir_b),
    ensures
        strs(a.meta_args@) == strs(b.meta_args@),
        a.control_copy_to@ == b.control_copy_to@,
        strs(a.nsp_args@) == strs(b.nsp_args@),
        a.move_from@ == b.move_from@,
        a.move_to@ == path_join_spec(outdir_a, patched_filename_spec(title_id)),
        b.move_to@ == path_join_spec(outdir_b, patched_filename_spec(title_id)),
{
}

} // verus!
