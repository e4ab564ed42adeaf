//! Backend store: resolves a logical tool kind to an executable path in a
//! persistent cache directory, and plans the build of a missing tool.

use vstd::prelude::*;
use vstd::string::*;

verus! {

/// The closed set of external tools the pipeline can call.
#[derive(Debug, Clone, Copy, PartialEq, Eq, Structural)]
pub enum BackendKind {
    Hacpack,
    Hactool,
    Hactoolnet,
    Hac2l,
}

/// Canonical cache filename for a tool kind.
pub open spec fn filename_spec(kind: BackendKind) -> Seq<char> {
    match kind {
        BackendKind::Hacpack => "hacpack"@,
        BackendKind::Hactool => "hactool"@,
        BackendKind::Hactoolnet => "hactoolnet"@,
        BackendKind::Hac2l => "hac2l"@,
    }
}

impl BackendKind {
    /// The filename under which this tool is cached.
    pub fn to_filename(&self) -> (r: String)
        ensures
            r@ == filename_spec(*self),
    {
        match self {
            BackendKind::Hacpack => String::from_str("hacpack"),
            BackendKind::Hactool => String::from_str("hactool"),
            BackendKind::Hactoolnet => String::from_str("hactoolnet"),
            BackendKind::Hac2l => String::from_str("hac2l"),
        }
    }
}

/// Ghost model of the cache directory: its root path and the set of
/// filenames present in it.
pub struct StoreModel {
    pub root: Seq<char>,
    pub cached: Set<Seq<char>>,
}

/// Path of a cache entry: the root, a separator, and the filename.
pub open spec fn store_path_spec(root: Seq<char>, name: Seq<char>) -> Seq<char> {
    root + "/"@ + name
}

/// What resolving a kind against a cache state yields: the cached path on a
/// hit, nothing on a miss (the caller must then acquire the tool).
pub open spec fn resolve_spec(m: StoreModel, kind: BackendKind) -> Option<Seq<char>> {
    if m.cached.contains(filename_spec(kind)) {
        Some(store_path_spec(m.root, filename_spec(kind)))
    } else {
        None
    }
}

/// Cache state after an acquired tool was stored under its canonical name.
pub open spec fn marked_spec(m: StoreModel, kind: BackendKind) -> StoreModel {
    StoreModel { root: m.root, cached: m.cached.insert(filename_spec(kind)) }
}

/// The persistent build-cache directory, as the pipeline sees it: a root
/// path plus the list of filenames present.  The shell constructs it from a
/// directory listing and keeps it in step with the stores it performs.
pub struct Store {
    root: String,
    cached: Vec<String>,
}

impl View for Store {
    type V = StoreModel;

    closed spec fn view(&self) -> StoreModel {
        StoreModel {
            root: self.root@,
            cached: Set::new(|n: Seq<char>| exists|i: int|
                0 <= i < self.cached@.len() && self.cached@[i]@ == n),
        }
    }
}

impl Store {
    /// A store rooted at `root` holding the filenames of `listing`.
    pub fn new(root: String, listing: Vec<String>) -> (r: Store)
        ensures
            r@.root == root@,
            forall|n: Seq<char>| r@.cached.contains(n) <==> (exists|i: int|
                0 <= i < listing@.len() && listing@[i]@ == n),
    {
        Store { root, cached: listing }
    }

    /// Whether a file of this name is present in the cache.
    pub fn is_cached(&self, name: &String) -> (b: bool)
        ensures
            b == self@.cached.contains(name@),
    {
        let mut i: usize = 0;
        while i < self.cached.len()
            invariant
                0 <= i <= self.cached@.len(),
                forall|j: int| 0 <= j < i ==> self.cached@[j]@ != name@,
            decreases self.cached@.len() - i,
        {
            if self.cached[i].eq(name) {
                proof {
                    assert(self.cached@[i as int]@ == name@);
                }
                return true;
            }
            i += 1;
        }
        false
    }

    /// The path a file of this name has (or would have) in the cache.
    pub fn path_of(&self, name: &String) -> (r: String)
        ensures
            r@ == store_path_spec(self@.root, name@),
    {
        self.root.clone().concat("/").concat(name.as_str())
    }

    /// Record that a file of this name is now present in the cache.
    pub fn mark_cached(&mut self, name: String)
        ensures
            final(self)@.root == old(self)@.root,
            final(self)@.cached =~= old(self)@.cached.insert(name@),
    {
        self.cached.push(name);
        proof {
            assert forall|n: Seq<char>| self@.cached.contains(n)
                <==> old(self)@.cached.insert(name@).contains(n) by {
                if old(self)@.cached.insert(name@).contains(n) {
                    if n == name@ {
                        assert(self.cached@[self.cached@.len() - 1]@ == n);
                    } else {
                        let i = choose|i: int|
                            0 <= i < old(self).cached@.len() && old(self).cached@[i]@ == n;
                        assert(self.cached@[i]@ == n);
                    }
                }
            }
        }
    }
}

/// Why a backend could not be handed out.
#[derive(Debug, Clone, Copy, PartialEq, Eq, Structural)]
pub enum BackendError {
    /// The tool is not in the cache; it must be acquired first.
    NotCached(BackendKind),
    /// An acquisition run failed at the named stage.
    BuildFailed { tool: BackendKind, stage: BuildStage },
}

/// The stages of acquiring a tool from source.
#[derive(Debug, Clone, Copy, PartialEq, Eq, Structural)]
pub enum BuildStage {
    Clone,
    Fixup,
    Compile,
    Install,
}

/// A tool kind paired with the executable path it resolved to.
pub struct Backend {
    kind: BackendKind,
    path: String,
}

impl Backend {
    /// The tool kind, for contracts.
    pub closed spec fn kind_spec(&self) -> BackendKind {
        self.kind
    }

    /// The resolved path, for contracts.
    pub closed spec fn path_spec(&self) -> Seq<char> {
        self.path@
    }

    /// Resolve `kind` against the cache: on a hit, the backend handle with
    /// the cached path; on a miss, `NotCached`, and the caller acquires the
    /// tool (see `make_hacpack` and its siblings) before resolving again.
    pub fn new(kind: BackendKind, store: &Store) -> (r: Result<Backend, BackendError>)
        ensures
            match r {
                Ok(b) => resolve_spec(store@, kind) == Some(b.path_spec())
                    && b.kind_spec() == kind,
                Err(e) => resolve_spec(store@, kind) is None
                    && e == BackendError::NotCached(kind),
            },
    {
        let filename = kind.to_filename();
        if store.is_cached(&filename) {
            Ok(Backend { kind, path: store.path_of(&filename) })
        } else {
            Err(BackendError::NotCached(kind))
        }
    }

    /// The resolved executable path.
    pub fn path(&self) -> (r: &String)
        ensures
            r@ == self.path_spec(),
    {
        &self.path
    }

    /// The tool kind this backend provides.
    pub fn kind(&self) -> (r: BackendKind)
        ensures
            r == self.kind_spec(),
    {
        self.kind
    }
}


/// The decimal digit character for a value below ten.
pub open spec fn digit_char(d: nat) -> char {
    if d == 0 { '0' } else if d == 1 { '1' } else if d == 2 { '2' } else if d == 3 { '3' }
    else if d == 4 { '4' } else if d == 5 { '5' } else if d == 6 { '6' } else if d == 7 { '7' }
    else if d == 8 { '8' } else { '9' }
}

/// The decimal rendering of a number: most significant digit first, no sign
/// and no padding.
pub open spec fn decimal_spec(n: nat) -> Seq<char>
    decreases n,
{
    if n < 10 {
        seq![digit_char(n)]
    } else {
        decimal_spec(n / 10) + seq![digit_char(n % 10)]
    }
}

/// Relies on u8::to_string: the decimal digits of the value, most
/// significant first, with no sign and no padding.
#[verifier::external_body]
fn decimal_of_u8(n: u8) -> (r: String)
    ensures
        r@ == decimal_spec(n as nat),
{
    n.to_string()
}

/// The build parallelism for a detected logical CPU count: half of it,
/// clamped to a minimum of one job.
pub fn make_jobs(nproc: u8) -> (r: u8)
    ensures
        r == if nproc / 2 >= 1 { nproc / 2 } else { 1u8 },
{
    let half = nproc / 2;
    if half >= 1 {
        half
    } else {
        1
    }
}

/// How a missing tool is acquired on this target: the one shipped as a
/// prebuilt binary is written from embedded bytes, the others are built
/// from their upstream sources.
pub open spec fn acquire_method_spec(kind: BackendKind) -> AcquireMethod {
    match kind {
        BackendKind::Hactoolnet => AcquireMethod::WriteEmbedded,
        _ => AcquireMethod::BuildFromSource,
    }
}

/// How the shell must acquire a tool that is not yet cached.
#[derive(Debug, Clone, Copy, PartialEq, Eq, Structural)]
pub enum AcquireMethod {
    WriteEmbedded,
    BuildFromSource,
}

/// The acquisition method for `kind`.
pub fn acquire_method(kind: BackendKind) -> (r: AcquireMethod)
    ensures
        r == acquire_method_spec(kind),
{
    match kind {
        BackendKind::Hactoolnet => AcquireMethod::WriteEmbedded,
        _ => AcquireMethod::BuildFromSource,
    }
}

/// One filesystem or process action of a build plan.
#[derive(Debug)]
pub enum BuildOp {
    /// Run a program with these arguments, in `cwd` when given.
    Run { program: String, args: Vec<String>, cwd: Option<String> },
    /// Rename a file.
    Rename { from: String, to: String },
    /// Move a file across directories.
    MoveFile { from: String, to: String },
    /// Set the executable permission bit.
    SetExecutable { path: String },
}

/// One step of a build plan, tagged with the stage it belongs to so a
/// failure can be reported as `BuildFailed` at that stage.
#[derive(Debug)]
pub struct BuildStep {
    pub stage: BuildStage,
    pub op: BuildOp,
}

/// The views of a list of command-line arguments.
pub open spec fn arg_views(args: Seq<String>) -> Seq<Seq<char>> {
    args.map_values(|s: String| s@)
}

/// The plan that acquires the packer tool from source: clone its upstream
/// repository into `src_dir`, switch the template build configuration on,
/// compile with `jobs`-way parallelism, move the binary into the cache, and
/// mark it executable.
pub fn make_hacpack(src_dir: &String, store: &Store, jobs: u8) -> (r: Vec<BuildStep>)
    ensures
        r@.len() == 5,
        r@[0].stage == BuildStage::Clone,
        r@[0].op matches BuildOp::Run { program, args, cwd } && program@ == "git"@
            && arg_views(args@) == seq!["clone"@, "https://github.com/The-4n/hacPack"@, src_dir@]
            && cwd is None,
        r@[1].stage == BuildStage::Fixup,
        r@[1].op matches BuildOp::Rename { from, to }
            && from@ == store_path_spec(src_dir@, "config.mk.template"@)
            && to@ == store_path_spec(src_dir@, "config.mk"@),
        r@[2].stage == BuildStage::Compile,
        r@[2].op matches BuildOp::Run { program, args, cwd } && program@ == "make"@
            && arg_views(args@) == seq!["-j"@, decimal_spec(jobs as nat)]
            && cwd == Some(*src_dir),
        r@[3].stage == BuildStage::Install,
        r@[3].op matches BuildOp::MoveFile { from, to }
            && from@ == store_path_spec(src_dir@, filename_spec(BackendKind::Hacpack))
            && to@ == store_path_spec(store@.root, filename_spec(BackendKind::Hacpack)),
        r@[4].stage == BuildStage::Install,
        r@[4].op matches BuildOp::SetExecutable { path }
            && path@ == store_path_spec(store@.root, filename_spec(BackendKind::Hacpack)),
{
    build_from_repo(
        "https://github.com/The-4n/hacPack",
        src_dir,
        store,
        jobs,
        BackendKind::Hacpack,
    )
}

/// The plan that acquires the standalone unpacker tool from source; it has
/// the same shape as the packer's plan, from its own upstream repository.
pub fn make_hactool(src_dir: &String, store: &Store, jobs: u8) -> (r: Vec<BuildStep>)
    ensures
        r@.len() == 5,
        r@[0].stage == BuildStage::Clone,
        r@[0].op matches BuildOp::Run { program, args, cwd } && program@ == "git"@
            && arg_views(args@) == seq![
            "clone"@,
            "https://github.com/SciresM/hactool"@,
            src_dir@,
        ] && cwd is None,
        r@[1].stage == BuildStage::Fixup,
        r@[1].op matches BuildOp::Rename { from, to }
            && from@ == store_path_spec(src_dir@, "config.mk.template"@)
            && to@ == store_path_spec(src_dir@, "config.mk"@),
        r@[2].stage == BuildStage::Compile,
        r@[2].op matches BuildOp::Run { program, args, cwd } && program@ == "make"@
            && arg_views(args@) == seq!["-j"@, decimal_spec(jobs as nat)]
            && cwd == Some(*src_dir),
        r@[3].stage == BuildStage::Install,
        r@[3].op matches BuildOp::MoveFile { from, to }
            && from@ == store_path_spec(src_dir@, filename_spec(BackendKind::Hactool))
            && to@ == store_path_spec(store@.root, filename_spec(BackendKind::Hactool)),
        r@[4].stage == BuildStage::Install,
        r@[4].op matches BuildOp::SetExecutable { path }
            && path@ == store_path_spec(store@.root, filename_spec(BackendKind::Hactool)),
{
    build_from_repo(
        "https://github.com/SciresM/hactool",
        src_dir,
        store,
        jobs,
        BackendKind::Hactool,
    )
}

/// The shared shape of the two single-repository build plans.
fn build_from_repo(
    repo: &str,
    src_dir: &String,
    store: &Store,
    jobs: u8,
    kind: BackendKind,
) -> (r: Vec<BuildStep>)
    ensures
        r@.len() == 5,
        r@[0].stage == BuildStage::Clone,
        r@[0].op matches BuildOp::Run { program, args, cwd } && program@ == "git"@
            && arg_views(args@) == seq!["clone"@, repo@, src_dir@] && cwd is None,
        r@[1].stage == BuildStage::Fixup,
        r@[1].op matches BuildOp::Rename { from, to }
            && from@ == store_path_spec(src_dir@, "config.mk.template"@)
            && to@ == store_path_spec(src_dir@, "config.mk"@),
        r@[2].stage == BuildStage::Compile,
        r@[2].op matches BuildOp::Run { program, args, cwd } && program@ == "make"@
            && arg_views(args@) == seq!["-j"@, decimal_spec(jobs as nat)]
            && cwd == Some(*src_dir),
        r@[3].stage == BuildStage::Install,
        r@[3].op matches BuildOp::MoveFile { from, to }
            && from@ == store_path_spec(src_dir@, filename_spec(kind))
            && to@ == store_path_spec(store@.root, filename_spec(kind)),
        r@[4].stage == BuildStage::Install,
        r@[4].op matches BuildOp::SetExecutable { path }
            && path@ == store_path_spec(store@.root, filename_spec(kind)),
{
    let name = kind.to_filename();
    let dest = store.path_of(&name);
    let mut r: Vec<BuildStep> = Vec::new();
    let mut clone_args: Vec<String> = Vec::new();
    clone_args.push(String::from_str("clone"));
    clone_args.push(String::from_str(repo));
    clone_args.push(src_dir.clone());
    r.push(BuildStep {
        stage: BuildStage::Clone,
        op: BuildOp::Run { program: String::from_str("git"), args: clone_args, cwd: None },
    });
    r.push(BuildStep {
        stage: BuildStage::Fixup,
        op: BuildOp::Rename {
            from: src_dir.clone().concat("/").concat("config.mk.template"),
            to: src_dir.clone().concat("/").concat("config.mk"),
        },
    });
    let mut make_args: Vec<String> = Vec::new();
    make_args.push(String::from_str("-j"));
    make_args.push(decimal_of_u8(jobs));
    r.push(BuildStep {
        stage: BuildStage::Compile,
        op: BuildOp::Run {
            program: String::from_str("make"),
            args: make_args,
            cwd: Some(src_dir.clone()),
        },
    });
    r.push(BuildStep {
        stage: BuildStage::Install,
        op: BuildOp::MoveFile {
            from: src_dir.clone().concat("/").concat(name.as_str()),
            to: dest.clone(),
        },
    });
    r.push(BuildStep {
        stage: BuildStage::Install,
        op: BuildOp::SetExecutable { path: dest },
    });
    r
}

/// The plan that acquires the secondary reader tool from source: it lives
/// in a subdirectory of a larger tree, so both repositories are cloned and
/// the binary is taken from the build's release output directory.
pub fn make_hac2l(src_dir: &String, store: &Store, jobs: u8) -> (r: Vec<BuildStep>)
    ensures
        r@.len() == 5,
        r@[0].stage == BuildStage::Clone,
        r@[0].op matches BuildOp::Run { program, args, cwd } && program@ == "git"@
            && arg_views(args@) == seq![
            "clone"@,
            "https://github.com/Atmosphere-NX/Atmosphere.git"@,
            src_dir@,
        ] && cwd is None,
        r@[1].stage == BuildStage::Clone,
        r@[1].op matches BuildOp::Run { program, args, cwd } && program@ == "git"@
            && arg_views(args@) == seq![
            "clone"@,
            "https://github.com/Atmosphere-NX/hac2l.git"@,
            store_path_spec(src_dir@, "tools/hac2l"@),
        ] && cwd is None,
        r@[2].stage == BuildStage::Compile,
        r@[2].op matches BuildOp::Run { program, args, cwd } && program@ == "make"@
            && arg_views(args@) == seq!["-j"@, decimal_spec(jobs as nat)]
            && (cwd matches Some(c) && c@ == store_path_spec(src_dir@, "tools/hac2l"@)),
        r@[3].stage == BuildStage::Install,
        r@[3].op matches BuildOp::MoveFile { from, to }
            && from@ == store_path_spec(
                store_path_spec(
                    store_path_spec(src_dir@, "tools/hac2l"@),
                    "out/generic_linux_x64/release"@,
                ),
                filename_spec(BackendKind::Hac2l),
            )
            && to@ == store_path_spec(store@.root, filename_spec(BackendKind::Hac2l)),
        r@[4].stage == BuildStage::Install,
        r@[4].op matches BuildOp::SetExecutable { path }
            && path@ == store_path_spec(store@.root, filename_spec(BackendKind::Hac2l)),
{
    let name = BackendKind::Hac2l.to_filename();
    let dest = store.path_of(&name);
    let tool_dir = src_dir.clone().concat("/").concat("tools/hac2l");
    let mut r: Vec<BuildStep> = Vec::new();
    let mut first_clone: Vec<String> = Vec::new();
    first_clone.push(String::from_str("clone"));
    first_clone.push(String::from_str("https://github.com/Atmosphere-NX/Atmosphere.git"));
    first_clone.push(src_dir.clone());
    r.push(BuildStep {
        stage: BuildStage::Clone,
        op: BuildOp::Run { program: String::from_str("git"), args: first_clone, cwd: None },
    });
    let mut second_clone: Vec<String> = Vec::new();
    second_clone.push(String::from_str("clone"));
    second_clone.push(String::from_str("https://github.com/Atmosphere-NX/hac2l.git"));
    second_clone.push(tool_dir.clone());
    r.push(BuildStep {
        stage: BuildStage::Clone,
        op: BuildOp::Run { program: String::from_str("git"), args: second_clone, cwd: None },
    });
    let mut make_args: Vec<String> = Vec::new();
    make_args.push(String::from_str("-j"));
    make_args.push(decimal_of_u8(jobs));
    r.push(BuildStep {
        stage: BuildStage::Compile,
        op: BuildOp::Run {
            program: String::from_str("make"),
            args: make_args,
            cwd: Some(tool_dir.clone()),
        },
    });
    r.push(BuildStep {
        stage: BuildStage::Install,
        op: BuildOp::MoveFile {
            from: tool_dir.concat("/").concat("out/generic_linux_x64/release").concat(
                "/",
            ).concat(name.as_str()),
            to: dest.clone(),
        },
    });
    r.push(BuildStep {
        stage: BuildStage::Install,
        op: BuildOp::SetExecutable { path: dest },
    });
    r
}

/// Law: resolving a kind twice performs at most one acquisition.  If the
/// first resolution hits the cache, the state needs no acquisition and a
/// second resolution returns the identical path; if it misses, then after
/// the single acquisition a second resolution hits, again at the canonical
/// path, so no further acquisition ever happens for that kind.
pub proof fn lemma_resolve_at_most_one_acquisition(m: StoreModel, kind: BackendKind)
    ensures
        resolve_spec(m, kind) is Some ==>
            resolve_spec(m, kind) == resolve_spec(m, kind)
            && resolve_spec(marked_spec(m, kind), kind) == resolve_spec(m, kind),
        resolve_spec(marked_spec(m, kind), kind)
            == Some(store_path_spec(m.root, filename_spec(kind))),
{
    assert(marked_spec(m, kind).cached.contains(filename_spec(kind)));
}

} // verus!
