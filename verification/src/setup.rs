//! How a mount is configured, and what has to be done to bring it up.
use crate::platform;
use crate::platform::Platform;
use crate::text;
use crate::windows;
use vstd::prelude::*;

verus! {

// ── Sources ─────────────────────────────────────────────────────────────

/// What is kept on disk between reads.
#[derive(Clone, Copy, PartialEq, Eq, Structural, Debug)]
pub enum CacheMode {
    /// Ranges of stored blocks.
    Chunk,
    /// Whole files.
    File,
}

/// What is mounted, and where.
#[derive(Clone, PartialEq, Eq, Debug)]
pub enum Source {
    /// A bucket, as `user/bucket` or with a subfolder behind it.
    Bucket { bucket_id: String, mount_point: String },
    /// A repo at a revision, as `user/model` or with a subfolder behind it; the
    /// prefix `datasets/` makes it a dataset.
    Repo { repo_id: String, mount_point: String, revision: String },
}

/// The kinds of repos.
#[derive(Clone, Copy, PartialEq, Eq, Structural, Debug)]
pub enum RepoType {
    Model,
    Dataset,
}

impl RepoType {
    /// The name of the kind in a label.
    pub open spec fn spec_token(self) -> Seq<char> {
        match self {
            RepoType::Model => "model"@,
            RepoType::Dataset => "dataset"@,
        }
    }

    /// The name of the kind in a label.
    pub fn token(self) -> (r: &'static str)
        ensures
            r@ == self.spec_token(),
    {
        match self {
            RepoType::Model => "model",
            RepoType::Dataset => "dataset",
        }
    }
}

/// The prefix of the id of a dataset.
pub open spec fn dataset_prefix() -> Seq<char> {
    "datasets/"@
}

/// The kind of a repo, and its id without the prefix that says so.
pub open spec fn spec_parse_repo_id(repo_id: Seq<char>) -> (RepoType, Seq<char>) {
    if text::spec_starts_with(repo_id, dataset_prefix()) {
        (RepoType::Dataset, repo_id.skip(dataset_prefix().len() as int))
    } else {
        (RepoType::Model, repo_id)
    }
}

/// The kind of a repo, and its id without the prefix that says so.
pub fn parse_repo_id(repo_id: &str) -> (r: (RepoType, String))
    ensures
        (r.0, r.1@) == spec_parse_repo_id(repo_id@),
{
    let prefix = "datasets/";
    if text::starts_with(repo_id, prefix) {
        let chars = text::to_chars(repo_id);
        let from: usize = text::to_chars(prefix).len();
        let rest = text::substring(&chars, from, chars.len());
        assert(rest@ =~= repo_id@.skip(from as int));
        (RepoType::Dataset, rest)
    } else {
        (RepoType::Model, repo_id.to_owned())
    }
}

impl Source {
    pub open spec fn spec_mount_point(self) -> Seq<char> {
        match self {
            Source::Bucket { mount_point, .. } => mount_point@,
            Source::Repo { mount_point, .. } => mount_point@,
        }
    }

    /// Where it is mounted.
    pub fn mount_point(&self) -> (r: &str)
        ensures
            r@ == self.spec_mount_point(),
    {
        match self {
            Source::Bucket { mount_point, .. } => mount_point.as_str(),
            Source::Repo { mount_point, .. } => mount_point.as_str(),
        }
    }

    pub open spec fn spec_label(self) -> Seq<char> {
        match self {
            Source::Bucket { bucket_id, .. } => "bucket/"@ + bucket_id@,
            Source::Repo { repo_id, revision, .. } => {
                let (kind, id) = spec_parse_repo_id(repo_id@);
                kind.spec_token() + "/"@ + id + "/"@ + revision@
            },
        }
    }

    /// What is mounted, as a person reads it.
    pub fn label(&self) -> (r: String)
        ensures
            r@ == self.spec_label(),
    {
        match self {
            Source::Bucket { bucket_id, .. } => text::concat("bucket/", bucket_id.as_str()),
            Source::Repo { repo_id, revision, .. } => {
                let (kind, id) = parse_repo_id(repo_id.as_str());
                let mut r = kind.token().to_owned();
                r.append("/");
                r.append(id.as_str());
                r.append("/");
                r.append(revision.as_str());
                r
            },
        }
    }

    pub open spec fn is_repo(self) -> bool {
        self is Repo
    }

    pub open spec fn spec_path(self) -> Seq<char> {
        match self {
            Source::Bucket { bucket_id, .. } => bucket_id@,
            Source::Repo { repo_id, .. } => spec_parse_repo_id(repo_id@).1,
        }
    }

    /// The id together with the subfolder behind it, which the client of the
    /// Hub takes apart.
    pub fn path(&self) -> (r: String)
        ensures
            r@ == self.spec_path(),
    {
        match self {
            Source::Bucket { bucket_id, .. } => bucket_id.clone(),
            Source::Repo { repo_id, .. } => parse_repo_id(repo_id.as_str()).1,
        }
    }
}

// ── Options ─────────────────────────────────────────────────────────────

/// The options of a mount, whichever backend serves it.
#[derive(Clone, PartialEq, Eq, Debug)]
pub struct MountOptions {
    pub hf_token: Option<String>,
    /// Read again before each request; goes before `hf_token`.
    pub token_file: Option<String>,
    pub hub_endpoint: String,
    pub cache_dir: String,
    /// The owner of all files, in place of the user.
    pub uid: Option<u32>,
    pub gid: Option<u32>,
    pub read_only: bool,
    /// Writes go to staging files and are committed later.
    pub advanced_writes: bool,
    /// Zero to not poll.
    pub poll_interval_secs: u64,
    pub poll_listing_concurrency: u32,
    /// In bytes.
    pub cache_size: u64,
    /// In bytes; zero for no limit.
    pub max_staging_size: u64,
    pub no_disk_cache: bool,
    pub cache_mode: CacheMode,
    pub direct_io: bool,
    pub metadata_ttl_ms: u64,
    pub metadata_ttl_minimal: bool,
    pub max_threads: usize,
    pub flush_debounce_ms: u64,
    pub flush_max_batch_window_ms: u64,
    pub no_filter_os_files: bool,
    /// The default; kept for older command lines.
    pub fuse_owner_only: bool,
    pub fuse_allow_other: bool,
    pub nfs_allow_unsafe_loopback: bool,
    /// Zero for no limit.
    pub inode_soft_limit: usize,
    pub lru_sweep_interval_ms: u64,
    /// The mount point is a writable layer over the source.
    pub overlay: bool,
}

/// A command line.
#[derive(Clone, PartialEq, Eq, Debug)]
pub struct Args {
    pub source: Source,
    pub options: MountOptions,
}

impl MountOptions {
    /// All that a user can leave out has its documented default.
    pub open spec fn has_defaults(self) -> bool {
        &&& self.hf_token is None
        &&& self.token_file is None
        &&& self.hub_endpoint@ == "https://huggingface.co"@
        &&& self.uid is None
        &&& self.gid is None
        &&& !self.read_only
        &&& !self.advanced_writes
        &&& self.poll_interval_secs == 30
        &&& self.poll_listing_concurrency == 4
        &&& self.cache_size == 10_000_000_000
        &&& self.max_staging_size == 0
        &&& !self.no_disk_cache
        &&& self.cache_mode == CacheMode::Chunk
        &&& !self.direct_io
        &&& self.metadata_ttl_ms == 10_000
        &&& !self.metadata_ttl_minimal
        &&& self.max_threads == 16
        &&& self.flush_debounce_ms == 2_000
        &&& self.flush_max_batch_window_ms == 30_000
        &&& !self.no_filter_os_files
        &&& !self.fuse_owner_only
        &&& !self.fuse_allow_other
        &&& !self.nfs_allow_unsafe_loopback
        &&& self.inode_soft_limit == 0
        &&& self.lru_sweep_interval_ms == 5_000
        &&& !self.overlay
    }

    /// The options of a mount that none is given for.
    pub fn with_defaults(cache_dir: String) -> (r: MountOptions)
        ensures
            r.has_defaults(),
            r.cache_dir == cache_dir,
    {
        MountOptions {
            hf_token: None,
            token_file: None,
            hub_endpoint: "https://huggingface.co".to_owned(),
            cache_dir,
            uid: None,
            gid: None,
            read_only: false,
            advanced_writes: false,
            poll_interval_secs: 30,
            poll_listing_concurrency: 4,
            cache_size: 10_000_000_000,
            max_staging_size: 0,
            no_disk_cache: false,
            cache_mode: CacheMode::Chunk,
            direct_io: false,
            metadata_ttl_ms: 10_000,
            metadata_ttl_minimal: false,
            max_threads: 16,
            flush_debounce_ms: 2_000,
            flush_max_batch_window_ms: 30_000,
            no_filter_os_files: false,
            fuse_owner_only: false,
            fuse_allow_other: false,
            nfs_allow_unsafe_loopback: false,
            inode_soft_limit: 0,
            lru_sweep_interval_ms: 5_000,
            overlay: false,
        }
    }
}

/// The cache directory of a user who names none: one of its own in the
/// directory for temporary files.
pub fn default_cache_dir(platform: Platform, temp_dir: &str) -> (r: String)
    ensures
        r@ == platform::spec_join(platform, temp_dir@, "hf-mount-cache"@),
{
    platform::join(platform, temp_dir, "hf-mount-cache")
}

/// Only the mounting user has access, unless others are let in and the old
/// option does not say otherwise.
pub open spec fn spec_fuse_owner_only(options: MountOptions) -> bool {
    options.fuse_owner_only || !options.fuse_allow_other
}

/// Tells whether only the mounting user has access.
pub fn effective_fuse_owner_only(options: &MountOptions) -> (r: bool)
    ensures
        r == spec_fuse_owner_only(*options),
{
    options.fuse_owner_only || !options.fuse_allow_other
}

// ── Security ────────────────────────────────────────────────────────────

/// What keeps other users of the machine out of an NFS mount.
#[derive(Clone, PartialEq, Eq, Debug)]
pub struct NfsSecurity {
    pub owner_uid: u32,
    pub allow_unsafe_loopback: bool,
    pub export_name: String,
    pub filehandle_secret: [u8; 16],
}

/// The digit for `n` in a hexadecimal number.
pub open spec fn hex_digit(n: nat) -> char {
    if n < 10 {
        ('0' as u32 + n) as char
    } else {
        ('a' as u32 + n - 10) as char
    }
}

/// The bytes as hexadecimal digits, two for each, the high one first.
pub open spec fn hex_text(bytes: Seq<u8>) -> Seq<char> {
    Seq::new(
        2 * bytes.len(),
        |i: int|
            hex_digit(
                if i % 2 == 0 {
                    (bytes[i / 2] / 16) as nat
                } else {
                    (bytes[i / 2] % 16) as nat
                },
            ),
    )
}

/// `uuid::Uuid::new_v4` draws sixteen bytes from the random source of the
/// operating system and marks them as a random UUID: the high half of the
/// seventh byte is four, and the ninth byte starts with the bits one and zero.
/// All else is chance. It panics where the operating system has no random
/// source.
#[verifier::external_body]
fn random_uuid() -> (r: [u8; 16])
    ensures
        0x40 <= r@[6] <= 0x4f,
        0x80 <= r@[8] <= 0xbf,
{
    *uuid::Uuid::new_v4().as_bytes()
}

/// `uuid::Uuid::simple` writes the bytes as thirty-two hexadecimal digits in
/// lower case, with nothing between them.
#[verifier::external_body]
fn simple_uuid_text(bytes: [u8; 16]) -> (r: String)
    ensures
        r@ == hex_text(bytes@),
{
    uuid::Uuid::from_bytes(bytes).simple().to_string()
}

impl NfsSecurity {
    /// The name of the export of the mount with the given secret.
    pub open spec fn spec_export_name(secret: Seq<u8>) -> Seq<char> {
        "hf-mount-"@ + hex_text(secret)
    }

    /// The security of a mount whose random bytes are `secret`.
    pub fn with_secret(owner_uid: u32, allow_unsafe_loopback: bool, secret: [u8; 16]) -> (r:
        NfsSecurity)
        ensures
            r.owner_uid == owner_uid,
            r.allow_unsafe_loopback == allow_unsafe_loopback,
            r.filehandle_secret == secret,
            r.export_name@ == NfsSecurity::spec_export_name(secret@),
    {
        let id = simple_uuid_text(secret);
        NfsSecurity {
            owner_uid,
            allow_unsafe_loopback,
            export_name: text::concat("hf-mount-", id.as_str()),
            filehandle_secret: secret,
        }
    }

    /// The security of a new mount, with a secret and a name of its own.
    pub fn new(owner_uid: u32, allow_unsafe_loopback: bool) -> (r: NfsSecurity)
        ensures
            r.owner_uid == owner_uid,
            r.allow_unsafe_loopback == allow_unsafe_loopback,
            r.export_name@ == NfsSecurity::spec_export_name(r.filehandle_secret@),
            0x40 <= r.filehandle_secret@[6] <= 0x4f,
            0x80 <= r.filehandle_secret@[8] <= 0xbf,
    {
        NfsSecurity::with_secret(owner_uid, allow_unsafe_loopback, random_uuid())
    }
}

// ── Logging and the environment ─────────────────────────────────────────

/// How the log is written.
#[derive(Clone, Copy, PartialEq, Eq, Structural, Debug)]
pub struct TracingPlan {
    /// The filter comes from the variable `RUST_LOG`.
    pub filter_from_env: bool,
    pub json: bool,
    pub ansi: bool,
}

/// The filter of the log where `RUST_LOG` is not set.
pub fn default_log_filter() -> (r: &'static str)
    ensures
        r@ == "hf_mount=info"@,
{
    "hf_mount=info"
}

/// How the log is written. There are no colours in a log file.
pub fn tracing_plan(
    daemon: bool,
    rust_log_is_set: bool,
    rust_log_format: Option<&str>,
    stderr_is_terminal: bool,
) -> (r: TracingPlan)
    ensures
        r.filter_from_env == rust_log_is_set,
        r.json == (rust_log_format matches Some(format) && format@ == "json"@),
        r.ansi == (!daemon && stderr_is_terminal),
{
    let json: bool = match rust_log_format {
        Some(format) => text::str_eq(format, "json"),
        None => false,
    };
    TracingPlan { filter_from_env: rust_log_is_set, json, ansi: !daemon && stderr_is_terminal }
}

/// The number of variables that tune the storage client.
pub const STORAGE_VARS: usize = 10;

/// A variable that tunes the storage client for reads on demand, and its value.
pub open spec fn spec_storage_var(i: int) -> (Seq<char>, Seq<char>) {
    if i == 0 {
        ("HF_XET_CLIENT_AC_INITIAL_DOWNLOAD_CONCURRENCY"@, "16"@)
    } else if i == 1 {
        ("HF_XET_CLIENT_AC_MIN_BYTES_REQUIRED_FOR_ADJUSTMENT"@, "4194304"@)
    } else if i == 2 {
        ("HF_XET_RECONSTRUCTION_MIN_RECONSTRUCTION_FETCH_SIZE"@, "8388608"@)
    } else if i == 3 {
        ("HF_XET_RECONSTRUCTION_MIN_PREFETCH_BUFFER"@, "8388608"@)
    } else if i == 4 {
        ("HF_XET_RECONSTRUCTION_TARGET_BLOCK_COMPLETION_TIME"@, "30"@)
    } else if i == 5 {
        ("HF_XET_RECONSTRUCTION_DOWNLOAD_BUFFER_SIZE"@, "134217728"@)
    } else if i == 6 {
        ("HF_XET_RECONSTRUCTION_DOWNLOAD_BUFFER_LIMIT"@, "268435456"@)
    } else if i == 7 {
        ("HF_XET_CLIENT_READ_TIMEOUT"@, "600"@)
    } else if i == 8 {
        ("HF_XET_CLIENT_AC_INITIAL_UPLOAD_CONCURRENCY"@, "16"@)
    } else {
        ("HF_XET_DATA_INGESTION_BLOCK_SIZE"@, "16777216"@)
    }
}

/// The variables that tune the storage client, with their values.
pub fn storage_vars() -> (r: Vec<(&'static str, &'static str)>)
    ensures
        r@.len() == STORAGE_VARS,
        forall|i: int|
            0 <= i < STORAGE_VARS ==> ((#[trigger] r@[i]).0@, r@[i].1@) == spec_storage_var(i),
{
    let mut v: Vec<(&'static str, &'static str)> = Vec::new();
    v.push(("HF_XET_CLIENT_AC_INITIAL_DOWNLOAD_CONCURRENCY", "16"));
    v.push(("HF_XET_CLIENT_AC_MIN_BYTES_REQUIRED_FOR_ADJUSTMENT", "4194304"));
    v.push(("HF_XET_RECONSTRUCTION_MIN_RECONSTRUCTION_FETCH_SIZE", "8388608"));
    v.push(("HF_XET_RECONSTRUCTION_MIN_PREFETCH_BUFFER", "8388608"));
    v.push(("HF_XET_RECONSTRUCTION_TARGET_BLOCK_COMPLETION_TIME", "30"));
    v.push(("HF_XET_RECONSTRUCTION_DOWNLOAD_BUFFER_SIZE", "134217728"));
    v.push(("HF_XET_RECONSTRUCTION_DOWNLOAD_BUFFER_LIMIT", "268435456"));
    v.push(("HF_XET_CLIENT_READ_TIMEOUT", "600"));
    v.push(("HF_XET_CLIENT_AC_INITIAL_UPLOAD_CONCURRENCY", "16"));
    v.push(("HF_XET_DATA_INGESTION_BLOCK_SIZE", "16777216"));
    v
}

/// The number of open files that a mount asks for.
pub const TARGET_NOFILE: u64 = 65536;

/// The limit on open files to set, where `current` is the limit and `max` the
/// highest that the user may set; none where the limit is high enough.
pub fn fd_limit_to_set(current: u64, max: u64) -> (r: Option<u64>)
    ensures
        r == if current >= TARGET_NOFILE {
            None::<u64>
        } else if max < TARGET_NOFILE {
            Some(max)
        } else {
            Some(TARGET_NOFILE)
        },
{
    if current >= TARGET_NOFILE {
        None
    } else if max < TARGET_NOFILE {
        Some(max)
    } else {
        Some(TARGET_NOFILE)
    }
}

/// What is reported where the limit on open files cannot be raised.
pub fn fd_limit_failure() -> (r: String)
    ensures
        r@ == "warning: failed to raise file descriptor limit to "@ + text::spec_decimal(
            TARGET_NOFILE as nat,
        ),
{
    let n = text::decimal(TARGET_NOFILE);
    text::concat("warning: failed to raise file descriptor limit to ", n.as_str())
}

// ── The private directory ───────────────────────────────────────────────

/// What the file system says of a path, symbolic links not followed.
#[derive(Clone, Copy, PartialEq, Eq, Structural, Debug)]
pub struct DirMeta {
    pub is_symlink: bool,
    pub is_dir: bool,
    pub uid: u32,
    pub mode: u32,
}

/// What sort of failure it is.
#[derive(Clone, Copy, PartialEq, Eq, Structural, Debug)]
pub enum DirErrorKind {
    /// The path is not the user's to keep private things in.
    PermissionDenied,
    /// The file system failed.
    Other,
}

/// Why there is no private directory at a path.
#[derive(PartialEq, Eq, Debug)]
pub struct DirError {
    pub kind: DirErrorKind,
    pub message: String,
}

#[verifier::ext_equal]
pub ghost struct DirErrorView {
    pub kind: DirErrorKind,
    pub message: Seq<char>,
}

impl View for DirError {
    type V = DirErrorView;

    open spec fn view(&self) -> DirErrorView {
        DirErrorView { kind: self.kind, message: self.message@ }
    }
}

/// The refusal of a path, for the reason in `message`.
pub open spec fn denied(message: Seq<char>) -> DirErrorView {
    DirErrorView { kind: DirErrorKind::PermissionDenied, message }
}

impl DirError {
    /// The refusal of a path, for the reason in `message`.
    fn denied(message: String) -> (r: DirError)
        ensures
            r@ == denied(message@),
    {
        DirError { kind: DirErrorKind::PermissionDenied, message }
    }

    /// A failure of the file system.
    pub fn other(message: String) -> (r: DirError)
        ensures
            r@ == (DirErrorView { kind: DirErrorKind::Other, message: message@ }),
    {
        DirError { kind: DirErrorKind::Other, message }
    }
}

/// Refuses a path that is a symbolic link. `is_symlink` is `None` where there
/// is nothing at the path.
pub fn check_not_symlink(is_symlink: Option<bool>) -> (r: Result<(), DirError>)
    ensures
        r is Err <==> is_symlink == Some(true),
        r matches Err(e) ==> e@ == denied("path must not be a symlink"@),
{
    match is_symlink {
        Some(true) => Err(DirError::denied("path must not be a symlink".to_owned())),
        _ => Ok(()),
    }
}

/// The permission bits for the group and for others.
pub open spec fn shared_bits(mode: u32) -> u32 {
    mode & 0o077
}

/// The permission bits for the owner.
pub open spec fn owner_bits(mode: u32) -> u32 {
    mode & 0o700
}

/// Why a directory cannot be the user's private one.
pub open spec fn spec_private_dir_problem(meta: DirMeta, uid: u32) -> Option<DirErrorView> {
    if meta.is_symlink || !meta.is_dir {
        Some(denied("path must be an owner-private directory, not a symlink or file"@))
    } else if meta.uid != uid {
        Some(
            denied(
                "directory is owned by uid "@ + text::spec_decimal(meta.uid as nat) + ", expected "@
                    + text::spec_decimal(uid as nat),
            ),
        )
    } else {
        None
    }
}

/// The mode that makes a directory private to the user `uid`; none where it is
/// so already. A link, a file and another user's directory are refused.
pub fn check_private_dir(meta: DirMeta, uid: u32) -> (r: Result<Option<u32>, DirError>)
    ensures
        match r {
            Err(e) => spec_private_dir_problem(meta, uid) == Some(e@),
            Ok(to_set) => spec_private_dir_problem(meta, uid) is None && to_set == (if shared_bits(
                meta.mode,
            ) != 0 {
                Some(owner_bits(meta.mode))
            } else {
                None
            }),
        },
{
    if meta.is_symlink || !meta.is_dir {
        return Err(
            DirError::denied(
                "path must be an owner-private directory, not a symlink or file".to_owned(),
            ),
        );
    }
    if meta.uid != uid {
        let mut e = "directory is owned by uid ".to_owned();
        e.append(text::decimal(meta.uid as u64).as_str());
        e.append(", expected ");
        e.append(text::decimal(uid as u64).as_str());
        return Err(DirError::denied(e));
    }
    let m: u32 = meta.mode;
    let mode: u32 = m & 0o777;
    assert(((m & 0o777) & 0o077) == (m & 0o077)) by (bit_vector);
    assert(((m & 0o777) & !0o077) == (m & 0o700)) by (bit_vector);
    if mode & 0o077 != 0 {
        Ok(Some(mode & !0o077u32))
    } else {
        Ok(None)
    }
}

/// A link is refused for want of permission, both before the directory is made
/// and after.
pub proof fn law_links_are_denied(meta: DirMeta, uid: u32)
    ensures
        meta.is_symlink ==> (spec_private_dir_problem(meta, uid) matches Some(e) && e.kind
            == DirErrorKind::PermissionDenied),
        spec_private_dir_problem(meta, uid) matches Some(e) ==> e.kind
            == DirErrorKind::PermissionDenied,
{
}

/// A directory that passes ends up with no permission for the group or others,
/// and with those of the owner unchanged.
pub proof fn law_private_dirs_are_private(meta: DirMeta)
    ensures
        ({
            let after = if shared_bits(meta.mode) != 0 {
                owner_bits(meta.mode)
            } else {
                meta.mode
            };
            shared_bits(after) == 0 && owner_bits(after) == owner_bits(meta.mode)
        }),
{
    let m = meta.mode;
    assert((m & 0o700) & 0o077 == 0) by (bit_vector);
    assert((m & 0o700) & 0o700 == m & 0o700) by (bit_vector);
}

// ── Bringing a mount up ─────────────────────────────────────────────────

/// What is mounted, as the client of the Hub takes it.
#[derive(PartialEq, Eq, Debug)]
pub enum SourceKind {
    Bucket { bucket_id: String },
    Repo { repo_id: String, repo_type: RepoType, revision: String },
}

pub ghost enum SourceKindView {
    Bucket { bucket_id: Seq<char> },
    Repo { repo_id: Seq<char>, repo_type: RepoType, revision: Seq<char> },
}

impl View for SourceKind {
    type V = SourceKindView;

    open spec fn view(&self) -> SourceKindView {
        match *self {
            SourceKind::Bucket { bucket_id } => SourceKindView::Bucket { bucket_id: bucket_id@ },
            SourceKind::Repo { repo_id, repo_type, revision } => SourceKindView::Repo {
                repo_id: repo_id@,
                repo_type,
                revision: revision@,
            },
        }
    }
}

/// Something that has to be done before a mount can be served. They are done in
/// order, and the first that fails ends it.
#[derive(PartialEq, Eq, Debug)]
pub enum BuildStep {
    PrepareCacheDir { path: String },
    /// With the token and the token file of the options.
    ConnectHub { source: SourceKind, path_prefix: String },
    CheckPathPrefix,
    CreateStorageContext,
    FetchStorageToken { read_only: bool },
    BuildStorageConfig,
    CreateFileCache { dir: String, size: u64 },
    CreateChunkDir { dir: String },
    OpenChunkCache { dir: String, size: u64 },
    CreateStorageClient,
    CreateOverlayDir { path: String },
    OpenOverlayDir { path: String },
    CreateStagingDir { dir: String, max_size: u64 },
    /// A mount point that exists is none the worse.
    CreateMountPoint { path: String },
}

pub ghost enum BuildStepView {
    PrepareCacheDir { path: Seq<char> },
    ConnectHub { source: SourceKindView, path_prefix: Seq<char> },
    CheckPathPrefix,
    CreateStorageContext,
    FetchStorageToken { read_only: bool },
    BuildStorageConfig,
    CreateFileCache { dir: Seq<char>, size: u64 },
    CreateChunkDir { dir: Seq<char> },
    OpenChunkCache { dir: Seq<char>, size: u64 },
    CreateStorageClient,
    CreateOverlayDir { path: Seq<char> },
    OpenOverlayDir { path: Seq<char> },
    CreateStagingDir { dir: Seq<char>, max_size: u64 },
    CreateMountPoint { path: Seq<char> },
}

impl View for BuildStep {
    type V = BuildStepView;

    open spec fn view(&self) -> BuildStepView {
        match *self {
            BuildStep::PrepareCacheDir { path } => BuildStepView::PrepareCacheDir { path: path@ },
            BuildStep::ConnectHub { source, path_prefix } => BuildStepView::ConnectHub {
                source: source@,
                path_prefix: path_prefix@,
            },
            BuildStep::CheckPathPrefix => BuildStepView::CheckPathPrefix,
            BuildStep::CreateStorageContext => BuildStepView::CreateStorageContext,
            BuildStep::FetchStorageToken { read_only } => BuildStepView::FetchStorageToken {
                read_only,
            },
            BuildStep::BuildStorageConfig => BuildStepView::BuildStorageConfig,
            BuildStep::CreateFileCache { dir, size } => BuildStepView::CreateFileCache {
                dir: dir@,
                size,
            },
            BuildStep::CreateChunkDir { dir } => BuildStepView::CreateChunkDir { dir: dir@ },
            BuildStep::OpenChunkCache { dir, size } => BuildStepView::OpenChunkCache {
                dir: dir@,
                size,
            },
            BuildStep::CreateStorageClient => BuildStepView::CreateStorageClient,
            BuildStep::CreateOverlayDir { path } => BuildStepView::CreateOverlayDir { path: path@ },
            BuildStep::OpenOverlayDir { path } => BuildStepView::OpenOverlayDir { path: path@ },
            BuildStep::CreateStagingDir { dir, max_size } => BuildStepView::CreateStagingDir {
                dir: dir@,
                max_size,
            },
            BuildStep::CreateMountPoint { path } => BuildStepView::CreateMountPoint { path: path@ },
        }
    }
}

/// `format!("{:?}", Path::new(path))`: the path in double quotes, for a reader.
/// What is escaped, and how, differs between operating systems and is left open.
#[verifier::external_body]
fn path_debug(path: &str) -> (r: String) {
    format!("{:?}", std::path::Path::new(path))
}

/// The path that is quoted when a step fails.
pub open spec fn spec_quoted_path(step: BuildStepView) -> Option<Seq<char>> {
    match step {
        BuildStepView::PrepareCacheDir { path } => Some(path),
        BuildStepView::CreateChunkDir { dir } => Some(dir),
        BuildStepView::CreateOverlayDir { path } => Some(path),
        BuildStepView::OpenOverlayDir { path } => Some(path),
        BuildStepView::CreateMountPoint { path } => Some(path),
        _ => None,
    }
}

/// What is reported when a step fails with `error`, where `quoted` is how its
/// path is written.
pub open spec fn spec_step_failure(step: BuildStepView, quoted: Seq<char>, error: Seq<char>) -> Seq<
    char,
> {
    match step {
        BuildStepView::PrepareCacheDir { .. } => "failed to prepare private cache dir "@ + quoted
            + ": "@ + error,
        BuildStepView::ConnectHub { .. } => "failed to initialize Hub client: "@ + error,
        BuildStepView::CheckPathPrefix => error,
        BuildStepView::CreateStorageContext => "failed to create XetContext: "@ + error,
        BuildStepView::FetchStorageToken { .. } => "failed to get storage token: "@ + error,
        BuildStepView::BuildStorageConfig => "failed to build TranslatorConfig: "@ + error,
        BuildStepView::CreateFileCache { .. } => "failed to create file cache: "@ + error,
        BuildStepView::CreateChunkDir { .. } => "failed to create xorbs dir "@ + quoted + ": "@
            + error,
        BuildStepView::OpenChunkCache { .. } => "failed to create chunk cache: "@ + error,
        BuildStepView::CreateStorageClient => "failed to create storage client: "@ + error,
        BuildStepView::CreateOverlayDir { .. } => "failed to create mount point "@ + quoted
            + " for overlay: "@ + error,
        BuildStepView::OpenOverlayDir { .. } => "failed to open mount point "@ + quoted
            + " for overlay: "@ + error,
        BuildStepView::CreateStagingDir { .. } => error,
        BuildStepView::CreateMountPoint { .. } => "failed to create mount point "@ + quoted + ": "@
            + error,
    }
}

impl BuildStep {
    /// What is reported when the step fails with `error`, where `quoted` is how
    /// its path is written.
    pub fn failure_with(&self, quoted: &str, error: &str) -> (r: String)
        ensures
            r@ == spec_step_failure(self@, quoted@, error@),
    {
        let mut r = String::new();
        match self {
            BuildStep::PrepareCacheDir { .. } => {
                r = text::concat3("failed to prepare private cache dir ", quoted, ": ");
            },
            BuildStep::ConnectHub { .. } => {
                r = "failed to initialize Hub client: ".to_owned();
            },
            BuildStep::CheckPathPrefix => {
                return error.to_owned();
            },
            BuildStep::CreateStorageContext => {
                r = "failed to create XetContext: ".to_owned();
            },
            BuildStep::FetchStorageToken { .. } => {
                r = "failed to get storage token: ".to_owned();
            },
            BuildStep::BuildStorageConfig => {
                r = "failed to build TranslatorConfig: ".to_owned();
            },
            BuildStep::CreateFileCache { .. } => {
                r = "failed to create file cache: ".to_owned();
            },
            BuildStep::CreateChunkDir { .. } => {
                r = text::concat3("failed to create xorbs dir ", quoted, ": ");
            },
            BuildStep::OpenChunkCache { .. } => {
                r = "failed to create chunk cache: ".to_owned();
            },
            BuildStep::CreateStorageClient => {
                r = "failed to create storage client: ".to_owned();
            },
            BuildStep::CreateOverlayDir { .. } => {
                r = text::concat3("failed to create mount point ", quoted, " for overlay: ");
            },
            BuildStep::OpenOverlayDir { .. } => {
                r = text::concat3("failed to open mount point ", quoted, " for overlay: ");
            },
            BuildStep::CreateStagingDir { .. } => {
                return error.to_owned();
            },
            BuildStep::CreateMountPoint { .. } => {
                r = text::concat3("failed to create mount point ", quoted, ": ");
            },
        }
        r.append(error);
        r
    }

    /// The path that is quoted when the step fails.
    pub fn quoted_path(&self) -> (r: Option<&str>)
        ensures
            text::opt_view(r) == spec_quoted_path(self@),
    {
        match self {
            BuildStep::PrepareCacheDir { path } => Some(path.as_str()),
            BuildStep::CreateChunkDir { dir } => Some(dir.as_str()),
            BuildStep::CreateOverlayDir { path } => Some(path.as_str()),
            BuildStep::OpenOverlayDir { path } => Some(path.as_str()),
            BuildStep::CreateMountPoint { path } => Some(path.as_str()),
            _ => None,
        }
    }

    /// What is reported when the step fails with `error`. How the path that
    /// [`BuildStep::quoted_path`] names is quoted is left open.
    pub fn failure(&self, error: &str) -> (r: String)
        ensures
            exists|quoted: Seq<char>| r@ == #[trigger] spec_step_failure(self@, quoted, error@),
            spec_quoted_path(self@) is None ==> r@ == spec_step_failure(
                self@,
                Seq::<char>::empty(),
                error@,
            ),
    {
        match self.quoted_path() {
            Some(path) => self.failure_with(path_debug(path).as_str(), error),
            None => self.failure_with("", error),
        }
    }
}

/// Whether a mount point is made a directory before it is mounted on. A drive
/// letter comes into being when it is mapped.
pub open spec fn spec_should_create_mount_point(
    platform: Platform,
    mount_point: Seq<char>,
    is_nfs: bool,
) -> bool {
    !(platform == Platform::Windows && is_nfs && windows::spec_drive_letter(mount_point) is Some)
}

/// Tells whether a mount point is made a directory before it is mounted on.
pub fn should_create_mount_point(platform: Platform, mount_point: &str, is_nfs: bool) -> (r: bool)
    ensures
        r == spec_should_create_mount_point(platform, mount_point@, is_nfs),
{
    !(platform == Platform::Windows && is_nfs && windows::drive_letter(mount_point).is_some())
}

/// How the file system behind a mount works.
#[derive(Clone, Copy, PartialEq, Eq, Structural, Debug)]
pub struct VfsConfig {
    pub read_only: bool,
    pub advanced_writes: bool,
    pub uid: u32,
    pub gid: u32,
    pub poll_interval_secs: u64,
    pub poll_listing_concurrency: u32,
    pub metadata_ttl_ms: u64,
    pub serve_lookup_from_cache: bool,
    pub filter_os_files: bool,
    pub direct_io: bool,
    pub flush_debounce_ms: u64,
    pub flush_max_batch_window_ms: u64,
    pub inode_soft_limit: usize,
    pub lru_sweep_interval_ms: u64,
}

/// Nothing can be changed through the mount.
pub open spec fn spec_read_only(options: MountOptions, is_repo: bool) -> bool {
    (options.read_only || is_repo) && !options.overlay
}

/// Nothing is changed at the source.
pub open spec fn spec_remote_read_only(options: MountOptions, is_repo: bool) -> bool {
    spec_read_only(options, is_repo) || options.overlay
}

/// Writes go to staging files. NFS knows no closing of files that could commit
/// them at once.
pub open spec fn spec_advanced_writes(options: MountOptions, is_repo: bool, is_nfs: bool) -> bool {
    options.advanced_writes || options.overlay || (is_nfs && !spec_read_only(options, is_repo))
}

/// Whole files are kept on disk.
pub open spec fn spec_file_cache(options: MountOptions) -> bool {
    options.cache_mode == CacheMode::File && !options.no_disk_cache
}

/// Ranges of stored blocks are kept on disk.
pub open spec fn spec_chunk_cache(options: MountOptions) -> bool {
    !options.no_disk_cache && !spec_file_cache(options)
}

/// There is a directory for staging files. A repo downloads into it.
pub open spec fn spec_staging(options: MountOptions, is_repo: bool, is_nfs: bool) -> bool {
    spec_advanced_writes(options, is_repo, is_nfs) || is_repo
}

pub open spec fn spec_vfs_config(
    options: MountOptions,
    is_repo: bool,
    is_nfs: bool,
    uid: u32,
    gid: u32,
) -> VfsConfig {
    VfsConfig {
        read_only: spec_read_only(options, is_repo),
        advanced_writes: spec_advanced_writes(options, is_repo, is_nfs),
        uid: match options.uid {
            Some(u) => u,
            None => uid,
        },
        gid: match options.gid {
            Some(g) => g,
            None => gid,
        },
        poll_interval_secs: options.poll_interval_secs,
        poll_listing_concurrency: options.poll_listing_concurrency,
        metadata_ttl_ms: options.metadata_ttl_ms,
        serve_lookup_from_cache: !options.metadata_ttl_minimal,
        filter_os_files: !options.no_filter_os_files,
        direct_io: options.direct_io && !is_nfs,
        flush_debounce_ms: options.flush_debounce_ms,
        flush_max_batch_window_ms: options.flush_max_batch_window_ms,
        inode_soft_limit: if is_nfs {
            0
        } else {
            options.inode_soft_limit
        },
        lru_sweep_interval_ms: options.lru_sweep_interval_ms,
    }
}

/// How the file system behind a mount works, for the user `uid` and `gid`. NFS
/// clients hold on to inodes, so none may be given up under a limit.
pub fn vfs_config(
    options: &MountOptions,
    is_repo: bool,
    is_nfs: bool,
    uid: u32,
    gid: u32,
) -> (r: VfsConfig)
    ensures
        r == spec_vfs_config(*options, is_repo, is_nfs, uid, gid),
{
    let read_only: bool = (options.read_only || is_repo) && !options.overlay;
    let uid: u32 = match options.uid {
        Some(u) => u,
        None => uid,
    };
    let gid: u32 = match options.gid {
        Some(g) => g,
        None => gid,
    };
    let inode_soft_limit: usize = if is_nfs {
        0
    } else {
        options.inode_soft_limit
    };
    VfsConfig {
        read_only,
        advanced_writes: options.advanced_writes || options.overlay || (is_nfs && !read_only),
        uid,
        gid,
        poll_interval_secs: options.poll_interval_secs,
        poll_listing_concurrency: options.poll_listing_concurrency,
        metadata_ttl_ms: options.metadata_ttl_ms,
        serve_lookup_from_cache: !options.metadata_ttl_minimal,
        filter_os_files: !options.no_filter_os_files,
        direct_io: options.direct_io && !is_nfs,
        flush_debounce_ms: options.flush_debounce_ms,
        flush_max_batch_window_ms: options.flush_max_batch_window_ms,
        inode_soft_limit,
        lru_sweep_interval_ms: options.lru_sweep_interval_ms,
    }
}

/// All that is decided about a mount before anything is done.
#[derive(PartialEq, Eq, Debug)]
pub struct MountPlan {
    pub steps: Vec<BuildStep>,
    pub mount_point: String,
    pub vfs: VfsConfig,
    /// No token to write with is asked for, and nothing is uploaded.
    pub remote_read_only: bool,
    pub direct_io: bool,
    pub max_threads: usize,
    pub fuse_owner_only: bool,
    pub nfs_allow_unsafe_loopback: bool,
}

/// Why a mount is refused before anything is done. `split_error` says what is
/// wrong with the id.
pub open spec fn spec_plan_problem(
    source: Source,
    split_error: Option<Seq<char>>,
    options: MountOptions,
    is_nfs: bool,
    platform: Platform,
) -> Option<Seq<char>> {
    if split_error is Some {
        Some(
            (if source.is_repo() {
                "invalid repo path: "@
            } else {
                "invalid bucket path: "@
            }) + split_error->0,
        )
    } else if options.overlay && options.read_only {
        Some(
            "--overlay with --read-only is pointless: overlay enables local writes, --read-only disables them. Use --read-only alone instead."@,
        )
    } else if options.overlay && platform == Platform::Windows {
        Some(
            "--overlay is not supported on Windows. Use a regular NFS mount without --overlay."@,
        )
    } else if platform == Platform::Windows && is_nfs && (options.hf_token is Some
        || options.token_file is Some) && !options.nfs_allow_unsafe_loopback {
        Some(
            "credential-backed NFS mounts require --nfs-allow-unsafe-loopback on this platform because local NFS caller authorization cannot be enforced"@,
        )
    } else {
        None
    }
}

pub open spec fn spec_source_kind(source: Source, id: Seq<char>) -> SourceKindView {
    match source {
        Source::Bucket { .. } => SourceKindView::Bucket { bucket_id: id },
        Source::Repo { repo_id, revision, .. } => SourceKindView::Repo {
            repo_id: id,
            repo_type: spec_parse_repo_id(repo_id@).0,
            revision: revision@,
        },
    }
}

/// `steps` followed by `more`, where `wanted`.
pub open spec fn and_if(
    steps: Seq<BuildStepView>,
    wanted: bool,
    more: Seq<BuildStepView>,
) -> Seq<BuildStepView> {
    if wanted {
        steps + more
    } else {
        steps
    }
}

/// The steps up to the connection with the storage.
pub open spec fn spec_connect_steps(
    source: Source,
    id: Seq<char>,
    prefix: Seq<char>,
    options: MountOptions,
) -> Seq<BuildStepView> {
    let hub = seq![
        BuildStepView::PrepareCacheDir { path: options.cache_dir@ },
        BuildStepView::ConnectHub { source: spec_source_kind(source, id), path_prefix: prefix },
    ];
    and_if(hub, prefix.len() > 0, seq![BuildStepView::CheckPathPrefix]) + seq![
        BuildStepView::CreateStorageContext,
        BuildStepView::FetchStorageToken {
            read_only: spec_remote_read_only(options, source.is_repo()),
        },
        BuildStepView::BuildStorageConfig,
    ]
}

/// The steps that set up the caches on disk.
pub open spec fn spec_cache_steps(options: MountOptions, platform: Platform) -> Seq<BuildStepView> {
    let dir = platform::spec_join(platform, options.cache_dir@, "xorbs"@);
    let files = and_if(
        seq![],
        spec_file_cache(options),
        seq![
            BuildStepView::CreateFileCache { dir: options.cache_dir@, size: options.cache_size },
        ],
    );
    and_if(
        files,
        spec_chunk_cache(options),
        seq![
            BuildStepView::CreateChunkDir { dir },
            BuildStepView::OpenChunkCache { dir, size: options.cache_size },
        ],
    )
}

/// The steps that set up what is written locally.
pub open spec fn spec_local_steps(
    source: Source,
    options: MountOptions,
    is_nfs: bool,
    platform: Platform,
) -> Seq<BuildStepView> {
    let path = source.spec_mount_point();
    let overlay = and_if(
        seq![],
        options.overlay,
        seq![BuildStepView::CreateOverlayDir { path }, BuildStepView::OpenOverlayDir { path }],
    );
    let staging = and_if(
        overlay,
        spec_staging(options, source.is_repo(), is_nfs),
        seq![
            BuildStepView::CreateStagingDir {
                dir: options.cache_dir@,
                max_size: options.max_staging_size,
            },
        ],
    );
    and_if(
        staging,
        spec_should_create_mount_point(platform, path, is_nfs),
        seq![BuildStepView::CreateMountPoint { path }],
    )
}

/// All steps, in order. The covered directory of an overlay is opened before
/// it is mounted on, and nothing is read or written before the cache directory
/// is known to be private.
pub open spec fn spec_steps(
    source: Source,
    id: Seq<char>,
    prefix: Seq<char>,
    options: MountOptions,
    is_nfs: bool,
    platform: Platform,
) -> Seq<BuildStepView> {
    spec_connect_steps(source, id, prefix, options) + spec_cache_steps(options, platform) + seq![
        BuildStepView::CreateStorageClient,
    ] + spec_local_steps(source, options, is_nfs, platform)
}

/// What the steps hold.
pub open spec fn steps_view(steps: Seq<BuildStep>) -> Seq<BuildStepView> {
    steps.map_values(|s: BuildStep| s@)
}

/// Adds a step.
fn add_step(steps: &mut Vec<BuildStep>, step: BuildStep)
    ensures
        steps_view(final(steps)@) == steps_view(old(steps)@).push(step@),
{
    steps.push(step);
    assert(steps_view(steps@) =~= steps_view(old(steps)@).push(step@));
}

/// The steps up to the connection with the storage.
fn connect_steps(source: &Source, id: &str, prefix: &str, options: &MountOptions) -> (r: Vec<
    BuildStep,
>)
    ensures
        steps_view(r@) == spec_connect_steps(*source, id@, prefix@, *options),
{
    let (kind, is_repo) = match source {
        Source::Bucket { .. } => (SourceKind::Bucket { bucket_id: id.to_owned() }, false),
        Source::Repo { repo_id, revision, .. } => {
            let repo_type = parse_repo_id(repo_id.as_str()).0;
            (
                SourceKind::Repo {
                    repo_id: id.to_owned(),
                    repo_type,
                    revision: revision.clone(),
                },
                true,
            )
        },
    };
    let remote_read_only: bool = ((options.read_only || is_repo) && !options.overlay)
        || options.overlay;
    let mut steps: Vec<BuildStep> = Vec::new();
    add_step(&mut steps, BuildStep::PrepareCacheDir { path: options.cache_dir.clone() });
    add_step(
        &mut steps,
        BuildStep::ConnectHub { source: kind, path_prefix: prefix.to_owned() },
    );
    if !prefix.is_empty() {
        add_step(&mut steps, BuildStep::CheckPathPrefix);
    }
    add_step(&mut steps, BuildStep::CreateStorageContext);
    add_step(&mut steps, BuildStep::FetchStorageToken { read_only: remote_read_only });
    add_step(&mut steps, BuildStep::BuildStorageConfig);
    assert(steps_view(steps@) =~= spec_connect_steps(*source, id@, prefix@, *options));
    steps
}

/// Adds the steps that set up the caches on disk.
fn add_cache_steps(steps: &mut Vec<BuildStep>, options: &MountOptions, platform: Platform)
    ensures
        steps_view(final(steps)@) == steps_view(old(steps)@) + spec_cache_steps(*options, platform),
{
    let ghost before = steps_view(steps@);
    let file_cache: bool = options.cache_mode == CacheMode::File && !options.no_disk_cache;
    if file_cache {
        add_step(
            steps,
            BuildStep::CreateFileCache {
                dir: options.cache_dir.clone(),
                size: options.cache_size,
            },
        );
    }
    if !options.no_disk_cache && !file_cache {
        let dir = platform::join(platform, options.cache_dir.as_str(), "xorbs");
        add_step(steps, BuildStep::CreateChunkDir { dir: dir.clone() });
        add_step(steps, BuildStep::OpenChunkCache { dir, size: options.cache_size });
    }
    assert(steps_view(steps@) =~= before + spec_cache_steps(*options, platform));
}

/// Adds the steps that set up what is written locally.
fn add_local_steps(
    steps: &mut Vec<BuildStep>,
    source: &Source,
    options: &MountOptions,
    is_nfs: bool,
    platform: Platform,
)
    ensures
        steps_view(final(steps)@) == steps_view(old(steps)@) + spec_local_steps(
            *source,
            *options,
            is_nfs,
            platform,
        ),
{
    let ghost before = steps_view(steps@);
    let is_repo: bool = match source {
        Source::Bucket { .. } => false,
        Source::Repo { .. } => true,
    };
    let path = source.mount_point();
    let read_only: bool = (options.read_only || is_repo) && !options.overlay;
    let advanced: bool = options.advanced_writes || options.overlay || (is_nfs && !read_only);
    if options.overlay {
        add_step(steps, BuildStep::CreateOverlayDir { path: path.to_owned() });
        add_step(steps, BuildStep::OpenOverlayDir { path: path.to_owned() });
    }
    if advanced || is_repo {
        add_step(
            steps,
            BuildStep::CreateStagingDir {
                dir: options.cache_dir.clone(),
                max_size: options.max_staging_size,
            },
        );
    }
    if should_create_mount_point(platform, path, is_nfs) {
        add_step(steps, BuildStep::CreateMountPoint { path: path.to_owned() });
    }
    assert(steps_view(steps@) =~= before + spec_local_steps(*source, *options, is_nfs, platform));
}

/// What of a split id matters where it failed.
pub open spec fn split_error(split: Result<(String, String), String>) -> Option<Seq<char>> {
    match split {
        Ok(_) => None,
        Err(e) => Some(e@),
    }
}

/// Decides on a mount for the user `uid` and `gid`. `split` is what became of
/// [`Source::path`] when it was taken apart into the id and the subfolder.
pub fn plan_mount(
    source: &Source,
    split: Result<(String, String), String>,
    options: &MountOptions,
    is_nfs: bool,
    platform: Platform,
    uid: u32,
    gid: u32,
) -> (r: Result<MountPlan, String>)
    ensures
        match r {
            Err(e) => spec_plan_problem(*source, split_error(split), *options, is_nfs, platform)
                == Some(e@),
            Ok(plan) => {
                &&& spec_plan_problem(*source, split_error(split), *options, is_nfs, platform)
                    is None
                &&& split matches Ok((id, prefix)) && steps_view(plan.steps@) == spec_steps(
                    *source,
                    id@,
                    prefix@,
                    *options,
                    is_nfs,
                    platform,
                )
                &&& plan.mount_point@ == source.spec_mount_point()
                &&& plan.vfs == spec_vfs_config(*options, source.is_repo(), is_nfs, uid, gid)
                &&& plan.remote_read_only == spec_remote_read_only(*options, source.is_repo())
                &&& plan.direct_io == options.direct_io
                &&& plan.max_threads == options.max_threads
                &&& plan.fuse_owner_only == spec_fuse_owner_only(*options)
                &&& plan.nfs_allow_unsafe_loopback == options.nfs_allow_unsafe_loopback
            },
        },
{
    let is_repo: bool = match source {
        Source::Bucket { .. } => false,
        Source::Repo { .. } => true,
    };
    let (id, prefix) = match split {
        Err(e) => {
            let start = if is_repo {
                "invalid repo path: "
            } else {
                "invalid bucket path: "
            };
            return Err(text::concat(start, e.as_str()));
        },
        Ok(parts) => parts,
    };
    if options.overlay && options.read_only {
        return Err(
            "--overlay with --read-only is pointless: overlay enables local writes, --read-only disables them. Use --read-only alone instead.".to_owned(),
        );
    }
    if options.overlay && platform == Platform::Windows {
        return Err(
            "--overlay is not supported on Windows. Use a regular NFS mount without --overlay.".to_owned(),
        );
    }
    let private_credentials: bool = options.hf_token.is_some() || options.token_file.is_some();
    if platform == Platform::Windows && is_nfs && private_credentials
        && !options.nfs_allow_unsafe_loopback {
        return Err(
            "credential-backed NFS mounts require --nfs-allow-unsafe-loopback on this platform because local NFS caller authorization cannot be enforced".to_owned(),
        );
    }
    let mut steps = connect_steps(source, id.as_str(), prefix.as_str(), options);
    add_cache_steps(&mut steps, options, platform);
    let ghost so_far = steps_view(steps@);
    add_step(&mut steps, BuildStep::CreateStorageClient);
    assert(so_far.push(BuildStepView::CreateStorageClient) =~= so_far + seq![
        BuildStepView::CreateStorageClient,
    ]);
    add_local_steps(&mut steps, source, options, is_nfs, platform);
    let vfs = vfs_config(options, is_repo, is_nfs, uid, gid);
    Ok(
        MountPlan {
            steps,
            mount_point: source.mount_point().to_owned(),
            vfs,
            remote_read_only: vfs.read_only || options.overlay,
            direct_io: options.direct_io,
            max_threads: options.max_threads,
            fuse_owner_only: effective_fuse_owner_only(options),
            nfs_allow_unsafe_loopback: options.nfs_allow_unsafe_loopback,
        },
    )
}

// ── Laws ────────────────────────────────────────────────────────────────

/// Nothing is ever written to a repo.
pub proof fn law_repos_are_never_written(options: MountOptions)
    ensures
        spec_remote_read_only(options, true),
        !options.overlay ==> spec_read_only(options, true),
{
}

/// An overlay takes writes locally and sends none to the source.
pub proof fn law_overlays_write_locally_only(options: MountOptions, is_repo: bool, is_nfs: bool)
    requires
        options.overlay,
    ensures
        !spec_read_only(options, is_repo),
        spec_remote_read_only(options, is_repo),
        spec_advanced_writes(options, is_repo, is_nfs),
{
}

/// A mount over NFS that can be written to always writes through staging files.
pub proof fn law_nfs_writes_are_staged(options: MountOptions, is_repo: bool)
    requires
        !spec_read_only(options, is_repo),
    ensures
        spec_advanced_writes(options, is_repo, true),
        spec_staging(options, is_repo, true),
{
}

/// At most one kind of cache takes up disk, and none where there is to be none.
pub proof fn law_disk_caches_exclude_each_other(options: MountOptions)
    ensures
        !(spec_file_cache(options) && spec_chunk_cache(options)),
        options.no_disk_cache <==> !spec_file_cache(options) && !spec_chunk_cache(options),
{
}

/// Whatever the options, a mount over NFS never gives up an inode that a client
/// may still name.
pub proof fn law_nfs_inodes_are_never_given_up(
    options: MountOptions,
    is_repo: bool,
    uid: u32,
    gid: u32,
)
    ensures
        spec_vfs_config(options, is_repo, true, uid, gid).inode_soft_limit == 0,
        !spec_vfs_config(options, is_repo, true, uid, gid).direct_io,
{
}

/// The first step makes sure of the private cache directory, whatever the mount.
pub proof fn law_cache_dir_comes_first(
    source: Source,
    id: Seq<char>,
    prefix: Seq<char>,
    options: MountOptions,
    is_nfs: bool,
    platform: Platform,
)
    ensures
        spec_steps(source, id, prefix, options, is_nfs, platform).len() > 0,
        spec_steps(source, id, prefix, options, is_nfs, platform)[0]
            == (BuildStepView::PrepareCacheDir { path: options.cache_dir@ }),
{
}

/// On Windows nobody can be kept out of a mount over NFS: so one with
/// credentials is refused unless the user accepts that.
pub proof fn law_credentials_are_protected(
    source: Source,
    options: MountOptions,
)
    requires
        options.hf_token is Some || options.token_file is Some,
        !options.nfs_allow_unsafe_loopback,
    ensures
        spec_plan_problem(source, None, options, true, Platform::Windows) is Some,
{
}

/// Two mounts share their export name only if they share their secret.
pub proof fn law_export_names_tell_secrets_apart(a: Seq<u8>, b: Seq<u8>)
    requires
        a.len() == b.len(),
        NfsSecurity::spec_export_name(a) == NfsSecurity::spec_export_name(b),
    ensures
        a == b,
{
    let prefix = "hf-mount-"@;
    let x = hex_text(a);
    let y = hex_text(b);
    assert(x =~= y) by {
        assert forall|i: int| 0 <= i < x.len() implies x[i] == y[i] by {
            assert((prefix + x)[prefix.len() + i] == x[i]);
            assert((prefix + y)[prefix.len() + i] == y[i]);
        }
    }
    assert forall|i: int| 0 <= i < a.len() implies a[i] == b[i] by {
        assert((2 * i) / 2 == i && (2 * i + 1) / 2 == i);
        assert(x[2 * i] == hex_digit((a[i] / 16) as nat));
        assert(y[2 * i] == hex_digit((b[i] / 16) as nat));
        assert(x[2 * i + 1] == hex_digit((a[i] % 16) as nat));
        assert(y[2 * i + 1] == hex_digit((b[i] % 16) as nat));
        lemma_hex_digit_injective((a[i] / 16) as nat, (b[i] / 16) as nat);
        lemma_hex_digit_injective((a[i] % 16) as nat, (b[i] % 16) as nat);
    }
    assert(a =~= b);
}

proof fn lemma_hex_digit_injective(a: nat, b: nat)
    requires
        a < 16,
        b < 16,
        hex_digit(a) == hex_digit(b),
    ensures
        a == b,
{
}

} // verus!
