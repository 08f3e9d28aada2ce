//! What can be relied on of the plan of a mount: what is connected to, and which
//! of the options comes to bear where.
use crate::platform;
use crate::platform::Platform;
use crate::setup;
use crate::setup::{CacheMode, DirErrorKind, DirMeta, MountOptions, NfsSecurity, RepoType, Source};
use crate::text;
use vstd::prelude::*;

verus! {

// ── Sources ─────────────────────────────────────────────────────────────

/// The repo is a dataset, and `id` is what stands behind the word for it.
pub open spec fn is_dataset(repo_id: Seq<char>, id: Seq<char>) -> bool {
    repo_id == "datasets/"@ + id
}

/// A repo is a dataset exactly where its id starts with the word for it, which
/// is no part of the id.
pub proof fn law_repo_ids_say_their_kind(repo_id: Seq<char>, id: Seq<char>)
    ensures
        is_dataset(repo_id, id) ==> setup::spec_parse_repo_id(repo_id) == (RepoType::Dataset, id),
        (forall|x: Seq<char>| !is_dataset(repo_id, x)) ==> setup::spec_parse_repo_id(repo_id) == (
            RepoType::Model,
            repo_id,
        ),
        setup::spec_parse_repo_id(repo_id).0 == RepoType::Dataset ==> is_dataset(
            repo_id,
            setup::spec_parse_repo_id(repo_id).1,
        ),
{
    let word = "datasets/"@;
    if is_dataset(repo_id, id) {
        text::law_searching(Seq::empty(), word, id, repo_id);
        assert(repo_id.skip(word.len() as int) =~= id);
    }
    if text::spec_starts_with(repo_id, word) {
        text::law_searching(Seq::empty(), word, id, repo_id);
        let rest = repo_id.skip(word.len() as int);
        assert(repo_id.subrange(0, word.len() as int) == word);
        assert(repo_id =~= word + rest);
        assert(is_dataset(repo_id, rest));
    }
}

/// The label of a source tells what is mounted: the kind, the id and, of a repo,
/// the revision.
pub proof fn law_labels_tell_the_source(source: Source, id: Seq<char>)
    ensures
        source matches Source::Bucket { bucket_id, .. } ==> source.spec_label() == "bucket/"@
            + bucket_id@,
        source matches Source::Repo { repo_id, revision, .. } ==> is_dataset(repo_id@, id) ==>
            source.spec_label() == "dataset/"@ + id + "/"@ + revision@,
        source matches Source::Repo { repo_id, revision, .. } ==> (forall|x: Seq<char>| !is_dataset(
            repo_id@,
            x,
        )) ==> source.spec_label() == "model/"@ + repo_id@ + "/"@ + revision@,
        source matches Source::Bucket { bucket_id, .. } ==> source.spec_path() == bucket_id@,
        source matches Source::Repo { repo_id, .. } ==> is_dataset(repo_id@, id)
            ==> source.spec_path() == id,
        source matches Source::Repo { mount_point, .. } ==> source.spec_mount_point()
            == mount_point@,
        source matches Source::Bucket { mount_point, .. } ==> source.spec_mount_point()
            == mount_point@,
{
    reveal_strlit("model");
    reveal_strlit("model/");
    reveal_strlit("dataset");
    reveal_strlit("dataset/");
    reveal_strlit("/");
    assert("model"@ + "/"@ =~= "model/"@);
    assert("dataset"@ + "/"@ =~= "dataset/"@);
    if let Source::Repo { repo_id, revision, .. } = source {
        law_repo_ids_say_their_kind(repo_id@, id);
    }
}

// ── Steps ───────────────────────────────────────────────────────────────

proof fn lemma_both<A>(a: Seq<A>, b: Seq<A>, x: A)
    ensures
        (a + b).contains(x) <==> a.contains(x) || b.contains(x),
{
    if a.contains(x) {
        let i = a.index_of(x);
        assert((a + b)[i] == x);
    }
    if b.contains(x) {
        let i = b.index_of(x);
        assert((a + b)[a.len() + i] == x);
    }
    if (a + b).contains(x) {
        let i = (a + b).index_of(x);
        if i < a.len() {
            assert(a[i] == x);
        } else {
            assert(b[i - a.len()] == x);
        }
    }
}

proof fn lemma_one<A>(a: A, x: A)
    ensures
        seq![a].contains(x) <==> x == a,
{
    assert(seq![a][0] == a);
}

proof fn lemma_two<A>(a: A, b: A, x: A)
    ensures
        seq![a, b].contains(x) <==> x == a || x == b,
{
    assert(seq![a, b][0] == a && seq![a, b][1] == b);
}

/// A mount can be written to, locally or at the source.
pub open spec fn is_writable(source: Source, options: MountOptions) -> bool {
    options.overlay || (source is Bucket && !options.read_only)
}

/// The step belongs to a mount of `source`, which was taken apart into `id` and
/// `prefix`.
pub open spec fn belongs(
    step: setup::BuildStepView,
    source: Source,
    id: Seq<char>,
    prefix: Seq<char>,
    options: MountOptions,
    is_nfs: bool,
    platform: Platform,
) -> bool {
    let path = match source {
        Source::Bucket { mount_point, .. } => mount_point@,
        Source::Repo { mount_point, .. } => mount_point@,
    };
    match step {
        setup::BuildStepView::PrepareCacheDir { path: p } => p == options.cache_dir@,
        setup::BuildStepView::ConnectHub { source: s, path_prefix } => path_prefix == prefix && (
        match (source, s) {
            (Source::Bucket { .. }, setup::SourceKindView::Bucket { bucket_id }) => bucket_id == id,
            (
                Source::Repo { repo_id, revision, .. },
                setup::SourceKindView::Repo { repo_id: r, repo_type, revision: v },
            ) => r == id && v == revision@ && (repo_type == RepoType::Dataset <==> exists|
                x: Seq<char>,
            | is_dataset(repo_id@, x)),
            _ => false,
        }),
        setup::BuildStepView::CheckPathPrefix => prefix.len() > 0,
        setup::BuildStepView::CreateStorageContext => true,
        setup::BuildStepView::FetchStorageToken { read_only } => read_only == (source is Repo
            || options.read_only || options.overlay),
        setup::BuildStepView::BuildStorageConfig => true,
        setup::BuildStepView::CreateFileCache { dir, size } => !options.no_disk_cache
            && options.cache_mode == CacheMode::File && dir == options.cache_dir@ && size
            == options.cache_size,
        setup::BuildStepView::CreateChunkDir { dir } => !options.no_disk_cache && options.cache_mode
            == CacheMode::Chunk && dir == platform::spec_join(
            platform,
            options.cache_dir@,
            "xorbs"@,
        ),
        setup::BuildStepView::OpenChunkCache { dir, size } => !options.no_disk_cache
            && options.cache_mode == CacheMode::Chunk && dir == platform::spec_join(
            platform,
            options.cache_dir@,
            "xorbs"@,
        ) && size == options.cache_size,
        setup::BuildStepView::CreateStorageClient => true,
        setup::BuildStepView::CreateOverlayDir { path: p } => options.overlay && p == path,
        setup::BuildStepView::OpenOverlayDir { path: p } => options.overlay && p == path,
        setup::BuildStepView::CreateStagingDir { dir, max_size } => (source is Repo
            || options.advanced_writes || options.overlay || (is_nfs && is_writable(
            source,
            options,
        ))) && dir == options.cache_dir@ && max_size == options.max_staging_size,
        setup::BuildStepView::CreateMountPoint { path: p } => p == path && !(platform
            == Platform::Windows && is_nfs && is_drive(path)),
    }
}

/// The path is a drive of Windows: a letter and a colon, and perhaps a
/// separator.
pub open spec fn is_drive(path: Seq<char>) -> bool {
    &&& path.len() == 2 || (path.len() == 3 && (path[2] == '\\' || path[2] == '/'))
    &&& ('a' <= path[0] <= 'z') || ('A' <= path[0] <= 'Z')
    &&& path[1] == ':'
}

/// A plan holds the steps that belong to the mount, every one of them, and no
/// other: the source and the revision that were asked for are connected to, the
/// token can write only where the mount does, and each cache is where and as
/// large as the options say.
pub proof fn law_plans_hold_what_belongs(
    source: Source,
    id: Seq<char>,
    prefix: Seq<char>,
    options: MountOptions,
    is_nfs: bool,
    platform: Platform,
    step: setup::BuildStepView,
)
    ensures
        setup::spec_steps(source, id, prefix, options, is_nfs, platform).contains(step) <==> belongs(
            step,
            source,
            id,
            prefix,
            options,
            is_nfs,
            platform,
        ),
{
    let path = source.spec_mount_point();
    let kind = setup::spec_source_kind(source, id);
    if let Source::Repo { repo_id, .. } = source {
        law_repo_ids_say_their_kind(repo_id@, setup::spec_parse_repo_id(repo_id@).1);
        if exists|x: Seq<char>| is_dataset(repo_id@, x) {
            law_repo_ids_say_their_kind(
                repo_id@,
                choose|x: Seq<char>| is_dataset(repo_id@, x),
            );
        }
    }
    let cache = setup::BuildStepView::PrepareCacheDir { path: options.cache_dir@ };
    let connect = setup::BuildStepView::ConnectHub { source: kind, path_prefix: prefix };
    let hub = seq![cache, connect];
    let check = seq![setup::BuildStepView::CheckPathPrefix];
    let token = setup::BuildStepView::FetchStorageToken {
        read_only: setup::spec_remote_read_only(options, source.is_repo()),
    };
    let storage = seq![
        setup::BuildStepView::CreateStorageContext,
        token,
        setup::BuildStepView::BuildStorageConfig,
    ];
    let connected = setup::and_if(hub, prefix.len() > 0, check);
    lemma_two(cache, connect, step);
    lemma_one(setup::BuildStepView::CheckPathPrefix, step);
    lemma_both(hub, check, step);
    assert(storage[0] == setup::BuildStepView::CreateStorageContext && storage[1] == token
        && storage[2] == setup::BuildStepView::BuildStorageConfig);
    lemma_both(connected, storage, step);
    let first = setup::spec_connect_steps(source, id, prefix, options);
    assert(first == connected + storage);

    let dir = platform::spec_join(platform, options.cache_dir@, "xorbs"@);
    let none = Seq::<setup::BuildStepView>::empty();
    let file = setup::BuildStepView::CreateFileCache {
        dir: options.cache_dir@,
        size: options.cache_size,
    };
    let made = setup::BuildStepView::CreateChunkDir { dir };
    let opened = setup::BuildStepView::OpenChunkCache { dir, size: options.cache_size };
    lemma_one(file, step);
    lemma_two(made, opened, step);
    let files = setup::and_if(none, setup::spec_file_cache(options), seq![file]);
    lemma_both(none, seq![file], step);
    lemma_both(files, seq![made, opened], step);
    let second = setup::spec_cache_steps(options, platform);
    assert(second == setup::and_if(files, setup::spec_chunk_cache(options), seq![made, opened]));

    let client = setup::BuildStepView::CreateStorageClient;
    lemma_one(client, step);

    let over = setup::BuildStepView::CreateOverlayDir { path };
    let open = setup::BuildStepView::OpenOverlayDir { path };
    let stage = setup::BuildStepView::CreateStagingDir {
        dir: options.cache_dir@,
        max_size: options.max_staging_size,
    };
    let point = setup::BuildStepView::CreateMountPoint { path };
    lemma_two(over, open, step);
    lemma_one(stage, step);
    lemma_one(point, step);
    let overlay = setup::and_if(none, options.overlay, seq![over, open]);
    let staging = setup::and_if(
        overlay,
        setup::spec_staging(options, source.is_repo(), is_nfs),
        seq![stage],
    );
    lemma_both(none, seq![over, open], step);
    lemma_both(overlay, seq![stage], step);
    lemma_both(staging, seq![point], step);
    let last = setup::spec_local_steps(source, options, is_nfs, platform);

    lemma_both(first, second, step);
    lemma_both(first + second, seq![client], step);
    lemma_both(first + second + seq![client], last, step);
}

/// A plan connects once, right after the cache directory is known to be
/// private, and makes the mount point last of all, after it was opened for an
/// overlay.
pub proof fn law_plans_are_in_order(
    source: Source,
    id: Seq<char>,
    prefix: Seq<char>,
    options: MountOptions,
    is_nfs: bool,
    platform: Platform,
    i: int,
)
    ensures
        ({
            let steps = setup::spec_steps(source, id, prefix, options, is_nfs, platform);
            &&& steps.len() >= 6
            &&& steps[0] is PrepareCacheDir
            &&& steps[1] is ConnectHub
            &&& 0 <= i < steps.len() ==> {
                &&& steps[i] is PrepareCacheDir ==> i == 0
                &&& steps[i] is ConnectHub ==> i == 1
                &&& steps[i] is CheckPathPrefix ==> i == 2
                &&& steps[i] is CreateMountPoint ==> i == steps.len() - 1
                &&& steps[i] is OpenOverlayDir ==> i > 0 && steps[i - 1] is CreateOverlayDir
            }
        }),
{
}

// ── The file system ─────────────────────────────────────────────────────

/// The file system behind a mount is as the options say, but for what NFS does
/// not allow: inodes are not given up, and there is no way round the caches of
/// the client.
pub proof fn law_options_come_to_bear(
    source: Source,
    options: MountOptions,
    is_nfs: bool,
    uid: u32,
    gid: u32,
)
    ensures
        ({
            let vfs = setup::spec_vfs_config(options, source is Repo, is_nfs, uid, gid);
            &&& vfs.read_only <==> !is_writable(source, options)
            &&& vfs.advanced_writes <==> options.advanced_writes || options.overlay || (is_nfs
                && is_writable(source, options))
            &&& options.uid matches Some(u) ==> vfs.uid == u
            &&& options.uid is None ==> vfs.uid == uid
            &&& options.gid matches Some(g) ==> vfs.gid == g
            &&& options.gid is None ==> vfs.gid == gid
            &&& vfs.poll_interval_secs == options.poll_interval_secs
            &&& vfs.poll_listing_concurrency == options.poll_listing_concurrency
            &&& vfs.metadata_ttl_ms == options.metadata_ttl_ms
            &&& vfs.serve_lookup_from_cache <==> !options.metadata_ttl_minimal
            &&& vfs.filter_os_files <==> !options.no_filter_os_files
            &&& vfs.direct_io <==> options.direct_io && !is_nfs
            &&& vfs.flush_debounce_ms == options.flush_debounce_ms
            &&& vfs.flush_max_batch_window_ms == options.flush_max_batch_window_ms
            &&& is_nfs ==> vfs.inode_soft_limit == 0
            &&& !is_nfs ==> vfs.inode_soft_limit == options.inode_soft_limit
            &&& vfs.lru_sweep_interval_ms == options.lru_sweep_interval_ms
        }),
        setup::spec_remote_read_only(options, source is Repo) <==> source is Repo
            || options.read_only || options.overlay,
        setup::spec_fuse_owner_only(options) <==> !options.fuse_allow_other
            || options.fuse_owner_only,
{
}

/// A mount is refused exactly where its id cannot be taken apart, where an
/// overlay is asked for that cannot be, or where credentials would be open to
/// others on Windows; and a bad id is reported with what is wrong with it.
pub proof fn law_what_cannot_be_mounted_is_refused(
    source: Source,
    split: Option<Seq<char>>,
    options: MountOptions,
    is_nfs: bool,
    platform: Platform,
)
    ensures
        setup::spec_plan_problem(source, split, options, is_nfs, platform) is Some <==> {
            ||| split is Some
            ||| options.overlay && (options.read_only || platform == Platform::Windows)
            ||| platform == Platform::Windows && is_nfs && !options.nfs_allow_unsafe_loopback && (
            options.hf_token is Some || options.token_file is Some)
        },
        split matches Some(why) ==> setup::spec_plan_problem(
            source,
            split,
            options,
            is_nfs,
            platform,
        ) == Some(
            (if source is Repo {
                "invalid repo path: "@
            } else {
                "invalid bucket path: "@
            }) + why,
        ),
{
}

/// What a step reports when it fails ends with what went wrong, and names the
/// path that it was about where it quotes one.
pub proof fn law_failures_say_what_went_wrong(
    step: setup::BuildStepView,
    quoted: Seq<char>,
    error: Seq<char>,
)
    ensures
        ({
            let report = setup::spec_step_failure(step, quoted, error);
            &&& report.len() >= error.len()
            &&& report.skip(report.len() - error.len()) == error
            &&& setup::spec_quoted_path(step) is Some ==> exists|a: Seq<char>, b: Seq<char>| report
                == #[trigger] (a + quoted + b)
        }),
{
    let report = setup::spec_step_failure(step, quoted, error);
    assert(report.skip(report.len() - error.len()) =~= error);
    match step {
        setup::BuildStepView::PrepareCacheDir { .. } => {
            assert(report =~= "failed to prepare private cache dir "@ + quoted + (": "@ + error));
        },
        setup::BuildStepView::CreateChunkDir { .. } => {
            assert(report =~= "failed to create xorbs dir "@ + quoted + (": "@ + error));
        },
        setup::BuildStepView::CreateOverlayDir { .. } => {
            assert(report =~= "failed to create mount point "@ + quoted + (" for overlay: "@
                + error));
        },
        setup::BuildStepView::OpenOverlayDir { .. } => {
            assert(report =~= "failed to open mount point "@ + quoted + (" for overlay: "@ + error));
        },
        setup::BuildStepView::CreateMountPoint { .. } => {
            assert(report =~= "failed to create mount point "@ + quoted + (": "@ + error));
        },
        _ => {},
    }
}

/// A secret is written with two digits for each byte, the high half first.
pub proof fn law_secrets_are_written_in_hexadecimal(bytes: Seq<u8>, i: int)
    requires
        0 <= i < bytes.len(),
    ensures
        setup::hex_text(bytes).len() == 2 * bytes.len(),
        hex_value(setup::hex_text(bytes)[2 * i]) == bytes[i] / 16,
        hex_value(setup::hex_text(bytes)[2 * i + 1]) == bytes[i] % 16,
{
    assert((2 * i) / 2 == i && (2 * i + 1) / 2 == i);
    assert((2 * i) % 2 == 0 && (2 * i + 1) % 2 == 1);
}

/// An export is named after the secret that its file handles carry.
pub proof fn law_exports_are_named_after_their_secret(secret: Seq<u8>, i: int)
    requires
        secret.len() == 16,
        0 <= i < 16,
    ensures
        ({
            let name = NfsSecurity::spec_export_name(secret);
            &&& name.len() == 41
            &&& name.take(9) == "hf-mount-"@
            &&& hex_value(name[9 + 2 * i]) == secret[i] / 16
            &&& hex_value(name[10 + 2 * i]) == secret[i] % 16
        }),
{
    reveal_strlit("hf-mount-");
    let name = NfsSecurity::spec_export_name(secret);
    assert(name.take(9) =~= "hf-mount-"@);
    law_secrets_are_written_in_hexadecimal(secret, i);
    assert(name[9 + 2 * i] == setup::hex_text(secret)[2 * i]);
    assert(name[10 + 2 * i] == setup::hex_text(secret)[2 * i + 1]);
}

/// A mount that asks for nothing reads and writes, polls every 30 seconds,
/// keeps ten gigabytes of chunks and metadata for ten seconds, has 16 threads,
/// and flushes after two seconds and at most 30.
pub proof fn law_defaults(options: MountOptions)
    requires
        options.has_defaults(),
    ensures
        options.hf_token is None && options.token_file is None,
        options.hub_endpoint@ == "https://huggingface.co"@,
        options.uid is None && options.gid is None,
        !options.read_only && !options.advanced_writes && !options.overlay,
        options.poll_interval_secs == 30 && options.poll_listing_concurrency == 4,
        options.cache_size == 10_000_000_000 && options.max_staging_size == 0,
        !options.no_disk_cache && options.cache_mode == CacheMode::Chunk && !options.direct_io,
        options.metadata_ttl_ms == 10_000 && !options.metadata_ttl_minimal,
        options.max_threads == 16 && !options.no_filter_os_files,
        options.flush_debounce_ms == 2_000 && options.flush_max_batch_window_ms == 30_000,
        !options.fuse_owner_only && !options.fuse_allow_other,
        !options.nfs_allow_unsafe_loopback,
        options.inode_soft_limit == 0 && options.lru_sweep_interval_ms == 5_000,
{
}

/// A directory is private where it is one, is no link, and is the user's own;
/// one that is another's is denied with both of them named.
pub proof fn law_private_directories_are_the_users_own(meta: DirMeta, uid: u32)
    ensures
        setup::spec_private_dir_problem(meta, uid) is None <==> meta.is_dir && !meta.is_symlink
            && meta.uid == uid,
        meta.is_dir && !meta.is_symlink && meta.uid != uid ==> (setup::spec_private_dir_problem(
            meta,
            uid,
        ) matches Some(e) && e.kind == DirErrorKind::PermissionDenied && e.message
            == "directory is owned by uid "@ + text::spec_decimal(meta.uid as nat) + ", expected "@
            + text::spec_decimal(uid as nat)),
        !meta.is_dir || meta.is_symlink ==> (setup::spec_private_dir_problem(meta, uid) matches Some(
            e,
        ) && e.kind == DirErrorKind::PermissionDenied),
{
}

/// What others may do with a directory is the lower six bits of its mode, and
/// what its owner may do the three above them.
pub proof fn law_modes_are_read_in_octal(mode: u32)
    ensures
        setup::shared_bits(mode) == mode % 64,
        setup::owner_bits(mode) == mode / 64 % 8 * 64,
{
    assert(mode & 0o077 == mode % 64) by (bit_vector);
    assert(mode & 0o700 == mode / 64 % 8 * 64) by (bit_vector);
}

/// A step that fails is told with the path that it is about, where that is one
/// of a directory that the user knows.
pub proof fn law_failures_name_their_path(step: setup::BuildStepView)
    ensures
        match step {
            setup::BuildStepView::PrepareCacheDir { path } => setup::spec_quoted_path(step) == Some(
                path,
            ),
            setup::BuildStepView::CreateChunkDir { dir } => setup::spec_quoted_path(step) == Some(
                dir,
            ),
            setup::BuildStepView::CreateOverlayDir { path } => setup::spec_quoted_path(step) == Some(
                path,
            ),
            setup::BuildStepView::OpenOverlayDir { path } => setup::spec_quoted_path(step) == Some(
                path,
            ),
            setup::BuildStepView::CreateMountPoint { path } => setup::spec_quoted_path(step) == Some(
                path,
            ),
            _ => setup::spec_quoted_path(step) is None,
        },
{
}

/// An overlay that cannot be written to is refused before one on Windows, and
/// that before credentials that others could use.
pub proof fn law_refusals_have_their_order(source: Source, options: MountOptions, is_nfs: bool)
    requires
        options.overlay,
    ensures
        options.read_only ==> setup::spec_plan_problem(
            source,
            None,
            options,
            is_nfs,
            Platform::Windows,
        ) == setup::spec_plan_problem(source, None, options, is_nfs, Platform::Linux),
        !options.read_only ==> setup::spec_plan_problem(
            source,
            None,
            options,
            is_nfs,
            Platform::Windows,
        ) == Some(
            "--overlay is not supported on Windows. Use a regular NFS mount without --overlay."@,
        ),
{
}

/// The number that a hexadecimal digit stands for, and none where the character
/// is no such digit.
pub open spec fn hex_value(c: char) -> int {
    if '0' <= c <= '9' {
        c as int - '0' as int
    } else if 'a' <= c <= 'f' {
        c as int - 'a' as int + 10
    } else {
        -1
    }
}

} // verus!
