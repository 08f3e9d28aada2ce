use hf_mount::platform::Platform;
use hf_mount::setup::{
    check_not_symlink, check_private_dir, default_cache_dir, default_log_filter,
    effective_fuse_owner_only, fd_limit_failure, fd_limit_to_set, parse_repo_id, plan_mount,
    should_create_mount_point, storage_vars, tracing_plan, vfs_config, Args, BuildStep, CacheMode,
    DirError, DirErrorKind, DirMeta, MountOptions, NfsSecurity, RepoType, Source, SourceKind,
};

fn repo() -> Source {
    Source::Repo {
        repo_id: "openai/gpt".to_string(),
        mount_point: "/tmp/hf-mount-test".to_string(),
        revision: "main".to_string(),
    }
}

fn bucket() -> Source {
    Source::Bucket {
        bucket_id: "user/bucket/sub".to_string(),
        mount_point: "/mnt/b".to_string(),
    }
}

fn options() -> MountOptions {
    MountOptions::with_defaults("/cache".to_string())
}

fn ok_split() -> Result<(String, String), String> {
    Ok(("openai/gpt".to_string(), String::new()))
}

#[test]
fn nfs_drive_letters_are_not_created_as_directories() {
    assert!(!should_create_mount_point(Platform::Windows, "Z:", true));
    assert!(!should_create_mount_point(Platform::Windows, "Z:\\", true));
    assert!(should_create_mount_point(Platform::Windows, "C:\\hf-mounts\\repo", true));
    assert!(should_create_mount_point(Platform::Windows, "Z:", false));
}

/// The arguments of a command line, as far as this test needs them.
fn args(line: &[&str]) -> Args {
    let mut options = options();
    let mut rest: Vec<&str> = Vec::new();
    for word in &line[1..] {
        if *word == "--fuse-allow-other" {
            options.fuse_allow_other = true;
        } else {
            rest.push(*word);
        }
    }
    assert_eq!(rest[0], "repo");
    let source = Source::Repo {
        repo_id: rest[1].to_string(),
        mount_point: rest[2].to_string(),
        revision: "main".to_string(),
    };
    Args { source, options }
}

#[test]
fn fuse_owner_only_is_default_with_allow_other_opt_in() {
    let default_args = args(&["hf-mount-fuse", "repo", "openai/gpt", "/tmp/hf-mount-test"]);
    assert!(effective_fuse_owner_only(&default_args.options));

    let allow_args = args(&[
        "hf-mount-fuse",
        "--fuse-allow-other",
        "repo",
        "openai/gpt",
        "/tmp/hf-mount-test",
    ]);
    assert!(!effective_fuse_owner_only(&allow_args.options));
}

#[test]
fn the_old_option_wins_over_allow_other() {
    let mut both = options();
    both.fuse_allow_other = true;
    both.fuse_owner_only = true;
    assert!(effective_fuse_owner_only(&both));
}

fn denied(message: &str) -> DirError {
    DirError { kind: DirErrorKind::PermissionDenied, message: message.to_string() }
}

#[test]
fn a_cache_dir_loses_its_shared_permissions() {
    let open = DirMeta { is_symlink: false, is_dir: true, uid: 5, mode: 0o40755 };
    assert_eq!(check_private_dir(open, 5), Ok(Some(0o700)));
    let private = DirMeta { mode: 0o40700, ..open };
    assert_eq!(check_private_dir(private, 5), Ok(None));
    assert_eq!(
        check_private_dir(open, 6),
        Err(denied("directory is owned by uid 5, expected 6"))
    );
}

#[test]
fn a_cache_dir_is_no_symlink_and_no_file() {
    let link = DirMeta { is_symlink: true, is_dir: false, uid: 5, mode: 0o777 };
    let problem = "path must be an owner-private directory, not a symlink or file";
    assert_eq!(check_private_dir(link, 5), Err(denied(problem)));
    let file = DirMeta { is_symlink: false, is_dir: false, uid: 5, mode: 0o600 };
    assert_eq!(check_private_dir(file, 5), Err(denied(problem)));
    assert_eq!(check_not_symlink(Some(true)), Err(denied("path must not be a symlink")));
    assert_eq!(DirError::other("full".to_string()).kind, DirErrorKind::Other);
    assert_eq!(check_not_symlink(Some(false)), Ok(()));
    assert_eq!(check_not_symlink(None), Ok(()));
}

#[test]
fn sources_have_labels_and_paths() {
    assert_eq!(repo().mount_point(), "/tmp/hf-mount-test");
    assert_eq!(repo().label(), "model/openai/gpt/main");
    assert_eq!(bucket().label(), "bucket/user/bucket/sub");
    let dataset = Source::Repo {
        repo_id: "datasets/squad".to_string(),
        mount_point: "/m".to_string(),
        revision: "v1".to_string(),
    };
    assert_eq!(dataset.label(), "dataset/squad/v1");
    assert_eq!(dataset.path(), "squad");
    assert_eq!(bucket().path(), "user/bucket/sub");
    assert_eq!(parse_repo_id("datasets/a/b"), (RepoType::Dataset, "a/b".to_string()));
    assert_eq!(parse_repo_id("a/b"), (RepoType::Model, "a/b".to_string()));
}

#[test]
fn defaults_are_the_documented_ones() {
    let o = options();
    assert_eq!(o.cache_dir, "/cache");
    assert_eq!(o.hub_endpoint, "https://huggingface.co");
    assert_eq!(o.poll_interval_secs, 30);
    assert_eq!(o.cache_size, 10_000_000_000);
    assert_eq!(o.metadata_ttl_ms, 10_000);
    assert_eq!(o.max_threads, 16);
    assert_eq!(o.cache_mode, CacheMode::Chunk);
    assert!(!o.read_only);
    assert_eq!(default_cache_dir(Platform::Linux, "/tmp"), "/tmp/hf-mount-cache");
    assert_eq!(default_cache_dir(Platform::Windows, "C:\\Temp\\"), "C:\\Temp\\hf-mount-cache");
}

#[test]
fn a_new_secret_is_random_and_names_the_export() {
    let a = NfsSecurity::new(1000, true);
    let b = NfsSecurity::new(1000, true);
    assert_eq!(a.owner_uid, 1000);
    assert!(a.allow_unsafe_loopback);
    assert_ne!(a.filehandle_secret, b.filehandle_secret);
    assert_ne!(a.export_name, b.export_name);
    assert_eq!(a.export_name.len(), "hf-mount-".len() + 32);
    assert_eq!(a.filehandle_secret[6] >> 4, 4);
    assert_eq!(a.filehandle_secret[8] >> 6, 2);
}

#[test]
fn an_export_name_is_the_secret_in_hexadecimal() {
    let secret = [0, 1, 2, 0xab, 0xcd, 0xef, 0xff, 16, 17, 18, 19, 20, 21, 22, 23, 255];
    let security = NfsSecurity::with_secret(7, false, secret);
    assert_eq!(security.export_name, "hf-mount-000102abcdefff1011121314151617ff");
    assert_eq!(security.filehandle_secret, secret);
}

#[test]
fn the_log_has_colours_on_a_terminal_only() {
    let plan = tracing_plan(false, true, Some("json"), true);
    assert!(plan.filter_from_env && plan.json && plan.ansi);
    let plan = tracing_plan(true, false, Some("text"), true);
    assert!(!plan.filter_from_env && !plan.json && !plan.ansi);
    assert!(!tracing_plan(false, false, None, false).ansi);
    assert_eq!(default_log_filter(), "hf_mount=info");
    assert_eq!(storage_vars().len(), 10);
    assert_eq!(storage_vars()[7], ("HF_XET_CLIENT_READ_TIMEOUT", "600"));
}

#[test]
fn the_limit_on_open_files_is_raised_as_far_as_it_may_be() {
    assert_eq!(fd_limit_to_set(1024, 1 << 20), Some(65536));
    assert_eq!(fd_limit_to_set(1024, 4096), Some(4096));
    assert_eq!(fd_limit_to_set(65536, 1 << 20), None);
    assert_eq!(fd_limit_failure(), "warning: failed to raise file descriptor limit to 65536");
}

#[test]
fn a_repo_is_planned_read_only() {
    let plan = plan_mount(&repo(), ok_split(), &options(), true, Platform::Linux, 1, 2).unwrap();
    assert!(plan.vfs.read_only && plan.remote_read_only && !plan.vfs.advanced_writes);
    assert_eq!((plan.vfs.uid, plan.vfs.gid), (1, 2));
    assert_eq!(plan.mount_point, "/tmp/hf-mount-test");
    assert_eq!(plan.steps[0], BuildStep::PrepareCacheDir { path: "/cache".to_string() });
    assert_eq!(
        plan.steps[1],
        BuildStep::ConnectHub {
            source: SourceKind::Repo {
                repo_id: "openai/gpt".to_string(),
                repo_type: RepoType::Model,
                revision: "main".to_string(),
            },
            path_prefix: String::new(),
        }
    );
    assert_eq!(
        plan.steps[2..],
        [
            BuildStep::CreateStorageContext,
            BuildStep::FetchStorageToken { read_only: true },
            BuildStep::BuildStorageConfig,
            BuildStep::CreateChunkDir { dir: "/cache/xorbs".to_string() },
            BuildStep::OpenChunkCache { dir: "/cache/xorbs".to_string(), size: 10_000_000_000 },
            BuildStep::CreateStorageClient,
            BuildStep::CreateStagingDir { dir: "/cache".to_string(), max_size: 0 },
            BuildStep::CreateMountPoint { path: "/tmp/hf-mount-test".to_string() },
        ]
    );
}

#[test]
fn a_bucket_over_nfs_is_written_through_staging_files() {
    let mut o = options();
    o.cache_mode = CacheMode::File;
    o.direct_io = true;
    o.inode_soft_limit = 9;
    o.uid = Some(77);
    let split = Ok(("user/bucket".to_string(), "sub".to_string()));
    let plan = plan_mount(&bucket(), split, &o, true, Platform::MacOs, 1, 2).unwrap();
    assert!(!plan.vfs.read_only && plan.vfs.advanced_writes && !plan.remote_read_only);
    assert_eq!(plan.vfs.inode_soft_limit, 0);
    assert_eq!(plan.vfs.uid, 77);
    assert!(!plan.vfs.direct_io && plan.direct_io);
    assert!(plan.steps.contains(&BuildStep::CheckPathPrefix));
    assert!(plan.steps.contains(&BuildStep::CreateFileCache {
        dir: "/cache".to_string(),
        size: 10_000_000_000
    }));
    let on_fuse = vfs_config(&o, false, false, 1, 2);
    assert!(!on_fuse.advanced_writes && on_fuse.direct_io);
    assert_eq!(on_fuse.inode_soft_limit, 9);
}

#[test]
fn an_overlay_is_written_locally() {
    let mut o = options();
    o.overlay = true;
    o.no_disk_cache = true;
    let plan = plan_mount(&repo(), ok_split(), &o, false, Platform::Linux, 1, 2).unwrap();
    assert!(!plan.vfs.read_only && plan.remote_read_only && plan.vfs.advanced_writes);
    let path = "/tmp/hf-mount-test".to_string();
    let n = plan.steps.len();
    assert_eq!(plan.steps[n - 4], BuildStep::CreateOverlayDir { path: path.clone() });
    assert_eq!(plan.steps[n - 3], BuildStep::OpenOverlayDir { path });
    assert_eq!(plan.steps[n - 5], BuildStep::CreateStorageClient);
}

#[test]
fn mounts_that_cannot_be_are_refused() {
    let refused = |source: &Source, split, o: &MountOptions, platform| {
        plan_mount(source, split, o, true, platform, 1, 2).unwrap_err()
    };
    assert_eq!(
        refused(&repo(), Err("no".to_string()), &options(), Platform::Linux),
        "invalid repo path: no"
    );
    assert_eq!(
        refused(&bucket(), Err("no".to_string()), &options(), Platform::Linux),
        "invalid bucket path: no"
    );
    let mut o = options();
    o.overlay = true;
    assert_eq!(
        refused(&repo(), ok_split(), &o, Platform::Windows),
        "--overlay is not supported on Windows. Use a regular NFS mount without --overlay."
    );
    o.read_only = true;
    assert!(refused(&repo(), ok_split(), &o, Platform::Linux).starts_with("--overlay with --read-only"));
    let mut o = options();
    o.hf_token = Some("t".to_string());
    assert!(refused(&repo(), ok_split(), &o, Platform::Windows)
        .starts_with("credential-backed NFS mounts require --nfs-allow-unsafe-loopback"));
    o.nfs_allow_unsafe_loopback = true;
    assert!(plan_mount(&repo(), ok_split(), &o, true, Platform::Windows, 1, 2).is_ok());
}

#[test]
fn failures_of_steps_are_reported() {
    let path = "/tmp/x".to_string();
    let dir = BuildStep::CreateMountPoint { path: path.clone() };
    assert_eq!(dir.quoted_path(), Some("/tmp/x"));
    assert_eq!(BuildStep::CheckPathPrefix.quoted_path(), None);
    let staging = BuildStep::CreateStagingDir { dir: path.clone(), max_size: 0 };
    assert_eq!(staging.quoted_path(), None);
    assert_eq!(dir.failure("boom"), "failed to create mount point \"/tmp/x\": boom");
    assert_eq!(dir.failure_with("<q>", "boom"), "failed to create mount point <q>: boom");
    assert_eq!(
        BuildStep::PrepareCacheDir { path: path.clone() }.failure("e"),
        "failed to prepare private cache dir \"/tmp/x\": e"
    );
    assert_eq!(
        BuildStep::CreateChunkDir { dir: path.clone() }.failure("e"),
        "failed to create xorbs dir \"/tmp/x\": e"
    );
    assert_eq!(
        BuildStep::CreateOverlayDir { path: path.clone() }.failure("e"),
        "failed to create mount point \"/tmp/x\" for overlay: e"
    );
    assert_eq!(
        BuildStep::OpenOverlayDir { path }.failure("e"),
        "failed to open mount point \"/tmp/x\" for overlay: e"
    );
    assert_eq!(BuildStep::CheckPathPrefix.failure("e"), "e");
    assert_eq!(
        BuildStep::FetchStorageToken { read_only: true }.failure("e"),
        "failed to get storage token: e"
    );
    assert_eq!(BuildStep::CreateStorageContext.failure("e"), "failed to create XetContext: e");
    assert_eq!(
        BuildStep::BuildStorageConfig.failure("e"),
        "failed to build TranslatorConfig: e"
    );
    assert_eq!(BuildStep::CreateStorageClient.failure("e"), "failed to create storage client: e");
}
