use hf_mount::nfs::{
    errno_to_nfs, fh_to_id, id_to_fh, nfs_name, nfstime_to_system_time, ownership, perm,
    server_id, set_time, system_time_to_nfstime, validate_child_name, vfs_attr_to_nfs,
    vfs_set_attr, Errno, FileTime, InodeKind, NfsAttr, NfsFileType, NfsStat, NfsTime, Ownership,
    SetAttr, SetTime, SpecData, VirtualFsAttr, FILE_HANDLE_LEN,
};
use hf_mount::nfs_ops::NFSAdapter;
use hf_mount::rpc::{
    AuthFlavor, AuthUnix, ClientAddr, NfsLocalAuthorizer, RpcAuthRequest, RpcAuthorizer,
    RpcContext, NFS_PROGRAM, PORTMAP_PROGRAM,
};
use hf_mount::setup::NfsSecurity;

fn test_nfs_security() -> NfsSecurity {
    NfsSecurity {
        owner_uid: 1000,
        allow_unsafe_loopback: false,
        export_name: "hf-mount-test".to_string(),
        filehandle_secret: [7; 16],
    }
}

#[test]
fn nfs_name_rejects_path_components() {
    for bytes in [b"".as_slice(), b".", b"..", b"a/b", b"a\0b"] {
        let name = bytes.to_vec();
        assert_eq!(nfs_name(&name), Err(NfsStat::Inval));
    }
    let ok = b"model.bin".to_vec();
    assert_eq!(nfs_name(&ok), Ok("model.bin"));
}

#[test]
fn names_are_text() {
    assert_eq!(nfs_name(&vec![0xff, 0xfe]), Err(NfsStat::Inval));
    assert_eq!(nfs_name(&"größe".as_bytes().to_vec()), Ok("größe"));
    assert_eq!(nfs_name(&b"...".to_vec()), Ok("..."));
    assert_eq!(validate_child_name("a"), Ok(()));
    assert_eq!(validate_child_name(".."), Err(Errno::Inval));
}

#[test]
fn nfs_authorizer_requires_loopback_authsys_owner_and_reserved_port() {
    let auth = NfsLocalAuthorizer::new(1000);
    let mut request = RpcAuthRequest {
        client_addr: "127.0.0.1:900".to_string(),
        auth_flavor: AuthFlavor::Unix,
        auth: AuthUnix::new(1000, 1000, vec![]),
        program: NFS_PROGRAM,
        procedure: 1,
    };
    assert!(auth.authorize(&request));

    request.client_addr = "127.0.0.1:9000".to_string();
    assert!(!auth.authorize(&request));

    request.client_addr = "192.0.2.1:900".to_string();
    assert!(!auth.authorize(&request));

    request.client_addr = "127.0.0.1:900".to_string();
    request.auth = AuthUnix::new(2000, 2000, vec![]);
    assert!(!auth.authorize(&request));

    request.auth = AuthUnix::new(0, 0, vec![]);
    assert!(auth.authorize(&request));

    request.auth_flavor = AuthFlavor::Null;
    assert!(!auth.authorize(&request));
}

#[test]
fn the_port_mapper_is_open_to_this_machine() {
    let auth = NfsLocalAuthorizer::new(1000);
    let mut request = RpcAuthRequest {
        client_addr: "127.0.0.1:9000".to_string(),
        auth_flavor: AuthFlavor::Null,
        auth: AuthUnix::new(2000, 2000, vec![]),
        program: PORTMAP_PROGRAM,
        procedure: 3,
    };
    assert!(auth.is_allowed(&request));
    request.client_addr = "192.0.2.1:900".to_string();
    assert!(!auth.is_allowed(&request));
    request.client_addr = "not an address".to_string();
    assert!(!auth.is_allowed(&request));
}

#[test]
fn the_address_of_a_peer_is_read() {
    let addr = |loopback, port| Some(ClientAddr { loopback, port });
    assert_eq!(ClientAddr::parse("127.0.0.1:900"), addr(true, 900));
    assert_eq!(ClientAddr::parse("127.8.9.10:1"), addr(true, 1));
    assert_eq!(ClientAddr::parse("192.0.2.1:65535"), addr(false, 65535));
    assert_eq!(ClientAddr::parse("[::1]:111"), addr(true, 111));
    assert_eq!(ClientAddr::parse("[::2]:111"), addr(false, 111));
    assert_eq!(ClientAddr::parse("[::ffff:127.0.0.1]:111"), addr(false, 111));
    for text in ["", "127.0.0.1", "127.0.0.1:65536", "127.1:80", "localhost:80", "::1:80"] {
        assert_eq!(ClientAddr::parse(text), None);
    }
    let local = ClientAddr::from_octets(&vec![127, 0, 0, 1], 5);
    assert_eq!(local, ClientAddr { loopback: true, port: 5 });
    assert!(!ClientAddr::from_octets(&vec![127, 0, 0], 5).loopback);
    let rule = NfsLocalAuthorizer::new(1000);
    assert!(rule.allows_from(Some(local), AuthFlavor::Unix, 1000, NFS_PROGRAM));
    assert!(!rule.allows_from(Some(local), AuthFlavor::Unix, 1001, NFS_PROGRAM));
    assert!(!rule.allows_from(None, AuthFlavor::Unix, 0, PORTMAP_PROGRAM));
}

#[test]
fn the_numbers_of_a_directory_that_is_not_empty() {
    let found: Vec<i32> = (-1..200).filter(|n| errno_to_nfs(*n) == NfsStat::NotEmpty).collect();
    assert_eq!(found.len(), 1);
    assert!([39, 41, 66, 93].contains(&found[0]));
}

#[test]
fn a_context_without_an_authorizer_serves_everyone() {
    let open: RpcContext<NfsLocalAuthorizer> = RpcContext {
        local_port: 11111,
        client_addr: "192.0.2.1:9000".to_string(),
        auth_flavor: AuthFlavor::Null,
        auth: AuthUnix::new(5, 5, vec![]),
        authorizer: None,
    };
    assert!(open.is_authorized(NFS_PROGRAM, 1));
    let held = RpcContext {
        local_port: 11111,
        client_addr: "127.0.0.1:700".to_string(),
        auth_flavor: AuthFlavor::Unix,
        auth: AuthUnix::new(5, 5, vec![]),
        authorizer: Some(NfsLocalAuthorizer::new(6)),
    };
    assert!(!held.is_authorized(NFS_PROGRAM, 1));
    assert!(held.is_authorized(PORTMAP_PROGRAM, 1));
}

#[test]
fn nfs_filehandles_include_secret_material() {
    let adapter = NFSAdapter::new(1000, 1000, false, test_nfs_security());

    let fh = adapter.id_to_fh(42);
    assert_eq!(adapter.fh_to_id(&fh), Ok(42));

    let mut forged = fh.clone();
    forged[0] ^= 1;
    assert_eq!(adapter.fh_to_id(&forged), Err(NfsStat::BadHandle));
}

#[test]
fn file_handles_hold_the_secret_and_the_id() {
    let secret = [9u8; 16];
    let fh = id_to_fh(&secret, 0x0102_0304_0506_0708);
    assert_eq!(fh.len(), FILE_HANDLE_LEN);
    assert_eq!(fh[..16], [9u8; 16]);
    assert_eq!(fh[16..], [8, 7, 6, 5, 4, 3, 2, 1]);
    assert_eq!(fh_to_id(&secret, &fh), Ok(0x0102_0304_0506_0708));
    assert_eq!(fh_to_id(&[8u8; 16], &fh), Err(NfsStat::BadHandle));
    assert_eq!(fh_to_id(&secret, &fh[..23].to_vec()), Err(NfsStat::BadHandle));
    assert_eq!(fh_to_id(&secret, &u64::MAX.to_le_bytes().to_vec()), Err(NfsStat::BadHandle));
    assert_ne!(id_to_fh(&secret, 1), id_to_fh(&secret, 2));
    assert_eq!(fh_to_id(&secret, &id_to_fh(&secret, u64::MAX)), Ok(u64::MAX));
}

#[test]
fn the_server_id_is_the_start_of_the_secret() {
    let mut security = test_nfs_security();
    security.filehandle_secret = [1, 2, 3, 4, 5, 6, 7, 8, 9, 10, 11, 12, 13, 14, 15, 16];
    assert_eq!(server_id(&security), [1, 2, 3, 4, 5, 6, 7, 8]);
}

#[test]
fn errors_of_the_c_library_have_their_status() {
    assert_eq!(errno_to_nfs(libc::ENOENT), NfsStat::NoEnt);
    assert_eq!(errno_to_nfs(libc::EIO), NfsStat::Io);
    assert_eq!(errno_to_nfs(libc::EACCES), NfsStat::Acces);
    assert_eq!(errno_to_nfs(libc::EEXIST), NfsStat::Exist);
    assert_eq!(errno_to_nfs(libc::ENOTDIR), NfsStat::NotDir);
    assert_eq!(errno_to_nfs(libc::EISDIR), NfsStat::IsDir);
    assert_eq!(errno_to_nfs(libc::EINVAL), NfsStat::Inval);
    assert_eq!(errno_to_nfs(libc::EROFS), NfsStat::Rofs);
    assert_eq!(errno_to_nfs(libc::ENOTEMPTY), NfsStat::NotEmpty);
    assert_eq!(errno_to_nfs(libc::EBADF), NfsStat::Stale);
    assert_eq!(errno_to_nfs(libc::ENOSPC), NfsStat::NoSpc);
    assert_eq!(errno_to_nfs(libc::EPERM), NfsStat::Io);
    assert_eq!(Errno::from_code(libc::EBADF), Errno::BadF);
    assert_eq!(Errno::from_code(9999), Errno::Other);
}

#[test]
fn times_round_trip_while_they_fit() {
    let t = FileTime::SinceEpoch { secs: 1_700_000_000, nanos: 123 };
    let n = system_time_to_nfstime(t);
    assert_eq!(n, NfsTime { seconds: 1_700_000_000, nseconds: 123 });
    assert_eq!(nfstime_to_system_time(n), t);
    assert_eq!(
        system_time_to_nfstime(FileTime::BeforeEpoch),
        NfsTime { seconds: 0, nseconds: 0 }
    );
}

fn attr() -> VirtualFsAttr {
    VirtualFsAttr {
        ino: 7,
        kind: InodeKind::File,
        perm: 0o640,
        nlink: 1,
        uid: 10,
        gid: 20,
        size: 5000,
        blocks: 10,
        atime: FileTime::SinceEpoch { secs: 1, nanos: 2 },
        mtime: FileTime::SinceEpoch { secs: 3, nanos: 4 },
        ctime: FileTime::SinceEpoch { secs: 5, nanos: 6 },
    }
}

#[test]
fn attributes_reach_the_client() {
    assert!(attr().is_valid());
    let r = vfs_attr_to_nfs(&attr());
    assert_eq!(
        r,
        NfsAttr {
            ftype: NfsFileType::Regular,
            mode: 0o640,
            nlink: 1,
            uid: 10,
            gid: 20,
            size: 5000,
            used: 5120,
            rdev: SpecData { specdata1: 0, specdata2: 0 },
            fsid: 0,
            fileid: 7,
            atime: NfsTime { seconds: 1, nseconds: 2 },
            mtime: NfsTime { seconds: 3, nseconds: 4 },
            ctime: NfsTime { seconds: 5, nseconds: 6 },
        }
    );
    let dir = VirtualFsAttr { kind: InodeKind::Directory, ..attr() };
    assert_eq!(vfs_attr_to_nfs(&dir).ftype, NfsFileType::Directory);
    let link = VirtualFsAttr { kind: InodeKind::Symlink, ..attr() };
    assert_eq!(vfs_attr_to_nfs(&link).ftype, NfsFileType::Symlink);
}

fn unchanged() -> SetAttr {
    SetAttr {
        mode: None,
        uid: None,
        gid: None,
        size: None,
        atime: SetTime::DontChange,
        mtime: SetTime::DontChange,
    }
}

#[test]
fn changes_of_attributes_reach_the_storage() {
    let now = FileTime::SinceEpoch { secs: 50, nanos: 0 };
    let wanted = SetAttr {
        mode: Some(0o100644),
        size: Some(3),
        atime: SetTime::ServerTime,
        mtime: SetTime::ClientTime(NfsTime { seconds: 9, nseconds: 8 }),
        ..unchanged()
    };
    let r = vfs_set_attr(&wanted, now);
    assert_eq!(r.mode, Some(0o644));
    assert_eq!(r.size, Some(3));
    assert_eq!(r.uid, None);
    assert_eq!(r.atime, Some(now));
    assert_eq!(r.mtime, Some(FileTime::SinceEpoch { secs: 9, nanos: 8 }));
    assert_eq!(set_time(SetTime::DontChange, now), None);
    assert_eq!(perm(0o104755), 0o4755);
}

#[test]
fn new_entries_belong_to_whom_the_client_says() {
    let defaults = Ownership { mode: 0o644, uid: 1, gid: 2 };
    assert_eq!(ownership(&unchanged(), defaults), defaults);
    let asked = SetAttr { mode: Some(0o100600), gid: Some(9), ..unchanged() };
    assert_eq!(ownership(&asked, defaults), Ownership { mode: 0o600, uid: 1, gid: 9 });
}
