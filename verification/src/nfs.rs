//! The values that the NFS server exchanges with its clients, and how they
//! correspond to those of the storage behind it.
use crate::setup::NfsSecurity;
use vstd::bytes::*;
use vstd::prelude::*;
use vstd::utf8::*;

verus! {

// ── Status ──────────────────────────────────────────────────────────────

/// The status of a refused NFS request.
#[derive(Clone, Copy, PartialEq, Eq, Structural, Debug)]
pub enum NfsStat {
    NoEnt,
    Io,
    Acces,
    Exist,
    NotDir,
    IsDir,
    Inval,
    Rofs,
    NotEmpty,
    Stale,
    NoSpc,
    BadHandle,
}

/// Why the storage refused a call.
#[derive(Clone, Copy, PartialEq, Eq, Structural, Debug)]
pub enum Errno {
    NoEnt,
    Io,
    Acces,
    Exist,
    NotDir,
    IsDir,
    Inval,
    Rofs,
    NotEmpty,
    BadF,
    NoSpc,
    Other,
}

/// The numbers that this machine's C library gives the errors.
#[derive(Clone, Copy, PartialEq, Eq, Structural, Debug)]
pub struct ErrnoTable {
    pub noent: i32,
    pub io: i32,
    pub acces: i32,
    pub exist: i32,
    pub notdir: i32,
    pub isdir: i32,
    pub inval: i32,
    pub rofs: i32,
    pub notempty: i32,
    pub badf: i32,
    pub nospc: i32,
}

/// The constants `ENOENT`, `EIO`, `EACCES`, `EEXIST`, `ENOTDIR`, `EISDIR`,
/// `EINVAL`, `EROFS`, `ENOTEMPTY`, `EBADF` and `ENOSPC` of the crate `libc`,
/// each in the field of its name. On Windows, macOS and Linux, where a mount
/// runs, all but `ENOTEMPTY` have the same values. That one differs between
/// them, and between processors on Linux: it is 39 on most of these, 66 on
/// SPARC, 93 on MIPS, 66 on macOS and 41 on Windows.
#[verifier::external_body]
fn errno_table() -> (r: ErrnoTable)
    ensures
        r.is_usual(),
{
    ErrnoTable {
        noent: libc::ENOENT,
        io: libc::EIO,
        acces: libc::EACCES,
        exist: libc::EEXIST,
        notdir: libc::ENOTDIR,
        isdir: libc::EISDIR,
        inval: libc::EINVAL,
        rofs: libc::EROFS,
        notempty: libc::ENOTEMPTY,
        badf: libc::EBADF,
        nospc: libc::ENOSPC,
    }
}

impl ErrnoTable {
    /// The numbers are those of the systems that a mount runs on.
    pub open spec fn is_usual(self) -> bool {
        &&& self.noent == 2
        &&& self.io == 5
        &&& self.badf == 9
        &&& self.acces == 13
        &&& self.exist == 17
        &&& self.notdir == 20
        &&& self.isdir == 21
        &&& self.inval == 22
        &&& self.nospc == 28
        &&& self.rofs == 30
        &&& self.notempty == 39 || self.notempty == 41 || self.notempty == 66 || self.notempty == 93
    }

    /// The error with the number `code`.
    pub open spec fn spec_errno(self, code: i32) -> Errno {
        if code == self.noent {
            Errno::NoEnt
        } else if code == self.io {
            Errno::Io
        } else if code == self.acces {
            Errno::Acces
        } else if code == self.exist {
            Errno::Exist
        } else if code == self.notdir {
            Errno::NotDir
        } else if code == self.isdir {
            Errno::IsDir
        } else if code == self.inval {
            Errno::Inval
        } else if code == self.rofs {
            Errno::Rofs
        } else if code == self.notempty {
            Errno::NotEmpty
        } else if code == self.badf {
            Errno::BadF
        } else if code == self.nospc {
            Errno::NoSpc
        } else {
            Errno::Other
        }
    }

    /// The error with the number `code`.
    pub fn errno(&self, code: i32) -> (r: Errno)
        ensures
            r == self.spec_errno(code),
    {
        if code == self.noent {
            Errno::NoEnt
        } else if code == self.io {
            Errno::Io
        } else if code == self.acces {
            Errno::Acces
        } else if code == self.exist {
            Errno::Exist
        } else if code == self.notdir {
            Errno::NotDir
        } else if code == self.isdir {
            Errno::IsDir
        } else if code == self.inval {
            Errno::Inval
        } else if code == self.rofs {
            Errno::Rofs
        } else if code == self.notempty {
            Errno::NotEmpty
        } else if code == self.badf {
            Errno::BadF
        } else if code == self.nospc {
            Errno::NoSpc
        } else {
            Errno::Other
        }
    }
}

impl Errno {
    /// The error that this machine's C library numbers `code`.
    pub fn from_code(code: i32) -> (r: Errno)
        ensures
            exists|table: ErrnoTable| table.is_usual() && r == #[trigger] table.spec_errno(code),
    {
        errno_table().errno(code)
    }

    /// The status that a client gets for the error. One that NFS has no status
    /// for is an input/output error. A handle that the storage no longer knows
    /// is stale to the client.
    pub open spec fn spec_status(self) -> NfsStat {
        match self {
            Errno::NoEnt => NfsStat::NoEnt,
            Errno::Io => NfsStat::Io,
            Errno::Acces => NfsStat::Acces,
            Errno::Exist => NfsStat::Exist,
            Errno::NotDir => NfsStat::NotDir,
            Errno::IsDir => NfsStat::IsDir,
            Errno::Inval => NfsStat::Inval,
            Errno::Rofs => NfsStat::Rofs,
            Errno::NotEmpty => NfsStat::NotEmpty,
            Errno::BadF => NfsStat::Stale,
            Errno::NoSpc => NfsStat::NoSpc,
            Errno::Other => NfsStat::Io,
        }
    }

    /// The status that a client gets for the error.
    pub fn status(self) -> (r: NfsStat)
        ensures
            r == self.spec_status(),
    {
        match self {
            Errno::NoEnt => NfsStat::NoEnt,
            Errno::Io => NfsStat::Io,
            Errno::Acces => NfsStat::Acces,
            Errno::Exist => NfsStat::Exist,
            Errno::NotDir => NfsStat::NotDir,
            Errno::IsDir => NfsStat::IsDir,
            Errno::Inval => NfsStat::Inval,
            Errno::Rofs => NfsStat::Rofs,
            Errno::NotEmpty => NfsStat::NotEmpty,
            Errno::BadF => NfsStat::Stale,
            Errno::NoSpc => NfsStat::NoSpc,
            Errno::Other => NfsStat::Io,
        }
    }
}

/// The status that a client gets for the error that this machine's C library
/// numbers `code`.
pub fn errno_to_nfs(code: i32) -> (r: NfsStat)
    ensures
        exists|table: ErrnoTable|
            table.is_usual() && r == (#[trigger] table.spec_errno(code)).spec_status(),
{
    Errno::from_code(code).status()
}

/// On every system that a mount runs on, each number has the same status, but
/// for the four that one or another of them gives a directory that is not empty.
pub proof fn law_usual_errors_have_their_status(table: ErrnoTable, code: i32)
    requires
        table.is_usual(),
        code != 39 && code != 41 && code != 66 && code != 93,
    ensures
        table.spec_errno(code).spec_status() == (match code {
            2i32 => NfsStat::NoEnt,
            9i32 => NfsStat::Stale,
            13i32 => NfsStat::Acces,
            17i32 => NfsStat::Exist,
            20i32 => NfsStat::NotDir,
            21i32 => NfsStat::IsDir,
            22i32 => NfsStat::Inval,
            28i32 => NfsStat::NoSpc,
            30i32 => NfsStat::Rofs,
            _ => NfsStat::Io,
        }),
{
}

// ── Names ───────────────────────────────────────────────────────────────

/// The error of `core::str::from_utf8`.
#[verifier::external_type_specification]
#[verifier::external_body]
pub struct ExUtf8Error(core::str::Utf8Error);

/// `core::str::from_utf8` accepts exactly the byte sequences that are valid
/// UTF-8, and returns the string with those bytes.
pub assume_specification[ core::str::from_utf8 ](v: &[u8]) -> (r: Result<
    &str,
    core::str::Utf8Error,
>)
    ensures
        r is Ok <==> valid_utf8(v@),
        r matches Ok(s) ==> encode_utf8(s@) == v@,
;

/// A name that can stand for an entry of a directory: not empty, neither the
/// directory itself nor its parent, and one path component.
pub open spec fn is_child_name(name: Seq<char>) -> bool {
    &&& name.len() > 0
    &&& name != seq!['.']
    &&& name != seq!['.', '.']
    &&& !name.contains('/')
    &&& !name.contains('\0')
}

/// Accepts the names that can stand for an entry of a directory.
pub fn validate_child_name(name: &str) -> (r: Result<(), Errno>)
    ensures
        r == if is_child_name(name@) {
            Ok::<(), Errno>(())
        } else {
            Err(Errno::Inval)
        },
{
    let chars = crate::text::to_chars(name);
    if chars.len() == 0 {
        return Err(Errno::Inval);
    }
    if chars.len() == 1 && chars[0] == '.' {
        assert(name@ =~= seq!['.']);
        return Err(Errno::Inval);
    }
    if chars.len() == 2 && chars[0] == '.' && chars[1] == '.' {
        assert(name@ =~= seq!['.', '.']);
        return Err(Errno::Inval);
    }
    let mut i: usize = 0;
    while i < chars.len()
        invariant
            i <= chars@.len(),
            chars@ == name@,
            forall|j: int| 0 <= j < i ==> chars@[j] != '/' && chars@[j] != '\0',
        decreases chars@.len() - i,
    {
        if chars[i] == '/' || chars[i] == '\0' {
            assert(name@.contains(chars@[i as int]));
            return Err(Errno::Inval);
        }
        i = i + 1;
    }
    assert(name@ != seq!['.']);
    assert(name@ != seq!['.', '.']);
    Ok(())
}

/// The bytes are a name, in UTF-8, that can stand for an entry of a directory.
pub open spec fn is_nfs_name(bytes: Seq<u8>) -> bool {
    valid_utf8(bytes) && is_child_name(decode_utf8(bytes))
}

/// The name that a client sent.
pub fn nfs_name(filename: &Vec<u8>) -> (r: Result<&str, NfsStat>)
    ensures
        r is Ok <==> is_nfs_name(filename@),
        r matches Ok(name) ==> name@ == decode_utf8(filename@)
            && encode_utf8(name@) == filename@,
        r matches Err(e) ==> e == NfsStat::Inval,
{
    match core::str::from_utf8(filename.as_slice()) {
        Err(_) => Err(NfsStat::Inval),
        Ok(name) => {
            proof {
                encode_utf8_decode_utf8(name@);
            }
            match validate_child_name(name) {
                Err(e) => Err(e.status()),
                Ok(()) => Ok(name),
            }
        },
    }
}

// ── Times and attributes ────────────────────────────────────────────────

pub const NANOS_PER_SEC: u32 = 1_000_000_000;

/// A time of the system clock.
#[derive(Clone, Copy, PartialEq, Eq, Structural, Debug)]
pub enum FileTime {
    BeforeEpoch,
    SinceEpoch { secs: u64, nanos: u32 },
}

impl FileTime {
    /// The part below a second is one.
    pub open spec fn wf(self) -> bool {
        self matches FileTime::SinceEpoch { secs, nanos } ==> nanos < NANOS_PER_SEC
    }
}

/// A time as NFS writes it.
#[derive(Clone, Copy, PartialEq, Eq, Structural, Debug)]
pub struct NfsTime {
    pub seconds: u32,
    pub nseconds: u32,
}

pub open spec fn spec_nfs_time(t: FileTime) -> NfsTime {
    match t {
        FileTime::BeforeEpoch => NfsTime { seconds: 0, nseconds: 0 },
        FileTime::SinceEpoch { secs, nanos } => NfsTime {
            seconds: if secs <= u32::MAX {
                secs as u32
            } else {
                u32::MAX
            },
            nseconds: nanos,
        },
    }
}

/// The time for a client. One before the epoch is the epoch, and seconds past
/// the range are its end.
pub fn system_time_to_nfstime(t: FileTime) -> (r: NfsTime)
    ensures
        r == spec_nfs_time(t),
{
    match t {
        FileTime::BeforeEpoch => NfsTime { seconds: 0, nseconds: 0 },
        FileTime::SinceEpoch { secs, nanos } => {
            let seconds: u32 = if secs <= u32::MAX as u64 {
                secs as u32
            } else {
                u32::MAX
            };
            NfsTime { seconds, nseconds: nanos }
        },
    }
}

pub open spec fn spec_file_time(t: NfsTime) -> FileTime {
    FileTime::SinceEpoch {
        secs: t.seconds as u64,
        nanos: if t.nseconds < NANOS_PER_SEC {
            t.nseconds
        } else {
            (NANOS_PER_SEC - 1) as u32
        },
    }
}

/// The time that a client sent. Nanoseconds that make a second or more are the
/// last nanosecond of the given one.
pub fn nfstime_to_system_time(t: NfsTime) -> (r: FileTime)
    ensures
        r == spec_file_time(t),
        r.wf(),
{
    let nanos: u32 = if t.nseconds < NANOS_PER_SEC {
        t.nseconds
    } else {
        NANOS_PER_SEC - 1
    };
    FileTime::SinceEpoch { secs: t.seconds as u64, nanos }
}

/// What an inode of the storage is.
#[derive(Clone, Copy, PartialEq, Eq, Structural, Debug)]
pub enum InodeKind {
    File,
    Directory,
    Symlink,
}

/// The attributes of an inode as the storage keeps them.
#[derive(Clone, Copy, PartialEq, Eq, Structural, Debug)]
pub struct VirtualFsAttr {
    pub ino: u64,
    pub kind: InodeKind,
    pub perm: u16,
    pub nlink: u32,
    pub uid: u32,
    pub gid: u32,
    pub size: u64,
    /// Blocks of 512 bytes.
    pub blocks: u64,
    pub atime: FileTime,
    pub mtime: FileTime,
    pub ctime: FileTime,
}

impl VirtualFsAttr {
    /// The number of bytes in the blocks fits in 64 bits.
    pub open spec fn wf(self) -> bool {
        self.blocks * 512 <= u64::MAX
    }

    /// Tells whether the number of bytes in the blocks fits in 64 bits.
    pub fn is_valid(&self) -> (r: bool)
        ensures
            r == self.wf(),
    {
        self.blocks <= u64::MAX / 512
    }
}

/// What a file is to an NFS client.
#[derive(Clone, Copy, PartialEq, Eq, Structural, Debug)]
pub enum NfsFileType {
    Regular,
    Directory,
    Symlink,
}

/// The numbers of a device.
#[derive(Clone, Copy, PartialEq, Eq, Structural, Debug)]
pub struct SpecData {
    pub specdata1: u32,
    pub specdata2: u32,
}

/// The attributes of a file as a client gets them.
#[derive(Clone, Copy, PartialEq, Eq, Structural, Debug)]
pub struct NfsAttr {
    pub ftype: NfsFileType,
    pub mode: u32,
    pub nlink: u32,
    pub uid: u32,
    pub gid: u32,
    pub size: u64,
    pub used: u64,
    pub rdev: SpecData,
    pub fsid: u64,
    pub fileid: u64,
    pub atime: NfsTime,
    pub mtime: NfsTime,
    pub ctime: NfsTime,
}

pub open spec fn spec_nfs_attr(attr: VirtualFsAttr) -> NfsAttr {
    NfsAttr {
        ftype: match attr.kind {
            InodeKind::File => NfsFileType::Regular,
            InodeKind::Directory => NfsFileType::Directory,
            InodeKind::Symlink => NfsFileType::Symlink,
        },
        mode: attr.perm as u32,
        nlink: attr.nlink,
        uid: attr.uid,
        gid: attr.gid,
        size: attr.size,
        used: (attr.blocks * 512) as u64,
        rdev: SpecData { specdata1: 0, specdata2: 0 },
        fsid: 0,
        fileid: attr.ino,
        atime: spec_nfs_time(attr.atime),
        mtime: spec_nfs_time(attr.mtime),
        ctime: spec_nfs_time(attr.ctime),
    }
}

/// The attributes for a client.
pub fn vfs_attr_to_nfs(attr: &VirtualFsAttr) -> (r: NfsAttr)
    requires
        attr.wf(),
    ensures
        r == spec_nfs_attr(*attr),
{
    let ftype = match attr.kind {
        InodeKind::File => NfsFileType::Regular,
        InodeKind::Directory => NfsFileType::Directory,
        InodeKind::Symlink => NfsFileType::Symlink,
    };
    NfsAttr {
        ftype,
        mode: attr.perm as u32,
        nlink: attr.nlink,
        uid: attr.uid,
        gid: attr.gid,
        size: attr.size,
        used: attr.blocks * 512,
        rdev: SpecData { specdata1: 0, specdata2: 0 },
        fsid: 0,
        fileid: attr.ino,
        atime: system_time_to_nfstime(attr.atime),
        mtime: system_time_to_nfstime(attr.mtime),
        ctime: system_time_to_nfstime(attr.ctime),
    }
}

/// The attributes of a regular file of which nothing is known.
pub open spec fn spec_unknown_attr() -> NfsAttr {
    let zero = NfsTime { seconds: 0, nseconds: 0 };
    NfsAttr {
        ftype: NfsFileType::Regular,
        mode: 0,
        nlink: 0,
        uid: 0,
        gid: 0,
        size: 0,
        used: 0,
        rdev: SpecData { specdata1: 0, specdata2: 0 },
        fsid: 0,
        fileid: 0,
        atime: zero,
        mtime: zero,
        ctime: zero,
    }
}

impl Default for NfsAttr {
    fn default() -> (r: NfsAttr)
        ensures
            r == spec_unknown_attr(),
    {
        let zero = NfsTime { seconds: 0, nseconds: 0 };
        NfsAttr {
            ftype: NfsFileType::Regular,
            mode: 0,
            nlink: 0,
            uid: 0,
            gid: 0,
            size: 0,
            used: 0,
            rdev: SpecData { specdata1: 0, specdata2: 0 },
            fsid: 0,
            fileid: 0,
            atime: zero,
            mtime: zero,
            ctime: zero,
        }
    }
}

/// What a client asks to become of a time.
#[derive(Clone, Copy, PartialEq, Eq, Structural, Debug)]
pub enum SetTime {
    DontChange,
    ServerTime,
    ClientTime(NfsTime),
}

/// The attributes that a client asks for.
#[derive(Clone, Copy, PartialEq, Eq, Structural, Debug)]
pub struct SetAttr {
    pub mode: Option<u32>,
    pub uid: Option<u32>,
    pub gid: Option<u32>,
    pub size: Option<u64>,
    pub atime: SetTime,
    pub mtime: SetTime,
}

/// The permission bits of `mode`: its twelve lowest.
pub open spec fn spec_perm(mode: u32) -> u16 {
    (mode % 4096) as u16
}

/// The permission bits of `mode`: its twelve lowest.
pub fn perm(mode: u32) -> (r: u16)
    ensures
        r == spec_perm(mode),
{
    assert(mode & 0o7777 == mode % 4096) by (bit_vector);
    assert(mode & 0o7777 <= 0o7777) by (bit_vector);
    (mode & 0o7777) as u16
}

pub open spec fn spec_set_time(t: SetTime, now: FileTime) -> Option<FileTime> {
    match t {
        SetTime::DontChange => None,
        SetTime::ServerTime => Some(now),
        SetTime::ClientTime(t) => Some(spec_file_time(t)),
    }
}

/// The time to set, where the server's clock shows `now`.
pub fn set_time(t: SetTime, now: FileTime) -> (r: Option<FileTime>)
    ensures
        r == spec_set_time(t, now),
{
    match t {
        SetTime::DontChange => None,
        SetTime::ServerTime => Some(now),
        SetTime::ClientTime(t) => Some(nfstime_to_system_time(t)),
    }
}

/// The attributes to set, as the storage takes them.
#[derive(Clone, Copy, PartialEq, Eq, Structural, Debug)]
pub struct VfsSetAttr {
    pub size: Option<u64>,
    pub mode: Option<u16>,
    pub uid: Option<u32>,
    pub gid: Option<u32>,
    pub atime: Option<FileTime>,
    pub mtime: Option<FileTime>,
}

pub open spec fn spec_vfs_set_attr(attr: SetAttr, now: FileTime) -> VfsSetAttr {
    VfsSetAttr {
        size: attr.size,
        mode: match attr.mode {
            Some(m) => Some(spec_perm(m)),
            None => None,
        },
        uid: attr.uid,
        gid: attr.gid,
        atime: spec_set_time(attr.atime, now),
        mtime: spec_set_time(attr.mtime, now),
    }
}

/// The attributes to set, where the server's clock shows `now`.
pub fn vfs_set_attr(attr: &SetAttr, now: FileTime) -> (r: VfsSetAttr)
    ensures
        r == spec_vfs_set_attr(*attr, now),
{
    let mode = match attr.mode {
        Some(m) => Some(perm(m)),
        None => None,
    };
    VfsSetAttr {
        size: attr.size,
        mode,
        uid: attr.uid,
        gid: attr.gid,
        atime: set_time(attr.atime, now),
        mtime: set_time(attr.mtime, now),
    }
}

/// Who owns a new file, and what may be done with it.
#[derive(Clone, Copy, PartialEq, Eq, Structural, Debug)]
pub struct Ownership {
    pub mode: u16,
    pub uid: u32,
    pub gid: u32,
}

pub open spec fn spec_ownership(attr: SetAttr, defaults: Ownership) -> Ownership {
    Ownership {
        mode: match attr.mode {
            Some(m) => spec_perm(m),
            None => defaults.mode,
        },
        uid: match attr.uid {
            Some(u) => u,
            None => defaults.uid,
        },
        gid: match attr.gid {
            Some(g) => g,
            None => defaults.gid,
        },
    }
}

/// The ownership that a client asks for, with `defaults` for what it leaves out.
pub fn ownership(attr: &SetAttr, defaults: Ownership) -> (r: Ownership)
    ensures
        r == spec_ownership(*attr, defaults),
{
    let mode: u16 = match attr.mode {
        Some(m) => perm(m),
        None => defaults.mode,
    };
    let uid: u32 = match attr.uid {
        Some(u) => u,
        None => defaults.uid,
    };
    let gid: u32 = match attr.gid {
        Some(g) => g,
        None => defaults.gid,
    };
    Ownership { mode, uid, gid }
}

// ── File handles ────────────────────────────────────────────────────────

/// The length of the secret in a file handle.
pub const SECRET_LEN: usize = 16;

/// The length of a file handle.
pub const FILE_HANDLE_LEN: usize = 24;

/// The bytes of the handle of the file `id`: the secret of the mount, then the
/// id, low byte first.
pub open spec fn file_handle_bytes(secret: Seq<u8>, id: u64) -> Seq<u8> {
    secret + spec_u64_to_le_bytes(id)
}

/// The id that a handle stands for, where it was made with `secret`.
pub open spec fn file_handle_id(secret: Seq<u8>, data: Seq<u8>) -> Option<u64> {
    if data.len() == FILE_HANDLE_LEN && data.take(SECRET_LEN as int) == secret {
        Some(spec_u64_from_le_bytes(data.skip(SECRET_LEN as int)))
    } else {
        None
    }
}

/// The handle that clients name the file `id` by.
pub fn id_to_fh(secret: &[u8; 16], id: u64) -> (r: Vec<u8>)
    ensures
        r@ == file_handle_bytes(secret@, id),
        r@.len() == FILE_HANDLE_LEN,
{
    let tail = u64_to_le_bytes(id);
    let mut data: Vec<u8> = Vec::with_capacity(24);
    let mut i: usize = 0;
    while i < 16
        invariant
            i <= 16,
            data@ == secret@.take(i as int),
        decreases 16 - i,
    {
        data.push(secret[i]);
        i = i + 1;
        assert(secret@.take(i as int) =~= secret@.take(i - 1).push(secret@[i - 1]));
    }
    assert(secret@.take(16) =~= secret@);
    let mut j: usize = 0;
    while j < 8
        invariant
            j <= 8,
            tail@.len() == 8,
            data@ == secret@ + tail@.take(j as int),
        decreases 8 - j,
    {
        data.push(tail[j]);
        j = j + 1;
        assert(secret@ + tail@.take(j as int) =~= (secret@ + tail@.take(j - 1)).push(tail@[j - 1]));
    }
    assert(tail@.take(8) =~= tail@);
    data
}

/// The id of the file that a client named, where the handle is one of this
/// mount's own.
pub fn fh_to_id(secret: &[u8; 16], data: &Vec<u8>) -> (r: Result<u64, NfsStat>)
    ensures
        r == match file_handle_id(secret@, data@) {
            Some(id) => Ok::<u64, NfsStat>(id),
            None => Err(NfsStat::BadHandle),
        },
{
    if data.len() != 24 {
        return Err(NfsStat::BadHandle);
    }
    let mut i: usize = 0;
    while i < 16
        invariant
            i <= 16,
            data@.len() == 24,
            forall|j: int| 0 <= j < i ==> data@[j] == secret@[j],
        decreases 16 - i,
    {
        if data[i] != secret[i] {
            assert(data@.take(16)[i as int] != secret@[i as int]);
            return Err(NfsStat::BadHandle);
        }
        i = i + 1;
    }
    assert(data@.take(16) =~= secret@);
    let mut tail: Vec<u8> = Vec::new();
    let mut k: usize = 16;
    while k < 24
        invariant
            16 <= k <= 24,
            data@.len() == 24,
            tail@ == data@.subrange(16, k as int),
        decreases 24 - k,
    {
        tail.push(data[k]);
        k = k + 1;
        assert(data@.subrange(16, k as int) =~= data@.subrange(16, k - 1).push(data@[k - 1]));
    }
    assert(tail@ =~= data@.skip(16));
    Ok(u64_from_le_bytes(tail.as_slice()))
}

/// A handle leads back to the file that it was made for.
pub proof fn law_file_handles_round_trip(secret: Seq<u8>, id: u64)
    requires
        secret.len() == SECRET_LEN,
    ensures
        file_handle_id(secret, file_handle_bytes(secret, id)) == Some(id),
{
    lemma_auto_spec_u64_to_from_le_bytes();
    let data = file_handle_bytes(secret, id);
    assert(data.take(SECRET_LEN as int) =~= secret);
    assert(data.skip(SECRET_LEN as int) =~= spec_u64_to_le_bytes(id));
}

/// A handle that was made with another secret is not accepted.
pub proof fn law_foreign_file_handles_are_refused(secret: Seq<u8>, other: Seq<u8>, id: u64)
    requires
        secret.len() == SECRET_LEN,
        other.len() == SECRET_LEN,
        secret != other,
    ensures
        file_handle_id(secret, file_handle_bytes(other, id)) is None,
{
    let data = file_handle_bytes(other, id);
    assert(data.take(SECRET_LEN as int) =~= other);
}

/// Different files have different handles.
pub proof fn law_file_handles_differ(secret: Seq<u8>, a: u64, b: u64)
    requires
        secret.len() == SECRET_LEN,
        a != b,
    ensures
        file_handle_bytes(secret, a) != file_handle_bytes(secret, b),
{
    law_file_handles_round_trip(secret, a);
    law_file_handles_round_trip(secret, b);
}

/// A time that NFS can write comes back unchanged.
pub proof fn law_times_round_trip(t: NfsTime)
    requires
        t.nseconds < NANOS_PER_SEC,
    ensures
        spec_nfs_time(spec_file_time(t)) == t,
{
}

/// The first eight bytes of the secret identify this run of the server.
pub fn server_id(security: &NfsSecurity) -> (r: [u8; 8])
    ensures
        r@ == security.filehandle_secret@.take(8),
{
    let s = &security.filehandle_secret;
    let r = [s[0], s[1], s[2], s[3], s[4], s[5], s[6], s[7]];
    assert(r@ =~= security.filehandle_secret@.take(8));
    r
}

} // verus!
