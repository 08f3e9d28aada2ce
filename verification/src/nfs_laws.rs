//! What the clients of a mount can rely on: for each kind of request, what the
//! storage is asked to do for it and what the client is told, in terms of the
//! request and of the replies of the storage.
use crate::handle_pool::PoolState;
use crate::nfs::{
    Errno, FileTime, InodeKind, NfsAttr, NfsFileType, NfsStat, NfsTime, Ownership, SetAttr,
    SetTime, VfsSetAttr, VirtualFsAttr,
};
use crate::nfs_ops;
use crate::nfs_ops::{Effect, NfsRequest, VfsDirEntry, VfsReply};
use vstd::prelude::*;
use vstd::utf8::*;

verus! {

// ── Names ───────────────────────────────────────────────────────────────

/// The bytes are the name `text`, and a name that an entry of a directory can
/// have.
pub open spec fn is_name(bytes: Seq<u8>, text: Seq<char>) -> bool {
    &&& bytes == encode_utf8(text)
    &&& text.len() > 0
    &&& text != seq!['.']
    &&& text != seq!['.', '.']
    &&& forall|i: int| 0 <= i < text.len() ==> #[trigger] text[i] != '/' && text[i] != '\0'
}

proof fn lemma_name(bytes: Seq<u8>, text: Seq<char>)
    requires
        is_name(bytes, text),
    ensures
        crate::nfs::is_nfs_name(bytes),
        decode_utf8(bytes) == text,
{
    encode_utf8_valid_utf8(text);
    encode_utf8_decode_utf8(text);
}

/// The step answers the request with nothing to be done besides.
pub open spec fn tells(step: nfs_ops::StepView, answer: Result<nfs_ops::NfsReplyView, NfsStat>) -> bool {
    step.next == nfs_ops::NextView::Answer(answer) && step.effects.len() == 0
}

/// The step has the storage called, with nothing to be done besides.
pub open spec fn asks(step: nfs_ops::StepView, call: nfs_ops::VfsCallView) -> bool {
    step.next is Call && step.next->call == call && step.effects.len() == 0
}

/// What the client is told of an error of the storage.
pub open spec fn is_status_of(stat: NfsStat, e: Errno) -> bool {
    &&& stat == NfsStat::NoEnt <==> e == Errno::NoEnt
    &&& stat == NfsStat::Acces <==> e == Errno::Acces
    &&& stat == NfsStat::Exist <==> e == Errno::Exist
    &&& stat == NfsStat::NotDir <==> e == Errno::NotDir
    &&& stat == NfsStat::IsDir <==> e == Errno::IsDir
    &&& stat == NfsStat::Inval <==> e == Errno::Inval
    &&& stat == NfsStat::Rofs <==> e == Errno::Rofs
    &&& stat == NfsStat::NotEmpty <==> e == Errno::NotEmpty
    &&& stat == NfsStat::Stale <==> e == Errno::BadF
    &&& stat == NfsStat::NoSpc <==> e == Errno::NoSpc
    &&& stat == NfsStat::Io <==> e == Errno::Io || e == Errno::Other
}

/// An error of the storage that ends a request is told to the client as what it
/// is, whichever the request, and a handle of the request's own is given back.
pub proof fn law_errors_are_told(task: nfs_ops::NfsTaskView, reply: VfsReply, e: Errno, pool: PoolState)
    requires
        reply.replies_to(task),
        reply == VfsReply::Attr(Err(e)) || reply == VfsReply::Handle(Err(e)) || reply
            == VfsReply::Data(Err(e)) || reply == VfsReply::Done(Err(e)) || reply
            == VfsReply::Created(Err(e)) || reply == VfsReply::Target(Err(e)) || reply
            == VfsReply::Entries(Err(e)),
        !(task is RenameDest) && !(task is RenameSource),
        task matches nfs_ops::NfsTaskView::ReadOpen { id, .. } ==> pool.handle(id) is None,
        task is ReadData || task is WriteFast ==> e != Errno::BadF,
    ensures
        ({
            let step = nfs_ops::spec_resume(task, reply, pool).1;
            &&& step.next matches nfs_ops::NextView::Answer(Err(stat)) && is_status_of(stat, e)
            &&& task matches nfs_ops::NfsTaskView::WriteSlow { handle, .. } ==> step.effects
                == seq![Effect::Release { handle }]
            &&& task matches nfs_ops::NfsTaskView::ReadAgain { handle } ==> step.effects
                == seq![Effect::Release { handle }]
        }),
{
}

/// A name that no entry of a directory can have is refused as invalid by every
/// request that carries it, and nothing else happens.
pub proof fn law_names_that_cannot_be_are_refused(
    request: NfsRequest,
    bytes: Seq<u8>,
    text: Seq<char>,
    uid: u32,
    gid: u32,
    pool: PoolState,
)
    requires
        match request {
            NfsRequest::Lookup { name, .. } => name@ == bytes,
            NfsRequest::Create { name, .. } => name@ == bytes,
            NfsRequest::CreateExclusive { name, .. } => name@ == bytes,
            NfsRequest::Mkdir { name, .. } => name@ == bytes,
            NfsRequest::Remove { name, .. } => name@ == bytes,
            NfsRequest::Symlink { name, .. } => name@ == bytes,
            NfsRequest::Rename { from_name, to_name, .. } => from_name@ == bytes || to_name@
                == bytes,
            _ => false,
        },
        !valid_utf8(bytes) || (bytes == encode_utf8(text) && (text.len() == 0 || text == seq!['.']
            || text == seq!['.', '.'] || text.contains('/') || text.contains('\0'))),
    ensures
        nfs_ops::spec_begin(request, uid, gid, pool).0 == pool,
        tells(nfs_ops::spec_begin(request, uid, gid, pool).1, Err(NfsStat::Inval)),
{
    if valid_utf8(bytes) {
        encode_utf8_decode_utf8(text);
    }
    assert(!crate::nfs::is_nfs_name(bytes));
    let names = nfs_ops::request_names(request);
    if let NfsRequest::Rename { from_name, to_name, .. } = request {
        assert(names[0] == from_name@ && names[1] == to_name@);
    } else {
        assert(names[0] == bytes);
    }
}

// ── Attributes ──────────────────────────────────────────────────────────

/// The client sees the time `t` as `n`: what lies before the epoch is the
/// epoch, and what lies past the range is its last second.
pub open spec fn is_seen_time(n: NfsTime, t: FileTime) -> bool {
    match t {
        FileTime::BeforeEpoch => n.seconds == 0 && n.nseconds == 0,
        FileTime::SinceEpoch { secs, nanos } => {
            &&& n.nseconds == nanos
            &&& secs <= 0xffff_ffff ==> n.seconds == secs
            &&& secs > 0xffff_ffff ==> n.seconds == 0xffff_ffff
        },
    }
}

/// The client sees the inode `a` as `n`.
pub open spec fn is_seen_as(n: NfsAttr, a: VirtualFsAttr) -> bool {
    &&& n.fileid == a.ino
    &&& n.ftype == NfsFileType::Regular <==> a.kind == InodeKind::File
    &&& n.ftype == NfsFileType::Directory <==> a.kind == InodeKind::Directory
    &&& n.ftype == NfsFileType::Symlink <==> a.kind == InodeKind::Symlink
    &&& n.mode == a.perm
    &&& n.nlink == a.nlink
    &&& n.uid == a.uid
    &&& n.gid == a.gid
    &&& n.size == a.size
    &&& n.used == a.blocks * 512
    &&& n.fsid == 0
    &&& n.rdev.specdata1 == 0 && n.rdev.specdata2 == 0
    &&& is_seen_time(n.atime, a.atime)
    &&& is_seen_time(n.mtime, a.mtime)
    &&& is_seen_time(n.ctime, a.ctime)
}

/// What a client sees of two inodes differs wherever the inodes differ in what
/// NFS can tell.
pub proof fn law_attributes_are_seen_as_they_are(attr: VirtualFsAttr)
    requires
        attr.blocks * 512 <= u64::MAX,
    ensures
        is_seen_as(crate::nfs::spec_nfs_attr(attr), attr),
{
}

/// The time `t` that the storage is to set is what the client asks for, where
/// the clock of the server shows `now`.
pub open spec fn is_asked_time(t: Option<FileTime>, asked: SetTime, now: FileTime) -> bool {
    match asked {
        SetTime::DontChange => t is None,
        SetTime::ServerTime => t == Some(now),
        SetTime::ClientTime(c) => t matches Some(FileTime::SinceEpoch { secs, nanos }) && secs
            == c.seconds && nanos < 1_000_000_000 && (c.nseconds < 1_000_000_000 ==> nanos
            == c.nseconds) && (c.nseconds >= 1_000_000_000 ==> nanos == 999_999_999),
    }
}

/// The permission bits `perm` are the lowest twelve of `mode`.
pub open spec fn is_perm_of(perm: u16, mode: u32) -> bool {
    perm < 4096 && exists|k: int| mode == #[trigger] (k * 4096) + perm
}

/// The storage is to set what the client asks for, and nothing else.
pub open spec fn sets_what_is_asked(v: VfsSetAttr, asked: SetAttr, now: FileTime) -> bool {
    &&& v.size == asked.size
    &&& v.uid == asked.uid
    &&& v.gid == asked.gid
    &&& match (v.mode, asked.mode) {
        (Some(perm), Some(mode)) => is_perm_of(perm, mode),
        (None, None) => true,
        _ => false,
    }
    &&& is_asked_time(v.atime, asked.atime, now)
    &&& is_asked_time(v.mtime, asked.mtime, now)
}

proof fn lemma_perm(mode: u32)
    ensures
        is_perm_of(crate::nfs::spec_perm(mode), mode),
{
    let k = mode as int / 4096;
    assert(mode == (k * 4096) + mode as int % 4096);
    assert(crate::nfs::spec_perm(mode) == mode as int % 4096);
}

/// The attributes of an inode are asked for and handed on as they are.
pub proof fn law_getattr(id: u64, uid: u32, gid: u32, pool: PoolState, attr: VirtualFsAttr, later: PoolState)
    requires
        attr.blocks * 512 <= u64::MAX,
    ensures
        ({
            let (after, step) = nfs_ops::spec_begin(NfsRequest::Getattr { id }, uid, gid, pool);
            let (end, told) = nfs_ops::spec_resume(step.next->task, VfsReply::Attr(Ok(attr)), later);
            &&& after == pool && end == later
            &&& asks(step, nfs_ops::VfsCallView::Getattr { ino: id })
            &&& told.next matches nfs_ops::NextView::Answer(Ok(nfs_ops::NfsReplyView::Attr(n)))
                && is_seen_as(n, attr)
            &&& told.effects.len() == 0
        }),
{
}

/// What a client asks to set is set, on the file that it names, and the answer
/// shows the file as it is after that.
pub proof fn law_setattr(
    id: u64,
    asked: SetAttr,
    now: FileTime,
    uid: u32,
    gid: u32,
    pool: PoolState,
    attr: VirtualFsAttr,
    later: PoolState,
)
    requires
        attr.blocks * 512 <= u64::MAX,
    ensures
        ({
            let (after, step) = nfs_ops::spec_begin(
                NfsRequest::Setattr { id, attr: asked, now },
                uid,
                gid,
                pool,
            );
            let (end, told) = nfs_ops::spec_resume(step.next->task, VfsReply::Attr(Ok(attr)), later);
            &&& after == pool && end == later
            &&& step.next is Call && step.effects.len() == 0
            &&& step.next->call matches nfs_ops::VfsCallView::Setattr { ino, attr: v } && ino == id
                && sets_what_is_asked(v, asked, now)
            &&& told.next matches nfs_ops::NextView::Answer(Ok(nfs_ops::NfsReplyView::Attr(n)))
                && is_seen_as(n, attr)
        }),
{
    if let Some(mode) = asked.mode {
        lemma_perm(mode);
    }
}

// ── Looking up ──────────────────────────────────────────────────────────

/// A name is looked for in the directory that the client names, and the answer
/// is the file that the storage has there.
pub proof fn law_lookup(
    dir: u64,
    name: Vec<u8>,
    text: Seq<char>,
    uid: u32,
    gid: u32,
    pool: PoolState,
    attr: VirtualFsAttr,
    later: PoolState,
)
    requires
        is_name(name@, text),
    ensures
        ({
            let (after, step) = nfs_ops::spec_begin(
                NfsRequest::Lookup { dir, name },
                uid,
                gid,
                pool,
            );
            let (end, told) = nfs_ops::spec_resume(step.next->task, VfsReply::Attr(Ok(attr)), later);
            &&& after == pool && end == later
            &&& asks(step, nfs_ops::VfsCallView::Lookup { dir, name: text })
            &&& tells(told, Ok(nfs_ops::NfsReplyView::Id(attr.ino)))
        }),
{
    lemma_name(name@, text);
}

/// The target of a link is asked for by the inode that the client names, and
/// its bytes are the answer.
pub proof fn law_readlink(id: u64, uid: u32, gid: u32, pool: PoolState, target: String, later: PoolState)
    ensures
        ({
            let (after, step) = nfs_ops::spec_begin(NfsRequest::Readlink { id }, uid, gid, pool);
            let (end, told) = nfs_ops::spec_resume(
                step.next->task,
                VfsReply::Target(Ok(target)),
                later,
            );
            &&& after == pool && end == later
            &&& asks(step, nfs_ops::VfsCallView::Readlink { ino: id })
            &&& tells(told, Ok(nfs_ops::NfsReplyView::Path(encode_utf8(target@))))
        }),
{
}

// ── Reading ─────────────────────────────────────────────────────────────

/// The request `task` is to read `count` bytes at `offset` of the file `id`.
pub open spec fn is_to_read(task: nfs_ops::NfsTaskView, id: u64, offset: u64, count: u32) -> bool {
    match task {
        nfs_ops::NfsTaskView::ReadOpen { id: i, offset: o, count: c } => i == id && o == offset && c
            == count,
        nfs_ops::NfsTaskView::ReadData { id: i, offset: o, count: c, .. } => i == id && o == offset
            && c == count,
        nfs_ops::NfsTaskView::ReadReopen { offset: o, count: c } => o == offset && c == count,
        nfs_ops::NfsTaskView::ReadAgain { .. } => true,
        _ => false,
    }
}

/// A read begins with a read of what the client asks for, through the pooled
/// handle of the file, or else with opening that file.
pub proof fn law_read_begins(id: u64, offset: u64, count: u32, uid: u32, gid: u32, pool: PoolState)
    ensures
        ({
            let step = nfs_ops::spec_begin(
                NfsRequest::Read { id, offset, count },
                uid,
                gid,
                pool,
            ).1;
            &&& pool.handle(id) matches Some(handle) ==> asks(
                step,
                nfs_ops::VfsCallView::Read { handle, offset, count },
            ) && step.next->task is ReadData
            &&& pool.handle(id) is None ==> asks(
                step,
                nfs_ops::VfsCallView::Open { ino: id, writable: false },
            ) && step.next->task is ReadOpen
            &&& is_to_read(step.next->task, id, offset, count)
        }),
{
}

/// Once a file is open, exactly the bytes that the client asks for are read,
/// through the handle just opened or the one that is pooled for that file.
pub proof fn law_opened_files_are_read(
    task: nfs_ops::NfsTaskView,
    id: u64,
    offset: u64,
    count: u32,
    opened: u64,
    pool: PoolState,
)
    requires
        is_to_read(task, id, offset, count),
        task is ReadOpen || task is ReadReopen,
    ensures
        ({
            let step = nfs_ops::spec_resume(task, VfsReply::Handle(Ok(opened)), pool).1;
            &&& step.next is Call
            &&& is_to_read(step.next->task, id, offset, count)
            &&& step.next->call matches nfs_ops::VfsCallView::Read { handle, offset: o, count: c }
                && o == offset && c == count && (handle == opened || (task is ReadOpen
                && pool.handle(id) == Some(handle)))
            &&& task is ReadOpen ==> step.next->task is ReadData
            &&& task is ReadReopen ==> step.next->task is ReadAgain
        }),
{
}

/// What the storage read is what the client gets: the same bytes, and the end
/// of the file exactly where the storage says so.
pub proof fn law_data_are_handed_on(
    task: nfs_ops::NfsTaskView,
    bytes: Vec<u8>,
    eof: bool,
    pool: PoolState,
)
    requires
        task is ReadData || task is ReadAgain,
    ensures
        nfs_ops::spec_resume(task, VfsReply::Data(Ok((bytes, eof))), pool).1.next
            == nfs_ops::NextView::Answer(Ok(nfs_ops::NfsReplyView::Data { bytes: bytes@, eof })),
{
}

/// A pooled handle that the storage no longer knows is not the client's
/// concern: the same file is opened anew, for the same bytes.
pub proof fn law_stale_reads_are_tried_again(
    id: u64,
    offset: u64,
    count: u32,
    handle: u64,
    pool: PoolState,
)
    ensures
        ({
            let step = nfs_ops::spec_resume(
                nfs_ops::NfsTaskView::ReadData { id, offset, count, handle },
                VfsReply::Data(Err(Errno::BadF)),
                pool,
            ).1;
            &&& asks(step, nfs_ops::VfsCallView::Open { ino: id, writable: false })
            &&& step.next->task is ReadReopen
            &&& is_to_read(step.next->task, id, offset, count)
        }),
{
}

// ── Writing ─────────────────────────────────────────────────────────────

/// Once data were written, that file is committed some time later, and its
/// attributes are asked for and become the answer.
pub proof fn law_written_files_are_committed(
    task: nfs_ops::NfsTaskView,
    id: u64,
    pool: PoolState,
    attr: VirtualFsAttr,
    later: PoolState,
)
    requires
        (task matches nfs_ops::NfsTaskView::WriteFast { id: i, .. } && i == id) || (
        task matches nfs_ops::NfsTaskView::WriteSlow { id: i, .. } && i == id),
        attr.blocks * 512 <= u64::MAX,
    ensures
        ({
            let step = nfs_ops::spec_resume(task, VfsReply::Done(Ok(())), pool).1;
            let told = nfs_ops::spec_resume(
                step.next->task,
                VfsReply::Attr(Ok(attr)),
                later,
            ).1;
            &&& step.next is Call
            &&& step.next->call == (nfs_ops::VfsCallView::Getattr { ino: id })
            &&& step.effects.len() > 0 && step.effects.last() == (Effect::ScheduleFlush { ino: id })
            &&& told.next matches nfs_ops::NextView::Answer(Ok(nfs_ops::NfsReplyView::Attr(n)))
                && is_seen_as(n, attr)
        }),
{
}

// ── New entries ─────────────────────────────────────────────────────────

/// A new entry belongs to whom the client says, with the permissions that the
/// client says, and else to the owner of the mount, with the usual permissions.
pub open spec fn owns_as_asked(owner: Ownership, asked: SetAttr, usual_mode: u16, uid: u32, gid: u32) -> bool {
    &&& match asked.mode {
        Some(mode) => is_perm_of(owner.mode, mode),
        None => owner.mode == usual_mode,
    }
    &&& match asked.uid {
        Some(u) => owner.uid == u,
        None => owner.uid == uid,
    }
    &&& match asked.gid {
        Some(g) => owner.gid == g,
        None => owner.gid == gid,
    }
}

proof fn lemma_owner(asked: SetAttr, mode: u16, uid: u32, gid: u32)
    ensures
        owns_as_asked(
            crate::nfs::spec_ownership(asked, Ownership { mode, uid, gid }),
            asked,
            mode,
            uid,
            gid,
        ),
{
    if let Some(mode) = asked.mode {
        lemma_perm(mode);
    }
}

/// A file is created in the directory and under the name that the client gives,
/// and the answer is that file. Its handle is pooled for the writes to come.
pub proof fn law_create(
    dir: u64,
    name: Vec<u8>,
    text: Seq<char>,
    asked: SetAttr,
    uid: u32,
    gid: u32,
    pool: PoolState,
    attr: VirtualFsAttr,
    handle: u64,
    later: PoolState,
)
    requires
        is_name(name@, text),
        attr.blocks * 512 <= u64::MAX,
        later.wf(),
    ensures
        ({
            let (after, step) = nfs_ops::spec_begin(
                NfsRequest::Create { dir, name, attr: asked },
                uid,
                gid,
                pool,
            );
            let (end, told) = nfs_ops::spec_resume(
                step.next->task,
                VfsReply::Created(Ok((attr, handle))),
                later,
            );
            &&& after == pool
            &&& step.next is Call && step.effects.len() == 0
            &&& step.next->call matches nfs_ops::VfsCallView::Create { dir: d, name: n, owner } && d
                == dir && n == text && owns_as_asked(owner, asked, 0o644, uid, gid)
            &&& end.handle(attr.ino) == Some(handle)
            &&& told.effects.last() == (Effect::ScheduleFlush { ino: attr.ino })
            &&& told.next matches nfs_ops::NextView::Answer(
                Ok(nfs_ops::NfsReplyView::Created { id, attr: n }),
            ) && id == attr.ino && is_seen_as(n, attr)
        }),
{
    lemma_name(name@, text);
    lemma_owner(asked, 0o644, uid, gid);
    crate::handle_pool::law_insert_then_lookup(later, attr.ino, handle);
}

/// A file that is created in place of none belongs to the owner of the mount.
pub proof fn law_create_exclusive(
    dir: u64,
    name: Vec<u8>,
    text: Seq<char>,
    uid: u32,
    gid: u32,
    pool: PoolState,
    attr: VirtualFsAttr,
    handle: u64,
    later: PoolState,
)
    requires
        is_name(name@, text),
        later.wf(),
    ensures
        ({
            let (after, step) = nfs_ops::spec_begin(
                NfsRequest::CreateExclusive { dir, name },
                uid,
                gid,
                pool,
            );
            let (end, told) = nfs_ops::spec_resume(
                step.next->task,
                VfsReply::Created(Ok((attr, handle))),
                later,
            );
            &&& after == pool
            &&& asks(
                step,
                nfs_ops::VfsCallView::Create {
                    dir,
                    name: text,
                    owner: Ownership { mode: 0o644, uid, gid },
                },
            )
            &&& end.handle(attr.ino) == Some(handle)
            &&& told.effects.last() == (Effect::ScheduleFlush { ino: attr.ino })
            &&& told.next == nfs_ops::NextView::Answer(Ok(nfs_ops::NfsReplyView::Id(attr.ino)))
        }),
{
    lemma_name(name@, text);
    crate::handle_pool::law_insert_then_lookup(later, attr.ino, handle);
}

/// A directory is made in the directory and under the name that the client
/// gives, for the owner of the mount, and is the answer.
pub proof fn law_mkdir(
    dir: u64,
    name: Vec<u8>,
    text: Seq<char>,
    uid: u32,
    gid: u32,
    pool: PoolState,
    attr: VirtualFsAttr,
    later: PoolState,
)
    requires
        is_name(name@, text),
        attr.blocks * 512 <= u64::MAX,
    ensures
        ({
            let (after, step) = nfs_ops::spec_begin(
                NfsRequest::Mkdir { dir, name },
                uid,
                gid,
                pool,
            );
            let (end, told) = nfs_ops::spec_resume(step.next->task, VfsReply::Attr(Ok(attr)), later);
            &&& after == pool && end == later
            &&& asks(
                step,
                nfs_ops::VfsCallView::Mkdir {
                    dir,
                    name: text,
                    owner: Ownership { mode: 0o755, uid, gid },
                },
            )
            &&& told.next matches nfs_ops::NextView::Answer(
                Ok(nfs_ops::NfsReplyView::Created { id, attr: n }),
            ) && id == attr.ino && is_seen_as(n, attr)
        }),
{
    lemma_name(name@, text);
}

/// A link is made in the directory and under the name that the client gives,
/// to the target that the client gives, and is the answer.
pub proof fn law_symlink(
    dir: u64,
    name: Vec<u8>,
    text: Seq<char>,
    target: Vec<u8>,
    target_text: Seq<char>,
    asked: SetAttr,
    uid: u32,
    gid: u32,
    pool: PoolState,
    attr: VirtualFsAttr,
    later: PoolState,
)
    requires
        is_name(name@, text),
        target@ == encode_utf8(target_text),
        attr.blocks * 512 <= u64::MAX,
    ensures
        ({
            let (after, step) = nfs_ops::spec_begin(
                NfsRequest::Symlink { dir, name, target, attr: asked },
                uid,
                gid,
                pool,
            );
            let (end, told) = nfs_ops::spec_resume(step.next->task, VfsReply::Attr(Ok(attr)), later);
            &&& after == pool && end == later
            &&& step.next is Call && step.effects.len() == 0
            &&& step.next->call matches nfs_ops::VfsCallView::Symlink {
                dir: d,
                name: n,
                target: t,
                owner,
            } && d == dir && n == text && t == target_text && owns_as_asked(
                owner,
                asked,
                0o777,
                uid,
                gid,
            )
            &&& told.next matches nfs_ops::NextView::Answer(
                Ok(nfs_ops::NfsReplyView::Created { id, attr: n }),
            ) && id == attr.ino && is_seen_as(n, attr)
        }),
{
    lemma_name(name@, text);
    lemma_owner(asked, 0o777, uid, gid);
    encode_utf8_valid_utf8(target_text);
    encode_utf8_decode_utf8(target_text);
}

/// A target that is not text is refused as invalid.
pub proof fn law_symlink_targets_are_text(
    dir: u64,
    name: Vec<u8>,
    target: Vec<u8>,
    asked: SetAttr,
    uid: u32,
    gid: u32,
    pool: PoolState,
)
    requires
        !valid_utf8(target@),
    ensures
        nfs_ops::spec_begin(
            NfsRequest::Symlink { dir, name, target, attr: asked },
            uid,
            gid,
            pool,
        ).0 == pool,
        tells(
            nfs_ops::spec_begin(
                NfsRequest::Symlink { dir, name, target, attr: asked },
                uid,
                gid,
                pool,
            ).1,
            Err(NfsStat::Inval),
        ),
{
}

// ── Removing and renaming ───────────────────────────────────────────────

/// The pooled handle of the file `ino`, if there was one, is committed and
/// released, and nothing else.
pub open spec fn gives_up(before: PoolState, after: PoolState, effects: Seq<Effect>, ino: u64) -> bool {
    &&& after.handle(ino) is None
    &&& forall|other: u64| other != ino ==> #[trigger] after.handle(other) == before.handle(other)
    &&& before.handle(ino) matches Some(handle) ==> effects == seq![Effect::Evict { ino, handle }]
    &&& before.handle(ino) is None ==> effects.len() == 0
}

/// The entry that the client names, and no other, is removed: a directory as
/// such, and everything else as a file. Its pooled handle goes with it.
pub proof fn law_remove(
    dir: u64,
    name: Vec<u8>,
    text: Seq<char>,
    uid: u32,
    gid: u32,
    pool: PoolState,
    attr: VirtualFsAttr,
    between: PoolState,
    later: PoolState,
)
    requires
        is_name(name@, text),
        later.wf(),
    ensures
        ({
            let (after, step) = nfs_ops::spec_begin(
                NfsRequest::Remove { dir, name },
                uid,
                gid,
                pool,
            );
            let (middle, second) = nfs_ops::spec_resume(
                step.next->task,
                VfsReply::Attr(Ok(attr)),
                between,
            );
            let (end, told) = nfs_ops::spec_resume(
                second.next->task,
                VfsReply::Done(Ok(())),
                later,
            );
            &&& after == pool && middle == between
            &&& asks(step, nfs_ops::VfsCallView::Lookup { dir, name: text })
            &&& attr.kind == InodeKind::Directory ==> asks(
                second,
                nfs_ops::VfsCallView::Rmdir { dir, name: text },
            )
            &&& attr.kind != InodeKind::Directory ==> asks(
                second,
                nfs_ops::VfsCallView::Unlink { dir, name: text },
            )
            &&& told.next == nfs_ops::NextView::Answer(Ok(nfs_ops::NfsReplyView::Done))
            &&& gives_up(later, end, told.effects, attr.ino)
        }),
{
    lemma_name(name@, text);
}

/// The step renames the entry `from` to `to`, with nothing to be done besides.
pub open spec fn asks_to_rename(
    step: nfs_ops::StepView,
    from_dir: u64,
    from: Seq<char>,
    to_dir: u64,
    to: Seq<char>,
) -> bool {
    asks(
        step,
        nfs_ops::VfsCallView::Rename { from_dir, from_name: from, to_dir, to_name: to },
    )
}

/// An entry is moved from where the client says it is to where the client wants
/// it, whether or not something is there. What makes way loses its pooled
/// handle, but a file that is renamed to itself keeps it.
pub proof fn law_rename(
    from_dir: u64,
    from_name: Vec<u8>,
    from: Seq<char>,
    to_dir: u64,
    to_name: Vec<u8>,
    to: Seq<char>,
    uid: u32,
    gid: u32,
    pool: PoolState,
    dest: Result<VirtualFsAttr, Errno>,
    source: Result<VirtualFsAttr, Errno>,
    between: PoolState,
    later: PoolState,
    last: PoolState,
)
    requires
        is_name(from_name@, from),
        is_name(to_name@, to),
        last.wf(),
    ensures
        ({
            let (after, step) = nfs_ops::spec_begin(
                NfsRequest::Rename { from_dir, from_name, to_dir, to_name },
                uid,
                gid,
                pool,
            );
            let (middle, second) = nfs_ops::spec_resume(
                step.next->task,
                VfsReply::Attr(dest),
                between,
            );
            let (third_pool, third) = nfs_ops::spec_resume(
                second.next->task,
                VfsReply::Attr(source),
                later,
            );
            let renaming = if dest is Ok {
                third
            } else {
                second
            };
            let (end, told) = nfs_ops::spec_resume(
                renaming.next->task,
                VfsReply::Done(Ok(())),
                last,
            );
            let makes_way = match (dest, source) {
                (Ok(d), Ok(s)) => d.ino != s.ino,
                (Ok(d), Err(_)) => true,
                (Err(_), _) => false,
            };
            &&& after == pool && middle == between
            &&& asks(step, nfs_ops::VfsCallView::Lookup { dir: to_dir, name: to })
            &&& dest is Ok ==> third_pool == later && asks(
                second,
                nfs_ops::VfsCallView::Lookup { dir: from_dir, name: from },
            )
            &&& asks_to_rename(renaming, from_dir, from, to_dir, to)
            &&& told.next == nfs_ops::NextView::Answer(Ok(nfs_ops::NfsReplyView::Done))
            &&& makes_way ==> gives_up(last, end, told.effects, dest->Ok_0.ino)
            &&& !makes_way ==> end == last && told.effects.len() == 0
        }),
{
    lemma_name(from_name@, from);
    lemma_name(to_name@, to);
    let names = nfs_ops::request_names(NfsRequest::Rename { from_dir, from_name, to_dir, to_name });
    assert(names[0] == from_name@ && names[1] == to_name@);
}

// ── Listing ─────────────────────────────────────────────────────────────

/// `page` are entries of `all` in a row: from the one after `start_after`, or
/// from the first where that is none of them, as many as there are up to
/// `max_entries`.
pub open spec fn is_page(
    page: Seq<nfs_ops::VfsDirEntryView>,
    all: Seq<nfs_ops::VfsDirEntryView>,
    start: int,
    start_after: u64,
    max_entries: usize,
) -> bool {
    &&& 0 <= start <= all.len()
    &&& page.len() <= max_entries
    &&& page.len() < max_entries ==> start + page.len() == all.len()
    &&& start + page.len() <= all.len()
    &&& forall|i: int| 0 <= i < page.len() ==> #[trigger] page[i] == all[start + i]
    &&& start > 0 ==> start_after > 0 && all[start - 1].ino == start_after && forall|i: int|
        0 <= i < start - 1 ==> (#[trigger] all[i]).ino != start_after
    &&& start == 0 ==> start_after == 0 || forall|i: int|
        0 <= i < all.len() ==> (#[trigger] all[i]).ino != start_after
}

/// A listing is of the directory that the client names. The attributes of the
/// entries of a page are asked for, entry by entry, and the client is told that
/// the listing ends exactly where no entry is left.
pub proof fn law_readdir(
    dir: u64,
    start_after: u64,
    max_entries: usize,
    uid: u32,
    gid: u32,
    pool: PoolState,
    entries: Vec<VfsDirEntry>,
    all: Seq<nfs_ops::VfsDirEntryView>,
    later: PoolState,
)
    requires
        all.len() == entries@.len(),
        forall|i: int| 0 <= i < all.len() ==> #[trigger] all[i] == entries@[i]@,
    ensures
        ({
            let (after, step) = nfs_ops::spec_begin(
                NfsRequest::Readdir { dir, start_after, max_entries },
                uid,
                gid,
                pool,
            );
            let (middle, second) = nfs_ops::spec_resume(
                step.next->task,
                VfsReply::Entries(Ok(entries)),
                later,
            );
            &&& after == pool && middle == later
            &&& asks(step, nfs_ops::VfsCallView::Readdir { dir })
            &&& second.next is Call && second.effects.len() == 0
            &&& second.next->task is ReaddirAttrs && second.next->call is GetattrEach
            &&& ({
                let page = second.next->task->entries;
                let end = second.next->task->end;
                let inos = second.next->call->inos;
                &&& exists|start: int| #[trigger]
                    is_page(page, all, start, start_after, max_entries) && end == (start
                        + page.len() == all.len())
                &&& inos.len() == page.len()
                &&& forall|i: int| 0 <= i < page.len() ==> #[trigger] inos[i] == page[i].ino
            })
        }),
{
    assert(all =~= nfs_ops::entries_view(entries@));
    let start = nfs_ops::page_start(all, start_after);
    if start_after > 0 && (exists|i: int| nfs_ops::is_first(all, start_after, i)) {
        let k = choose|i: int| nfs_ops::is_first(all, start_after, i);
        assert(nfs_ops::is_first(all, start_after, k));
    } else if start_after > 0 {
        assert forall|i: int| 0 <= i < all.len() implies (#[trigger] all[i]).ino != start_after by {
            if all[i].ino == start_after {
                lemma_first(all, start_after, i);
            }
        }
    }
    let page = nfs_ops::page(all, start_after, max_entries as nat);
    assert(is_page(page, all, start, start_after, max_entries));
    let request = NfsRequest::Readdir { dir, start_after, max_entries };
    assert(nfs_ops::names_are_valid(request));
    let step = nfs_ops::spec_begin(request, uid, gid, pool).1;
    let second = nfs_ops::spec_resume(step.next->task, VfsReply::Entries(Ok(entries)), later).1;
    assert(second.next->task->entries == page);
    assert(second.next->call->inos == nfs_ops::inos(page));
}

/// Where some entry has the inode, one is the first that has it.
proof fn lemma_first(all: Seq<nfs_ops::VfsDirEntryView>, ino: u64, i: int)
    requires
        0 <= i < all.len(),
        all[i].ino == ino,
    ensures
        exists|k: int| nfs_ops::is_first(all, ino, k),
    decreases i,
{
    if exists|j: int| 0 <= j < i && all[j].ino == ino {
        let j = choose|j: int| 0 <= j < i && all[j].ino == ino;
        lemma_first(all, ino, j);
    } else {
        assert(nfs_ops::is_first(all, ino, i));
    }
}

/// Each entry of the page is listed under its name and inode, with what the
/// storage says of it, or as a regular file of which nothing is known.
pub proof fn law_listed_entries(
    page: Seq<nfs_ops::VfsDirEntryView>,
    end: bool,
    attrs: Vec<Result<VirtualFsAttr, Errno>>,
    pool: PoolState,
    i: int,
)
    requires
        attrs@.len() == page.len(),
        0 <= i < page.len(),
        attrs@[i] matches Ok(attr) ==> attr.blocks * 512 <= u64::MAX,
    ensures
        ({
            let (after, step) = nfs_ops::spec_resume(
                nfs_ops::NfsTaskView::ReaddirAttrs { entries: page, end },
                VfsReply::Attrs(attrs),
                pool,
            );
            &&& after == pool && step.effects.len() == 0
            &&& step.next matches nfs_ops::NextView::Answer(
                Ok(nfs_ops::NfsReplyView::Entries { entries, end: told }),
            ) && told == end && entries.len() == page.len() && entries[i].fileid == page[i].ino
                && entries[i].name == encode_utf8(page[i].name) && match attrs@[i] {
                Ok(attr) => is_seen_as(entries[i].attr, attr),
                Err(_) => entries[i].attr.ftype == NfsFileType::Regular && entries[i].attr.size == 0
                    && entries[i].attr.fileid == 0 && entries[i].attr.mode == 0
                    && entries[i].attr.nlink == 0 && entries[i].attr.uid == 0
                    && entries[i].attr.gid == 0 && entries[i].attr.used == 0,
            }
        }),
{
}

// ── Handles ─────────────────────────────────────────────────────────────

/// A write goes through the pooled handle of the file, or else begins with
/// opening that file for writing.
pub proof fn law_write_begins(id: u64, offset: u64, data: Vec<u8>, uid: u32, gid: u32, pool: PoolState)
    ensures
        ({
            let (after, step) = nfs_ops::spec_begin(
                NfsRequest::Write { id, offset, data },
                uid,
                gid,
                pool,
            );
            &&& after == pool
            &&& pool.handle(id) matches Some(handle) ==> asks(
                step,
                nfs_ops::VfsCallView::Write { ino: id, handle, offset, data: data@ },
            )
            &&& pool.handle(id) is None ==> asks(
                step,
                nfs_ops::VfsCallView::Open { ino: id, writable: true },
            )
        }),
{
}

/// A handle that a file was opened with for reading is pooled for that file and
/// held for the read, unless one was pooled meanwhile: that one is held, and
/// the new one given back.
pub proof fn law_handles_for_reading_are_pooled(
    id: u64,
    offset: u64,
    count: u32,
    opened: u64,
    pool: PoolState,
)
    requires
        pool.wf(),
        pool.can_pin(id),
    ensures
        ({
            let (after, step) = nfs_ops::spec_resume(
                nfs_ops::NfsTaskView::ReadOpen { id, offset, count },
                VfsReply::Handle(Ok(opened)),
                pool,
            );
            match pool.handle(id) {
                None => after.handle(id) == Some(opened) && after.pins(id) == 1,
                Some(handle) => after.handle(id) == Some(handle) && after.pins(id) == pool.pins(id)
                    + 1 && step.effects == seq![Effect::Release { handle: opened }],
            }
        }),
{
}

/// A read that went through the pool lets go of the handle and keeps it there;
/// one that had a handle of its own gives it back.
pub proof fn law_reads_let_go(
    id: u64,
    offset: u64,
    count: u32,
    handle: u64,
    bytes: Vec<u8>,
    eof: bool,
    pool: PoolState,
)
    ensures
        ({
            let (after, step) = nfs_ops::spec_resume(
                nfs_ops::NfsTaskView::ReadData { id, offset, count, handle },
                VfsReply::Data(Ok((bytes, eof))),
                pool,
            );
            &&& after.handle(id) == pool.handle(id)
            &&& after.order == pool.order
            &&& pool.pins(id) > 0 ==> after.pins(id) == pool.pins(id) - 1
            &&& step.effects.len() == 0
        }),
        ({
            let (after, step) = nfs_ops::spec_resume(
                nfs_ops::NfsTaskView::ReadAgain { handle },
                VfsReply::Data(Ok((bytes, eof))),
                pool,
            );
            after == pool && step.effects == seq![Effect::Release { handle }]
        }),
{
}

/// A handle that the storage no longer knows leaves the pool, unless another
/// was pooled in its place.
pub proof fn law_stale_handles_leave_the_pool(
    id: u64,
    offset: u64,
    count: u32,
    handle: u64,
    pool: PoolState,
)
    requires
        pool.wf(),
    ensures
        ({
            let after = nfs_ops::spec_resume(
                nfs_ops::NfsTaskView::ReadData { id, offset, count, handle },
                VfsReply::Data(Err(Errno::BadF)),
                pool,
            ).0;
            &&& pool.handle(id) == Some(handle) ==> after.handle(id) is None
            &&& pool.handle(id) != Some(handle) ==> after.handle(id) == pool.handle(id)
        }),
{
}

/// A handle that was written through is pooled for its file; the one that it
/// takes the place of is committed and given back.
pub proof fn law_handles_for_writing_are_pooled(
    id: u64,
    offset: u64,
    handle: u64,
    pool: PoolState,
)
    requires
        pool.wf(),
    ensures
        ({
            let (after, step) = nfs_ops::spec_resume(
                nfs_ops::NfsTaskView::WriteSlow { id, offset, handle },
                VfsReply::Done(Ok(())),
                pool,
            );
            &&& after.handle(id) == Some(handle)
            &&& after.pins(id) == 0
            &&& step.effects.last() == (Effect::ScheduleFlush { ino: id })
            &&& pool.handle(id) matches Some(old) ==> step.effects.contains(
                Effect::Evict { ino: id, handle: old },
            )
        }),
{
    let pushed = nfs_ops::pooled_for_writing(pool, id);
    if let Some(old) = pool.handle(id) {
        let all = pushed.push(Effect::ScheduleFlush { ino: id });
        assert(pushed.last() == (Effect::Evict { ino: id, handle: old }));
        assert(all[pushed.len() - 1] == pushed.last());
    }
}

/// The handle of a file that was created is pooled for that file, which is
/// committed some time later.
pub proof fn law_handles_of_new_files_are_pooled(
    exclusive: bool,
    attr: VirtualFsAttr,
    handle: u64,
    pool: PoolState,
)
    requires
        pool.wf(),
    ensures
        ({
            let (after, step) = nfs_ops::spec_resume(
                nfs_ops::NfsTaskView::Create { exclusive },
                VfsReply::Created(Ok((attr, handle))),
                pool,
            );
            &&& after.handle(attr.ino) == Some(handle)
            &&& after.pins(attr.ino) == 0
            &&& step.effects.last() == (Effect::ScheduleFlush { ino: attr.ino })
        }),
{
}

/// What is pushed out of the pool for another file is committed and given back,
/// each handle with the file that it belongs to, in the order of their age.
pub proof fn law_evicted_handles_are_committed(pairs: Seq<(u64, u64)>, i: int)
    requires
        0 <= i < pairs.len(),
    ensures
        nfs_ops::evict_each(pairs).len() == pairs.len(),
        nfs_ops::evict_each(pairs)[i] == (Effect::Evict { ino: pairs[i].0, handle: pairs[i].1 }),
{
}

/// A file handle is the secret of the export and the number of the file, the
/// lowest byte first. A handle of another length or with another secret stands
/// for no file, and every other is that of the file that it stands for.
pub proof fn law_file_handles_have_their_shape(secret: Seq<u8>, id: u64, data: Seq<u8>)
    requires
        secret.len() == 16,
    ensures
        ({
            let handle = crate::nfs::file_handle_bytes(secret, id);
            &&& handle.len() == 24
            &&& handle.take(16) == secret
            &&& handle[16] == id % 256
            &&& handle[17] == id / 256 % 256
            &&& handle[23] == id / 0x100_0000_0000_0000
        }),
        crate::nfs::file_handle_id(secret, data) is Some <==> data.len() == 24 && data.take(16)
            == secret,
        crate::nfs::file_handle_id(secret, data) matches Some(number)
            ==> crate::nfs::file_handle_bytes(secret, number) == data,
{
    vstd::bytes::lemma_auto_spec_u64_to_from_le_bytes();
    let handle = crate::nfs::file_handle_bytes(secret, id);
    assert(handle.take(16) =~= secret);
    let tail = vstd::bytes::spec_u64_to_le_bytes_open(id);
    vstd::bytes::spec_u64_to_le_bytes_to_open(id);
    assert((id & 0xff) as u8 == id % 256) by (bit_vector);
    assert(((id >> 8) & 0xff) as u8 == id / 256 % 256) by (bit_vector);
    assert(((id >> 56) & 0xff) as u8 == id / 0x100_0000_0000_0000) by (bit_vector);
    assert(handle[16] == tail[0]);
    assert(handle[17] == tail[1]);
    assert(handle[23] == tail[7]);
    if data.len() == 24 && data.take(16) == secret {
        let rest = data.skip(16);
        assert(data =~= data.take(16) + rest);
    }
}

} // verus!
