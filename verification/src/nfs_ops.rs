//! The NFS requests as steps between calls of the storage.
//!
//! A request begins with [`NFSAdapter::begin`], which answers it or names a call
//! that the storage has to make. The reply of the storage goes back in through
//! [`NFSAdapter::resume`], until there is an answer. Besides, each step lists
//! effects that are carried out, in order, before its call or its answer; no
//! decision depends on how they end.
use crate::handle_pool;
use crate::handle_pool::HandlePool;
use crate::nfs;
use crate::nfs::{
    Errno, FileTime, InodeKind, NfsAttr, NfsStat, Ownership, SetAttr, VfsSetAttr, VirtualFsAttr,
};
use crate::setup::NfsSecurity;
use vstd::prelude::*;
use vstd::utf8::*;

verus! {

// ── Requests, calls and replies ─────────────────────────────────────────

/// Something to do besides. Its outcome changes nothing.
#[derive(Clone, Copy, PartialEq, Eq, Structural, Debug)]
pub enum Effect {
    /// Commit what was written through the handle, then release it.
    Evict { ino: u64, handle: u64 },
    /// Release the handle.
    Release { handle: u64 },
    /// Commit the file some time later.
    ScheduleFlush { ino: u64 },
}

/// A request of a client.
#[derive(Clone, PartialEq, Eq, Debug)]
pub enum NfsRequest {
    Lookup { dir: u64, name: Vec<u8> },
    Getattr { id: u64 },
    Read { id: u64, offset: u64, count: u32 },
    Readdir { dir: u64, start_after: u64, max_entries: usize },
    /// `now` is what the server's clock shows.
    Setattr { id: u64, attr: SetAttr, now: FileTime },
    Write { id: u64, offset: u64, data: Vec<u8> },
    Create { dir: u64, name: Vec<u8>, attr: SetAttr },
    CreateExclusive { dir: u64, name: Vec<u8> },
    Mkdir { dir: u64, name: Vec<u8> },
    Remove { dir: u64, name: Vec<u8> },
    Rename { from_dir: u64, from_name: Vec<u8>, to_dir: u64, to_name: Vec<u8> },
    Symlink { dir: u64, name: Vec<u8>, target: Vec<u8>, attr: SetAttr },
    Readlink { id: u64 },
}

/// A call of the storage.
#[derive(PartialEq, Eq, Debug)]
pub enum VfsCall {
    Lookup { dir: u64, name: String },
    Getattr { ino: u64 },
    /// The attributes of each of the inodes.
    GetattrEach { inos: Vec<u64> },
    Setattr { ino: u64, attr: VfsSetAttr },
    Open { ino: u64, writable: bool },
    Read { handle: u64, offset: u64, count: u32 },
    Write { ino: u64, handle: u64, offset: u64, data: Vec<u8> },
    Create { dir: u64, name: String, owner: Ownership },
    Mkdir { dir: u64, name: String, owner: Ownership },
    Unlink { dir: u64, name: String },
    Rmdir { dir: u64, name: String },
    /// Replaces the destination where it exists.
    Rename { from_dir: u64, from_name: String, to_dir: u64, to_name: String },
    Symlink { dir: u64, name: String, target: String, owner: Ownership },
    Readlink { ino: u64 },
    Readdir { dir: u64 },
}

/// An entry of a directory of the storage.
#[derive(PartialEq, Eq, Debug)]
pub struct VfsDirEntry {
    pub ino: u64,
    pub name: String,
}

/// What the storage replies.
#[derive(PartialEq, Eq, Debug)]
pub enum VfsReply {
    /// To `Lookup`, `Getattr`, `Setattr`, `Mkdir` and `Symlink`.
    Attr(Result<VirtualFsAttr, Errno>),
    /// To `GetattrEach`.
    Attrs(Vec<Result<VirtualFsAttr, Errno>>),
    /// To `Open`.
    Handle(Result<u64, Errno>),
    /// To `Read`: the bytes, and whether they reach the end of the file.
    Data(Result<(Vec<u8>, bool), Errno>),
    /// To `Write`, `Unlink`, `Rmdir` and `Rename`.
    Done(Result<(), Errno>),
    /// To `Create`: the new file and an open handle on it.
    Created(Result<(VirtualFsAttr, u64), Errno>),
    /// To `Readlink`.
    Target(Result<String, Errno>),
    /// To `Readdir`.
    Entries(Result<Vec<VfsDirEntry>, Errno>),
}

/// An entry of a directory as a client gets it.
#[derive(PartialEq, Eq, Debug)]
pub struct DirEntry {
    pub fileid: u64,
    pub name: Vec<u8>,
    pub attr: NfsAttr,
}

/// The answer to a request that succeeded.
#[derive(PartialEq, Eq, Debug)]
pub enum NfsReply {
    Id(u64),
    Attr(NfsAttr),
    Data { bytes: Vec<u8>, eof: bool },
    Entries { entries: Vec<DirEntry>, end: bool },
    Created { id: u64, attr: NfsAttr },
    Done,
    Path(Vec<u8>),
}

/// A request whose call of the storage is under way.
#[derive(PartialEq, Eq, Debug)]
pub enum NfsTask {
    Lookup,
    /// The attributes are the answer.
    Attr,
    /// The new inode and its attributes are the answer.
    NewEntry,
    ReadOpen { id: u64, offset: u64, count: u32 },
    /// The request uses the pooled handle of the file.
    ReadData { id: u64, offset: u64, count: u32, handle: u64 },
    ReadReopen { offset: u64, count: u32 },
    /// The request owns the handle.
    ReadAgain { handle: u64 },
    ReaddirList { start_after: u64, max_entries: usize },
    ReaddirAttrs { entries: Vec<VfsDirEntry>, end: bool },
    /// The data are kept, in case the handle turns out to be of no use.
    WriteFast { id: u64, offset: u64, data: Vec<u8>, handle: u64 },
    WriteOpen { id: u64, offset: u64, data: Vec<u8> },
    /// The request owns the handle.
    WriteSlow { id: u64, offset: u64, handle: u64 },
    Create { exclusive: bool },
    RemoveLookup { dir: u64, name: String },
    Remove { ino: u64 },
    RenameDest { from_dir: u64, from_name: String, to_dir: u64, to_name: String },
    RenameSource { from_dir: u64, from_name: String, to_dir: u64, to_name: String, dest: u64 },
    /// `replaced` is the file that the rename takes the place of.
    Rename { replaced: Option<u64> },
    Readlink,
}

/// Where a request goes from here.
#[derive(PartialEq, Eq, Debug)]
pub enum Next {
    Call { call: VfsCall, task: NfsTask },
    Answer(Result<NfsReply, NfsStat>),
}

/// The effects of a step, and where the request goes after them.
#[derive(PartialEq, Eq, Debug)]
pub struct Step {
    pub effects: Vec<Effect>,
    pub next: Next,
}

// ── Their contents ──────────────────────────────────────────────────────

pub ghost enum VfsCallView {
    Lookup { dir: u64, name: Seq<char> },
    Getattr { ino: u64 },
    GetattrEach { inos: Seq<u64> },
    Setattr { ino: u64, attr: VfsSetAttr },
    Open { ino: u64, writable: bool },
    Read { handle: u64, offset: u64, count: u32 },
    Write { ino: u64, handle: u64, offset: u64, data: Seq<u8> },
    Create { dir: u64, name: Seq<char>, owner: Ownership },
    Mkdir { dir: u64, name: Seq<char>, owner: Ownership },
    Unlink { dir: u64, name: Seq<char> },
    Rmdir { dir: u64, name: Seq<char> },
    Rename { from_dir: u64, from_name: Seq<char>, to_dir: u64, to_name: Seq<char> },
    Symlink { dir: u64, name: Seq<char>, target: Seq<char>, owner: Ownership },
    Readlink { ino: u64 },
    Readdir { dir: u64 },
}

impl View for VfsCall {
    type V = VfsCallView;

    open spec fn view(&self) -> VfsCallView {
        match *self {
            VfsCall::Lookup { dir, name } => VfsCallView::Lookup { dir, name: name@ },
            VfsCall::Getattr { ino } => VfsCallView::Getattr { ino },
            VfsCall::GetattrEach { inos } => VfsCallView::GetattrEach { inos: inos@ },
            VfsCall::Setattr { ino, attr } => VfsCallView::Setattr { ino, attr },
            VfsCall::Open { ino, writable } => VfsCallView::Open { ino, writable },
            VfsCall::Read { handle, offset, count } => VfsCallView::Read { handle, offset, count },
            VfsCall::Write { ino, handle, offset, data } => VfsCallView::Write {
                ino,
                handle,
                offset,
                data: data@,
            },
            VfsCall::Create { dir, name, owner } => VfsCallView::Create { dir, name: name@, owner },
            VfsCall::Mkdir { dir, name, owner } => VfsCallView::Mkdir { dir, name: name@, owner },
            VfsCall::Unlink { dir, name } => VfsCallView::Unlink { dir, name: name@ },
            VfsCall::Rmdir { dir, name } => VfsCallView::Rmdir { dir, name: name@ },
            VfsCall::Rename { from_dir, from_name, to_dir, to_name } => VfsCallView::Rename {
                from_dir,
                from_name: from_name@,
                to_dir,
                to_name: to_name@,
            },
            VfsCall::Symlink { dir, name, target, owner } => VfsCallView::Symlink {
                dir,
                name: name@,
                target: target@,
                owner,
            },
            VfsCall::Readlink { ino } => VfsCallView::Readlink { ino },
            VfsCall::Readdir { dir } => VfsCallView::Readdir { dir },
        }
    }
}

#[verifier::ext_equal]
pub ghost struct VfsDirEntryView {
    pub ino: u64,
    pub name: Seq<char>,
}

impl View for VfsDirEntry {
    type V = VfsDirEntryView;

    open spec fn view(&self) -> VfsDirEntryView {
        VfsDirEntryView { ino: self.ino, name: self.name@ }
    }
}

/// The contents of a list of entries.
pub open spec fn entries_view(entries: Seq<VfsDirEntry>) -> Seq<VfsDirEntryView> {
    entries.map_values(|e: VfsDirEntry| e@)
}

#[verifier::ext_equal]
pub ghost struct DirEntryView {
    pub fileid: u64,
    pub name: Seq<u8>,
    pub attr: NfsAttr,
}

impl View for DirEntry {
    type V = DirEntryView;

    open spec fn view(&self) -> DirEntryView {
        DirEntryView { fileid: self.fileid, name: self.name@, attr: self.attr }
    }
}

pub ghost enum NfsReplyView {
    Id(u64),
    Attr(NfsAttr),
    Data { bytes: Seq<u8>, eof: bool },
    Entries { entries: Seq<DirEntryView>, end: bool },
    Created { id: u64, attr: NfsAttr },
    Done,
    Path(Seq<u8>),
}

impl View for NfsReply {
    type V = NfsReplyView;

    open spec fn view(&self) -> NfsReplyView {
        match *self {
            NfsReply::Id(id) => NfsReplyView::Id(id),
            NfsReply::Attr(attr) => NfsReplyView::Attr(attr),
            NfsReply::Data { bytes, eof } => NfsReplyView::Data { bytes: bytes@, eof },
            NfsReply::Entries { entries, end } => NfsReplyView::Entries {
                entries: entries@.map_values(|e: DirEntry| e@),
                end,
            },
            NfsReply::Created { id, attr } => NfsReplyView::Created { id, attr },
            NfsReply::Done => NfsReplyView::Done,
            NfsReply::Path(bytes) => NfsReplyView::Path(bytes@),
        }
    }
}

pub ghost enum NfsTaskView {
    Lookup,
    Attr,
    NewEntry,
    ReadOpen { id: u64, offset: u64, count: u32 },
    ReadData { id: u64, offset: u64, count: u32, handle: u64 },
    ReadReopen { offset: u64, count: u32 },
    ReadAgain { handle: u64 },
    ReaddirList { start_after: u64, max_entries: usize },
    ReaddirAttrs { entries: Seq<VfsDirEntryView>, end: bool },
    WriteFast { id: u64, offset: u64, data: Seq<u8>, handle: u64 },
    WriteOpen { id: u64, offset: u64, data: Seq<u8> },
    WriteSlow { id: u64, offset: u64, handle: u64 },
    Create { exclusive: bool },
    RemoveLookup { dir: u64, name: Seq<char> },
    Remove { ino: u64 },
    RenameDest { from_dir: u64, from_name: Seq<char>, to_dir: u64, to_name: Seq<char> },
    RenameSource {
        from_dir: u64,
        from_name: Seq<char>,
        to_dir: u64,
        to_name: Seq<char>,
        dest: u64,
    },
    Rename { replaced: Option<u64> },
    Readlink,
}

impl View for NfsTask {
    type V = NfsTaskView;

    open spec fn view(&self) -> NfsTaskView {
        match *self {
            NfsTask::Lookup => NfsTaskView::Lookup,
            NfsTask::Attr => NfsTaskView::Attr,
            NfsTask::NewEntry => NfsTaskView::NewEntry,
            NfsTask::ReadOpen { id, offset, count } => NfsTaskView::ReadOpen { id, offset, count },
            NfsTask::ReadData { id, offset, count, handle } => NfsTaskView::ReadData {
                id,
                offset,
                count,
                handle,
            },
            NfsTask::ReadReopen { offset, count } => NfsTaskView::ReadReopen { offset, count },
            NfsTask::ReadAgain { handle } => NfsTaskView::ReadAgain { handle },
            NfsTask::ReaddirList { start_after, max_entries } => NfsTaskView::ReaddirList {
                start_after,
                max_entries,
            },
            NfsTask::ReaddirAttrs { entries, end } => NfsTaskView::ReaddirAttrs {
                entries: entries_view(entries@),
                end,
            },
            NfsTask::WriteFast { id, offset, data, handle } => NfsTaskView::WriteFast {
                id,
                offset,
                data: data@,
                handle,
            },
            NfsTask::WriteOpen { id, offset, data } => NfsTaskView::WriteOpen {
                id,
                offset,
                data: data@,
            },
            NfsTask::WriteSlow { id, offset, handle } => NfsTaskView::WriteSlow {
                id,
                offset,
                handle,
            },
            NfsTask::Create { exclusive } => NfsTaskView::Create { exclusive },
            NfsTask::RemoveLookup { dir, name } => NfsTaskView::RemoveLookup { dir, name: name@ },
            NfsTask::Remove { ino } => NfsTaskView::Remove { ino },
            NfsTask::RenameDest { from_dir, from_name, to_dir, to_name } => {
                NfsTaskView::RenameDest {
                    from_dir,
                    from_name: from_name@,
                    to_dir,
                    to_name: to_name@,
                }
            },
            NfsTask::RenameSource { from_dir, from_name, to_dir, to_name, dest } => {
                NfsTaskView::RenameSource {
                    from_dir,
                    from_name: from_name@,
                    to_dir,
                    to_name: to_name@,
                    dest,
                }
            },
            NfsTask::Rename { replaced } => NfsTaskView::Rename { replaced },
            NfsTask::Readlink => NfsTaskView::Readlink,
        }
    }
}

pub ghost enum NextView {
    Call { call: VfsCallView, task: NfsTaskView },
    Answer(Result<NfsReplyView, NfsStat>),
}

impl View for Next {
    type V = NextView;

    open spec fn view(&self) -> NextView {
        match *self {
            Next::Call { call, task } => NextView::Call { call: call@, task: task@ },
            Next::Answer(Ok(reply)) => NextView::Answer(Ok(reply@)),
            Next::Answer(Err(stat)) => NextView::Answer(Err(stat)),
        }
    }
}

#[verifier::ext_equal]
pub ghost struct StepView {
    pub effects: Seq<Effect>,
    pub next: NextView,
}

impl View for Step {
    type V = StepView;

    open spec fn view(&self) -> StepView {
        StepView { effects: self.effects@, next: self.next@ }
    }
}

impl VfsReply {
    /// The attributes in the reply are valid.
    pub open spec fn wf(self) -> bool {
        match self {
            VfsReply::Attr(Ok(attr)) => attr.wf(),
            VfsReply::Attrs(attrs) => forall|i: int|
                0 <= i < attrs@.len() ==> (#[trigger] attrs@[i] matches Ok(attr) ==> attr.wf()),
            VfsReply::Created(Ok((attr, _))) => attr.wf(),
            _ => true,
        }
    }

    /// The reply is one to the call that `task` waits for.
    pub open spec fn replies_to(self, task: NfsTaskView) -> bool {
        match task {
            NfsTaskView::Lookup => self is Attr,
            NfsTaskView::Attr => self is Attr,
            NfsTaskView::NewEntry => self is Attr,
            NfsTaskView::ReadOpen { .. } => self is Handle,
            NfsTaskView::ReadData { .. } => self is Data,
            NfsTaskView::ReadReopen { .. } => self is Handle,
            NfsTaskView::ReadAgain { .. } => self is Data,
            NfsTaskView::ReaddirList { .. } => self is Entries,
            NfsTaskView::ReaddirAttrs { entries, .. } => self matches VfsReply::Attrs(attrs)
                && attrs@.len() == entries.len(),
            NfsTaskView::WriteFast { .. } => self is Done,
            NfsTaskView::WriteOpen { .. } => self is Handle,
            NfsTaskView::WriteSlow { .. } => self is Done,
            NfsTaskView::Create { .. } => self is Created,
            NfsTaskView::RemoveLookup { .. } => self is Attr,
            NfsTaskView::Remove { .. } => self is Done,
            NfsTaskView::RenameDest { .. } => self is Attr,
            NfsTaskView::RenameSource { .. } => self is Attr,
            NfsTaskView::Rename { .. } => self is Done,
            NfsTaskView::Readlink => self is Target,
        }
    }
}

impl VfsReply {
    /// Tells whether the attributes in the reply are valid.
    pub fn is_valid(&self) -> (r: bool)
        ensures
            r == self.wf(),
    {
        match self {
            VfsReply::Attr(Ok(attr)) => attr.is_valid(),
            VfsReply::Attrs(attrs) => {
                let mut i: usize = 0;
                while i < attrs.len()
                    invariant
                        i <= attrs@.len(),
                        *self == VfsReply::Attrs(*attrs),
                        forall|j: int|
                            0 <= j < i ==> (#[trigger] attrs@[j] matches Ok(attr) ==> attr.wf()),
                    decreases attrs@.len() - i,
                {
                    if let Ok(attr) = &attrs[i] {
                        if !attr.is_valid() {
                            return false;
                        }
                    }
                    i = i + 1;
                }
                true
            },
            VfsReply::Created(Ok((attr, _))) => attr.is_valid(),
            _ => true,
        }
    }

    /// Tells whether the reply is one to the call that `task` waits for.
    pub fn fits(&self, task: &NfsTask) -> (r: bool)
        ensures
            r == self.replies_to(task@),
    {
        match (task, self) {
            (NfsTask::Lookup, VfsReply::Attr(_)) => true,
            (NfsTask::Attr, VfsReply::Attr(_)) => true,
            (NfsTask::NewEntry, VfsReply::Attr(_)) => true,
            (NfsTask::ReadOpen { .. }, VfsReply::Handle(_)) => true,
            (NfsTask::ReadData { .. }, VfsReply::Data(_)) => true,
            (NfsTask::ReadReopen { .. }, VfsReply::Handle(_)) => true,
            (NfsTask::ReadAgain { .. }, VfsReply::Data(_)) => true,
            (NfsTask::ReaddirList { .. }, VfsReply::Entries(_)) => true,
            (NfsTask::ReaddirAttrs { entries, .. }, VfsReply::Attrs(attrs)) => attrs.len()
                == entries.len(),
            (NfsTask::WriteFast { .. }, VfsReply::Done(_)) => true,
            (NfsTask::WriteOpen { .. }, VfsReply::Handle(_)) => true,
            (NfsTask::WriteSlow { .. }, VfsReply::Done(_)) => true,
            (NfsTask::Create { .. }, VfsReply::Created(_)) => true,
            (NfsTask::RemoveLookup { .. }, VfsReply::Attr(_)) => true,
            (NfsTask::Remove { .. }, VfsReply::Done(_)) => true,
            (NfsTask::RenameDest { .. }, VfsReply::Attr(_)) => true,
            (NfsTask::RenameSource { .. }, VfsReply::Attr(_)) => true,
            (NfsTask::Rename { .. }, VfsReply::Done(_)) => true,
            (NfsTask::Readlink, VfsReply::Target(_)) => true,
            _ => false,
        }
    }
}

// ── What each step does ─────────────────────────────────────────────────

/// A step with a call and no effect.
pub open spec fn calls(call: VfsCallView, task: NfsTaskView) -> StepView {
    StepView { effects: seq![], next: NextView::Call { call, task } }
}

/// A step that answers, with no effect.
pub open spec fn answers(answer: Result<NfsReplyView, NfsStat>) -> StepView {
    StepView { effects: seq![], next: NextView::Answer(answer) }
}

/// A step that refuses the request.
pub open spec fn refuses(stat: NfsStat) -> StepView {
    answers(Err(stat))
}

/// The storage is to commit and release each of the handles.
pub open spec fn evict_each(pairs: Seq<(u64, u64)>) -> Seq<Effect> {
    pairs.map_values(|p: (u64, u64)| Effect::Evict { ino: p.0, handle: p.1 })
}

/// What follows when a file opened for reading is pooled: what had to make room
/// is committed and released, and an older handle of the file is released.
pub open spec fn pooled_for_reading(pool: handle_pool::PoolState, ino: u64) -> Seq<Effect> {
    let evicted = evict_each(pool.insert_evicts(ino));
    match pool.handle(ino) {
        Some(handle) => evicted.push(Effect::Release { handle }),
        None => evicted,
    }
}

/// What follows when a writable handle is pooled: what had to make room and an
/// older handle of the file are committed and released.
pub open spec fn pooled_for_writing(pool: handle_pool::PoolState, ino: u64) -> Seq<Effect> {
    let evicted = evict_each(pool.insert_evicts(ino));
    match pool.handle(ino) {
        Some(handle) => evicted.push(Effect::Evict { ino, handle }),
        None => evicted,
    }
}

/// The pool without `handle`, where `ino` has it.
pub open spec fn drop_stale(pool: handle_pool::PoolState, ino: u64, handle: u64) -> handle_pool::PoolState {
    if pool.handle(ino) == Some(handle) {
        pool.remove(ino)
    } else {
        pool
    }
}

/// Entry `i` is the first of the inode `ino`.
pub open spec fn is_first(entries: Seq<VfsDirEntryView>, ino: u64, i: int) -> bool {
    &&& 0 <= i < entries.len()
    &&& entries[i].ino == ino
    &&& forall|j: int| 0 <= j < i ==> entries[j].ino != ino
}

/// How many entries a page that starts after the inode `start_after` skips.
/// Zero stands for the start, and so does an inode that is no longer there.
pub open spec fn page_start(entries: Seq<VfsDirEntryView>, start_after: u64) -> int {
    if start_after > 0 && (exists|i: int| is_first(entries, start_after, i)) {
        (choose|i: int| is_first(entries, start_after, i)) + 1
    } else {
        0
    }
}

/// Where the page ends.
pub open spec fn page_end(
    entries: Seq<VfsDirEntryView>,
    start_after: u64,
    max_entries: nat,
) -> int {
    let start = page_start(entries, start_after);
    if start + max_entries <= entries.len() {
        start + max_entries
    } else {
        entries.len() as int
    }
}

/// The entries of the page.
pub open spec fn page(
    entries: Seq<VfsDirEntryView>,
    start_after: u64,
    max_entries: nat,
) -> Seq<VfsDirEntryView> {
    entries.subrange(
        page_start(entries, start_after),
        page_end(entries, start_after, max_entries),
    )
}

/// The inodes of the entries.
pub open spec fn inos(entries: Seq<VfsDirEntryView>) -> Seq<u64> {
    entries.map_values(|e: VfsDirEntryView| e.ino)
}

/// An entry for a client. Where the storage has no attributes, they are unknown.
pub open spec fn nfs_entry(entry: VfsDirEntryView, attr: Result<VirtualFsAttr, Errno>) -> DirEntryView {
    DirEntryView {
        fileid: entry.ino,
        name: encode_utf8(entry.name),
        attr: match attr {
            Ok(attr) => nfs::spec_nfs_attr(attr),
            Err(_) => nfs::spec_unknown_attr(),
        },
    }
}

/// The entries for a client.
pub open spec fn nfs_entries(
    entries: Seq<VfsDirEntryView>,
    attrs: Seq<Result<VirtualFsAttr, Errno>>,
) -> Seq<DirEntryView> {
    Seq::new(entries.len(), |i: int| nfs_entry(entries[i], attrs[i]))
}

/// The answer that consists of attributes.
pub open spec fn attr_answer(reply: Result<VirtualFsAttr, Errno>) -> StepView {
    match reply {
        Ok(attr) => answers(Ok(NfsReplyView::Attr(nfs::spec_nfs_attr(attr)))),
        Err(e) => refuses(e.spec_status()),
    }
}

/// The answer that consists of data.
pub open spec fn data_answer(reply: Result<(Vec<u8>, bool), Errno>) -> Result<
    NfsReplyView,
    NfsStat,
> {
    match reply {
        Ok((bytes, eof)) => Ok(NfsReplyView::Data { bytes: bytes@, eof }),
        Err(e) => Err(e.spec_status()),
    }
}

/// The step that reads through the pooled handle of `id`.
pub open spec fn reads(id: u64, offset: u64, count: u32, handle: u64) -> StepView {
    calls(
        VfsCallView::Read { handle, offset, count },
        NfsTaskView::ReadData { id, offset, count, handle },
    )
}

/// The mode of a new file whose mode the client leaves open.
pub const FILE_MODE: u16 = 0o644;

/// The mode of a new directory.
pub const DIR_MODE: u16 = 0o755;

/// The mode of a new symbolic link whose mode the client leaves open.
pub const SYMLINK_MODE: u16 = 0o777;

/// The names that a request gives to entries of directories.
pub open spec fn request_names(request: NfsRequest) -> Seq<Seq<u8>> {
    match request {
        NfsRequest::Lookup { name, .. } => seq![name@],
        NfsRequest::Create { name, .. } => seq![name@],
        NfsRequest::CreateExclusive { name, .. } => seq![name@],
        NfsRequest::Mkdir { name, .. } => seq![name@],
        NfsRequest::Remove { name, .. } => seq![name@],
        NfsRequest::Rename { from_name, to_name, .. } => seq![from_name@, to_name@],
        NfsRequest::Symlink { name, .. } => seq![name@],
        _ => seq![],
    }
}

/// All names in the request can stand for entries of directories.
pub open spec fn names_are_valid(request: NfsRequest) -> bool {
    forall|i: int|
        0 <= i < request_names(request).len() ==> nfs::is_nfs_name(#[trigger] request_names(request)[i])
}

/// The pool and the step that a request begins with, in a mount whose new files
/// belong to `uid` and `gid`.
pub open spec fn spec_begin(request: NfsRequest, uid: u32, gid: u32, pool: handle_pool::PoolState) -> (
    handle_pool::PoolState,
    StepView,
) {
    if !names_are_valid(request) {
        (pool, refuses(NfsStat::Inval))
    } else {
        match request {
            NfsRequest::Lookup { dir, name } => (
                pool,
                calls(
                    VfsCallView::Lookup { dir, name: decode_utf8(name@) },
                    NfsTaskView::Lookup,
                ),
            ),
            NfsRequest::Getattr { id } => (
                pool,
                calls(VfsCallView::Getattr { ino: id }, NfsTaskView::Attr),
            ),
            NfsRequest::Read { id, offset, count } => match pool.handle(id) {
                Some(handle) => (pool.acquire(id), reads(id, offset, count, handle)),
                None => (
                    pool,
                    calls(
                        VfsCallView::Open { ino: id, writable: false },
                        NfsTaskView::ReadOpen { id, offset, count },
                    ),
                ),
            },
            NfsRequest::Readdir { dir, start_after, max_entries } => (
                pool,
                calls(
                    VfsCallView::Readdir { dir },
                    NfsTaskView::ReaddirList { start_after, max_entries },
                ),
            ),
            NfsRequest::Setattr { id, attr, now } => (
                pool,
                calls(
                    VfsCallView::Setattr { ino: id, attr: nfs::spec_vfs_set_attr(attr, now) },
                    NfsTaskView::Attr,
                ),
            ),
            NfsRequest::Write { id, offset, data } => match pool.handle(id) {
                Some(handle) => (
                    pool,
                    calls(
                        VfsCallView::Write { ino: id, handle, offset, data: data@ },
                        NfsTaskView::WriteFast { id, offset, data: data@, handle },
                    ),
                ),
                None => (
                    pool,
                    calls(
                        VfsCallView::Open { ino: id, writable: true },
                        NfsTaskView::WriteOpen { id, offset, data: data@ },
                    ),
                ),
            },
            NfsRequest::Create { dir, name, attr } => (
                pool,
                calls(
                    VfsCallView::Create {
                        dir,
                        name: decode_utf8(name@),
                        owner: nfs::spec_ownership(attr, Ownership { mode: FILE_MODE, uid, gid }),
                    },
                    NfsTaskView::Create { exclusive: false },
                ),
            ),
            NfsRequest::CreateExclusive { dir, name } => (
                pool,
                calls(
                    VfsCallView::Create {
                        dir,
                        name: decode_utf8(name@),
                        owner: Ownership { mode: FILE_MODE, uid, gid },
                    },
                    NfsTaskView::Create { exclusive: true },
                ),
            ),
            NfsRequest::Mkdir { dir, name } => (
                pool,
                calls(
                    VfsCallView::Mkdir {
                        dir,
                        name: decode_utf8(name@),
                        owner: Ownership { mode: DIR_MODE, uid, gid },
                    },
                    NfsTaskView::NewEntry,
                ),
            ),
            NfsRequest::Remove { dir, name } => (
                pool,
                calls(
                    VfsCallView::Lookup { dir, name: decode_utf8(name@) },
                    NfsTaskView::RemoveLookup { dir, name: decode_utf8(name@) },
                ),
            ),
            NfsRequest::Rename { from_dir, from_name, to_dir, to_name } => (
                pool,
                calls(
                    VfsCallView::Lookup { dir: to_dir, name: decode_utf8(to_name@) },
                    NfsTaskView::RenameDest {
                        from_dir,
                        from_name: decode_utf8(from_name@),
                        to_dir,
                        to_name: decode_utf8(to_name@),
                    },
                ),
            ),
            NfsRequest::Symlink { dir, name, target, attr } => (
                pool,
                if valid_utf8(target@) {
                    calls(
                        VfsCallView::Symlink {
                            dir,
                            name: decode_utf8(name@),
                            target: decode_utf8(target@),
                            owner: nfs::spec_ownership(
                                attr,
                                Ownership { mode: SYMLINK_MODE, uid, gid },
                            ),
                        },
                        NfsTaskView::NewEntry,
                    )
                } else {
                    refuses(NfsStat::Inval)
                },
            ),
            NfsRequest::Readlink { id } => (
                pool,
                calls(VfsCallView::Readlink { ino: id }, NfsTaskView::Readlink),
            ),
        }
    }
}

/// What follows when the file of a read was opened. Another request may have
/// pooled a handle meanwhile: then that one serves.
pub open spec fn spec_read_opened(
    id: u64,
    offset: u64,
    count: u32,
    reply: Result<u64, Errno>,
    pool: handle_pool::PoolState,
) -> (handle_pool::PoolState, StepView) {
    match (reply, pool.handle(id)) {
        (Ok(opened), Some(handle)) => (
            pool.acquire(id),
            StepView {
                effects: seq![Effect::Release { handle: opened }],
                ..reads(id, offset, count, handle)
            },
        ),
        (Ok(opened), None) => (
            pool.insert(id, opened).acquire(id),
            StepView {
                effects: pooled_for_reading(pool, id),
                ..reads(id, offset, count, opened)
            },
        ),
        (Err(_), Some(handle)) => (pool.acquire(id), reads(id, offset, count, handle)),
        (Err(e), None) => (pool, refuses(e.spec_status())),
    }
}

/// What follows when the data of a read through the pooled handle are there.
/// The use of the handle ends. A handle that the storage no longer knows leaves
/// the pool, and the read is tried once more with one of its own.
pub open spec fn spec_read_done(
    id: u64,
    offset: u64,
    count: u32,
    handle: u64,
    reply: Result<(Vec<u8>, bool), Errno>,
    pool: handle_pool::PoolState,
) -> (handle_pool::PoolState, StepView) {
    let pool = pool.unpin(id);
    if reply matches Err(Errno::BadF) {
        (
            drop_stale(pool, id, handle),
            calls(
                VfsCallView::Open { ino: id, writable: false },
                NfsTaskView::ReadReopen { offset, count },
            ),
        )
    } else {
        (pool, answers(data_answer(reply)))
    }
}

/// What follows when the data were written through the pooled handle. One that
/// is open for reading only makes way for a writable one.
pub open spec fn spec_write_tried(
    id: u64,
    offset: u64,
    data: Seq<u8>,
    handle: u64,
    reply: Result<(), Errno>,
    pool: handle_pool::PoolState,
) -> (handle_pool::PoolState, StepView) {
    match reply {
        Ok(()) => (
            pool,
            StepView {
                effects: seq![Effect::ScheduleFlush { ino: id }],
                ..calls(VfsCallView::Getattr { ino: id }, NfsTaskView::Attr)
            },
        ),
        Err(Errno::BadF) => (
            drop_stale(pool, id, handle),
            StepView {
                effects: seq![Effect::Evict { ino: id, handle }],
                ..calls(
                    VfsCallView::Open { ino: id, writable: true },
                    NfsTaskView::WriteOpen { id, offset, data },
                )
            },
        ),
        Err(e) => (pool, refuses(e.spec_status())),
    }
}

/// What follows when the data were written through a handle of the request's
/// own. It is pooled only now: until then no other request can release it.
pub open spec fn spec_written(
    id: u64,
    handle: u64,
    reply: Result<(), Errno>,
    pool: handle_pool::PoolState,
) -> (handle_pool::PoolState, StepView) {
    match reply {
        Ok(()) => (
            pool.insert(id, handle),
            StepView {
                effects: pooled_for_writing(pool, id).push(Effect::ScheduleFlush { ino: id }),
                ..calls(VfsCallView::Getattr { ino: id }, NfsTaskView::Attr)
            },
        ),
        Err(e) => (
            pool,
            StepView {
                effects: seq![Effect::Release { handle }],
                ..refuses(e.spec_status())
            },
        ),
    }
}

/// What follows when a file was created.
pub open spec fn spec_created(
    exclusive: bool,
    reply: Result<(VirtualFsAttr, u64), Errno>,
    pool: handle_pool::PoolState,
) -> (handle_pool::PoolState, StepView) {
    match reply {
        Ok((attr, handle)) => (
            pool.insert(attr.ino, handle),
            StepView {
                effects: pooled_for_writing(pool, attr.ino).push(
                    Effect::ScheduleFlush { ino: attr.ino },
                ),
                ..answers(
                    Ok(
                        if exclusive {
                            NfsReplyView::Id(attr.ino)
                        } else {
                            NfsReplyView::Created { id: attr.ino, attr: nfs::spec_nfs_attr(attr) }
                        },
                    ),
                )
            },
        ),
        Err(e) => (pool, refuses(e.spec_status())),
    }
}

/// What follows when the file `ino` is gone: its pooled handle goes too.
pub open spec fn spec_gone(ino: u64, pool: handle_pool::PoolState) -> (handle_pool::PoolState, StepView) {
    (
        pool.remove(ino),
        StepView {
            effects: match pool.handle(ino) {
                Some(handle) => seq![Effect::Evict { ino, handle }],
                None => seq![],
            },
            ..answers(Ok(NfsReplyView::Done))
        },
    )
}

/// The step that renames, where `replaced` will make way.
pub open spec fn renames(
    from_dir: u64,
    from_name: Seq<char>,
    to_dir: u64,
    to_name: Seq<char>,
    replaced: Option<u64>,
) -> StepView {
    calls(
        VfsCallView::Rename { from_dir, from_name, to_dir, to_name },
        NfsTaskView::Rename { replaced },
    )
}

/// What follows when the entries of a directory are there: the attributes of
/// those on the page are asked for.
pub open spec fn spec_listed(
    start_after: u64,
    max_entries: usize,
    reply: Result<Vec<VfsDirEntry>, Errno>,
) -> StepView {
    match reply {
        Ok(entries) => {
            let all = entries_view(entries@);
            let chosen = page(all, start_after, max_entries as nat);
            calls(
                VfsCallView::GetattrEach { inos: inos(chosen) },
                NfsTaskView::ReaddirAttrs {
                    entries: chosen,
                    end: page_end(all, start_after, max_entries as nat) == all.len(),
                },
            )
        },
        Err(e) => refuses(e.spec_status()),
    }
}

/// The pool and the step that follow the reply of the storage.
pub open spec fn spec_resume(task: NfsTaskView, reply: VfsReply, pool: handle_pool::PoolState) -> (
    handle_pool::PoolState,
    StepView,
) {
    match (task, reply) {
        (NfsTaskView::Lookup, VfsReply::Attr(r)) => (
            pool,
            match r {
                Ok(attr) => answers(Ok(NfsReplyView::Id(attr.ino))),
                Err(e) => refuses(e.spec_status()),
            },
        ),
        (NfsTaskView::Attr, VfsReply::Attr(r)) => (pool, attr_answer(r)),
        (NfsTaskView::NewEntry, VfsReply::Attr(r)) => (
            pool,
            match r {
                Ok(attr) => answers(
                    Ok(NfsReplyView::Created { id: attr.ino, attr: nfs::spec_nfs_attr(attr) }),
                ),
                Err(e) => refuses(e.spec_status()),
            },
        ),
        (NfsTaskView::ReadOpen { id, offset, count }, VfsReply::Handle(r)) => spec_read_opened(
            id,
            offset,
            count,
            r,
            pool,
        ),
        (NfsTaskView::ReadData { id, offset, count, handle }, VfsReply::Data(r)) => spec_read_done(
            id,
            offset,
            count,
            handle,
            r,
            pool,
        ),
        (NfsTaskView::ReadReopen { offset, count }, VfsReply::Handle(r)) => (
            pool,
            match r {
                Ok(handle) => calls(
                    VfsCallView::Read { handle, offset, count },
                    NfsTaskView::ReadAgain { handle },
                ),
                Err(e) => refuses(e.spec_status()),
            },
        ),
        (NfsTaskView::ReadAgain { handle }, VfsReply::Data(r)) => (
            pool,
            StepView { effects: seq![Effect::Release { handle }], ..answers(data_answer(r)) },
        ),
        (NfsTaskView::ReaddirList { start_after, max_entries }, VfsReply::Entries(r)) => (
            pool,
            spec_listed(start_after, max_entries, r),
        ),
        (NfsTaskView::ReaddirAttrs { entries, end }, VfsReply::Attrs(attrs)) => (
            pool,
            answers(
                Ok(NfsReplyView::Entries { entries: nfs_entries(entries, attrs@), end }),
            ),
        ),
        (NfsTaskView::WriteFast { id, offset, data, handle }, VfsReply::Done(r)) => spec_write_tried(
            id,
            offset,
            data,
            handle,
            r,
            pool,
        ),
        (NfsTaskView::WriteOpen { id, offset, data }, VfsReply::Handle(r)) => (
            pool,
            match r {
                Ok(handle) => calls(
                    VfsCallView::Write { ino: id, handle, offset, data },
                    NfsTaskView::WriteSlow { id, offset, handle },
                ),
                Err(e) => refuses(e.spec_status()),
            },
        ),
        (NfsTaskView::WriteSlow { id, offset, handle }, VfsReply::Done(r)) => spec_written(
            id,
            handle,
            r,
            pool,
        ),
        (NfsTaskView::Create { exclusive }, VfsReply::Created(r)) => spec_created(
            exclusive,
            r,
            pool,
        ),
        (NfsTaskView::RemoveLookup { dir, name }, VfsReply::Attr(r)) => (
            pool,
            match r {
                Ok(attr) => calls(
                    if attr.kind == InodeKind::Directory {
                        VfsCallView::Rmdir { dir, name }
                    } else {
                        VfsCallView::Unlink { dir, name }
                    },
                    NfsTaskView::Remove { ino: attr.ino },
                ),
                Err(e) => refuses(e.spec_status()),
            },
        ),
        (NfsTaskView::Remove { ino }, VfsReply::Done(r)) => match r {
            Ok(()) => spec_gone(ino, pool),
            Err(e) => (pool, refuses(e.spec_status())),
        },
        (
            NfsTaskView::RenameDest { from_dir, from_name, to_dir, to_name },
            VfsReply::Attr(r),
        ) => (
            pool,
            match r {
                Ok(attr) => calls(
                    VfsCallView::Lookup { dir: from_dir, name: from_name },
                    NfsTaskView::RenameSource {
                        from_dir,
                        from_name,
                        to_dir,
                        to_name,
                        dest: attr.ino,
                    },
                ),
                Err(_) => renames(from_dir, from_name, to_dir, to_name, None),
            },
        ),
        (
            NfsTaskView::RenameSource { from_dir, from_name, to_dir, to_name, dest },
            VfsReply::Attr(r),
        ) => (
            pool,
            renames(
                from_dir,
                from_name,
                to_dir,
                to_name,
                if r matches Ok(attr) && attr.ino == dest {
                    None
                } else {
                    Some(dest)
                },
            ),
        ),
        (NfsTaskView::Rename { replaced }, VfsReply::Done(r)) => match (r, replaced) {
            (Ok(()), Some(ino)) => spec_gone(ino, pool),
            (Ok(()), None) => (pool, answers(Ok(NfsReplyView::Done))),
            (Err(e), _) => (pool, refuses(e.spec_status())),
        },
        (NfsTaskView::Readlink, VfsReply::Target(r)) => (
            pool,
            match r {
                Ok(target) => answers(Ok(NfsReplyView::Path(encode_utf8(target@)))),
                Err(e) => refuses(e.spec_status()),
            },
        ),
        _ => (pool, refuses(NfsStat::Io)),
    }
}

/// One more use of each file that the step may start to use can be counted.
pub open spec fn can_begin(request: NfsRequest, pool: handle_pool::PoolState) -> bool {
    request matches NfsRequest::Read { id, .. } ==> pool.can_pin(id)
}

/// One more use of each file that the step may start to use can be counted.
pub open spec fn can_resume(task: NfsTaskView, pool: handle_pool::PoolState) -> bool {
    task matches NfsTaskView::ReadOpen { id, .. } ==> pool.can_pin(id)
}

// ── The adapter ─────────────────────────────────────────────────────────

/// What a mount lets its clients do.
#[derive(Clone, Copy, PartialEq, Eq, Structural, Debug)]
pub enum VfsCapabilities {
    ReadOnly,
    ReadWrite,
}

/// The id of the directory that a mount exports.
pub const ROOT_DIR: u64 = 1;

/// The state of the NFS server of one mount.
#[derive(Debug)]
pub struct NFSAdapter {
    pub handle_pool: HandlePool,
    pub read_only: bool,
    pub security: NfsSecurity,
    /// The owner of files that a client creates without naming one.
    pub default_uid: u32,
    pub default_gid: u32,
}

/// A step with a call and no effect.
fn call_step(call: VfsCall, task: NfsTask) -> (r: Step)
    ensures
        r@ == calls(call@, task@),
{
    let r = Step { effects: Vec::new(), next: Next::Call { call, task } };
    assert(r@.effects =~= seq![]);
    r
}

/// A step with a call and one effect.
fn effect_step(effect: Effect, call: VfsCall, task: NfsTask) -> (r: Step)
    ensures
        r@ == (StepView { effects: seq![effect], ..calls(call@, task@) }),
{
    let mut effects: Vec<Effect> = Vec::new();
    effects.push(effect);
    let r = Step { effects, next: Next::Call { call, task } };
    assert(r@.effects =~= seq![effect]);
    r
}

/// A step that answers, with no effect.
fn answer_step(reply: NfsReply) -> (r: Step)
    ensures
        r@ == answers(Ok(reply@)),
{
    let r = Step { effects: Vec::new(), next: Next::Answer(Ok(reply)) };
    assert(r@.effects =~= seq![]);
    r
}

/// A step that refuses the request.
fn refuse_step(stat: NfsStat) -> (r: Step)
    ensures
        r@ == refuses(stat),
{
    let r = Step { effects: Vec::new(), next: Next::Answer(Err(stat)) };
    assert(r@.effects =~= seq![]);
    r
}

/// The effects that commit and release each of the handles.
fn evict_effects(pairs: &Vec<(u64, u64)>) -> (r: Vec<Effect>)
    ensures
        r@ == evict_each(pairs@),
{
    let mut out: Vec<Effect> = Vec::new();
    let mut i: usize = 0;
    while i < pairs.len()
        invariant
            i <= pairs@.len(),
            out@ == evict_each(pairs@.take(i as int)),
        decreases pairs@.len() - i,
    {
        let pair = pairs[i];
        out.push(Effect::Evict { ino: pair.0, handle: pair.1 });
        i = i + 1;
        assert(evict_each(pairs@.take(i as int)) =~= evict_each(pairs@.take(i - 1)).push(
            out@[i - 1],
        ));
    }
    assert(pairs@.take(i as int) =~= pairs@);
    out
}

/// The entries from `start` to `end`, of which the rest is dropped.
fn take_page(mut entries: Vec<VfsDirEntry>, start: usize, end: usize) -> (r: Vec<VfsDirEntry>)
    requires
        start <= end <= entries@.len(),
    ensures
        r@ == entries@.subrange(start as int, end as int),
{
    let ghost all = entries@;
    entries.truncate(end);
    assert(entries@ =~= all.take(end as int));
    let r = entries.split_off(start);
    assert(r@ =~= all.subrange(start as int, end as int));
    r
}

/// How many entries a page that starts after the inode `start_after` skips.
pub fn find_page_start(entries: &Vec<VfsDirEntry>, start_after: u64) -> (r: usize)
    ensures
        r == page_start(entries_view(entries@), start_after),
        r <= entries@.len(),
{
    let ghost all = entries_view(entries@);
    if start_after == 0 {
        return 0;
    }
    let mut i: usize = 0;
    while i < entries.len()
        invariant
            i <= entries@.len(),
            all == entries_view(entries@),
            start_after > 0,
            forall|j: int| 0 <= j < i ==> (#[trigger] all[j]).ino != start_after,
        decreases entries@.len() - i,
    {
        if entries[i].ino == start_after {
            proof {
                assert(all[i as int].ino == start_after);
                assert(is_first(all, start_after, i as int));
                let k = choose|k: int| is_first(all, start_after, k);
                assert(is_first(all, start_after, k));
                assert(k == i);
            }
            return i + 1;
        }
        assert(all[i as int].ino != start_after);
        i = i + 1;
    }
    0
}

/// The inodes of the entries.
fn entry_inos(entries: &Vec<VfsDirEntry>) -> (r: Vec<u64>)
    ensures
        r@ == inos(entries_view(entries@)),
{
    let ghost all = entries_view(entries@);
    let mut out: Vec<u64> = Vec::new();
    let mut i: usize = 0;
    while i < entries.len()
        invariant
            i <= entries@.len(),
            all == entries_view(entries@),
            out@ == inos(all).take(i as int),
        decreases entries@.len() - i,
    {
        out.push(entries[i].ino);
        assert(inos(all).take(i + 1) =~= inos(all).take(i as int).push(inos(all)[i as int]));
        i = i + 1;
    }
    assert(inos(all).take(i as int) =~= inos(all));
    out
}

/// The entries for a client.
fn client_entries(
    entries: &Vec<VfsDirEntry>,
    attrs: &Vec<Result<VirtualFsAttr, Errno>>,
) -> (r: Vec<DirEntry>)
    requires
        attrs@.len() == entries@.len(),
        VfsReply::Attrs(*attrs).wf(),
    ensures
        r@.map_values(|e: DirEntry| e@) == nfs_entries(entries_view(entries@), attrs@),
{
    let ghost wanted = nfs_entries(entries_view(entries@), attrs@);
    let mut out: Vec<DirEntry> = Vec::new();
    let mut i: usize = 0;
    while i < entries.len()
        invariant
            i <= entries@.len(),
            attrs@.len() == entries@.len(),
            VfsReply::Attrs(*attrs).wf(),
            wanted == nfs_entries(entries_view(entries@), attrs@),
            out@.len() == i,
            forall|j: int| 0 <= j < i ==> (#[trigger] out@[j])@ == wanted[j],
        decreases entries@.len() - i,
    {
        let attr = match attrs[i] {
            Ok(attr) => nfs::vfs_attr_to_nfs(&attr),
            Err(_) => NfsAttr::default(),
        };
        let entry = DirEntry {
            fileid: entries[i].ino,
            name: entries[i].name.as_str().as_bytes_vec(),
            attr,
        };
        assert(entry@ == wanted[i as int]);
        out.push(entry);
        i = i + 1;
    }
    assert(out@.map_values(|e: DirEntry| e@) =~= wanted);
    out
}

/// The answer that consists of data.
fn data_reply(reply: Result<(Vec<u8>, bool), Errno>) -> (r: Result<NfsReply, NfsStat>)
    ensures
        Next::Answer(r)@ == NextView::Answer(data_answer(reply)),
{
    match reply {
        Ok((bytes, eof)) => Ok(NfsReply::Data { bytes, eof }),
        Err(e) => Err(e.status()),
    }
}

/// Goes on when the entries of a directory are there.
fn listed(
    start_after: u64,
    max_entries: usize,
    reply: Result<Vec<VfsDirEntry>, Errno>,
) -> (r: Step)
    ensures
        r@ == spec_listed(start_after, max_entries, reply),
{
    match reply {
        Ok(entries) => {
            let ghost all = entries_view(entries@);
            let len: usize = entries.len();
            let start: usize = find_page_start(&entries, start_after);
            let end: usize = if max_entries <= len - start {
                start + max_entries
            } else {
                len
            };
            let chosen = take_page(entries, start, end);
            assert(entries_view(chosen@) =~= page(all, start_after, max_entries as nat));
            let inos = entry_inos(&chosen);
            call_step(
                VfsCall::GetattrEach { inos },
                NfsTask::ReaddirAttrs { entries: chosen, end: end == len },
            )
        },
        Err(e) => refuse_step(e.status()),
    }
}

impl NFSAdapter {
    /// The pool is valid.
    pub open spec fn wf(self) -> bool {
        self.handle_pool.wf()
    }

    /// The two agree in all but the pool.
    pub open spec fn same_mount(self, other: NFSAdapter) -> bool {
        &&& self.read_only == other.read_only
        &&& self.security == other.security
        &&& self.default_uid == other.default_uid
        &&& self.default_gid == other.default_gid
    }

    /// The server of a new mount, with an empty pool.
    pub fn new(
        default_uid: u32,
        default_gid: u32,
        read_only: bool,
        security: NfsSecurity,
    ) -> (r: NFSAdapter)
        ensures
            r.wf(),
            r.handle_pool@ == handle_pool::PoolState::empty(),
            r.read_only == read_only,
            r.security == security,
            r.default_uid == default_uid,
            r.default_gid == default_gid,
    {
        NFSAdapter {
            handle_pool: HandlePool::new(),
            read_only,
            security,
            default_uid,
            default_gid,
        }
    }

    pub fn root_dir(&self) -> (r: u64)
        ensures
            r == ROOT_DIR,
    {
        ROOT_DIR
    }

    pub fn capabilities(&self) -> (r: VfsCapabilities)
        ensures
            r == if self.read_only {
                VfsCapabilities::ReadOnly
            } else {
                VfsCapabilities::ReadWrite
            },
    {
        if self.read_only {
            VfsCapabilities::ReadOnly
        } else {
            VfsCapabilities::ReadWrite
        }
    }

    /// The handle that clients name the file `id` by.
    pub fn id_to_fh(&self, id: u64) -> (r: Vec<u8>)
        ensures
            r@ == nfs::file_handle_bytes(self.security.filehandle_secret@, id),
    {
        nfs::id_to_fh(&self.security.filehandle_secret, id)
    }

    /// The id of the file that a client named.
    pub fn fh_to_id(&self, data: &Vec<u8>) -> (r: Result<u64, NfsStat>)
        ensures
            r == match nfs::file_handle_id(self.security.filehandle_secret@, data@) {
                Some(id) => Ok::<u64, NfsStat>(id),
                None => Err(NfsStat::BadHandle),
            },
    {
        nfs::fh_to_id(&self.security.filehandle_secret, data)
    }

    /// What identifies this run of the server.
    pub fn serverid(&self) -> (r: [u8; 8])
        ensures
            r@ == self.security.filehandle_secret@.take(8),
    {
        nfs::server_id(&self.security)
    }

    /// Pools `handle` for `ino`, and lists what follows for a file that was
    /// opened for reading.
    fn process_insert(&mut self, ino: u64, handle: u64) -> (r: Vec<Effect>)
        requires
            old(self).wf(),
        ensures
            final(self).wf(),
            final(self).same_mount(*old(self)),
            final(self).handle_pool@ == old(self).handle_pool@.insert(ino, handle),
            r@ == pooled_for_reading(old(self).handle_pool@, ino),
    {
        let result = self.handle_pool.insert(ino, handle);
        let mut effects = evict_effects(&result.evicted);
        if let Some(replaced) = result.replaced {
            effects.push(Effect::Release { handle: replaced });
        }
        effects
    }

    /// Pools `handle` for `ino`, and lists what follows for a writable handle.
    fn insert_handle(&mut self, ino: u64, handle: u64) -> (r: Vec<Effect>)
        requires
            old(self).wf(),
        ensures
            final(self).wf(),
            final(self).same_mount(*old(self)),
            final(self).handle_pool@ == old(self).handle_pool@.insert(ino, handle),
            r@ == pooled_for_writing(old(self).handle_pool@, ino),
    {
        let result = self.handle_pool.insert(ino, handle);
        let mut effects = evict_effects(&result.evicted);
        if let Some(replaced) = result.replaced {
            effects.push(Effect::Evict { ino, handle: replaced });
        }
        effects
    }

    /// Takes `handle` out of the pool, where `ino` has it.
    fn drop_stale_handle(&mut self, ino: u64, handle: u64)
        requires
            old(self).wf(),
        ensures
            final(self).wf(),
            final(self).same_mount(*old(self)),
            final(self).handle_pool@ == drop_stale(old(self).handle_pool@, ino, handle),
    {
        match self.handle_pool.peek(ino) {
            Some(pooled) => {
                if pooled == handle {
                    self.handle_pool.remove(ino);
                }
            },
            None => {},
        }
    }

    /// Drops the pooled handle of a file whose contents changed at the source,
    /// so that the next read opens the new contents. Returns the handle, which
    /// the caller must release.
    pub fn invalidate(&mut self, ino: u64) -> (r: Option<u64>)
        requires
            old(self).wf(),
        ensures
            final(self).wf(),
            final(self).same_mount(*old(self)),
            final(self).handle_pool@ == old(self).handle_pool@.remove(ino),
            r == old(self).handle_pool@.handle(ino),
    {
        self.handle_pool.remove(ino)
    }

    /// Empties the pool when the mount ends, and returns every file with its
    /// handle, which the caller must commit and release.
    pub fn shut_down(&mut self) -> (r: Vec<(u64, u64)>)
        requires
            old(self).wf(),
        ensures
            final(self).wf(),
            final(self).same_mount(*old(self)),
            final(self).handle_pool@ == handle_pool::PoolState::empty(),
            r@ == old(self).handle_pool@.pairs(),
    {
        self.handle_pool.drain()
    }

    /// Tells whether the counter of the uses of the file has room for the step
    /// that `request` begins with.
    pub fn is_ready_to_begin(&self, request: &NfsRequest) -> (r: bool)
        ensures
            r == can_begin(*request, self.handle_pool@),
    {
        match request {
            NfsRequest::Read { id, .. } => self.handle_pool.pin_count(*id) < u32::MAX,
            _ => true,
        }
    }

    /// Tells whether `task` can go on with `reply`: it is one to the call that
    /// the task waits for, its attributes are valid, and the counter of the uses
    /// of the file has room for the next step.
    pub fn is_ready_to_resume(&self, task: &NfsTask, reply: &VfsReply) -> (r: bool)
        ensures
            r == (reply.wf() && reply.replies_to(task@) && can_resume(
                task@,
                self.handle_pool@,
            )),
    {
        if !reply.is_valid() || !reply.fits(task) {
            return false;
        }
        match task {
            NfsTask::ReadOpen { id, .. } => self.handle_pool.pin_count(*id) < u32::MAX,
            _ => true,
        }
    }

    /// Begins a request.
    pub fn begin(&mut self, request: NfsRequest) -> (r: Step)
        requires
            old(self).wf(),
            can_begin(request, old(self).handle_pool@),
        ensures
            final(self).wf(),
            final(self).same_mount(*old(self)),
            (final(self).handle_pool@, r@) == spec_begin(
                request,
                old(self).default_uid,
                old(self).default_gid,
                old(self).handle_pool@,
            ),
    {
        let uid: u32 = self.default_uid;
        let gid: u32 = self.default_gid;
        let ghost names = request_names(request);
        match request {
            NfsRequest::Lookup { dir, name } => {
                assert(names[0] == name@);
                match nfs::nfs_name(&name) {
                    Err(stat) => refuse_step(stat),
                    Ok(name) => call_step(
                        VfsCall::Lookup { dir, name: name.to_owned() },
                        NfsTask::Lookup,
                    ),
                }
            },
            NfsRequest::Getattr { id } => call_step(VfsCall::Getattr { ino: id }, NfsTask::Attr),
            NfsRequest::Read { id, offset, count } => {
                match self.handle_pool.acquire_shared(id) {
                    Some(handle) => call_step(
                        VfsCall::Read { handle, offset, count },
                        NfsTask::ReadData { id, offset, count, handle },
                    ),
                    None => call_step(
                        VfsCall::Open { ino: id, writable: false },
                        NfsTask::ReadOpen { id, offset, count },
                    ),
                }
            },
            NfsRequest::Readdir { dir, start_after, max_entries } => call_step(
                VfsCall::Readdir { dir },
                NfsTask::ReaddirList { start_after, max_entries },
            ),
            NfsRequest::Setattr { id, attr, now } => call_step(
                VfsCall::Setattr { ino: id, attr: nfs::vfs_set_attr(&attr, now) },
                NfsTask::Attr,
            ),
            NfsRequest::Write { id, offset, data } => {
                match self.handle_pool.peek(id) {
                    Some(handle) => {
                        let kept = data.clone();
                        assert(kept@ =~= data@);
                        call_step(
                            VfsCall::Write { ino: id, handle, offset, data },
                            NfsTask::WriteFast { id, offset, data: kept, handle },
                        )
                    },
                    None => call_step(
                        VfsCall::Open { ino: id, writable: true },
                        NfsTask::WriteOpen { id, offset, data },
                    ),
                }
            },
            NfsRequest::Create { dir, name, attr } => {
                assert(names[0] == name@);
                match nfs::nfs_name(&name) {
                    Err(stat) => refuse_step(stat),
                    Ok(name) => {
                        let owner = nfs::ownership(&attr, Ownership { mode: FILE_MODE, uid, gid });
                        call_step(
                            VfsCall::Create { dir, name: name.to_owned(), owner },
                            NfsTask::Create { exclusive: false },
                        )
                    },
                }
            },
            NfsRequest::CreateExclusive { dir, name } => {
                assert(names[0] == name@);
                match nfs::nfs_name(&name) {
                    Err(stat) => refuse_step(stat),
                    Ok(name) => {
                        let owner = Ownership { mode: FILE_MODE, uid, gid };
                        call_step(
                            VfsCall::Create { dir, name: name.to_owned(), owner },
                            NfsTask::Create { exclusive: true },
                        )
                    },
                }
            },
            NfsRequest::Mkdir { dir, name } => {
                assert(names[0] == name@);
                match nfs::nfs_name(&name) {
                    Err(stat) => refuse_step(stat),
                    Ok(name) => {
                        let owner = Ownership { mode: DIR_MODE, uid, gid };
                        call_step(
                            VfsCall::Mkdir { dir, name: name.to_owned(), owner },
                            NfsTask::NewEntry,
                        )
                    },
                }
            },
            NfsRequest::Remove { dir, name } => {
                assert(names[0] == name@);
                match nfs::nfs_name(&name) {
                    Err(stat) => refuse_step(stat),
                    Ok(name) => call_step(
                        VfsCall::Lookup { dir, name: name.to_owned() },
                        NfsTask::RemoveLookup { dir, name: name.to_owned() },
                    ),
                }
            },
            NfsRequest::Rename { from_dir, from_name, to_dir, to_name } => {
                assert(names[0] == from_name@ && names[1] == to_name@);
                match (nfs::nfs_name(&from_name), nfs::nfs_name(&to_name)) {
                    (Err(stat), _) => refuse_step(stat),
                    (_, Err(stat)) => refuse_step(stat),
                    (Ok(from_name), Ok(to_name)) => call_step(
                        VfsCall::Lookup { dir: to_dir, name: to_name.to_owned() },
                        NfsTask::RenameDest {
                            from_dir,
                            from_name: from_name.to_owned(),
                            to_dir,
                            to_name: to_name.to_owned(),
                        },
                    ),
                }
            },
            NfsRequest::Symlink { dir, name, target, attr } => {
                assert(names[0] == name@);
                match nfs::nfs_name(&name) {
                    Err(stat) => refuse_step(stat),
                    Ok(name) => match core::str::from_utf8(target.as_slice()) {
                        Err(_) => refuse_step(NfsStat::Inval),
                        Ok(target) => {
                            proof {
                                encode_utf8_decode_utf8(target@);
                            }
                            let owner = nfs::ownership(
                                &attr,
                                Ownership { mode: SYMLINK_MODE, uid, gid },
                            );
                            call_step(
                                VfsCall::Symlink {
                                    dir,
                                    name: name.to_owned(),
                                    target: target.to_owned(),
                                    owner,
                                },
                                NfsTask::NewEntry,
                            )
                        },
                    },
                }
            },
            NfsRequest::Readlink { id } => call_step(
                VfsCall::Readlink { ino: id },
                NfsTask::Readlink,
            ),
        }
    }

    /// Goes on when the file of a read was opened.
    fn read_opened(&mut self, id: u64, offset: u64, count: u32, reply: Result<u64, Errno>) -> (r:
        Step)
        requires
            old(self).wf(),
            old(self).handle_pool@.can_pin(id),
        ensures
            final(self).wf(),
            final(self).same_mount(*old(self)),
            (final(self).handle_pool@, r@) == spec_read_opened(
                id,
                offset,
                count,
                reply,
                old(self).handle_pool@,
            ),
    {
        let shared = self.handle_pool.acquire_shared(id);
        match reply {
            Ok(opened) => match shared {
                Some(handle) => effect_step(
                    Effect::Release { handle: opened },
                    VfsCall::Read { handle, offset, count },
                    NfsTask::ReadData { id, offset, count, handle },
                ),
                None => {
                    let effects = self.process_insert(id, opened);
                    self.handle_pool.acquire_shared(id);
                    Step {
                        effects,
                        next: Next::Call {
                            call: VfsCall::Read { handle: opened, offset, count },
                            task: NfsTask::ReadData { id, offset, count, handle: opened },
                        },
                    }
                },
            },
            Err(e) => match shared {
                Some(handle) => call_step(
                    VfsCall::Read { handle, offset, count },
                    NfsTask::ReadData { id, offset, count, handle },
                ),
                None => refuse_step(e.status()),
            },
        }
    }

    /// Goes on when the data of a read through the pooled handle are there.
    fn read_done(
        &mut self,
        id: u64,
        offset: u64,
        count: u32,
        handle: u64,
        reply: Result<(Vec<u8>, bool), Errno>,
    ) -> (r: Step)
        requires
            old(self).wf(),
        ensures
            final(self).wf(),
            final(self).same_mount(*old(self)),
            (final(self).handle_pool@, r@) == spec_read_done(
                id,
                offset,
                count,
                handle,
                reply,
                old(self).handle_pool@,
            ),
    {
        self.handle_pool.unpin(id);
        match reply {
            Err(Errno::BadF) => {
                self.drop_stale_handle(id, handle);
                call_step(
                    VfsCall::Open { ino: id, writable: false },
                    NfsTask::ReadReopen { offset, count },
                )
            },
            reply => {
                let r = Step { effects: Vec::new(), next: Next::Answer(data_reply(reply)) };
                assert(r@.effects =~= seq![]);
                r
            },
        }
    }

    /// Goes on when the data were written through the pooled handle, or not.
    fn write_tried(
        &mut self,
        id: u64,
        offset: u64,
        data: Vec<u8>,
        handle: u64,
        reply: Result<(), Errno>,
    ) -> (r: Step)
        requires
            old(self).wf(),
        ensures
            final(self).wf(),
            final(self).same_mount(*old(self)),
            (final(self).handle_pool@, r@) == spec_write_tried(
                id,
                offset,
                data@,
                handle,
                reply,
                old(self).handle_pool@,
            ),
    {
        match reply {
            Ok(()) => effect_step(
                Effect::ScheduleFlush { ino: id },
                VfsCall::Getattr { ino: id },
                NfsTask::Attr,
            ),
            Err(Errno::BadF) => {
                self.drop_stale_handle(id, handle);
                effect_step(
                    Effect::Evict { ino: id, handle },
                    VfsCall::Open { ino: id, writable: true },
                    NfsTask::WriteOpen { id, offset, data },
                )
            },
            Err(e) => refuse_step(e.status()),
        }
    }

    /// Goes on when the data were written through a handle of the request's own.
    fn written(&mut self, id: u64, handle: u64, reply: Result<(), Errno>) -> (r: Step)
        requires
            old(self).wf(),
        ensures
            final(self).wf(),
            final(self).same_mount(*old(self)),
            (final(self).handle_pool@, r@) == spec_written(
                id,
                handle,
                reply,
                old(self).handle_pool@,
            ),
    {
        match reply {
            Ok(()) => {
                let mut effects = self.insert_handle(id, handle);
                effects.push(Effect::ScheduleFlush { ino: id });
                Step {
                    effects,
                    next: Next::Call { call: VfsCall::Getattr { ino: id }, task: NfsTask::Attr },
                }
            },
            Err(e) => {
                let mut effects: Vec<Effect> = Vec::new();
                effects.push(Effect::Release { handle });
                let r = Step { effects, next: Next::Answer(Err(e.status())) };
                assert(r@.effects =~= seq![Effect::Release { handle }]);
                r
            },
        }
    }

    /// Goes on when a file was created.
    fn created(&mut self, exclusive: bool, reply: Result<(VirtualFsAttr, u64), Errno>) -> (r: Step)
        requires
            old(self).wf(),
            VfsReply::Created(reply).wf(),
        ensures
            final(self).wf(),
            final(self).same_mount(*old(self)),
            (final(self).handle_pool@, r@) == spec_created(
                exclusive,
                reply,
                old(self).handle_pool@,
            ),
    {
        match reply {
            Ok((attr, handle)) => {
                let mut effects = self.insert_handle(attr.ino, handle);
                effects.push(Effect::ScheduleFlush { ino: attr.ino });
                let answer = if exclusive {
                    NfsReply::Id(attr.ino)
                } else {
                    NfsReply::Created { id: attr.ino, attr: nfs::vfs_attr_to_nfs(&attr) }
                };
                Step { effects, next: Next::Answer(Ok(answer)) }
            },
            Err(e) => refuse_step(e.status()),
        }
    }

    /// Answers when the file `ino` is gone.
    fn gone(&mut self, ino: u64) -> (r: Step)
        requires
            old(self).wf(),
        ensures
            final(self).wf(),
            final(self).same_mount(*old(self)),
            (final(self).handle_pool@, r@) == spec_gone(ino, old(self).handle_pool@),
    {
        let mut effects: Vec<Effect> = Vec::new();
        match self.handle_pool.remove(ino) {
            Some(handle) => {
                effects.push(Effect::Evict { ino, handle });
                assert(effects@ =~= seq![Effect::Evict { ino, handle }]);
            },
            None => {
                assert(effects@ =~= seq![]);
            },
        }
        Step { effects, next: Next::Answer(Ok(NfsReply::Done)) }
    }

    /// Goes on with a request when the storage has replied.
    #[verifier::rlimit(40)]
    pub fn resume(&mut self, task: NfsTask, reply: VfsReply) -> (r: Step)
        requires
            old(self).wf(),
            reply.wf(),
            reply.replies_to(task@),
            can_resume(task@, old(self).handle_pool@),
        ensures
            final(self).wf(),
            final(self).same_mount(*old(self)),
            (final(self).handle_pool@, r@) == spec_resume(task@, reply, old(self).handle_pool@),
    {
        match (task, reply) {
            (NfsTask::Lookup, VfsReply::Attr(r)) => match r {
                Ok(attr) => answer_step(NfsReply::Id(attr.ino)),
                Err(e) => refuse_step(e.status()),
            },
            (NfsTask::Attr, VfsReply::Attr(r)) => match r {
                Ok(attr) => answer_step(NfsReply::Attr(nfs::vfs_attr_to_nfs(&attr))),
                Err(e) => refuse_step(e.status()),
            },
            (NfsTask::NewEntry, VfsReply::Attr(r)) => match r {
                Ok(attr) => answer_step(
                    NfsReply::Created { id: attr.ino, attr: nfs::vfs_attr_to_nfs(&attr) },
                ),
                Err(e) => refuse_step(e.status()),
            },
            (NfsTask::ReadOpen { id, offset, count }, VfsReply::Handle(r)) => self.read_opened(
                id,
                offset,
                count,
                r,
            ),
            (NfsTask::ReadData { id, offset, count, handle }, VfsReply::Data(r)) => self.read_done(
                id,
                offset,
                count,
                handle,
                r,
            ),
            (NfsTask::ReadReopen { offset, count }, VfsReply::Handle(r)) => match r {
                Ok(handle) => call_step(
                    VfsCall::Read { handle, offset, count },
                    NfsTask::ReadAgain { handle },
                ),
                Err(e) => refuse_step(e.status()),
            },
            (NfsTask::ReadAgain { handle }, VfsReply::Data(r)) => {
                let mut effects: Vec<Effect> = Vec::new();
                effects.push(Effect::Release { handle });
                let r = Step { effects, next: Next::Answer(data_reply(r)) };
                assert(r@.effects =~= seq![Effect::Release { handle }]);
                r
            },
            (NfsTask::ReaddirList { start_after, max_entries }, VfsReply::Entries(r)) => listed(
                start_after,
                max_entries,
                r,
            ),
            (NfsTask::ReaddirAttrs { entries, end }, VfsReply::Attrs(attrs)) => {
                let entries = client_entries(&entries, &attrs);
                answer_step(NfsReply::Entries { entries, end })
            },
            (
                NfsTask::WriteFast { id, offset, data, handle },
                VfsReply::Done(r),
            ) => self.write_tried(id, offset, data, handle, r),
            (NfsTask::WriteOpen { id, offset, data }, VfsReply::Handle(r)) => match r {
                Ok(handle) => call_step(
                    VfsCall::Write { ino: id, handle, offset, data },
                    NfsTask::WriteSlow { id, offset, handle },
                ),
                Err(e) => refuse_step(e.status()),
            },
            (NfsTask::WriteSlow { id, offset: _, handle }, VfsReply::Done(r)) => self.written(
                id,
                handle,
                r,
            ),
            (NfsTask::Create { exclusive }, VfsReply::Created(r)) => self.created(exclusive, r),
            (NfsTask::RemoveLookup { dir, name }, VfsReply::Attr(r)) => match r {
                Ok(attr) => {
                    let call = if attr.kind == InodeKind::Directory {
                        VfsCall::Rmdir { dir, name }
                    } else {
                        VfsCall::Unlink { dir, name }
                    };
                    call_step(call, NfsTask::Remove { ino: attr.ino })
                },
                Err(e) => refuse_step(e.status()),
            },
            (NfsTask::Remove { ino }, VfsReply::Done(r)) => match r {
                Ok(()) => self.gone(ino),
                Err(e) => refuse_step(e.status()),
            },
            (
                NfsTask::RenameDest { from_dir, from_name, to_dir, to_name },
                VfsReply::Attr(r),
            ) => match r {
                Ok(attr) => {
                    let name = from_name.clone();
                    call_step(
                        VfsCall::Lookup { dir: from_dir, name },
                        NfsTask::RenameSource {
                            from_dir,
                            from_name,
                            to_dir,
                            to_name,
                            dest: attr.ino,
                        },
                    )
                },
                Err(_) => call_step(
                    VfsCall::Rename { from_dir, from_name, to_dir, to_name },
                    NfsTask::Rename { replaced: None },
                ),
            },
            (
                NfsTask::RenameSource { from_dir, from_name, to_dir, to_name, dest },
                VfsReply::Attr(r),
            ) => {
                let same: bool = match r {
                    Ok(attr) => attr.ino == dest,
                    Err(_) => false,
                };
                let replaced = if same {
                    None
                } else {
                    Some(dest)
                };
                call_step(
                    VfsCall::Rename { from_dir, from_name, to_dir, to_name },
                    NfsTask::Rename { replaced },
                )
            },
            (NfsTask::Rename { replaced }, VfsReply::Done(r)) => match (r, replaced) {
                (Ok(()), Some(ino)) => self.gone(ino),
                (Ok(()), None) => answer_step(NfsReply::Done),
                (Err(e), _) => refuse_step(e.status()),
            },
            (NfsTask::Readlink, VfsReply::Target(r)) => match r {
                Ok(target) => answer_step(NfsReply::Path(target.as_str().as_bytes_vec())),
                Err(e) => refuse_step(e.status()),
            },
            _ => refuse_step(NfsStat::Io),
        }
    }
}

// ── Laws ────────────────────────────────────────────────────────────────

/// The request is refused as invalid, nothing is called and the pool stays,
/// wherever one of its names could not stand for an entry of a directory.
pub proof fn law_bad_names_are_refused(
    request: NfsRequest,
    uid: u32,
    gid: u32,
    pool: handle_pool::PoolState,
    i: int,
)
    requires
        0 <= i < request_names(request).len(),
        !nfs::is_nfs_name(request_names(request)[i]),
    ensures
        spec_begin(request, uid, gid, pool) == (pool, refuses(NfsStat::Inval)),
{
}

/// Whatever the storage replies, the pool stays valid.
pub proof fn law_steps_keep_the_pool_valid(
    request: NfsRequest,
    uid: u32,
    gid: u32,
    task: NfsTaskView,
    reply: VfsReply,
    pool: handle_pool::PoolState,
)
    requires
        pool.wf(),
    ensures
        spec_begin(request, uid, gid, pool).0.wf(),
        spec_resume(task, reply, pool).0.wf(),
{
    assert forall|ino: u64| #[trigger] pool.acquire(ino).wf() by {
        lemma_acquire_wf(pool, ino);
    }
    assert forall|ino: u64| #[trigger] pool.remove(ino).wf() by {
        handle_pool::lemma_remove_wf(pool, ino);
    }
    assert forall|ino: u64, handle: u64| #[trigger] pool.insert(ino, handle).wf() by {
        handle_pool::lemma_insert_wf(pool, ino, handle);
    }
    assert forall|ino: u64, handle: u64| #[trigger]
        pool.insert(ino, handle).acquire(ino).wf() by {
        lemma_acquire_wf(pool.insert(ino, handle), ino);
    }
    assert forall|ino: u64, handle: u64| #[trigger] drop_stale(pool.unpin(ino), ino, handle).wf() by {
        handle_pool::lemma_remove_wf(pool.unpin(ino), ino);
    }
}

/// A use keeps the pool valid.
proof fn lemma_acquire_wf(p: handle_pool::PoolState, ino: u64)
    requires
        p.wf(),
    ensures
        p.acquire(ino).wf(),
{
    if p.entries.contains_key(ino) {
        let w = handle_pool::without(p.order, ino);
        let q = p.acquire(ino);
        handle_pool::lemma_without(p.order, ino);
        assert forall|k: u64| #[trigger] q.order.contains(k) <==> q.entries.contains_key(k) by {
            if q.order.contains(k) {
                let i = q.order.index_of(k);
                if i < w.len() {
                    assert(w[i] == k);
                    assert(w.contains(k));
                }
            }
            if q.entries.contains_key(k) {
                if k == ino {
                    assert(q.order[w.len() as int] == k);
                } else {
                    assert(p.order.contains(k));
                    assert(w.contains(k));
                    let i = w.index_of(k);
                    assert(q.order[i] == k);
                }
            }
        }
        assert(!w.contains(ino));
    }
}

/// A step that sends a read to the pooled handle counts one more use of the
/// file, through the handle that the pool has for it: so the handle cannot be
/// pushed out while the read is under way.
pub proof fn law_reads_hold_their_handle(
    request: NfsRequest,
    uid: u32,
    gid: u32,
    task: NfsTaskView,
    reply: VfsReply,
    pool: handle_pool::PoolState,
    id: u64,
    offset: u64,
    count: u32,
    handle: u64,
    step: (handle_pool::PoolState, StepView),
)
    requires
        pool.wf(),
        can_begin(request, pool),
        can_resume(task, pool),
        step == spec_begin(request, uid, gid, pool) || step == spec_resume(task, reply, pool),
        step.1.next matches NextView::Call { task: next, .. } && next
            == (NfsTaskView::ReadData { id, offset, count, handle }),
    ensures
        step.0.handle(id) == Some(handle),
        step.0.pins(id) == pool.pins(id) + 1,
        step.1.next->call == (VfsCallView::Read { handle, offset, count }),
{
    if step == spec_resume(task, reply, pool) {
        if let (NfsTaskView::ReadOpen { id: opening, .. }, VfsReply::Handle(Ok(opened))) = (
            task,
            reply,
        ) {
            handle_pool::lemma_insert_wf(pool, opening, opened);
        }
    }
}

/// When its data are there a read gives back the one use that it counted, and
/// no other file's.
pub proof fn law_reads_give_back_their_use(
    id: u64,
    offset: u64,
    count: u32,
    handle: u64,
    reply: Result<(Vec<u8>, bool), Errno>,
    pool: handle_pool::PoolState,
    other: u64,
)
    requires
        pool.wf(),
        pool.pins(id) > 0,
        other != id,
    ensures
        ({
            let after = spec_read_done(id, offset, count, handle, reply, pool).0;
            &&& after.entries.contains_key(id) ==> after.pins(id) == pool.pins(id) - 1
            &&& !after.entries.contains_key(id) ==> reply == Err::<(Vec<u8>, bool), Errno>(
                Errno::BadF,
            ) && pool.handle(id) == Some(handle)
            &&& after.pins(other) == pool.pins(other)
            &&& after.handle(other) == pool.handle(other)
        }),
{
}

/// A write that meets a handle which is open for reading only is never answered
/// with that: the handle leaves the pool, is committed and released, and a
/// writable one is opened.
pub proof fn law_writes_upgrade_the_handle(
    id: u64,
    offset: u64,
    data: Seq<u8>,
    handle: u64,
    pool: handle_pool::PoolState,
)
    requires
        pool.wf(),
    ensures
        ({
            let (after, step) = spec_resume(
                NfsTaskView::WriteFast { id, offset, data, handle },
                VfsReply::Done(Err(Errno::BadF)),
                pool,
            );
            &&& step.effects == seq![Effect::Evict { ino: id, handle }]
            &&& step.next == (NextView::Call {
                call: VfsCallView::Open { ino: id, writable: true },
                task: NfsTaskView::WriteOpen { id, offset, data },
            })
            &&& after.handle(id) != Some(handle)
        }),
{
}

/// A write through a pooled handle that takes it leaves the handle in place, so
/// the next write uses the same one.
pub proof fn law_writes_reuse_the_handle(
    id: u64,
    offset: u64,
    data: Seq<u8>,
    handle: u64,
    pool: handle_pool::PoolState,
    uid: u32,
    gid: u32,
    next_offset: u64,
    next_data: Vec<u8>,
)
    requires
        pool.handle(id) == Some(handle),
    ensures
        ({
            let after = spec_resume(
                NfsTaskView::WriteFast { id, offset, data, handle },
                VfsReply::Done(Ok(())),
                pool,
            ).0;
            spec_begin(
                NfsRequest::Write { id, offset: next_offset, data: next_data },
                uid,
                gid,
                after,
            ).1 == calls(
                VfsCallView::Write { ino: id, handle, offset: next_offset, data: next_data@ },
                NfsTaskView::WriteFast { id, offset: next_offset, data: next_data@, handle },
            )
        }),
{
}

/// The request `task` is to write `data` at `offset` of the file `id`.
pub open spec fn is_to_write(task: NfsTaskView, id: u64, offset: u64, data: Seq<u8>) -> bool {
    ||| task matches NfsTaskView::WriteFast { id: i, offset: o, data: d, .. } && i == id && o
        == offset && d == data
    ||| task matches NfsTaskView::WriteOpen { id: i, offset: o, data: d } && i == id && o == offset
        && d == data
}

/// Where the step has the storage write, it writes `data` at `offset` of the
/// file `id`; and where it opens the file first, that is still to come.
pub open spec fn writes_only(step: StepView, id: u64, offset: u64, data: Seq<u8>) -> bool {
    step.next matches NextView::Call { call, task } ==> {
        &&& call matches VfsCallView::Write { ino, offset: o, data: d, .. } ==> ino == id && o
            == offset && d == data
        &&& call is Open ==> is_to_write(task, id, offset, data)
    }
}

/// What a write hands to the storage is what the client sent, where the client
/// wants it, with the first try and with the second.
pub proof fn law_writes_write_what_was_sent(
    id: u64,
    offset: u64,
    data: Vec<u8>,
    uid: u32,
    gid: u32,
    task: NfsTaskView,
    reply: VfsReply,
    pool: handle_pool::PoolState,
)
    ensures
        ({
            let step = spec_begin(NfsRequest::Write { id, offset, data }, uid, gid, pool).1;
            &&& step.next is Call
            &&& step.next->call is Write || step.next->call is Open
            &&& is_to_write(step.next->task, id, offset, data@)
            &&& writes_only(step, id, offset, data@)
        }),
        is_to_write(task, id, offset, data@) ==> writes_only(
            spec_resume(task, reply, pool).1,
            id,
            offset,
            data@,
        ),
        forall|handle: u64|
            is_to_write(task, id, offset, data@) && task is WriteOpen ==> (
            #[trigger] spec_resume(task, VfsReply::Handle(Ok(handle)), pool)).1.next->call == (
            VfsCallView::Write { ino: id, handle, offset, data: data@ }),
{
}

/// The handle that a request owns while its call is under way.
pub open spec fn owned_handle(task: NfsTaskView) -> Option<u64> {
    match task {
        NfsTaskView::ReadAgain { handle } => Some(handle),
        NfsTaskView::WriteSlow { handle, .. } => Some(handle),
        _ => None,
    }
}

/// The handle that the storage opened in its reply.
pub open spec fn opened_handle(reply: VfsReply) -> Option<u64> {
    match reply {
        VfsReply::Handle(Ok(handle)) => Some(handle),
        VfsReply::Created(Ok((_, handle))) => Some(handle),
        _ => None,
    }
}

/// Some file has the handle in the pool.
pub open spec fn is_pooled(pool: handle_pool::PoolState, handle: u64) -> bool {
    exists|ino: u64| pool.handle(ino) == Some(handle)
}

/// The handle is accounted for: pooled, released by the step, or owned by the
/// request as it goes on.
pub open spec fn is_kept(pool: handle_pool::PoolState, step: StepView, handle: u64) -> bool {
    ||| is_pooled(pool, handle)
    ||| step.effects.contains(Effect::Release { handle })
    ||| (step.next matches NextView::Call { task, .. } && owned_handle(task) == Some(handle))
}

/// No handle leaks: one that the storage opened for a request, or that the
/// request owned, is pooled, released or still owned after the step.
pub proof fn law_opened_handles_are_kept(
    task: NfsTaskView,
    reply: VfsReply,
    pool: handle_pool::PoolState,
    handle: u64,
)
    requires
        pool.wf(),
        reply.replies_to(task),
        opened_handle(reply) == Some(handle) || owned_handle(task) == Some(handle),
    ensures
        ({
            let (after, step) = spec_resume(task, reply, pool);
            is_kept(after, step, handle)
        }),
{
    let (after, step) = spec_resume(task, reply, pool);
    match task {
        NfsTaskView::ReadOpen { id, .. } => {
            if pool.handle(id) is Some {
                assert(step.effects[0] == (Effect::Release { handle }));
            } else {
                handle_pool::law_insert_then_lookup(pool, id, handle);
                assert(after.handle(id) == Some(handle));
            }
        },
        NfsTaskView::WriteSlow { id, .. } => {
            if reply matches VfsReply::Done(Ok(())) {
                handle_pool::law_insert_then_lookup(pool, id, handle);
                assert(after.handle(id) == Some(handle));
            } else {
                assert(step.effects[0] == (Effect::Release { handle }));
            }
        },
        NfsTaskView::ReadAgain { .. } => {
            assert(step.effects[0] == (Effect::Release { handle }));
        },
        NfsTaskView::Create { .. } => {
            if let VfsReply::Created(Ok((attr, _))) = reply {
                handle_pool::law_insert_then_lookup(pool, attr.ino, handle);
                assert(after.handle(attr.ino) == Some(handle));
            }
        },
        _ => {},
    }
}

/// The step commits and releases the handle, or releases it.
pub open spec fn is_released(step: StepView, ino: u64, handle: u64) -> bool {
    ||| step.effects.contains(Effect::Evict { ino, handle })
    ||| step.effects.contains(Effect::Release { handle })
}

/// What leaves the pool is not lost either: a handle that was pooled before the
/// step is pooled after it, or the step releases it, or the storage has said
/// that it does not know the handle.
pub proof fn law_pooled_handles_are_released(
    task: NfsTaskView,
    reply: VfsReply,
    pool: handle_pool::PoolState,
    ino: u64,
    handle: u64,
)
    requires
        pool.wf(),
        pool.handle(ino) == Some(handle),
    ensures
        ({
            let (after, step) = spec_resume(task, reply, pool);
            ||| after.handle(ino) == Some(handle)
            ||| is_released(step, ino, handle)
            ||| (task matches NfsTaskView::ReadData { id, handle: stale, .. } && id == ino && stale
                == handle && reply == VfsReply::Data(Err(Errno::BadF)))
        }),
{
    let (after, step) = spec_resume(task, reply, pool);
    match (task, reply) {
        (NfsTaskView::ReadOpen { id, .. }, VfsReply::Handle(Ok(opened))) => {
            if pool.handle(id) is None {
                lemma_insert_releases(pool, id, opened, ino, handle);
                let evicted = evict_each(pool.insert_evicts(id));
                if evicted.contains(Effect::Evict { ino, handle }) {
                    assert(step.effects == evicted);
                }
            }
        },
        (NfsTaskView::WriteSlow { id, handle: own, .. }, VfsReply::Done(Ok(()))) => {
            if ino != id {
                lemma_insert_releases(pool, id, own, ino, handle);
            }
            lemma_writing_effects(pool, id, ino, handle, step.effects);
        },
        (NfsTaskView::Create { .. }, VfsReply::Created(Ok((attr, own)))) => {
            if ino != attr.ino {
                lemma_insert_releases(pool, attr.ino, own, ino, handle);
            }
            lemma_writing_effects(pool, attr.ino, ino, handle, step.effects);
        },
        (NfsTaskView::WriteFast { id, handle: own, .. }, VfsReply::Done(Err(Errno::BadF))) => {
            assert(step.effects[0] == (Effect::Evict { ino: id, handle: own }));
        },
        (NfsTaskView::Remove { ino: gone }, VfsReply::Done(Ok(()))) => {
            if gone == ino {
                assert(step.effects[0] == (Effect::Evict { ino, handle }));
            }
        },
        (NfsTaskView::Rename { replaced: Some(gone) }, VfsReply::Done(Ok(()))) => {
            if gone == ino {
                assert(step.effects[0] == (Effect::Evict { ino, handle }));
            }
        },
        _ => {},
    }
}

/// A handle of another file that an insertion pushes out is among the evicted.
proof fn lemma_insert_releases(
    pool: handle_pool::PoolState,
    id: u64,
    new_handle: u64,
    ino: u64,
    handle: u64,
)
    requires
        pool.wf(),
        pool.handle(ino) == Some(handle),
        ino != id,
    ensures
        pool.insert(id, new_handle).handle(ino) == Some(handle) || evict_each(
            pool.insert_evicts(id),
        ).contains(Effect::Evict { ino, handle }),
{
    handle_pool::law_insert_hands_back_each_handle(pool, id, new_handle, ino);
    if pool.insert_evicts(id).contains((ino, handle)) {
        let i = pool.insert_evicts(id).index_of((ino, handle));
        assert(evict_each(pool.insert_evicts(id))[i] == (Effect::Evict { ino, handle }));
    }
}

/// The effects of pooling a writable handle hold those of what it pushes out.
proof fn lemma_writing_effects(
    pool: handle_pool::PoolState,
    id: u64,
    ino: u64,
    handle: u64,
    effects: Seq<Effect>,
)
    requires
        pool.handle(ino) == Some(handle),
        effects == pooled_for_writing(pool, id).push(Effect::ScheduleFlush { ino: id }),
    ensures
        ino == id ==> effects.contains(Effect::Evict { ino, handle }),
        evict_each(pool.insert_evicts(id)).contains(Effect::Evict { ino, handle })
            ==> effects.contains(Effect::Evict { ino, handle }),
{
    let evicted = evict_each(pool.insert_evicts(id));
    let effect = Effect::Evict { ino, handle };
    if ino == id {
        assert(effects[evicted.len() as int] == effect);
    }
    if evicted.contains(effect) {
        let i = evicted.index_of(effect);
        assert(effects[i] == effect);
    }
}

/// A page that does not reach the end of the directory is full, and the next
/// one, which starts after the last entry of this, begins where it stopped. So
/// a client that goes on page by page gets every entry once, in order.
pub proof fn law_pages_follow_each_other(
    entries: Seq<VfsDirEntryView>,
    start_after: u64,
    max_entries: nat,
)
    requires
        max_entries > 0,
        forall|i: int| 0 <= i < entries.len() ==> (#[trigger] entries[i]).ino > 0,
        forall|i: int, j: int|
            0 <= i < j < entries.len() ==> (#[trigger] entries[i]).ino != (#[trigger] entries[j]).ino,
    ensures
        0 <= page_start(entries, start_after) <= entries.len(),
        page_end(entries, start_after, max_entries) < entries.len() ==> {
            let chosen = page(entries, start_after, max_entries);
            &&& chosen.len() == max_entries
            &&& page_start(entries, chosen.last().ino) == page_end(
                entries,
                start_after,
                max_entries,
            )
        },
{
    let start = page_start(entries, start_after);
    if start_after > 0 && (exists|i: int| is_first(entries, start_after, i)) {
        let k = choose|i: int| is_first(entries, start_after, i);
        assert(is_first(entries, start_after, k));
    }
    let end = page_end(entries, start_after, max_entries);
    if end < entries.len() {
        let chosen = page(entries, start_after, max_entries);
        let last = chosen.last();
        assert(last == entries[end - 1]);
        assert(is_first(entries, last.ino, end - 1));
        let k = choose|i: int| is_first(entries, last.ino, i);
        assert(is_first(entries, last.ino, k));
        assert(k == end - 1);
    }
}

} // verus!
