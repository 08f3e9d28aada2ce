use hf_mount::nfs::{
    Errno, FileTime, InodeKind, NfsAttr, NfsFileType, NfsStat, NfsTime, SetAttr, SetTime,
    VirtualFsAttr,
};
use hf_mount::nfs_ops::{
    Effect, NFSAdapter, Next, NfsReply, NfsRequest, VfsCall, VfsCapabilities, VfsDirEntry,
    VfsReply,
};
use hf_mount::setup::NfsSecurity;

fn test_nfs_security() -> NfsSecurity {
    NfsSecurity {
        owner_uid: 1000,
        allow_unsafe_loopback: false,
        export_name: "hf-mount-test".to_string(),
        filehandle_secret: [7; 16],
    }
}

/// A storage with files in one directory. Handles know whether they are open
/// for writing.
struct Store {
    files: Vec<(u64, String, Vec<u8>)>,
    handles: Vec<(u64, u64, bool)>,
    next_handle: u64,
    next_ino: u64,
    released: Vec<u64>,
    flushed: Vec<u64>,
}

impl Store {
    fn new() -> Store {
        Store {
            files: Vec::new(),
            handles: Vec::new(),
            next_handle: 500,
            next_ino: 2,
            released: Vec::new(),
            flushed: Vec::new(),
        }
    }

    fn add_file(&mut self, name: &str, data: &[u8]) -> u64 {
        let ino = self.next_ino;
        self.next_ino += 1;
        self.files.push((ino, name.to_string(), data.to_vec()));
        ino
    }

    fn attr(&self, ino: u64) -> Result<VirtualFsAttr, Errno> {
        let time = FileTime::SinceEpoch { secs: 1, nanos: 0 };
        let size = if ino == 1 {
            0
        } else {
            match self.files.iter().find(|f| f.0 == ino) {
                Some(file) => file.2.len() as u64,
                None => return Err(Errno::NoEnt),
            }
        };
        Ok(VirtualFsAttr {
            ino,
            kind: if ino == 1 { InodeKind::Directory } else { InodeKind::File },
            perm: 0o644,
            nlink: 1,
            uid: 1000,
            gid: 1000,
            size,
            blocks: 1,
            atime: time,
            mtime: time,
            ctime: time,
        })
    }

    fn open(&mut self, ino: u64, writable: bool) -> u64 {
        let handle = self.next_handle;
        self.next_handle += 1;
        self.handles.push((handle, ino, writable));
        handle
    }

    fn release(&mut self, handle: u64) {
        self.released.push(handle);
        self.handles.retain(|h| h.0 != handle);
    }

    fn run(&mut self, call: &VfsCall) -> VfsReply {
        match call {
            VfsCall::Lookup { name, .. } => VfsReply::Attr(
                match self.files.iter().find(|f| f.1 == *name).map(|f| f.0) {
                    Some(ino) => self.attr(ino),
                    None => Err(Errno::NoEnt),
                },
            ),
            VfsCall::Getattr { ino } => VfsReply::Attr(self.attr(*ino)),
            VfsCall::GetattrEach { inos } => {
                VfsReply::Attrs(inos.iter().map(|ino| self.attr(*ino)).collect())
            }
            VfsCall::Setattr { ino, .. } => VfsReply::Attr(self.attr(*ino)),
            VfsCall::Open { ino, writable } => VfsReply::Handle(match self.attr(*ino) {
                Ok(_) => Ok(self.open(*ino, *writable)),
                Err(e) => Err(e),
            }),
            VfsCall::Read { handle, offset, count } => {
                let Some(h) = self.handles.iter().find(|h| h.0 == *handle) else {
                    return VfsReply::Data(Err(Errno::BadF));
                };
                let file = self.files.iter().find(|f| f.0 == h.1).unwrap();
                let from = (*offset as usize).min(file.2.len());
                let to = (from + *count as usize).min(file.2.len());
                VfsReply::Data(Ok((file.2[from..to].to_vec(), to == file.2.len())))
            }
            VfsCall::Write { handle, offset, data, .. } => {
                let Some(h) = self.handles.iter().find(|h| h.0 == *handle && h.2) else {
                    return VfsReply::Done(Err(Errno::BadF));
                };
                let ino = h.1;
                let file = self.files.iter_mut().find(|f| f.0 == ino).unwrap();
                let end = *offset as usize + data.len();
                if file.2.len() < end {
                    file.2.resize(end, 0);
                }
                file.2[*offset as usize..end].copy_from_slice(data);
                VfsReply::Done(Ok(()))
            }
            VfsCall::Create { name, .. } => {
                let ino = self.add_file(name, b"");
                let handle = self.open(ino, true);
                VfsReply::Created(self.attr(ino).map(|attr| (attr, handle)))
            }
            VfsCall::Unlink { name, .. } => {
                self.files.retain(|f| f.1 != *name);
                VfsReply::Done(Ok(()))
            }
            VfsCall::Rename { from_name, to_name, .. } => {
                self.files.retain(|f| f.1 != *to_name);
                match self.files.iter_mut().find(|f| f.1 == *from_name) {
                    Some(file) => {
                        file.1 = to_name.clone();
                        VfsReply::Done(Ok(()))
                    }
                    None => VfsReply::Done(Err(Errno::NoEnt)),
                }
            }
            VfsCall::Readdir { .. } => VfsReply::Entries(Ok(self
                .files
                .iter()
                .map(|f| VfsDirEntry { ino: f.0, name: f.1.clone() })
                .collect())),
            VfsCall::Readlink { .. } => VfsReply::Target(Ok("target".to_string())),
            VfsCall::Mkdir { .. } | VfsCall::Symlink { .. } => VfsReply::Attr(Err(Errno::NoSpc)),
            VfsCall::Rmdir { .. } => VfsReply::Done(Err(Errno::NotEmpty)),
        }
    }

    fn apply(&mut self, effects: &Vec<Effect>) {
        for effect in effects {
            match effect {
                Effect::Evict { handle, .. } => self.release(*handle),
                Effect::Release { handle } => self.release(*handle),
                Effect::ScheduleFlush { ino } => self.flushed.push(*ino),
            }
        }
    }

    /// Serves a request to the end.
    fn serve(
        &mut self,
        adapter: &mut NFSAdapter,
        request: NfsRequest,
    ) -> Result<NfsReply, NfsStat> {
        assert!(adapter.is_ready_to_begin(&request));
        let mut step = adapter.begin(request);
        loop {
            self.apply(&step.effects);
            match step.next {
                Next::Answer(answer) => return answer,
                Next::Call { call, task } => {
                    let reply = self.run(&call);
                    assert!(adapter.is_ready_to_resume(&task, &reply));
                    step = adapter.resume(task, reply);
                }
            }
        }
    }
}

fn adapter() -> NFSAdapter {
    NFSAdapter::new(1000, 1000, false, test_nfs_security())
}

fn lookup(store: &mut Store, adapter: &mut NFSAdapter, name: &str) -> u64 {
    let request = NfsRequest::Lookup { dir: 1, name: name.as_bytes().to_vec() };
    match store.serve(adapter, request) {
        Ok(NfsReply::Id(id)) => id,
        other => panic!("lookup: {other:?}"),
    }
}

fn read(store: &mut Store, adapter: &mut NFSAdapter, id: u64, offset: u64, count: u32) -> Vec<u8> {
    match store.serve(adapter, NfsRequest::Read { id, offset, count }) {
        Ok(NfsReply::Data { bytes, .. }) => bytes,
        other => panic!("read: {other:?}"),
    }
}

fn write(store: &mut Store, adapter: &mut NFSAdapter, id: u64, offset: u64, data: &[u8]) -> NfsAttr {
    match store.serve(adapter, NfsRequest::Write { id, offset, data: data.to_vec() }) {
        Ok(NfsReply::Attr(attr)) => attr,
        other => panic!("write must not return STALE: {other:?}"),
    }
}

/// A write that comes after a read has pooled a handle for reading must not be
/// answered as stale: the handle makes way for a writable one.
#[test]
fn write_after_read_upgrades_handle_instead_of_returning_stale() {
    let mut store = Store::new();
    store.add_file("file.txt", b"hello world");
    let mut adapter = adapter();

    let ino = lookup(&mut store, &mut adapter, "file.txt");

    // A read pools a handle for reading.
    assert_eq!(read(&mut store, &mut adapter, ino, 0, 11), b"hello world");
    let pooled_fh_after_read = adapter.handle_pool.peek(ino).expect("pool entry");

    let attr = write(&mut store, &mut adapter, ino, 6, b"RUST!");
    assert_eq!(attr.size, 11, "file size should be unchanged (in-place edit)");

    let pooled_fh_after_write = adapter.handle_pool.peek(ino).expect("pool entry");
    assert_ne!(
        pooled_fh_after_read, pooled_fh_after_write,
        "pool handle must be different after the upgrade"
    );
    assert_eq!(store.released, vec![pooled_fh_after_read]);
    assert_eq!(read(&mut store, &mut adapter, ino, 0, 11), b"hello RUST!");
}

/// A second write reuses the writable handle.
#[test]
fn second_write_reuses_writable_handle() {
    let mut store = Store::new();
    store.add_file("file.txt", b"hello world");
    let mut adapter = adapter();

    let ino = lookup(&mut store, &mut adapter, "file.txt");
    assert_eq!(read(&mut store, &mut adapter, ino, 0, 11).len(), 11);
    write(&mut store, &mut adapter, ino, 0, b"A");
    let fh_after_first_write = adapter.handle_pool.peek(ino).expect("pool entry");

    write(&mut store, &mut adapter, ino, 1, b"B");
    let fh_after_second_write = adapter.handle_pool.peek(ino).expect("pool entry");

    assert_eq!(
        fh_after_first_write, fh_after_second_write,
        "fast path must reuse the writable handle"
    );
    assert_eq!(store.flushed, vec![ino, ino]);
}

/// A write to a file that was never opened opens it for writing at once.
#[test]
fn write_without_prior_read_opens_writable_directly() {
    let mut store = Store::new();
    store.add_file("file.txt", b"hello world");
    let mut adapter = adapter();

    let ino = lookup(&mut store, &mut adapter, "file.txt");
    assert!(adapter.handle_pool.peek(ino).is_none());
    write(&mut store, &mut adapter, ino, 0, b"X");
    assert!(
        adapter.handle_pool.peek(ino).is_some(),
        "slow path must have inserted a writable handle"
    );
    assert!(store.released.is_empty());
}

/// The storage gets what the client sent, also with the second try.
#[test]
fn writes_carry_what_the_client_sent() {
    let mut adapter = adapter();
    adapter.handle_pool.insert(7, 70);
    let write = NfsRequest::Write { id: 7, offset: 3, data: b"abc".to_vec() };
    let Next::Call { call, task } = adapter.begin(write).next else {
        panic!("no call");
    };
    assert_eq!(call, VfsCall::Write { ino: 7, handle: 70, offset: 3, data: b"abc".to_vec() });
    let refused = VfsReply::Done(Err(Errno::BadF));
    let Next::Call { call, task } = adapter.resume(task, refused).next else {
        panic!("no call");
    };
    assert_eq!(call, VfsCall::Open { ino: 7, writable: true });
    let Next::Call { call, .. } = adapter.resume(task, VfsReply::Handle(Ok(71))).next else {
        panic!("no call");
    };
    assert_eq!(call, VfsCall::Write { ino: 7, handle: 71, offset: 3, data: b"abc".to_vec() });
}

#[test]
fn reads_share_a_pooled_handle() {
    let mut store = Store::new();
    let ino = store.add_file("a", b"0123456789");
    let mut adapter = adapter();
    assert_eq!(read(&mut store, &mut adapter, ino, 2, 3), b"234");
    let handle = adapter.handle_pool.peek(ino);
    assert_eq!(read(&mut store, &mut adapter, ino, 8, 30), b"89");
    assert_eq!(adapter.handle_pool.peek(ino), handle);
    assert_eq!(adapter.handle_pool.pin_count(ino), 0);
    assert_eq!(store.next_handle, 501);
}

#[test]
fn a_stale_handle_is_replaced_by_one_of_the_read_s_own() {
    let mut store = Store::new();
    let ino = store.add_file("a", b"0123456789");
    let mut adapter = adapter();
    read(&mut store, &mut adapter, ino, 0, 1);
    // The storage forgets all handles.
    store.handles.clear();
    assert_eq!(read(&mut store, &mut adapter, ino, 4, 2), b"45");
    assert!(adapter.handle_pool.peek(ino).is_none());
    assert_eq!(store.released, vec![501]);
}

#[test]
fn bad_names_are_refused_before_the_storage_is_asked() {
    let mut store = Store::new();
    let mut adapter = adapter();
    for name in [b"".to_vec(), b"..".to_vec(), b"a/b".to_vec(), vec![0xff]] {
        let request = NfsRequest::Mkdir { dir: 1, name: name.clone() };
        assert_eq!(store.serve(&mut adapter, request), Err(NfsStat::Inval));
        let request = NfsRequest::Rename {
            from_dir: 1,
            from_name: b"fine".to_vec(),
            to_dir: 1,
            to_name: name,
        };
        assert_eq!(store.serve(&mut adapter, request), Err(NfsStat::Inval));
    }
}

fn unchanged() -> SetAttr {
    SetAttr {
        mode: None,
        uid: None,
        gid: None,
        size: None,
        atime: SetTime::DontChange,
        mtime: SetTime::DontChange,
    }
}

#[test]
fn created_files_can_be_written_at_once() {
    let mut store = Store::new();
    let mut adapter = adapter();
    let request = NfsRequest::Create { dir: 1, name: b"new".to_vec(), attr: unchanged() };
    let id = match store.serve(&mut adapter, request) {
        Ok(NfsReply::Created { id, attr }) => {
            assert_eq!(attr.fileid, id);
            assert_eq!(attr.ftype, NfsFileType::Regular);
            id
        }
        other => panic!("create: {other:?}"),
    };
    let handle = adapter.handle_pool.peek(id);
    assert!(handle.is_some());
    assert_eq!(write(&mut store, &mut adapter, id, 0, b"data").size, 4);
    assert_eq!(adapter.handle_pool.peek(id), handle);

    let request = NfsRequest::CreateExclusive { dir: 1, name: b"other".to_vec() };
    assert_eq!(store.serve(&mut adapter, request), Ok(NfsReply::Id(id + 1)));
}

#[test]
fn removed_files_lose_their_handle() {
    let mut store = Store::new();
    let ino = store.add_file("a", b"x");
    let mut adapter = adapter();
    read(&mut store, &mut adapter, ino, 0, 1);
    let handle = adapter.handle_pool.peek(ino).unwrap();
    let request = NfsRequest::Remove { dir: 1, name: b"a".to_vec() };
    assert_eq!(store.serve(&mut adapter, request), Ok(NfsReply::Done));
    assert!(adapter.handle_pool.peek(ino).is_none());
    assert_eq!(store.released, vec![handle]);
    let request = NfsRequest::Remove { dir: 1, name: b"a".to_vec() };
    assert_eq!(store.serve(&mut adapter, request), Err(NfsStat::NoEnt));
}

#[test]
fn a_replaced_file_loses_its_handle() {
    let mut store = Store::new();
    let a = store.add_file("a", b"x");
    let b = store.add_file("b", b"y");
    let mut adapter = adapter();
    read(&mut store, &mut adapter, a, 0, 1);
    read(&mut store, &mut adapter, b, 0, 1);
    let request = NfsRequest::Rename {
        from_dir: 1,
        from_name: b"a".to_vec(),
        to_dir: 1,
        to_name: b"b".to_vec(),
    };
    assert_eq!(store.serve(&mut adapter, request), Ok(NfsReply::Done));
    assert!(adapter.handle_pool.peek(b).is_none());
    assert!(adapter.handle_pool.peek(a).is_some());
}

#[test]
fn a_rename_onto_itself_keeps_the_handle() {
    let mut store = Store::new();
    let a = store.add_file("a", b"x");
    let mut adapter = adapter();
    read(&mut store, &mut adapter, a, 0, 1);
    let request = NfsRequest::Rename {
        from_dir: 1,
        from_name: b"a".to_vec(),
        to_dir: 1,
        to_name: b"a".to_vec(),
    };
    let _ = store.serve(&mut adapter, request);
    assert!(adapter.handle_pool.peek(a).is_some());
}

#[test]
fn pages_follow_each_other() {
    let mut store = Store::new();
    for name in ["a", "b", "c", "d", "e"] {
        store.add_file(name, b"");
    }
    let mut adapter = adapter();
    let mut seen: Vec<Vec<u8>> = Vec::new();
    let mut start_after = 0;
    loop {
        let request = NfsRequest::Readdir { dir: 1, start_after, max_entries: 2 };
        match store.serve(&mut adapter, request) {
            Ok(NfsReply::Entries { entries, end }) => {
                assert!(entries.len() <= 2);
                for entry in &entries {
                    seen.push(entry.name.clone());
                    start_after = entry.fileid;
                    assert_eq!(entry.attr.fileid, entry.fileid);
                }
                if end {
                    break;
                }
            }
            other => panic!("readdir: {other:?}"),
        }
    }
    assert_eq!(seen, vec![b"a".to_vec(), b"b".to_vec(), b"c".to_vec(), b"d".to_vec(), b"e".to_vec()]);
}

#[test]
fn errors_of_the_storage_reach_the_client() {
    let mut store = Store::new();
    let mut adapter = adapter();
    let request = NfsRequest::Getattr { id: 99 };
    assert_eq!(store.serve(&mut adapter, request), Err(NfsStat::NoEnt));
    let request = NfsRequest::Mkdir { dir: 1, name: b"d".to_vec() };
    assert_eq!(store.serve(&mut adapter, request), Err(NfsStat::NoSpc));
    let request = NfsRequest::Read { id: 99, offset: 0, count: 1 };
    assert_eq!(store.serve(&mut adapter, request), Err(NfsStat::NoEnt));
    let request = NfsRequest::Symlink {
        dir: 1,
        name: b"l".to_vec(),
        target: vec![0xff],
        attr: unchanged(),
    };
    assert_eq!(store.serve(&mut adapter, request), Err(NfsStat::Inval));
    let request = NfsRequest::Readlink { id: 5 };
    assert_eq!(
        store.serve(&mut adapter, request),
        Ok(NfsReply::Path(b"target".to_vec()))
    );
}

#[test]
fn the_adapter_describes_itself() {
    let mut adapter = adapter();
    assert_eq!(adapter.root_dir(), 1);
    assert_eq!(adapter.capabilities(), VfsCapabilities::ReadWrite);
    assert_eq!(adapter.serverid(), [7; 8]);
    let read_only = NFSAdapter::new(0, 0, true, test_nfs_security());
    assert_eq!(read_only.capabilities(), VfsCapabilities::ReadOnly);
    adapter.handle_pool.insert(3, 30);
    adapter.handle_pool.insert(4, 40);
    assert_eq!(adapter.invalidate(3), Some(30));
    assert_eq!(adapter.invalidate(3), None);
    assert_eq!(adapter.shut_down(), vec![(4, 40)]);
    assert!(adapter.handle_pool.is_empty());
}

#[test]
fn a_task_waits_for_its_own_reply() {
    let mut adapter = adapter();
    let step = adapter.begin(NfsRequest::Getattr { id: 3 });
    let Next::Call { call, task } = step.next else { panic!("no call") };
    assert_eq!(call, VfsCall::Getattr { ino: 3 });
    assert!(adapter.is_ready_to_resume(&task, &VfsReply::Attr(Err(Errno::NoEnt))));
    assert!(!adapter.is_ready_to_resume(&task, &VfsReply::Done(Ok(()))));
    let mut attr = Store::new().attr(1).unwrap();
    assert!(adapter.is_ready_to_resume(&task, &VfsReply::Attr(Ok(attr))));
    attr.blocks = u64::MAX;
    assert!(!adapter.is_ready_to_resume(&task, &VfsReply::Attr(Ok(attr))));
}

#[test]
fn attributes_that_are_unknown_are_zero() {
    let attr = NfsAttr::default();
    assert_eq!(attr.ftype, NfsFileType::Regular);
    assert_eq!(attr.size, 0);
    assert_eq!(attr.mtime, NfsTime { seconds: 0, nseconds: 0 });
}
