# hf-mount

Mounts Hugging Face repos and buckets as a local file system, through an NFS
server on the loopback interface, with a desktop window to start and stop the
mounts.

`src/` is the library. Its functions are verified with Verus, against contracts
over plain values:

- `handle_pool`, `nfs`, `nfs_ops`, `rpc`: the NFS server. Which file handles stay
  open, how a request becomes calls of the storage and an answer, and who is
  served.
- `session`, `mount_command`, `setup`, `daemon`: the life of a mount, from its
  options to its end.
- `profile`, `worker`, `status`, `gui`, `view`, `compact`, `preflight`,
  `autostart`, `cli`: the desktop program.
- `platform`, `windows`, `util`, `text`: what the others share.

What touches the disk or the network, or draws, is not in the library. It takes
what was found out as arguments and returns what to do next. Six small functions
call other code and are trusted: `local_clock` reads the clock, `random_uuid`
draws random bytes, `simple_uuid_text` and `path_debug` write values as text,
`parse_socket_addr` reads the address of a peer, and `errno_table` holds the error numbers of the C library. `String::push` and
`core::str::from_utf8` have trusted contracts too.

Public proof functions named `law_..` state what holds across several functions.

`app/` is the program around the library. The storage and the wire protocol of
NFS are linked into it through the traits of `app/backend.rs`; a build that links
none in reports so when a mount is started. `app/args.rs` and
`app/compact_window.rs` are for builds with a command line or with the window
that has no pages.

`tests/` runs the library on concrete values.
