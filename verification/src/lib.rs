//! Mounts of Hugging Face repos and buckets, served over NFS on the loopback
//! interface.
use vstd::prelude::*;

pub mod autostart;
pub mod cli;
pub mod compact;
pub mod daemon;
pub mod desktop_laws;
pub mod gui;
pub mod handle_pool;
pub mod model_laws;
pub mod mount_command;
pub mod mount_laws;
pub mod nfs;
pub mod nfs_laws;
pub mod nfs_ops;
pub mod platform;
pub mod preflight;
pub mod profile;
pub mod rpc;
pub mod server_laws;
pub mod session;
pub mod setup;
pub mod setup_laws;
pub mod startup_laws;
pub mod status;
pub mod text;
pub mod util;
pub mod view;
pub mod window_laws;
pub mod windows;
pub mod worker;

verus! {

} // verus!
