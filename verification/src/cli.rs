//! The command line of the program with the window.
use crate::preflight;
use crate::preflight::{CheckItem, CheckLevel};
use crate::text;
use crate::worker;
use vstd::prelude::*;

verus! {

/// What a command line asks for.
#[derive(Clone, PartialEq, Eq, Debug)]
pub enum CliCommand {
    /// The window.
    Window,
    Help,
    Version,
    /// The checks of a mount point; of the one that is offered first where none
    /// is named.
    CheckSetup(Option<String>),
    /// The background worker.
    Worker,
    /// Nothing that the program knows.
    Unknown(String),
}

pub ghost enum CliCommandView {
    Window,
    Help,
    Version,
    CheckSetup(Option<Seq<char>>),
    Worker,
    Unknown(Seq<char>),
}

impl View for CliCommand {
    type V = CliCommandView;

    open spec fn view(&self) -> CliCommandView {
        match *self {
            CliCommand::Window => CliCommandView::Window,
            CliCommand::Help => CliCommandView::Help,
            CliCommand::Version => CliCommandView::Version,
            CliCommand::CheckSetup(path) => CliCommandView::CheckSetup(text::opt_string(path)),
            CliCommand::Worker => CliCommandView::Worker,
            CliCommand::Unknown(arg) => CliCommandView::Unknown(arg@),
        }
    }
}

/// What the arguments after the name of the program ask for. Those after the
/// last that is of use are ignored.
pub open spec fn spec_cli(args: Seq<Seq<char>>, has_worker: bool) -> CliCommandView {
    if args.len() == 0 {
        CliCommandView::Window
    } else if args[0] == "-h"@ || args[0] == "--help"@ {
        CliCommandView::Help
    } else if args[0] == "-V"@ || args[0] == "--version"@ {
        CliCommandView::Version
    } else if args[0] == "--check-setup"@ {
        CliCommandView::CheckSetup(
            if args.len() > 1 {
                Some(args[1])
            } else {
                None
            },
        )
    } else if has_worker && args[0] == "--background-worker"@ {
        CliCommandView::Worker
    } else {
        CliCommandView::Unknown(args[0])
    }
}

/// What the arguments after the name of the program ask for. `has_worker` says
/// that the program can be a background worker.
pub fn parse_cli(args: &Vec<String>, has_worker: bool) -> (r: CliCommand)
    ensures
        r@ == spec_cli(text::views(args@), has_worker),
{
    if args.len() == 0 {
        return CliCommand::Window;
    }
    assert(text::views(args@)[0] == args@[0]@);
    let arg = args[0].as_str();
    if text::str_eq(arg, "-h") || text::str_eq(arg, "--help") {
        CliCommand::Help
    } else if text::str_eq(arg, "-V") || text::str_eq(arg, "--version") {
        CliCommand::Version
    } else if text::str_eq(arg, "--check-setup") {
        if args.len() > 1 {
            assert(text::views(args@)[1] == args@[1]@);
            CliCommand::CheckSetup(Some(args[1].clone()))
        } else {
            CliCommand::CheckSetup(None)
        }
    } else if has_worker && text::str_eq(arg, worker::background_worker_arg()) {
        CliCommand::Worker
    } else {
        CliCommand::Unknown(arg.to_owned())
    }
}

/// The version as it is printed.
pub fn version_text(version: &str) -> (r: String)
    ensures
        r@ == "hf-mount-gui "@ + version@,
{
    text::concat("hf-mount-gui ", version)
}

/// The help as it is printed.
pub fn help_text(version: &str, has_worker: bool) -> (r: String)
    ensures
        r@ == "hf-mount-gui "@ + version@
            + "\nNative GUI for mounting Hugging Face repos and buckets through the NFS backend.\n\nUSAGE:\nhf-mount-gui\nhf-mount-gui --help\nhf-mount-gui --version\nhf-mount-gui --check-setup [MOUNT_POINT]\n"@
            + (if has_worker {
            "hf-mount-gui --background-worker\n"@
        } else {
            Seq::empty()
        }) + "\nWindows requires Client for NFS and an Administrator session."@,
{
    let mut r = version_text(version);
    r.append(
        "\nNative GUI for mounting Hugging Face repos and buckets through the NFS backend.\n\nUSAGE:\nhf-mount-gui\nhf-mount-gui --help\nhf-mount-gui --version\nhf-mount-gui --check-setup [MOUNT_POINT]\n",
    );
    if has_worker {
        r.append("hf-mount-gui --background-worker\n");
    }
    r.append("\nWindows requires Client for NFS and an Administrator session.");
    r
}

/// What is reported of an argument that the program does not know.
pub fn unknown_argument(arg: &str) -> (r: String)
    ensures
        r@ == "unknown argument: "@ + arg@,
{
    text::concat("unknown argument: ", arg)
}

/// What is reported of a background worker that failed.
pub fn worker_failure(error: &str) -> (r: String)
    ensures
        r@ == "background worker failed: "@ + error@,
{
    text::concat("background worker failed: ", error)
}

/// How a program ends that was asked for the checks: with a failure where one of
/// them failed.
pub fn setup_exit_code(checks: &Vec<CheckItem>) -> (r: i32)
    ensures
        r == (if preflight::any_level(preflight::checks_view(checks@), CheckLevel::Fail) {
            1i32
        } else {
            0i32
        }),
{
    if preflight::has_level(checks, CheckLevel::Fail) {
        1
    } else {
        0
    }
}

} // verus!
