//! Small shared helpers: text as typed, times, and the files of the user.
use crate::nfs::FileTime;
use crate::platform;
use crate::platform::Platform;
use crate::text;
use vstd::prelude::*;

verus! {

/// Says, once, that the backend is to be initialised.
pub fn init_backend_once(initialised: &mut bool) -> (r: bool)
    ensures
        r == !*old(initialised),
        *final(initialised),
{
    let first: bool = !*initialised;
    *initialised = true;
    first
}

// ── Text as typed ───────────────────────────────────────────────────────

/// The text without white space around it, where anything is left.
pub open spec fn spec_optional_text(s: Seq<char>) -> Option<Seq<char>> {
    if text::spec_trim(s).len() == 0 {
        None
    } else {
        Some(text::spec_trim(s))
    }
}

/// The text without white space around it, where anything is left.
pub fn optional_text(s: &str) -> (r: Option<String>)
    ensures
        text::opt_string(r) == spec_optional_text(s@),
{
    let trimmed = text::trim(s);
    if trimmed.as_str().is_empty() {
        None
    } else {
        Some(trimmed)
    }
}

/// The text without white space around it, or `default` where nothing is left.
pub open spec fn spec_non_empty_or_default(s: Seq<char>, default: Seq<char>) -> Seq<char> {
    if text::spec_trim(s).len() == 0 {
        default
    } else {
        text::spec_trim(s)
    }
}

/// The text without white space around it, or `default` where nothing is left.
pub fn non_empty_or_default(s: &str, default: &str) -> (r: String)
    ensures
        r@ == spec_non_empty_or_default(s@, default@),
{
    let trimmed = text::trim(s);
    if trimmed.as_str().is_empty() {
        default.to_owned()
    } else {
        trimmed
    }
}

/// The path that was typed, or that `label` must be given.
pub open spec fn spec_parse_path(s: Seq<char>, label: Seq<char>) -> Result<Seq<char>, Seq<char>> {
    if text::spec_trim(s).len() == 0 {
        Err(label + " is required."@)
    } else {
        Ok(text::spec_trim(s))
    }
}

/// What a result of two strings holds.
pub open spec fn result_view(r: Result<String, String>) -> Result<Seq<char>, Seq<char>> {
    match r {
        Ok(s) => Ok(s@),
        Err(s) => Err(s@),
    }
}

/// What went wrong, if anything did.
pub open spec fn failure_view(r: Result<(), String>) -> Option<Seq<char>> {
    match r {
        Ok(()) => None,
        Err(s) => Some(s@),
    }
}

/// The path that was typed, or that `label` must be given.
pub fn parse_path(s: &str, label: &str) -> (r: Result<String, String>)
    ensures
        result_view(r) == spec_parse_path(s@, label@),
{
    let trimmed = text::trim(s);
    if trimmed.as_str().is_empty() {
        Err(text::concat(label, " is required."))
    } else {
        Ok(trimmed)
    }
}

/// The token in the value of the variable `HF_TOKEN`.
pub fn current_env_hf_token(hf_token: Option<&str>) -> (r: Option<String>)
    ensures
        text::opt_string(r) == match hf_token {
            Some(token) => spec_optional_text(token@),
            None => None,
        },
{
    match hf_token {
        Some(token) => optional_text(token),
        None => None,
    }
}

// ── Times ───────────────────────────────────────────────────────────────

/// The whole seconds from the epoch to `now`; none before it.
pub open spec fn spec_unix_secs(now: FileTime) -> u64 {
    match now {
        FileTime::BeforeEpoch => 0,
        FileTime::SinceEpoch { secs, .. } => secs,
    }
}

/// The whole seconds from the epoch to `now`, which is what the clock shows.
pub fn current_unix_secs(now: FileTime) -> (r: u64)
    ensures
        r == spec_unix_secs(now),
{
    match now {
        FileTime::BeforeEpoch => 0,
        FileTime::SinceEpoch { secs, .. } => secs,
    }
}

/// The nanoseconds from the epoch to `now`; none before it.
pub open spec fn spec_unix_nanos(now: FileTime) -> nat {
    match now {
        FileTime::BeforeEpoch => 0,
        FileTime::SinceEpoch { secs, nanos } => (secs * 1_000_000_000 + nanos) as nat,
    }
}

/// The nanoseconds from the epoch to `now`, which is what the clock shows.
pub fn current_unix_nanos(now: FileTime) -> (r: u128)
    ensures
        r == spec_unix_nanos(now),
{
    match now {
        FileTime::BeforeEpoch => 0,
        FileTime::SinceEpoch { secs, nanos } => secs as u128 * 1_000_000_000 + nanos as u128,
    }
}

/// A duration as a person reads it: `1h 02m`, `5m 12s` or `42s`.
pub open spec fn spec_format_elapsed(secs: nat) -> Seq<char> {
    if secs >= 3600 {
        text::spec_decimal(secs / 3600) + "h "@ + text::spec_pad2((secs % 3600) / 60) + "m"@
    } else if secs >= 60 {
        text::spec_decimal(secs / 60) + "m "@ + text::spec_pad2(secs % 60) + "s"@
    } else {
        text::spec_decimal(secs) + "s"@
    }
}

/// A duration as a person reads it: `1h 02m`, `5m 12s` or `42s`.
pub fn format_elapsed(secs: u64) -> (r: String)
    ensures
        r@ == spec_format_elapsed(secs as nat),
{
    if secs >= 3600 {
        let mut r = text::decimal(secs / 3600);
        r.append("h ");
        r.append(text::pad2((secs % 3600) / 60).as_str());
        r.append("m");
        r
    } else if secs >= 60 {
        let mut r = text::decimal(secs / 60);
        r.append("m ");
        r.append(text::pad2(secs % 60).as_str());
        r.append("s");
        r
    } else {
        let mut r = text::decimal(secs);
        r.append("s");
        r
    }
}

// ── Panics ──────────────────────────────────────────────────────────────

/// What a thread left behind when it panicked.
#[derive(PartialEq, Eq, Debug)]
pub enum PanicPayload {
    Message(String),
    Other,
}

/// The message of a panic, where there is one.
pub fn panic_message(payload: PanicPayload) -> (r: String)
    ensures
        r@ == match payload {
            PanicPayload::Message(message) => message@,
            PanicPayload::Other => "unknown panic"@,
        },
{
    match payload {
        PanicPayload::Message(message) => message,
        PanicPayload::Other => "unknown panic".to_owned(),
    }
}

// ── Files of the user ───────────────────────────────────────────────────

/// What the environment says of the user's directories.
#[derive(Clone, PartialEq, Eq, Debug)]
pub struct UserDirs {
    /// The variable `APPDATA`.
    pub appdata: Option<String>,
    /// The variable `HOME`.
    pub home: Option<String>,
    /// The variable `XDG_CONFIG_HOME`.
    pub xdg_config_home: Option<String>,
}

/// The directory of the settings, status and logs, or why there is none.
pub open spec fn spec_app_config_dir(platform: Platform, dirs: UserDirs) -> Result<
    Seq<char>,
    Seq<char>,
> {
    match platform {
        Platform::Windows => match dirs.appdata {
            Some(base) => Ok(platform::spec_join(platform, base@, "hf-mount"@)),
            None => Err("APPDATA is not set."@),
        },
        Platform::MacOs => match dirs.home {
            Some(home) => Ok(
                platform::spec_join(
                    platform,
                    platform::spec_join(
                        platform,
                        platform::spec_join(platform, home@, "Library"@),
                        "Application Support"@,
                    ),
                    "hf-mount"@,
                ),
            ),
            None => Err("HOME is not set."@),
        },
        Platform::Linux => match (dirs.xdg_config_home, dirs.home) {
            (Some(base), _) => Ok(platform::spec_join(platform, base@, "hf-mount"@)),
            (None, Some(home)) => Ok(
                platform::spec_join(
                    platform,
                    platform::spec_join(platform, home@, ".config"@),
                    "hf-mount"@,
                ),
            ),
            (None, None) => Err("HOME is not set."@),
        },
    }
}

/// The directory of the settings, status and logs, or why there is none.
pub fn app_config_dir(platform: Platform, dirs: &UserDirs) -> (r: Result<String, String>)
    ensures
        result_view(r) == spec_app_config_dir(platform, *dirs),
{
    match platform {
        Platform::Windows => match &dirs.appdata {
            Some(base) => Ok(platform::join(platform, base.as_str(), "hf-mount")),
            None => Err("APPDATA is not set.".to_owned()),
        },
        Platform::MacOs => match &dirs.home {
            Some(home) => {
                let library = platform::join(platform, home.as_str(), "Library");
                let support = platform::join(platform, library.as_str(), "Application Support");
                Ok(platform::join(platform, support.as_str(), "hf-mount"))
            },
            None => Err("HOME is not set.".to_owned()),
        },
        Platform::Linux => match &dirs.xdg_config_home {
            Some(base) => Ok(platform::join(platform, base.as_str(), "hf-mount")),
            None => match &dirs.home {
                Some(home) => {
                    let config = platform::join(platform, home.as_str(), ".config");
                    Ok(platform::join(platform, config.as_str(), "hf-mount"))
                },
                None => Err("HOME is not set.".to_owned()),
            },
        },
    }
}

/// The path of the file `name` in the directory of the settings.
pub open spec fn spec_config_file(platform: Platform, dirs: UserDirs, name: Seq<char>) -> Result<
    Seq<char>,
    Seq<char>,
> {
    match spec_app_config_dir(platform, dirs) {
        Ok(dir) => Ok(platform::spec_join(platform, dir, name)),
        Err(e) => Err(e),
    }
}

/// The path of the file `name` in the directory of the settings.
pub fn config_file(platform: Platform, dirs: &UserDirs, name: &str) -> (r: Result<String, String>)
    ensures
        result_view(r) == spec_config_file(platform, *dirs, name@),
{
    match app_config_dir(platform, dirs) {
        Ok(dir) => Ok(platform::join(platform, dir.as_str(), name)),
        Err(e) => Err(e),
    }
}

/// The name of the file that is written before it takes the place of
/// `file_name`. The process and the time set it apart from all others.
pub fn temp_sibling_name(file_name: Option<&str>, pid: u32, now: FileTime) -> (r: String)
    ensures
        r@ == "."@ + (match file_name {
            Some(name) => name@,
            None => "hf-mount"@,
        }) + "."@ + text::spec_decimal(pid as nat) + "."@ + text::spec_decimal(spec_unix_nanos(now))
            + ".tmp"@,
{
    let mut r = ".".to_owned();
    match file_name {
        Some(name) => r.append(name),
        None => r.append("hf-mount"),
    }
    r.append(".");
    r.append(text::decimal(pid as u64).as_str());
    r.append(".");
    r.append(text::decimal_wide(current_unix_nanos(now)).as_str());
    r.append(".tmp");
    r
}

/// What can go wrong when a file is replaced.
#[derive(PartialEq, Eq, Debug)]
pub enum FileStep {
    CreateDir { path: String },
    Write { temp_path: String },
    Replace { path: String, temp_path: String },
}

impl FileStep {
    /// What is reported when the step fails with `error`.
    pub fn failure(&self, error: &str) -> (r: String)
        ensures
            r@ == match *self {
                FileStep::CreateDir { path } => "Failed to create "@ + path@ + ": "@ + error@,
                FileStep::Write { temp_path } => "Failed to write "@ + temp_path@ + ": "@ + error@,
                FileStep::Replace { path, temp_path } => "Failed to replace "@ + path@ + " with "@
                    + temp_path@ + ": "@ + error@,
            },
    {
        let mut r = match self {
            FileStep::CreateDir { path } => text::concat("Failed to create ", path.as_str()),
            FileStep::Write { temp_path } => text::concat("Failed to write ", temp_path.as_str()),
            FileStep::Replace { path, temp_path } => {
                let mut r = text::concat("Failed to replace ", path.as_str());
                r.append(" with ");
                r.append(temp_path.as_str());
                r
            },
        };
        r.append(": ");
        r.append(error);
        r
    }
}

/// Trimmed text needs no more trimming: what one form field accepts, it accepts
/// again unchanged.
pub proof fn law_optional_text_is_stable(s: Seq<char>, t: Seq<char>)
    requires
        spec_optional_text(s) == Some(t),
    ensures
        spec_optional_text(t) == Some(t),
        t.len() > 0,
        !text::spec_is_whitespace(t[0]),
        !text::spec_is_whitespace(t.last()),
{
    text::lemma_trim_ends(s);
}

/// A path is asked for exactly where nothing was typed.
pub proof fn law_required_text(s: Seq<char>, label: Seq<char>)
    ensures
        spec_parse_path(s, label) is Err <==> spec_optional_text(s) is None,
{
}

} // verus!
