//! What the settings, the machine's tools and the background worker promise.
use crate::mount_command::Host;
use crate::nfs::FileTime;
use crate::platform;
use crate::platform::{ActiveEvidence, CommandRun, Platform, ProcessEvidence};
use crate::profile;
use crate::profile::{GuiSource, MountProfile};
use crate::session::NfsMountEvent;
use crate::setup::{CacheMode, MountOptions, Source};
use crate::text;
use crate::util;
use crate::util::UserDirs;
use crate::windows;
use crate::worker;
use crate::worker::{StatusRead, WorkerEnd, WorkerOutcome, WorkerProbe, WorkerState};
use vstd::prelude::*;

verus! {

/// There is something in the text, and no white space around it.
pub open spec fn is_tidy(s: Seq<char>) -> bool {
    &&& s.len() > 0
    &&& !text::spec_is_whitespace(s[0])
    &&& !text::spec_is_whitespace(s.last())
}

/// The text is `s` with white space around it.
pub open spec fn is_padded(typed: Seq<char>, s: Seq<char>) -> bool {
    exists|before: Seq<char>, after: Seq<char>|
        text::is_blank(before) && text::is_blank(after) && typed == #[trigger] (before + s + after)
}

proof fn lemma_padded(typed: Seq<char>, s: Seq<char>)
    requires
        is_tidy(s),
        is_padded(typed, s),
    ensures
        text::spec_trim(typed) == s,
{
    let (before, after) = choose|before: Seq<char>, after: Seq<char>|
        text::is_blank(before) && text::is_blank(after) && typed == #[trigger] (before + s + after);
    text::law_trimming_takes_the_white_space_around(before, s, after);
}

proof fn lemma_tidy(s: Seq<char>)
    requires
        is_tidy(s),
    ensures
        is_padded(s, s),
        text::spec_trim(s) == s,
{
    let none = Seq::<char>::empty();
    assert(none + s + none =~= s);
    assert(text::is_blank(none));
    lemma_padded(s, s);
}

proof fn lemma_blank(s: Seq<char>)
    requires
        text::is_blank(s),
    ensures
        text::spec_trim(s).len() == 0,
{
    let none = Seq::<char>::empty();
    assert(s + none + none =~= s);
    text::law_trimming_takes_the_white_space_around(s, none, none);
}

// ── Texts that were typed ───────────────────────────────────────────────

/// A text that may be left out is left out where it is blank, and else is what
/// stands between the white space.
pub proof fn law_blanks_are_left_out(blank: Seq<char>, typed: Seq<char>, s: Seq<char>, other: Seq<char>)
    requires
        text::is_blank(blank),
        is_tidy(s),
        is_padded(typed, s),
    ensures
        util::spec_optional_text(blank) is None,
        util::spec_optional_text(typed) == Some(s),
        util::spec_non_empty_or_default(blank, other) == other,
        util::spec_non_empty_or_default(typed, other) == s,
        util::spec_parse_path(blank, other) == Err::<Seq<char>, Seq<char>>(
            other + " is required."@,
        ),
        util::spec_parse_path(typed, other) == Ok::<Seq<char>, Seq<char>>(s),
{
    lemma_blank(blank);
    lemma_padded(typed, s);
}

/// A time is told in its two largest units, and its seconds where there is
/// no larger one.
pub proof fn law_times_are_told(hours: nat, minutes: nat, seconds: nat)
    requires
        minutes < 60,
        seconds < 60,
    ensures
        ({
            let told = util::spec_format_elapsed((hours * 3600 + minutes * 60 + seconds) as nat);
            if hours > 0 {
                told == text::spec_decimal(hours) + "h "@ + text::spec_pad2(minutes) + "m"@
            } else if minutes > 0 {
                told == text::spec_decimal(minutes) + "m "@ + text::spec_pad2(seconds) + "s"@
            } else {
                told == text::spec_decimal(seconds) + "s"@
            }
        }),
{
    let all = (hours * 3600 + minutes * 60 + seconds) as nat;
    let rest = (minutes * 60 + seconds) as nat;
    assert(all / 3600 == hours && all % 3600 == rest) by (nonlinear_arith)
        requires
            all == hours * 3600 + rest,
            0 <= rest < 3600,
    ;
    assert(rest / 60 == minutes && rest % 60 == seconds);
}

/// The clock counts seconds since 1970, and none before.
pub proof fn law_clocks_count_from_1970(secs: u64, nanos: u32)
    ensures
        util::spec_unix_secs(FileTime::BeforeEpoch) == 0,
        util::spec_unix_secs(FileTime::SinceEpoch { secs, nanos }) == secs,
        util::spec_unix_nanos(FileTime::BeforeEpoch) == 0,
        nanos < 1_000_000_000 ==> util::spec_unix_nanos(FileTime::SinceEpoch { secs, nanos })
            / 1_000_000_000 == secs,
        nanos < 1_000_000_000 ==> util::spec_unix_nanos(FileTime::SinceEpoch { secs, nanos })
            % 1_000_000_000 == nanos,
{
}

// ── Paths ───────────────────────────────────────────────────────────────

/// A path to which a name can be added only behind a separator.
pub open spec fn needs_separator(platform: Platform, base: Seq<char>) -> bool {
    &&& base.len() > 0
    &&& base.last() != '/'
    &&& platform is Windows ==> base.last() != '\\' && base.last() != ':'
}

/// A name is added behind the separator of the system, which a path that ends
/// in one already does not get twice.
pub proof fn law_paths_are_joined(platform: Platform, base: Seq<char>, name: Seq<char>)
    ensures
        needs_separator(platform, base) && platform is Windows ==> platform::spec_join(
            platform,
            base,
            name,
        ) == base.push('\\') + name,
        needs_separator(platform, base) && !(platform is Windows) ==> platform::spec_join(
            platform,
            base,
            name,
        ) == base.push('/') + name,
        platform::spec_join(platform, base.push('/'), name) == base.push('/') + name,
        platform::spec_join(Platform::Windows, base.push('\\'), name) == base.push('\\') + name,
        platform::spec_join(platform, Seq::<char>::empty(), name) == name,
{
    assert(base + seq!['\\'] + name =~= base.push('\\') + name);
    assert(base + seq!['/'] + name =~= base.push('/') + name);
    assert(Seq::<char>::empty() + name =~= name);
}

/// A name added to a bare drive stands directly behind its colon.
pub proof fn law_drives_take_names(letter: char, name: Seq<char>)
    requires
        'a' <= letter <= 'z' || 'A' <= letter <= 'Z',
    ensures
        platform::spec_join(Platform::Windows, seq![letter, ':'], name) == seq![letter, ':'] + name,
        platform::spec_join(Platform::Linux, seq![letter, ':'], name) == seq![letter, ':', '/']
            + name,
{
    assert(seq![letter, ':'] + seq!['/'] + name =~= seq![letter, ':', '/'] + name);
}

/// A path of Linux or macOS is absolute where it begins with a slash.
pub proof fn law_absolute_paths_begin_with_a_slash(path: Seq<char>, c: char)
    ensures
        platform::spec_is_absolute_unix(seq!['/'] + path),
        c != '/' ==> !platform::spec_is_absolute_unix(seq![c] + path),
        !platform::spec_is_absolute_unix(Seq::<char>::empty()),
{
    assert((seq![c] + path)[0] == c);
}

/// The settings stand where the system keeps those of the user; a user without
/// such a place gets none.
pub proof fn law_settings_belong_to_the_user(dirs: UserDirs, base: String, name: Seq<char>)
    requires
        base@.len() > 0,
        base@.last() != '/',
        base@.last() != '\\',
        base@.last() != ':',
        name.len() > 0,
    ensures
        util::spec_config_file(
            Platform::Windows,
            UserDirs { appdata: Some(base), ..dirs },
            name,
        ) == Ok::<Seq<char>, Seq<char>>(base@ + "\\hf-mount\\"@ + name),
        util::spec_config_file(
            Platform::MacOs,
            UserDirs { home: Some(base), ..dirs },
            name,
        ) == Ok::<Seq<char>, Seq<char>>(base@ + "/Library/Application Support/hf-mount/"@ + name),
        util::spec_config_file(
            Platform::Linux,
            UserDirs { xdg_config_home: Some(base), ..dirs },
            name,
        ) == Ok::<Seq<char>, Seq<char>>(base@ + "/hf-mount/"@ + name),
        util::spec_config_file(
            Platform::Linux,
            UserDirs { xdg_config_home: None, home: Some(base), ..dirs },
            name,
        ) == Ok::<Seq<char>, Seq<char>>(base@ + "/.config/hf-mount/"@ + name),
        util::spec_config_file(Platform::Windows, UserDirs { appdata: None, ..dirs }, name) == Err::<
            Seq<char>,
            Seq<char>,
        >("APPDATA is not set."@),
        util::spec_config_file(Platform::MacOs, UserDirs { home: None, ..dirs }, name) == Err::<
            Seq<char>,
            Seq<char>,
        >("HOME is not set."@),
        util::spec_config_file(
            Platform::Linux,
            UserDirs { xdg_config_home: None, home: None, ..dirs },
            name,
        ) == Err::<Seq<char>, Seq<char>>("HOME is not set."@),
{
    reveal_strlit("hf-mount");
    reveal_strlit("Library");
    reveal_strlit("Application Support");
    reveal_strlit(".config");
    reveal_strlit("\\hf-mount\\");
    reveal_strlit("/hf-mount/");
    reveal_strlit("/.config/hf-mount/");
    reveal_strlit("/Library/Application Support/hf-mount/");
    let b = base@;
    let on_windows = platform::spec_join(Platform::Windows, b, "hf-mount"@);
    assert(on_windows =~= b + seq!['\\'] + "hf-mount"@);
    assert(platform::spec_join(Platform::Windows, on_windows, name) =~= b + "\\hf-mount\\"@ + name);
    let library = platform::spec_join(Platform::MacOs, b, "Library"@);
    assert(library =~= b + seq!['/'] + "Library"@);
    let support = platform::spec_join(Platform::MacOs, library, "Application Support"@);
    assert(support =~= library + seq!['/'] + "Application Support"@);
    let on_macos = platform::spec_join(Platform::MacOs, support, "hf-mount"@);
    assert(on_macos =~= support + seq!['/'] + "hf-mount"@);
    assert(platform::spec_join(Platform::MacOs, on_macos, name) =~= b
        + "/Library/Application Support/hf-mount/"@ + name);
    let on_linux = platform::spec_join(Platform::Linux, b, "hf-mount"@);
    assert(on_linux =~= b + seq!['/'] + "hf-mount"@);
    assert(platform::spec_join(Platform::Linux, on_linux, name) =~= b + "/hf-mount/"@ + name);
    let config = platform::spec_join(Platform::Linux, b, ".config"@);
    assert(config =~= b + seq!['/'] + ".config"@);
    let in_home = platform::spec_join(Platform::Linux, config, "hf-mount"@);
    assert(in_home =~= config + seq!['/'] + "hf-mount"@);
    assert(platform::spec_join(Platform::Linux, in_home, name) =~= b + "/.config/hf-mount/"@ + name);
}

// ── Drives ──────────────────────────────────────────────────────────────

/// A letter with a colon is a drive, with or without one slash of either kind
/// behind it.
pub proof fn law_drives_are_letters_with_a_colon(letter: char, rest: Seq<char>)
    ensures
        ({
            let is_letter = 'a' <= letter <= 'z' || 'A' <= letter <= 'Z';
            let drive = if is_letter {
                Some(letter)
            } else {
                None
            };
            &&& windows::spec_drive_letter(seq![letter, ':']) == drive
            &&& windows::spec_drive_letter(seq![letter, ':', '\\']) == drive
            &&& windows::spec_drive_letter(seq![letter, ':', '/']) == drive
        }),
        rest.len() > 1 ==> windows::spec_drive_letter(seq![letter, ':'] + rest) is None,
        rest.len() == 1 && rest[0] != '\\' && rest[0] != '/' ==> windows::spec_drive_letter(
            seq![letter, ':'] + rest,
        ) is None,
        windows::spec_drive_letter(seq![letter]) is None,
        windows::spec_drive_letter(Seq::<char>::empty()) is None,
{
    assert((seq![letter, ':'] + rest).len() == 2 + rest.len());
    if rest.len() == 1 {
        assert((seq![letter, ':'] + rest)[2] == rest[0]);
    }
}

/// With no drive taken all from D to Z are free; with one taken, all of them
/// but that one. The first three are never free.
pub proof fn law_drives_are_free_until_taken(c: char, taken: char)
    requires
        'A' <= taken <= 'Z',
    ensures
        windows::is_free_drive(c, 0) <==> 'D' <= c <= 'Z',
        windows::is_free_drive(c, 1u32 << ((taken as u32 - 'A' as u32) as u32)) <==> 'D' <= c <= 'Z'
            && c != taken,
        !windows::is_free_drive(c, 0xffff_ffff),
{
    let i: u32 = (taken as u32 - 'A' as u32) as u32;
    if 'D' <= c <= 'Z' {
        let j: u32 = (c as u32 - 'A' as u32) as u32;
        assert(0u32 & (1u32 << j) == 0) by (bit_vector);
        assert(i < 26 && j < 26 ==> (((1u32 << i) & (1u32 << j) == 0) <==> i != j)) by (bit_vector);
        assert(j < 26 ==> 0xffff_ffffu32 & (1u32 << j) != 0) by (bit_vector);
    }
}

// ── Processes and commands ──────────────────────────────────────────────

/// A command succeeds where it ran and ended well. What it said on both its
/// outputs is part of the failure, and so is its status.
pub proof fn law_commands_fail_with_what_they_said(run: CommandRun, not_run: Seq<char>, failed: Seq<char>)
    ensures
        platform::spec_run_failure(run, not_run, failed) is None <==> (run matches CommandRun::Ended(
            output,
        ) && output.success),
        run matches CommandRun::NotRun(e) ==> platform::spec_run_failure(run, not_run, failed)
            == Some(not_run + e@),
        run matches CommandRun::Ended(output) ==> (!output.success ==> platform::spec_run_failure(
            run,
            not_run,
            failed,
        ) == Some(
            failed + " failed with "@ + output.status@ + ": stdout="@ + text::spec_trim(
                output.stdout@,
            ) + " stderr="@ + text::spec_trim(output.stderr@),
        )),
{
}

/// A process runs where a signal reaches it or would but for a permission, or
/// where the list of tasks has its number in quotes between commas. None has
/// the number zero.
pub proof fn law_processes_run_where_they_are_seen(
    pid: u32,
    delivered: bool,
    not_permitted: bool,
    before: Seq<char>,
    after: Seq<char>,
    list: String,
)
    requires
        list@ == before + (",\""@ + text::spec_decimal(pid as nat) + "\","@) + after,
    ensures
        pid != 0 ==> platform::spec_process_is_running(
            pid,
            ProcessEvidence::Signal { delivered, not_permitted },
        ) == (delivered || not_permitted),
        pid != 0 ==> platform::spec_process_is_running(pid, ProcessEvidence::TaskList(Some(list))),
        !platform::spec_process_is_running(pid, ProcessEvidence::TaskList(None)),
        !platform::spec_process_is_running(
            0,
            ProcessEvidence::Signal { delivered, not_permitted },
        ),
        !platform::spec_process_is_running(0, ProcessEvidence::TaskList(Some(list))),
{
    let pattern = ",\""@ + text::spec_decimal(pid as nat) + "\","@;
    text::law_searching(before, pattern, after, list@);
}

/// A list of tasks without the number in quotes shows no such process.
pub proof fn law_processes_that_are_not_listed_do_not_run(pid: u32, list: String)
    requires
        forall|x: Seq<char>, y: Seq<char>|
            list@ != #[trigger] (x + (",\""@ + text::spec_decimal(pid as nat) + "\","@) + y),
    ensures
        !platform::spec_process_is_running(pid, ProcessEvidence::TaskList(Some(list))),
{
    let pattern = ",\""@ + text::spec_decimal(pid as nat) + "\","@;
    text::law_searching(list@, pattern, list@, list@);
}

/// Where the mount table cannot be read, a mount is what can be seen.
pub proof fn law_what_is_seen_is_active(mount_point: Seq<char>, visible: bool)
    ensures
        platform::spec_appears_active(mount_point, ActiveEvidence::Visible(visible)) == visible,
{
}

// ── Sources ─────────────────────────────────────────────────────────────

/// There is no white space in the text, and no slash at either end.
pub open spec fn is_plain_id(id: Seq<char>) -> bool {
    &&& id.len() > 0
    &&& forall|i: int| 0 <= i < id.len() ==> !text::spec_is_whitespace(#[trigger] id[i])
    &&& id[0] != '/'
    &&& id.last() != '/'
}

/// White space around an id does not matter.
pub proof fn law_ids_are_judged_without_white_space(source: GuiSource, typed: Seq<char>, id: Seq<char>)
    requires
        is_tidy(id),
        is_padded(typed, id),
    ensures
        profile::spec_source_id_problem(source, typed) == profile::spec_source_id_problem(source, id),
{
    lemma_padded(typed, id);
    lemma_tidy(id);
}

/// An id that is blank is missing, one with white space in it is no id, and one
/// with a slash at an end has one too many.
pub proof fn law_ids_that_cannot_be(source: GuiSource, id: Seq<char>)
    ensures
        text::is_blank(id) ==> profile::spec_source_id_problem(source, id) == Some(
            match source {
                GuiSource::Repo => "Repo ID is required, e.g. openai-community/gpt2."@,
                GuiSource::Bucket => "Bucket ID is required, e.g. namespace/bucket."@,
            },
        ),
        is_tidy(id) && (exists|i: int|
            0 <= i < id.len() && text::spec_is_whitespace(#[trigger] id[i]))
            ==> profile::spec_source_id_problem(source, id) == Some("IDs cannot contain spaces."@),
        id.len() > 0 && (forall|i: int|
            0 <= i < id.len() ==> !text::spec_is_whitespace(#[trigger] id[i])) && (id[0] == '/'
            || id.last() == '/') ==> profile::spec_source_id_problem(source, id) == Some(
            "Remove the leading/trailing slash."@,
        ),
{
    if text::is_blank(id) {
        lemma_blank(id);
    }
    if is_tidy(id) {
        lemma_tidy(id);
    }
    if id.len() > 0 && (forall|i: int|
        0 <= i < id.len() ==> !text::spec_is_whitespace(#[trigger] id[i])) {
        assert(!text::spec_is_whitespace(id[0]));
        assert(!text::spec_is_whitespace(id[id.len() - 1]));
        lemma_tidy(id);
    }
}

/// Any plain id can be that of a repo.
pub proof fn law_repo_ids(id: Seq<char>)
    requires
        is_plain_id(id),
    ensures
        profile::spec_source_id_problem(GuiSource::Repo, id) is None,
{
    assert(!text::spec_is_whitespace(id[0]));
    assert(!text::spec_is_whitespace(id[id.len() - 1]));
    lemma_tidy(id);
}

/// A bucket is a namespace, a slash and a name; a name alone is none, nor is
/// one with nothing between two slashes.
pub proof fn law_bucket_ids(namespace: Seq<char>, name: Seq<char>, folder: Seq<char>)
    requires
        is_plain_id(namespace),
        is_plain_id(name),
        is_plain_id(folder),
        !namespace.contains('/'),
        !name.contains('/'),
        !folder.contains('/'),
    ensures
        profile::spec_source_id_problem(GuiSource::Bucket, namespace.push('/') + name) is None,
        profile::spec_source_id_problem(
            GuiSource::Bucket,
            namespace.push('/') + (name.push('/') + folder),
        ) is None,
        profile::spec_source_id_problem(GuiSource::Bucket, name) == Some(
            "Buckets are namespace/bucket, e.g. myuser/my-bucket."@,
        ),
        profile::spec_source_id_problem(
            GuiSource::Bucket,
            namespace.push('/') + (Seq::<char>::empty().push('/') + name),
        ) == Some("Buckets are namespace/bucket, e.g. myuser/my-bucket."@),
{
    let none = Seq::<char>::empty();
    text::law_splitting(namespace, '/', name);
    text::law_splitting(name, '/', folder);
    text::law_splitting(folder, '/', none);
    text::law_splitting(name, '/', none);
    text::law_splitting(none, '/', name);
    text::law_splitting(namespace, '/', name.push('/') + folder);
    text::law_splitting(namespace, '/', none.push('/') + name);
    lemma_id(namespace.push('/') + name, namespace.push('/'), name);
    lemma_id(name.push('/') + folder, name.push('/'), folder);
    lemma_id(
        namespace.push('/') + (name.push('/') + folder),
        namespace.push('/'),
        name.push('/') + folder,
    );
    let gap = namespace.push('/') + (none.push('/') + name);
    assert(gap =~= namespace.push('/').push('/') + name);
    lemma_id(gap, namespace.push('/').push('/'), name);
    law_repo_ids(name);
    lemma_tidy(name);
    lemma_tidy(gap);
    lemma_tidy(namespace.push('/') + name);
    lemma_tidy(namespace.push('/') + (name.push('/') + folder));
    let two = text::spec_split(namespace.push('/') + name, '/');
    assert(two =~= seq![namespace, name]);
    let three = text::spec_split(namespace.push('/') + (name.push('/') + folder), '/');
    assert(three =~= seq![namespace, name, folder]);
    let empty = text::spec_split(gap, '/');
    assert(empty =~= seq![namespace, none, name]);
    assert(empty[1].len() == 0);
}

proof fn lemma_id(id: Seq<char>, front: Seq<char>, back: Seq<char>)
    requires
        id == front + back,
        front.len() > 0,
        front[0] != '/',
        forall|i: int| 0 <= i < front.len() ==> !text::spec_is_whitespace(#[trigger] front[i]),
        is_plain_id(back),
    ensures
        is_plain_id(id),
        is_tidy(id),
{
    assert(id.last() == back.last());
    assert(id[0] == front[0]);
    assert(!text::spec_is_whitespace(back[back.len() - 1]));
}

/// A source that a profile names is of the kind that the profile says, with the
/// id, the mount point and the revision that were typed.
pub proof fn law_profiles_name_their_source(
    source: Source,
    p: MountProfile,
    id: Seq<char>,
    target: Seq<char>,
    revision: Seq<char>,
)
    requires
        worker::is_profile_source(source, p),
        is_tidy(id),
        is_padded(p.source_id@, id),
        is_tidy(target),
        is_padded(p.mount_point@, target),
        is_tidy(revision),
        is_padded(p.revision@, revision) || (text::is_blank(p.revision@) && revision == "main"@),
    ensures
        match source {
            Source::Repo { repo_id, mount_point, revision: r } => p.source is Repo && repo_id@ == id
                && mount_point@ == target && r@ == revision,
            Source::Bucket { bucket_id, mount_point } => p.source is Bucket && bucket_id@ == id
                && mount_point@ == target,
        },
{
    lemma_padded(p.source_id@, id);
    lemma_padded(p.mount_point@, target);
    if is_padded(p.revision@, revision) {
        lemma_padded(p.revision@, revision);
    } else {
        lemma_blank(p.revision@);
    }
}

/// A profile can be mounted where its id is one, and its mount point is not
/// blank.
pub proof fn law_profiles_that_can_be_mounted(p: MountProfile)
    ensures
        profile::spec_source_error(p) is None <==> profile::spec_source_id_problem(
            p.source,
            p.source_id@,
        ) is None && text::spec_trim(p.mount_point@).len() > 0,
        profile::spec_source_id_problem(p.source, p.source_id@) is Some
            ==> profile::spec_source_error(p) == profile::spec_source_id_problem(
            p.source,
            p.source_id@,
        ),
        profile::spec_source_id_problem(p.source, p.source_id@) is None && text::spec_trim(
            p.mount_point@,
        ).len() == 0 ==> profile::spec_source_error(p) == Some("Mount point"@ + " is required."@),
{
}

/// A worker takes its token from the environment alone, its other options from
/// the profile, and mounts a repo for reading only.
pub proof fn law_profiles_set_their_options(
    options: MountOptions,
    p: MountProfile,
    token: Seq<char>,
    endpoint: Seq<char>,
    cache: Seq<char>,
    env: Seq<char>,
)
    requires
        profile::has_profile_options(options, p, Some(env)),
        is_tidy(token),
        is_padded(env, token),
        is_tidy(endpoint),
        is_padded(p.hub_endpoint@, endpoint) || (text::is_blank(p.hub_endpoint@) && endpoint
            == "https://huggingface.co"@),
        is_tidy(cache),
        is_padded(p.cache_dir@, cache),
    ensures
        options.hf_token matches Some(t) && t@ == token,
        text::is_blank(p.token_file@) ==> options.token_file is None,
        is_tidy(p.token_file@) ==> (options.token_file matches Some(f) && f@ == p.token_file@),
        options.hub_endpoint@ == endpoint,
        options.cache_dir@ == cache,
        p.source is Repo ==> options.read_only,
        p.source is Bucket ==> options.read_only == p.read_only,
        options.nfs_allow_unsafe_loopback == p.nfs_allow_unsafe_loopback,
{
    lemma_padded(env, token);
    lemma_padded(p.cache_dir@, cache);
    if is_padded(p.hub_endpoint@, endpoint) {
        lemma_padded(p.hub_endpoint@, endpoint);
    } else {
        lemma_blank(p.hub_endpoint@);
    }
    if text::is_blank(p.token_file@) {
        lemma_blank(p.token_file@);
    }
    if is_tidy(p.token_file@) {
        lemma_tidy(p.token_file@);
    }
}

/// Without a token in the environment a worker has none.
pub proof fn law_no_token_but_that_of_the_environment(options: MountOptions, p: MountProfile, env: Seq<char>)
    ensures
        profile::has_profile_options(options, p, None) ==> options.hf_token is None,
        text::is_blank(env) && profile::has_profile_options(options, p, Some(env))
            ==> options.hf_token is None,
{
    if text::is_blank(env) {
        lemma_blank(env);
    }
}

/// What a profile does not speak of is as the command line has it unasked:
/// polls every 30 seconds, a cache of ten gigabytes in chunks, metadata for ten
/// seconds, 16 threads, writes flushed after two seconds and at most 30, and
/// nothing that has to be asked for.
pub proof fn law_profiles_leave_the_rest(options: MountOptions)
    requires
        profile::has_other_defaults(options),
    ensures
        options.poll_interval_secs == 30 && options.poll_listing_concurrency == 4,
        options.cache_size == 10_000_000_000 && options.cache_mode == CacheMode::Chunk,
        options.metadata_ttl_ms == 10_000 && options.max_threads == 16,
        options.flush_debounce_ms == 2_000 && options.flush_max_batch_window_ms == 30_000,
        options.max_staging_size == 0 && options.inode_soft_limit == 0,
        options.lru_sweep_interval_ms == 5_000,
        options.uid is None && options.gid is None,
        !options.advanced_writes && !options.no_disk_cache && !options.direct_io,
        !options.metadata_ttl_minimal && !options.no_filter_os_files && !options.overlay,
        !options.fuse_owner_only && !options.fuse_allow_other,
{
}

/// A source is offered again under its id; a revision is named where it is not
/// the usual one.
pub proof fn law_recent_sources_are_named(id: Seq<char>, revision: Seq<char>)
    ensures
        (profile::RecentSourceView {
            source: GuiSource::Bucket,
            source_id: id,
            revision,
        }).label() == "bucket "@ + id,
        (profile::RecentSourceView {
            source: GuiSource::Repo,
            source_id: id,
            revision: "main"@,
        }).label() == "repo "@ + id,
        (profile::RecentSourceView {
            source: GuiSource::Repo,
            source_id: id,
            revision: Seq::empty(),
        }).label() == "repo "@ + id,
        revision.len() > 0 && revision != "main"@ ==> (profile::RecentSourceView {
            source: GuiSource::Repo,
            source_id: id,
            revision,
        }).label() == "repo "@ + id + " @ "@ + revision,
{
}

/// Of six different sources the one that was mounted longest ago is forgotten;
/// of five none is.
pub proof fn law_five_sources_are_remembered(recents: Seq<profile::RecentSourceView>, entry: profile::RecentSourceView)
    requires
        !recents.contains(entry),
    ensures
        recents.len() <= 4 ==> profile::remembered(recents, entry) == seq![entry] + recents,
        recents.len() == 5 ==> profile::remembered(recents, entry) == seq![entry] + recents.take(4),
{
    lemma_all_differ(recents, entry);
    let all = seq![entry] + recents;
    if recents.len() == 5 {
        assert(all.take(5) =~= seq![entry] + recents.take(4));
    }
}

proof fn lemma_all_differ(recents: Seq<profile::RecentSourceView>, entry: profile::RecentSourceView)
    requires
        !recents.contains(entry),
    ensures
        profile::without_recent(recents, entry) == recents,
    decreases recents.len(),
{
    if recents.len() > 0 {
        let tail = recents.skip(1);
        assert(recents[0] != entry);
        if tail.contains(entry) {
            let i = tail.index_of(entry);
            assert(recents[i + 1] == entry);
        }
        lemma_all_differ(tail, entry);
        assert(seq![recents[0]] + tail =~= recents);
    }
}

// ── The worker ──────────────────────────────────────────────────────────

/// A status without a process is believed for two minutes. One from the future
/// is believed; one without a time is not.
pub proof fn law_status_ages(written: u64, now: u64)
    ensures
        worker::spec_heartbeat_fresh(written, now) <==> written != 0 && now <= written + 120,
{
}

/// A process is a worker where it runs and was started as one.
pub proof fn law_workers_are_known_by_their_argument(
    running: bool,
    before: Seq<char>,
    after: Seq<char>,
    line: Seq<char>,
)
    ensures
        worker::spec_process_matches(true, Some(before + "--background-worker"@ + after)),
        !worker::spec_process_matches(false, Some(line)),
        !worker::spec_process_matches(running, None),
        worker::spec_process_matches(running, Some(line)) ==> exists|x: Seq<char>, y: Seq<char>|
            line == #[trigger] (x + "--background-worker"@ + y),
{
    text::law_searching(before, "--background-worker"@, after, line);
}

/// A worker that is under way is alive where its mount is in the mount table,
/// where its process runs, or, before it has named one, while its status is
/// fresh. On Windows the mount does not count.
pub proof fn law_workers_are_alive(
    status: worker::WorkerStatusView,
    platform: Platform,
    probe: WorkerProbe,
    secs: u64,
    nanos: u32,
)
    ensures
        ({
            let now = FileTime::SinceEpoch { secs, nanos };
            let live = worker::spec_is_live(status, platform, probe, now);
            let by_mount = !(platform is Windows) && status.state is Mounted && probe.mount_active;
            let by_process = if status.pid is Some {
                probe.process_matches
            } else {
                status.updated_at_secs != 0 && secs <= status.updated_at_secs + 120
            };
            live <==> !(status.state is Stopped) && !(status.state is Failed) && (by_mount
                || by_process)
        }),
{
}

/// A worker tells of a mount where there is one and of the end where it comes,
/// each at the mount point that it concerns, and says nothing new of itself for
/// the command that it runs.
pub proof fn law_events_are_reported(
    target: Seq<char>,
    label: Seq<char>,
    event: NfsMountEvent,
    pid: u32,
    secs: u64,
    nanos: u32,
)
    ensures
        match worker::spec_event_status(
            target,
            label,
            event,
            pid,
            FileTime::SinceEpoch { secs, nanos },
        ) {
            None => event is MountCommand,
            Some(status) => {
                &&& status.state is Mounted <==> event is Mounted
                &&& status.state is Stopping <==> event is ShuttingDown
                &&& status.state is Mounting <==> event is ServerListening
                &&& status.pid == Some(pid)
                &&& status.source_label == Some(label)
                &&& status.updated_at_secs == secs
                &&& match event {
                    NfsMountEvent::ServerListening { port } => status.mount_point == Some(target)
                        && status.detail == "127.0.0.1:"@ + text::spec_decimal(port as nat),
                    NfsMountEvent::MountCommand { command } => false,
                    NfsMountEvent::Mounted { mount_point } => status.mount_point == Some(
                        mount_point@,
                    ) && status.detail == "Mounted at "@ + mount_point@ && status.headline
                        == "Mounted"@,
                    NfsMountEvent::ShuttingDown { reason } => status.mount_point == Some(target)
                        && status.detail == reason@,
                }
            },
        },
        match event {
            NfsMountEvent::ServerListening { port } => worker::spec_event_log(event)
                == "Local NFS server is listening on 127.0.0.1:"@ + text::spec_decimal(port as nat),
            NfsMountEvent::MountCommand { command } => worker::spec_event_log(event) == "Running "@
                + command@,
            NfsMountEvent::Mounted { mount_point } => worker::spec_event_log(event) == "Mounted at "@
                + mount_point@,
            NfsMountEvent::ShuttingDown { reason } => worker::spec_event_log(event)
                == "Shutting down: "@ + reason@,
        },
{
}

/// A worker that ends says so: well where its mount was stopped, and else with
/// what went wrong, in its status, its log and its result alike.
pub proof fn law_workers_end(
    end: WorkerEnd,
    outcome: WorkerOutcome,
    target: Seq<char>,
    label: Seq<char>,
    pid: u32,
    secs: u64,
    nanos: u32,
)
    requires
        worker::is_worker_end(
            end,
            outcome,
            target,
            label,
            pid,
            FileTime::SinceEpoch { secs, nanos },
        ),
    ensures
        end.result is Ok <==> outcome is Stopped,
        end.status.state is Stopped <==> outcome is Stopped,
        end.status.state is Failed <==> !(outcome is Stopped),
        end.status@.mount_point == Some(target),
        end.status@.source_label == Some(label),
        end.status@.pid == Some(pid),
        end.status@.updated_at_secs == secs,
        outcome matches WorkerOutcome::Failed(message) ==> end.status.detail@ == message@
            && end.result == Err::<(), String>(message) && end.log@ == "Mount failed: "@ + message@,
        outcome matches WorkerOutcome::Crashed(message) ==> end.status.detail@ == message@
            && end.result == Err::<(), String>(message) && end.log@ == "Mount crashed: "@ + message@,
        end.status_must_be_written <==> outcome is Stopped,
{
    assert(end.status@.state == end.status.state);
    assert(end.status@.detail == end.status.detail@);
}

/// A worker that cannot start leaves a failure in its place, with the reason,
/// and claims no mount.
pub proof fn law_workers_that_cannot_start(
    end: WorkerEnd,
    error: Seq<char>,
    pid: u32,
    secs: u64,
    nanos: u32,
)
    requires
        worker::is_failed_start(end, error, pid, FileTime::SinceEpoch { secs, nanos }),
    ensures
        end.status.state is Failed,
        end.status.detail@ == error,
        end.status@.mount_point is None,
        end.status@.source_label is None,
        end.status@.pid == Some(pid),
        end.status@.updated_at_secs == secs,
        end.result matches Err(e) && e@ == error,
        end.log@ == "Background worker failed to start: "@ + error,
{
    assert(end.status@.state == end.status.state);
    assert(end.status@.detail == end.status.detail@);
}

/// A worker starts on saved settings that can be read, name a source and a
/// mount point, and have a place for the cache.
pub proof fn law_workers_start(loaded: Result<Option<MountProfile>, String>)
    ensures
        worker::spec_start_error(loaded) is None <==> (loaded matches Ok(Some(p))
            && profile::spec_source_id_problem(p.source, p.source_id@) is None && text::spec_trim(
            p.mount_point@,
        ).len() > 0 && text::spec_trim(p.cache_dir@).len() > 0),
        loaded matches Err(e) ==> worker::spec_start_error(loaded) == Some(e@),
        loaded matches Ok(None) ==> worker::spec_start_error(loaded) == Some(
            "No saved mount settings were found."@,
        ),
        loaded matches Ok(Some(p)) ==> (profile::spec_source_id_problem(p.source, p.source_id@)
            matches Some(problem) ==> worker::spec_start_error(loaded) == Some(problem)),
{
}

/// A mount point that is blank is none.
pub proof fn law_blank_mount_points_are_none(status: worker::WorkerStatusView, path: Seq<char>)
    requires
        status.mount_point == Some(path),
    ensures
        text::is_blank(path) ==> worker::spec_claimed_mount_point(status) is None,
        is_tidy(path) ==> worker::spec_claimed_mount_point(status) == Some(path),
{
    if text::is_blank(path) {
        lemma_blank(path);
    }
    if is_tidy(path) {
        lemma_tidy(path);
    }
}

/// A worker is under way until it has stopped or failed.
pub proof fn law_workers_are_under_way(state: WorkerState)
    ensures
        state.spec_is_active() <==> !(state is Stopped) && !(state is Failed),
{
}

// ── The machine ─────────────────────────────────────────────────────────

/// The drive that is offered first is free, and no later letter is.
pub proof fn law_the_last_free_drive_is_best(c: char, other: char, taken: u32)
    ensures
        platform::is_best_drive(c, taken) ==> windows::is_free_drive(c, taken),
        platform::is_best_drive(c, taken) && windows::is_free_drive(other, taken) ==> other <= c,
        windows::is_free_drive('Z', taken) ==> platform::is_best_drive('Z', taken),
        platform::any_free_drive(taken) <==> taken != 0 && exists|d: char|
            windows::is_free_drive(d, taken),
{
}

/// The shell of Windows is run from where Windows is.
pub proof fn law_the_shell_comes_from_windows(host: Host, root: String)
    requires
        host.system_root == Some(root),
        root@.len() > 2,
        root@.last() != '\\',
        root@.last() != '/',
    ensures
        platform::spec_powershell(host) == root@
            + "\\System32\\WindowsPowerShell\\v1.0\\powershell.exe"@,
{
    reveal_strlit("System32");
    reveal_strlit("WindowsPowerShell");
    reveal_strlit("v1.0");
    reveal_strlit("powershell.exe");
    reveal_strlit("\\System32\\WindowsPowerShell\\v1.0\\powershell.exe");
    let w = Platform::Windows;
    let system = platform::spec_join(w, root@, "System32"@);
    assert(system =~= root@ + seq!['\\'] + "System32"@);
    let dir = platform::spec_join(w, system, "WindowsPowerShell"@);
    assert(dir =~= system + seq!['\\'] + "WindowsPowerShell"@);
    let version = platform::spec_join(w, dir, "v1.0"@);
    assert(version =~= dir + seq!['\\'] + "v1.0"@);
    assert(platform::spec_join(w, version, "powershell.exe"@) =~= root@
        + "\\System32\\WindowsPowerShell\\v1.0\\powershell.exe"@);
}

/// A status file that is missing or cannot be parsed may just be being replaced;
/// one that was parsed is there.
pub proof fn law_files_that_are_being_replaced(transient: bool, error: String)
    ensures
        worker::is_transient(StatusRead::Missing),
        worker::is_transient(StatusRead::Unparsable { error }),
        worker::is_transient(StatusRead::Unreadable { transient, error }) == transient,
        !worker::is_transient(StatusRead::Parsed),
{
}

/// Remembering a source changes nothing else of a profile.
pub proof fn law_settings_stay(a: MountProfile, b: MountProfile)
    ensures
        profile::same_settings(a, b) <==> a == (MountProfile {
            recent_sources: a.recent_sources,
            ..b
        }),
{
}

} // verus!
