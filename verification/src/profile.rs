//! The saved mount profile: what the user last configured. A token that was
//! typed in is never part of it: mounts in the background take theirs from the
//! environment or from a token file.
use crate::platform::Platform;
use crate::setup;
use crate::setup::{CacheMode, MountOptions, Source};
use crate::text;
use crate::util;
use crate::util::UserDirs;
use vstd::prelude::*;

verus! {

/// The number of sources that are offered again.
pub const MAX_RECENT_SOURCES: usize = 5;

/// What the user mounts.
#[derive(Clone, Copy, PartialEq, Eq, Structural, Debug)]
pub enum GuiSource {
    Repo,
    Bucket,
}

/// A source that was mounted before.
#[derive(Clone, PartialEq, Eq, Debug)]
pub struct RecentSource {
    pub source: GuiSource,
    pub source_id: String,
    pub revision: String,
}

#[verifier::ext_equal]
pub ghost struct RecentSourceView {
    pub source: GuiSource,
    pub source_id: Seq<char>,
    pub revision: Seq<char>,
}

impl View for RecentSource {
    type V = RecentSourceView;

    open spec fn view(&self) -> RecentSourceView {
        RecentSourceView {
            source: self.source,
            source_id: self.source_id@,
            revision: self.revision@,
        }
    }
}

/// What the entries hold.
pub open spec fn recents_view(recents: Seq<RecentSource>) -> Seq<RecentSourceView> {
    recents.map_values(|r: RecentSource| r@)
}

impl RecentSourceView {
    /// The source as a person reads it. The usual revision goes without saying.
    pub open spec fn label(self) -> Seq<char> {
        match self.source {
            GuiSource::Repo => if self.revision.len() > 0 && self.revision != "main"@ {
                "repo "@ + self.source_id + " @ "@ + self.revision
            } else {
                "repo "@ + self.source_id
            },
            GuiSource::Bucket => "bucket "@ + self.source_id,
        }
    }
}

impl RecentSource {
    /// The source as a person reads it.
    pub fn label(&self) -> (r: String)
        ensures
            r@ == self@.label(),
    {
        match self.source {
            GuiSource::Repo => {
                let mut r = text::concat("repo ", self.source_id.as_str());
                if !self.revision.as_str().is_empty() && !text::str_eq(
                    self.revision.as_str(),
                    "main",
                ) {
                    r.append(" @ ");
                    r.append(self.revision.as_str());
                }
                r
            },
            GuiSource::Bucket => text::concat("bucket ", self.source_id.as_str()),
        }
    }

    /// Tells whether the two are the same source.
    pub fn same_as(&self, other: &RecentSource) -> (r: bool)
        ensures
            r == (self@ == other@),
    {
        self.source == other.source && self.source_id == other.source_id && self.revision
            == other.revision
    }
}

/// What the user configured.
#[derive(Clone, PartialEq, Eq, Debug)]
pub struct MountProfile {
    pub source: GuiSource,
    pub source_id: String,
    pub revision: String,
    pub mount_point: String,
    pub token_file: String,
    pub hub_endpoint: String,
    pub cache_dir: String,
    pub read_only: bool,
    pub run_in_background: bool,
    pub nfs_allow_unsafe_loopback: bool,
    /// The most recent first.
    pub recent_sources: Vec<RecentSource>,
}

/// `recents` without `entry`.
pub open spec fn without_recent(recents: Seq<RecentSourceView>, entry: RecentSourceView) -> Seq<
    RecentSourceView,
>
    decreases recents.len(),
{
    if recents.len() == 0 {
        recents
    } else if recents[0] == entry {
        without_recent(recents.skip(1), entry)
    } else {
        seq![recents[0]] + without_recent(recents.skip(1), entry)
    }
}

/// `recents` with `entry` in front, once, and no more than are offered.
pub open spec fn remembered(recents: Seq<RecentSourceView>, entry: RecentSourceView) -> Seq<
    RecentSourceView,
> {
    let all = seq![entry] + without_recent(recents, entry);
    if all.len() > MAX_RECENT_SOURCES {
        all.take(MAX_RECENT_SOURCES as int)
    } else {
        all
    }
}

/// The two agree in all but the recent sources.
pub open spec fn same_settings(a: MountProfile, b: MountProfile) -> bool {
    &&& a.source == b.source
    &&& a.source_id == b.source_id
    &&& a.revision == b.revision
    &&& a.mount_point == b.mount_point
    &&& a.token_file == b.token_file
    &&& a.hub_endpoint == b.hub_endpoint
    &&& a.cache_dir == b.cache_dir
    &&& a.read_only == b.read_only
    &&& a.run_in_background == b.run_in_background
    &&& a.nfs_allow_unsafe_loopback == b.nfs_allow_unsafe_loopback
}

impl MountProfile {
    /// Makes `entry` the most recent source.
    pub fn remember_recent(&mut self, entry: RecentSource)
        ensures
            same_settings(*final(self), *old(self)),
            recents_view(final(self).recent_sources@) == remembered(
                recents_view(old(self).recent_sources@),
                entry@,
            ),
    {
        let ghost before = recents_view(self.recent_sources@);
        let mut i: usize = 0;
        assert(before.take(0) + without_recent(before.skip(0), entry@) =~= without_recent(
            before,
            entry@,
        )) by {
            assert(before.skip(0) =~= before);
        }
        while i < self.recent_sources.len()
            invariant
                i <= self.recent_sources@.len(),
                same_settings(*self, *old(self)),
                ({
                    let now = recents_view(self.recent_sources@);
                    now.take(i as int) + without_recent(now.skip(i as int), entry@)
                        == without_recent(before, entry@)
                }),
            decreases self.recent_sources@.len() - i,
        {
            let ghost now = recents_view(self.recent_sources@);
            let same: bool = self.recent_sources[i].same_as(&entry);
            assert(now.skip(i as int)[0] == now[i as int]);
            if same {
                self.recent_sources.remove(i);
                proof {
                    let after = recents_view(self.recent_sources@);
                    assert(after.take(i as int) =~= now.take(i as int));
                    assert(after.skip(i as int) =~= now.skip(i as int).skip(1));
                }
            } else {
                proof {
                    assert(now.skip(i as int).skip(1) =~= now.skip(i + 1));
                    assert(now.take(i as int) + (seq![now[i as int]] + without_recent(
                        now.skip(i + 1),
                        entry@,
                    )) =~= now.take(i + 1) + without_recent(now.skip(i + 1), entry@));
                }
                i = i + 1;
            }
        }
        let ghost rest = recents_view(self.recent_sources@);
        proof {
            assert(rest.take(i as int) =~= rest);
            assert(rest.skip(i as int) =~= Seq::<RecentSourceView>::empty());
            assert(rest + without_recent(rest.skip(i as int), entry@) =~= rest);
        }
        self.recent_sources.truncate(MAX_RECENT_SOURCES - 1);
        self.recent_sources.insert(0, entry);
        assert(recents_view(self.recent_sources@) =~= remembered(before, entry@));
    }
}

/// The path of the profile.
pub fn profile_path(platform: Platform, dirs: &UserDirs) -> (r: Result<String, String>)
    ensures
        util::result_view(r) == util::spec_config_file(platform, *dirs, "mount-profile.json"@),
{
    util::config_file(platform, dirs, "mount-profile.json")
}

// ── Source ids ──────────────────────────────────────────────────────────

/// There is white space in the text.
pub open spec fn has_whitespace(s: Seq<char>) -> bool {
    exists|i: int| 0 <= i < s.len() && text::spec_is_whitespace(#[trigger] s[i])
}

/// The path has at least two components, and none is empty.
pub open spec fn is_bucket_path(s: Seq<char>) -> bool {
    let segments = text::spec_split(s, '/');
    segments.len() >= 2 && forall|i: int|
        0 <= i < segments.len() ==> (#[trigger] segments[i]).len() > 0
}

/// What is wrong with a source id.
pub open spec fn spec_source_id_problem(source: GuiSource, source_id: Seq<char>) -> Option<
    Seq<char>,
> {
    let id = text::spec_trim(source_id);
    if id.len() == 0 {
        Some(
            match source {
                GuiSource::Repo => "Repo ID is required, e.g. openai-community/gpt2."@,
                GuiSource::Bucket => "Bucket ID is required, e.g. namespace/bucket."@,
            },
        )
    } else if has_whitespace(id) {
        Some("IDs cannot contain spaces."@)
    } else if id[0] == '/' || id.last() == '/' {
        Some("Remove the leading/trailing slash."@)
    } else if source == GuiSource::Bucket && !is_bucket_path(id) {
        Some("Buckets are namespace/bucket, e.g. myuser/my-bucket."@)
    } else {
        None
    }
}

/// Tells whether there is white space in the text.
fn contains_whitespace(chars: &Vec<char>) -> (r: bool)
    ensures
        r == has_whitespace(chars@),
{
    let mut i: usize = 0;
    while i < chars.len()
        invariant
            i <= chars@.len(),
            forall|j: int| 0 <= j < i ==> !text::spec_is_whitespace(#[trigger] chars@[j]),
        decreases chars@.len() - i,
    {
        if text::is_whitespace(chars[i]) {
            return true;
        }
        i = i + 1;
    }
    false
}

/// Tells whether the path has at least two components, none of them empty.
fn bucket_path(path: &str) -> (r: bool)
    ensures
        r == is_bucket_path(path@),
{
    let segments = text::split(path, '/');
    let ghost all = text::spec_split(path@, '/');
    if segments.len() < 2 {
        return false;
    }
    let mut i: usize = 0;
    while i < segments.len()
        invariant
            i <= segments@.len(),
            segments@.len() >= 2,
            all == text::spec_split(path@, '/'),
            text::views(segments@) == all,
            forall|j: int| 0 <= j < i ==> (#[trigger] all[j]).len() > 0,
        decreases segments@.len() - i,
    {
        assert(all[i as int] == segments@[i as int]@);
        if segments[i].as_str().is_empty() {
            return false;
        }
        i = i + 1;
    }
    true
}

/// What is wrong with a source id as it was typed; nothing where it looks
/// plausible. A bucket may have a subfolder behind it.
pub fn source_id_problem(source: GuiSource, source_id: &str) -> (r: Option<&'static str>)
    ensures
        text::opt_view(r) == spec_source_id_problem(source, source_id@),
{
    let id = text::trim(source_id);
    let chars = text::to_chars(id.as_str());
    let n: usize = chars.len();
    if n == 0 {
        return Some(
            match source {
                GuiSource::Repo => "Repo ID is required, e.g. openai-community/gpt2.",
                GuiSource::Bucket => "Bucket ID is required, e.g. namespace/bucket.",
            },
        );
    }
    if contains_whitespace(&chars) {
        return Some("IDs cannot contain spaces.");
    }
    if chars[0] == '/' || chars[n - 1] == '/' {
        return Some("Remove the leading/trailing slash.");
    }
    if source == GuiSource::Bucket && !bucket_path(id.as_str()) {
        return Some("Buckets are namespace/bucket, e.g. myuser/my-bucket.");
    }
    None
}

// ── What the profile asks for ───────────────────────────────────────────

/// Why the profile names no source and mount point.
pub open spec fn spec_source_error(profile: MountProfile) -> Option<Seq<char>> {
    match spec_source_id_problem(profile.source, profile.source_id@) {
        Some(problem) => Some(problem),
        None => match util::spec_parse_path(profile.mount_point@, "Mount point"@) {
            Ok(_) => None,
            Err(e) => Some(e),
        },
    }
}

/// What the profile mounts, and where.
pub fn profile_mount_source(profile: &MountProfile) -> (r: Result<Source, String>)
    ensures
        match r {
            Err(e) => spec_source_error(*profile) == Some(e@),
            Ok(source) => spec_source_error(*profile) is None && match source {
                Source::Repo { repo_id, mount_point, revision } => {
                    &&& profile.source == GuiSource::Repo
                    &&& repo_id@ == text::spec_trim(profile.source_id@)
                    &&& mount_point@ == text::spec_trim(profile.mount_point@)
                    &&& revision@ == util::spec_non_empty_or_default(profile.revision@, "main"@)
                },
                Source::Bucket { bucket_id, mount_point } => {
                    &&& profile.source == GuiSource::Bucket
                    &&& bucket_id@ == text::spec_trim(profile.source_id@)
                    &&& mount_point@ == text::spec_trim(profile.mount_point@)
                },
            },
        },
{
    match source_id_problem(profile.source, profile.source_id.as_str()) {
        Some(problem) => Err(problem.to_owned()),
        None => {
            let id = text::trim(profile.source_id.as_str());
            match util::parse_path(profile.mount_point.as_str(), "Mount point") {
                Err(e) => Err(e),
                Ok(mount_point) => Ok(
                    match profile.source {
                        GuiSource::Repo => Source::Repo {
                            repo_id: id,
                            mount_point,
                            revision: util::non_empty_or_default(
                                profile.revision.as_str(),
                                "main",
                            ),
                        },
                        GuiSource::Bucket => Source::Bucket { bucket_id: id, mount_point },
                    },
                ),
            }
        },
    }
}

/// The options that the profile asks for, with the token from the environment.
pub open spec fn has_profile_options(
    options: MountOptions,
    profile: MountProfile,
    hf_token: Option<Seq<char>>,
) -> bool {
    &&& text::opt_string(options.hf_token) == (match hf_token {
        Some(token) => util::spec_optional_text(token),
        None => None,
    })
    &&& text::opt_string(options.token_file) == util::spec_optional_text(profile.token_file@)
    &&& options.hub_endpoint@ == util::spec_non_empty_or_default(
        profile.hub_endpoint@,
        "https://huggingface.co"@,
    )
    &&& options.cache_dir@ == text::spec_trim(profile.cache_dir@)
    &&& options.read_only == (profile.source == GuiSource::Repo || profile.read_only)
    &&& options.nfs_allow_unsafe_loopback == profile.nfs_allow_unsafe_loopback
}

/// What a profile does not speak of has its documented default.
pub open spec fn has_other_defaults(options: MountOptions) -> bool {
    &&& options.uid is None
    &&& options.gid is None
    &&& !options.advanced_writes
    &&& options.poll_interval_secs == 30
    &&& options.poll_listing_concurrency == 4
    &&& options.cache_size == 10_000_000_000
    &&& options.max_staging_size == 0
    &&& !options.no_disk_cache
    &&& options.cache_mode == CacheMode::Chunk
    &&& !options.direct_io
    &&& options.metadata_ttl_ms == 10_000
    &&& !options.metadata_ttl_minimal
    &&& options.max_threads == 16
    &&& options.flush_debounce_ms == 2_000
    &&& options.flush_max_batch_window_ms == 30_000
    &&& !options.no_filter_os_files
    &&& !options.fuse_owner_only
    &&& !options.fuse_allow_other
    &&& options.inode_soft_limit == 0
    &&& options.lru_sweep_interval_ms == 5_000
    &&& !options.overlay
}

/// The options that the profile asks for. `hf_token` is the value of the
/// variable `HF_TOKEN`.
pub fn profile_mount_options(profile: &MountProfile, hf_token: Option<&str>) -> (r: Result<
    MountOptions,
    String,
>)
    ensures
        match r {
            Err(e) => util::spec_parse_path(profile.cache_dir@, "Cache directory"@) == Err::<
                Seq<char>,
                Seq<char>,
            >(e@),
            Ok(options) => {
                &&& util::spec_parse_path(profile.cache_dir@, "Cache directory"@) is Ok
                &&& has_profile_options(options, *profile, text::opt_view(hf_token))
                &&& has_other_defaults(options)
            },
        },
{
    match util::parse_path(profile.cache_dir.as_str(), "Cache directory") {
        Err(e) => Err(e),
        Ok(cache_dir) => {
            let mut options = MountOptions::with_defaults(cache_dir);
            options.hf_token = util::current_env_hf_token(hf_token);
            options.token_file = util::optional_text(profile.token_file.as_str());
            options.hub_endpoint = util::non_empty_or_default(
                profile.hub_endpoint.as_str(),
                "https://huggingface.co",
            );
            options.read_only = profile.source == GuiSource::Repo || profile.read_only;
            options.nfs_allow_unsafe_loopback = profile.nfs_allow_unsafe_loopback;
            Ok(options)
        },
    }
}

// ── Laws ────────────────────────────────────────────────────────────────

/// The entry that was remembered last comes first and only there, the others
/// follow in their order, and there are never more than are offered. No entry
/// comes twice that did not before.
pub proof fn law_recent_sources(recents: Seq<RecentSourceView>, entry: RecentSourceView)
    ensures
        1 <= remembered(recents, entry).len() <= MAX_RECENT_SOURCES,
        remembered(recents, entry)[0] == entry,
        forall|i: int|
            1 <= i < remembered(recents, entry).len() ==> #[trigger] remembered(recents, entry)[i]
                != entry,
        remembered(recents, entry).is_prefix_of(
            seq![entry] + recents.filter(|e: RecentSourceView| e != entry),
        ),
        remembered(recents, entry).len() < MAX_RECENT_SOURCES ==> remembered(recents, entry)
            == seq![entry] + recents.filter(|e: RecentSourceView| e != entry),
        recents.no_duplicates() ==> remembered(recents, entry).no_duplicates(),
{
    let rest = without_recent(recents, entry);
    lemma_without_recent(recents, entry);
    lemma_without_is_filter(recents, entry);
    let all = seq![entry] + rest;
    assert forall|i: int| 1 <= i < all.len() implies #[trigger] all[i] != entry by {
        assert(all[i] == rest[i - 1]);
        assert(rest.contains(rest[i - 1]));
    }
    if recents.no_duplicates() {
        assert forall|i: int, j: int|
            0 <= i < all.len() && 0 <= j < all.len() && i != j implies all[i] != all[j] by {
            if i > 0 && j > 0 {
                assert(all[i] == rest[i - 1] && all[j] == rest[j - 1]);
            }
        }
    }
}

/// What is left once an entry is taken out is all that differs from it.
proof fn lemma_without_is_filter(recents: Seq<RecentSourceView>, entry: RecentSourceView)
    ensures
        without_recent(recents, entry) == recents.filter(|e: RecentSourceView| e != entry),
    decreases recents.len(),
{
    let differs = |e: RecentSourceView| e != entry;
    reveal_with_fuel(Seq::filter, 2);
    if recents.len() > 0 {
        let first = seq![recents[0]];
        let tail = recents.skip(1);
        lemma_without_is_filter(tail, entry);
        assert(recents =~= first + tail);
        Seq::filter_distributes_over_add(first, tail, differs);
        assert(first.drop_last() =~= Seq::<RecentSourceView>::empty());
        assert(first.filter(differs) =~= if recents[0] == entry {
            Seq::<RecentSourceView>::empty()
        } else {
            first
        });
        assert(without_recent(recents, entry) =~= first.filter(differs) + tail.filter(differs));
    }
}

/// What is left once an entry is taken out.
proof fn lemma_without_recent(recents: Seq<RecentSourceView>, entry: RecentSourceView)
    ensures
        forall|e: RecentSourceView| #[trigger]
            without_recent(recents, entry).contains(e) <==> recents.contains(e) && e != entry,
        recents.no_duplicates() ==> without_recent(recents, entry).no_duplicates(),
        without_recent(recents, entry).len() <= recents.len(),
    decreases recents.len(),
{
    if recents.len() > 0 {
        let tail = recents.skip(1);
        let rest = without_recent(tail, entry);
        lemma_without_recent(tail, entry);
        let w = without_recent(recents, entry);
        assert forall|e: RecentSourceView| #[trigger] w.contains(e) <==> recents.contains(e) && e
            != entry by {
            if w.contains(e) {
                let i = w.index_of(e);
                if recents[0] == entry {
                    assert(rest.contains(e));
                    let k = tail.index_of(e);
                    assert(recents[k + 1] == e);
                } else if i == 0 {
                    assert(recents[0] == e);
                } else {
                    assert(rest[i - 1] == e);
                    assert(rest.contains(e));
                    let k = tail.index_of(e);
                    assert(recents[k + 1] == e);
                }
            }
            if recents.contains(e) && e != entry {
                let k = recents.index_of(e);
                if k == 0 {
                    assert(w[0] == e);
                } else {
                    assert(tail[k - 1] == e);
                    assert(tail.contains(e));
                    assert(rest.contains(e));
                    let i = rest.index_of(e);
                    if recents[0] == entry {
                        assert(w[i] == e);
                    } else {
                        assert(w[i + 1] == e);
                    }
                }
            }
        }
        if recents.no_duplicates() {
            assert(tail.no_duplicates());
            if recents[0] != entry {
                assert forall|i: int, j: int|
                    0 <= i < w.len() && 0 <= j < w.len() && i != j implies w[i] != w[j] by {
                    if i == 0 {
                        assert(w[j] == rest[j - 1]);
                        assert(rest.contains(w[j]));
                        let k = tail.index_of(w[j]);
                        assert(recents[k + 1] == w[j]);
                    } else if j == 0 {
                        assert(w[i] == rest[i - 1]);
                        assert(rest.contains(w[i]));
                        let k = tail.index_of(w[i]);
                        assert(recents[k + 1] == w[i]);
                    } else {
                        assert(w[i] == rest[i - 1] && w[j] == rest[j - 1]);
                    }
                }
            }
        }
    }
}

/// Remembering an entry again changes nothing.
pub proof fn law_remembering_again(recents: Seq<RecentSourceView>, entry: RecentSourceView)
    ensures
        remembered(remembered(recents, entry), entry) == remembered(recents, entry),
{
    law_recent_sources(recents, entry);
    let once = remembered(recents, entry);
    let tail = once.skip(1);
    assert forall|i: int| 0 <= i < tail.len() implies tail[i] != entry by {
        assert(tail[i] == once[i + 1]);
    }
    lemma_without_absent(tail, entry);
    assert(without_recent(once, entry) == tail);
    assert(seq![entry] + tail =~= once);
}

/// Taking out what is not there changes nothing.
proof fn lemma_without_absent(recents: Seq<RecentSourceView>, entry: RecentSourceView)
    requires
        forall|i: int| 0 <= i < recents.len() ==> recents[i] != entry,
    ensures
        without_recent(recents, entry) == recents,
    decreases recents.len(),
{
    if recents.len() > 0 {
        let tail = recents.skip(1);
        assert forall|i: int| 0 <= i < tail.len() implies tail[i] != entry by {
            assert(tail[i] == recents[i + 1]);
        }
        lemma_without_absent(tail, entry);
        assert(seq![recents[0]] + tail =~= recents);
    }
}

/// A profile never asks for a repo that can be written to.
pub proof fn law_repo_profiles_are_read_only(
    options: MountOptions,
    profile: MountProfile,
    hf_token: Option<Seq<char>>,
)
    requires
        profile.source == GuiSource::Repo,
        has_profile_options(options, profile, hf_token),
    ensures
        options.read_only,
{
}

/// A profile never asks for an overlay, nor that other users be let in.
pub proof fn law_profiles_ask_for_no_overlay(options: MountOptions, is_repo: bool)
    requires
        has_other_defaults(options),
    ensures
        !options.overlay,
        setup::spec_read_only(options, is_repo) == (options.read_only || is_repo),
        setup::spec_fuse_owner_only(options),
{
}

/// White space around an id does not matter.
pub proof fn law_ids_are_trimmed(source: GuiSource, source_id: Seq<char>)
    ensures
        spec_source_id_problem(source, text::spec_trim(source_id)) == spec_source_id_problem(
            source,
            source_id,
        ),
{
    text::lemma_trim_ends(source_id);
}

} // verus!
