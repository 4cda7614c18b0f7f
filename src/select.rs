use crate::error::ResolveError;
use crate::text::{contains_text, has_char, text_contains};
use crate::version::{version_text, SemVer};
use vstd::prelude::*;

verus! {

/// One entry of a metadata feed: a version identifier and, where the feed
/// gives one, its boolean `stable` attribute (`None` when the attribute is
/// absent or not a boolean).
#[derive(Clone, Debug, PartialEq, Eq)]
pub struct VersionEntry {
    pub version: String,
    pub stable: Option<bool>,
}

/// Which feed entries a selection accepts.
#[derive(Clone, Copy, Debug, PartialEq, Eq)]
pub enum EntryPolicy {
    /// Entries whose `stable` attribute is `true`.
    Stable,
    /// Entries whose identifier holds no hyphen.
    Release,
    /// Every entry.
    Any,
}

/// Whether policy `p` accepts entry `e`.
pub open spec fn accepts(p: EntryPolicy, e: VersionEntry) -> bool {
    match p {
        EntryPolicy::Stable => e.stable == Some(true),
        EntryPolicy::Release => !e.version@.contains('-'),
        EntryPolicy::Any => true,
    }
}

/// Entry `i` is the first of `feed` that `p` accepts.
pub open spec fn is_first_accepted(feed: Seq<VersionEntry>, p: EntryPolicy, i: int) -> bool {
    &&& 0 <= i < feed.len()
    &&& accepts(p, feed[i])
    &&& forall|k: int| 0 <= k < i ==> !accepts(p, #[trigger] feed[k])
}

/// No entry of `feed` is accepted by `p`.
pub open spec fn none_accepted(feed: Seq<VersionEntry>, p: EntryPolicy) -> bool {
    forall|k: int| 0 <= k < feed.len() ==> !accepts(p, #[trigger] feed[k])
}

/// `v` is the identifier of the first entry of `feed` that `p` accepts.
pub open spec fn is_first_version(feed: Seq<VersionEntry>, p: EntryPolicy, v: Seq<char>) -> bool {
    exists|i: int| is_first_accepted(feed, p, i) && v == feed[i].version@
}

/// Version `i` is the first of `vs` whose build metadata holds `game`.
pub open spec fn is_first_build_match(vs: Seq<SemVer>, game: Seq<char>, i: int) -> bool {
    &&& 0 <= i < vs.len()
    &&& text_contains(vs[i].build@, game)
    &&& forall|k: int| 0 <= k < i ==> !text_contains(#[trigger] vs[k].build@, game)
}

impl EntryPolicy {
    /// Whether the policy accepts the entry.
    pub fn accepts(&self, e: &VersionEntry) -> (r: bool)
        ensures
            r == accepts(*self, *e),
    {
        match self {
            EntryPolicy::Stable => match e.stable {
                Some(b) => b,
                None => false,
            },
            EntryPolicy::Release => !has_char(e.version.as_str(), '-'),
            EntryPolicy::Any => true,
        }
    }
}

/// The index of the first entry of `feed`, in feed order, that `p` accepts.
pub fn find_first(feed: &Vec<VersionEntry>, p: EntryPolicy) -> (r: Option<usize>)
    ensures
        match r {
            Some(i) => is_first_accepted(feed@, p, i as int),
            None => none_accepted(feed@, p),
        },
{
    let mut i: usize = 0;
    while i < feed.len()
        invariant
            i <= feed.len(),
            forall|k: int| 0 <= k < i ==> !accepts(p, #[trigger] feed@[k]),
        decreases feed.len() - i,
    {
        if p.accepts(&feed[i]) {
            return Some(i);
        }
        i = i + 1;
    }
    None
}

/// The game version: `explicit` verbatim where given, else the first stable
/// entry of the game-version feed.
pub fn select_game(explicit: Option<String>, feed: &Vec<VersionEntry>) -> (r: Result<
    String,
    ResolveError,
>)
    ensures
        explicit matches Some(v) ==> r == Ok::<String, ResolveError>(v),
        explicit is None ==> (r is Ok <==> !none_accepted(feed@, EntryPolicy::Stable)),
        explicit is None ==> (r matches Ok(v) ==> is_first_version(
            feed@,
            EntryPolicy::Stable,
            v@,
        )),
        explicit is None ==> (r is Err ==> r == Err::<String, ResolveError>(
            ResolveError::NoStableVersion,
        )),
{
    match explicit {
        Some(v) => Ok(v),
        None => match find_first(feed, EntryPolicy::Stable) {
            Some(i) => Ok(feed[i].version.clone()),
            None => Err(ResolveError::NoStableVersion),
        },
    }
}

/// The loader version: the first entry of the loader feed whose identifier
/// holds no hyphen.
pub fn select_loader(feed: &Vec<VersionEntry>) -> (r: Result<String, ResolveError>)
    ensures
        r is Ok <==> !none_accepted(feed@, EntryPolicy::Release),
        r matches Ok(v) ==> is_first_version(feed@, EntryPolicy::Release, v@),
        r is Err ==> r == Err::<String, ResolveError>(ResolveError::NoLoaderFound),
{
    match find_first(feed, EntryPolicy::Release) {
        Some(i) => Ok(feed[i].version.clone()),
        None => Err(ResolveError::NoLoaderFound),
    }
}

/// The mappings version: the first entry of the mappings feed for the game
/// version `minecraft`.
pub fn select_mappings(feed: &Vec<VersionEntry>, minecraft: &str) -> (r: Result<
    String,
    ResolveError,
>)
    ensures
        feed.len() > 0 ==> (r matches Ok(v) && v@ == feed@[0].version@),
        feed.len() == 0 ==> (r matches Err(ResolveError::NoMappingsFound(m)) && m@
            == minecraft@),
{
    if feed.len() > 0 {
        Ok(feed[0].version.clone())
    } else {
        Err(ResolveError::NoMappingsFound(String::from_str(minecraft)))
    }
}

/// The build-tool plugin version: the first of a descending version list.
pub fn select_loom(versions: &Vec<SemVer>) -> (r: Result<String, ResolveError>)
    ensures
        versions.len() > 0 ==> (r matches Ok(v) && v@ == version_text(versions@[0]@)),
        versions.len() == 0 ==> r == Err::<String, ResolveError>(ResolveError::NoLoomVersion),
{
    if versions.len() > 0 {
        Ok(versions[0].to_text())
    } else {
        Err(ResolveError::NoLoomVersion)
    }
}

/// The compatibility-library version: the first of a descending version list
/// whose build metadata holds the game version; `None` where none does.
pub fn select_qfapi(versions: &Vec<SemVer>, minecraft: &str) -> (r: Option<String>)
    ensures
        match r {
            Some(v) => exists|i: int|
                is_first_build_match(versions@, minecraft@, i) && v@ == version_text(
                    versions@[i]@,
                ),
            None => forall|k: int|
                0 <= k < versions.len() ==> !text_contains(
                    #[trigger] versions@[k].build@,
                    minecraft@,
                ),
        },
{
    let mut i: usize = 0;
    while i < versions.len()
        invariant
            i <= versions.len(),
            forall|k: int| 0 <= k < i ==> !text_contains(#[trigger] versions@[k].build@, minecraft@),
        decreases versions.len() - i,
    {
        if contains_text(versions[i].build.as_str(), minecraft) {
            let t = versions[i].to_text();
            assert(is_first_build_match(versions@, minecraft@, i as int));
            return Some(t);
        }
        i = i + 1;
    }
    None
}

/// Selection by a policy is deterministic: a feed has at most one first
/// accepted entry.
pub proof fn lemma_first_accepted_unique(feed: Seq<VersionEntry>, p: EntryPolicy, i: int, j: int)
    requires
        is_first_accepted(feed, p, i),
        is_first_accepted(feed, p, j),
    ensures
        i == j,
{
    if i < j {
        assert(!accepts(p, feed[i]));
    } else if j < i {
        assert(!accepts(p, feed[j]));
    }
}

} // verus!
