use crate::catalog::{opt_view, Versions, VersionsView};
use crate::error::ResolveError;
use crate::select::{
    is_first_build_match, is_first_version, none_accepted, select_game, select_loader,
    select_loom, select_mappings, select_qfapi, EntryPolicy, VersionEntry,
};
use crate::text::{coordinate_path, dots_to_slashes, text_contains};
use crate::version::{
    all_parse, first_unparsed, is_descending, parse_descending, parsed_all, version_text, views,
    SemVerView,
};
use vstd::prelude::*;

verus! {

/// Package coordinate of the build-tool plugin.
pub const LOOM_COORDINATE: &'static str = "org.quiltmc.loom";

/// Package coordinate of the compatibility library.
pub const QFAPI_COORDINATE: &'static str = "org.quiltmc.quilted-fabric-api.quilted-fabric-api";

/// A document that the resolver needs fetched next.
#[derive(Clone, Debug, PartialEq, Eq)]
pub enum Request {
    /// The metadata feed at this path below the metadata base.
    Meta(String),
    /// The package index of the artifact at this repository path below the
    /// repository base.
    Maven(String),
}

/// The lookup that the resolver is waiting on.
#[derive(Clone, Copy, Debug, PartialEq, Eq)]
pub enum Stage {
    Game,
    Loader,
    Mappings,
    Loom,
    Qfapi,
}

/// The state of one resolution: the versions chosen so far and the lookup
/// that comes next. Lookups run in the order game, loader, mappings,
/// build-tool plugin, compatibility library.
#[derive(Debug)]
pub struct Resolver {
    stage: Stage,
    minecraft: String,
    loader: String,
    mappings: String,
    loom: String,
}

/// The mathematical value of a `Resolver`.
pub ghost struct ResolverView {
    pub stage: Stage,
    pub minecraft: Seq<char>,
    pub loader: Seq<char>,
    pub mappings: Seq<char>,
    pub loom: Seq<char>,
}

impl View for Resolver {
    type V = ResolverView;

    closed spec fn view(&self) -> ResolverView {
        ResolverView {
            stage: self.stage,
            minecraft: self.minecraft@,
            loader: self.loader@,
            mappings: self.mappings@,
            loom: self.loom@,
        }
    }
}

/// What a step of the resolver leads to.
#[derive(Debug)]
pub enum Progress {
    /// Fetch the request and hand its result to the resolver.
    Next(Resolver, Request),
    /// Every lookup is done.
    Done(Versions),
}

/// Whether a request is for the metadata feed, and its path.
pub open spec fn request_view(q: Request) -> (bool, Seq<char>) {
    match q {
        Request::Meta(p) => (true, p@),
        Request::Maven(p) => (false, p@),
    }
}

/// The request that a resolver in state `v` waits on.
pub open spec fn request_for(v: ResolverView) -> (bool, Seq<char>) {
    match v.stage {
        Stage::Game => (true, "game"@),
        Stage::Loader => (true, "loader"@),
        Stage::Mappings => (true, "quilt-mappings/"@ + v.minecraft),
        Stage::Loom => (false, dots_to_slashes(LOOM_COORDINATE@)),
        Stage::Qfapi => (false, dots_to_slashes(QFAPI_COORDINATE@)),
    }
}

/// The state after the lookup of `v.stage` chose `pick`.
pub open spec fn after_pick(v: ResolverView, pick: Seq<char>) -> ResolverView {
    match v.stage {
        Stage::Game => ResolverView { stage: Stage::Loader, minecraft: pick, ..v },
        Stage::Loader => ResolverView { stage: Stage::Mappings, loader: pick, ..v },
        Stage::Mappings => ResolverView { stage: Stage::Loom, mappings: pick, ..v },
        Stage::Loom => ResolverView { stage: Stage::Qfapi, loom: pick, ..v },
        Stage::Qfapi => v,
    }
}

/// Stage `s` waits on a metadata feed rather than a package index.
pub open spec fn waits_on_feed(s: Stage) -> bool {
    s == Stage::Game || s == Stage::Loader || s == Stage::Mappings
}

/// The metadata feed `feed` has an entry for stage `s` to choose.
pub open spec fn feed_has_pick(s: Stage, feed: Seq<VersionEntry>) -> bool {
    match s {
        Stage::Game => !none_accepted(feed, EntryPolicy::Stable),
        Stage::Loader => !none_accepted(feed, EntryPolicy::Release),
        _ => feed.len() > 0,
    }
}

/// `pick` is the entry that stage `s` chooses from a metadata feed.
pub open spec fn feed_pick(s: Stage, feed: Seq<VersionEntry>, pick: Seq<char>) -> bool {
    match s {
        Stage::Game => is_first_version(feed, EntryPolicy::Stable, pick),
        Stage::Loader => is_first_version(feed, EntryPolicy::Release, pick),
        _ => feed.len() > 0 && pick == feed[0].version@,
    }
}

/// `e` is the error for a resolver in state `v` whose metadata feed has no
/// entry to choose.
pub open spec fn feed_error(v: ResolverView, e: ResolveError) -> bool {
    match v.stage {
        Stage::Game => e == ResolveError::NoStableVersion,
        Stage::Loader => e == ResolveError::NoLoaderFound,
        _ => e matches ResolveError::NoMappingsFound(m) && m@ == v.minecraft,
    }
}

/// `vs` is the descending order of the versions that `texts` denote.
pub open spec fn is_descending_of(vs: Seq<SemVerView>, texts: Seq<String>) -> bool {
    is_descending(vs) && vs.to_multiset() == parsed_all(texts).to_multiset()
}

/// `q` is the compatibility-library choice from the descending versions `vs`
/// for the game version `game`.
pub open spec fn qfapi_pick(vs: Seq<SemVerView>, game: Seq<char>, q: Option<Seq<char>>) -> bool {
    match q {
        Some(t) => exists|i: int|
            0 <= i < vs.len() && text_contains(vs[i].build, game) && (forall|k: int|
                0 <= k < i ==> !text_contains(#[trigger] vs[k].build, game)) && t == version_text(
                vs[i],
            ),
        None => forall|k: int| 0 <= k < vs.len() ==> !text_contains(#[trigger] vs[k].build, game),
    }
}

/// The game, loader, mappings and build-tool plugin versions held by `v` are
/// all non-empty.
pub open spec fn complete(v: ResolverView) -> bool {
    v.minecraft.len() > 0 && v.loader.len() > 0 && v.mappings.len() > 0 && v.loom.len() > 0
}

/// The package index `texts`, handed to a resolver in state `v`, leads on to
/// the next state or to the snapshot.
pub open spec fn index_succeeds(v: ResolverView, texts: Seq<String>) -> bool {
    all_parse(texts) && match v.stage {
        Stage::Loom => texts.len() > 0,
        _ => complete(v),
    }
}

/// `e` is the error for the package index `texts`, handed to a resolver in
/// state `v`, where it does not lead on.
pub open spec fn index_error(v: ResolverView, texts: Seq<String>, e: ResolveError) -> bool {
    if !all_parse(texts) {
        first_unparsed(texts, e)
    } else if v.stage == Stage::Loom {
        texts.len() == 0 && e == ResolveError::NoLoomVersion
    } else {
        !complete(v) && e == ResolveError::EmptyVersion
    }
}

/// The request that a resolver at `stage` with game version `minecraft` waits on.
fn request_of(stage: Stage, minecraft: &str) -> (q: Request)
    ensures
        request_view(q) == request_for(
            ResolverView {
                stage,
                minecraft: minecraft@,
                loader: Seq::empty(),
                mappings: Seq::empty(),
                loom: Seq::empty(),
            },
        ),
{
    match stage {
        Stage::Game => Request::Meta(String::from_str("game")),
        Stage::Loader => Request::Meta(String::from_str("loader")),
        Stage::Mappings => {
            let mut p = String::from_str("quilt-mappings/");
            p.append(minecraft);
            Request::Meta(p)
        },
        Stage::Loom => Request::Maven(coordinate_path(LOOM_COORDINATE)),
        Stage::Qfapi => Request::Maven(coordinate_path(QFAPI_COORDINATE)),
    }
}

impl Resolver {
    /// Starts a resolution. An explicit game version is taken verbatim and
    /// the game-version lookup skipped.
    pub fn start(explicit: Option<String>) -> (r: (Resolver, Request))
        ensures
            explicit is None ==> r.0@.stage == Stage::Game,
            explicit matches Some(v) ==> r.0@.stage == Stage::Loader && r.0@.minecraft == v@,
            request_view(r.1) == request_for(r.0@),
    {
        let (stage, minecraft) = match explicit {
            Some(v) => (Stage::Loader, v),
            None => (Stage::Game, String::new()),
        };
        let q = request_of(stage, minecraft.as_str());
        let r = Resolver {
            stage,
            minecraft,
            loader: String::new(),
            mappings: String::new(),
            loom: String::new(),
        };
        (r, q)
    }

    /// The lookup that the resolver waits on.
    pub fn stage(&self) -> (r: Stage)
        ensures
            r == self@.stage,
    {
        self.stage
    }

    /// The game version chosen so far (empty before the game-version lookup).
    pub fn minecraft(&self) -> (r: &str)
        ensures
            r@ == self@.minecraft,
    {
        self.minecraft.as_str()
    }

    /// Takes the decoded metadata feed that the game, loader or mappings
    /// lookup requested, and chooses from it.
    pub fn on_feed(self, feed: &Vec<VersionEntry>) -> (r: Result<Progress, ResolveError>)
        requires
            waits_on_feed(self@.stage),
        ensures
            r is Ok <==> feed_has_pick(self@.stage, feed@),
            r matches Ok(p) ==> exists|pick: Seq<char>|
                feed_pick(self@.stage, feed@, pick) && (p matches Progress::Next(n, q) && n@
                    == after_pick(self@, pick) && request_view(q) == request_for(n@)),
            r matches Err(e) ==> feed_error(self@, e),
    {
        let Resolver { stage, minecraft, loader, mappings, loom } = self;
        let ghost old_view = ResolverView {
            stage,
            minecraft: minecraft@,
            loader: loader@,
            mappings: mappings@,
            loom: loom@,
        };
        let next = match stage {
            Stage::Game => {
                let m = select_game(None, feed)?;
                Resolver { stage: Stage::Loader, minecraft: m, loader, mappings, loom }
            },
            Stage::Loader => {
                let l = select_loader(feed)?;
                Resolver { stage: Stage::Mappings, minecraft, loader: l, mappings, loom }
            },
            _ => {
                let m = select_mappings(feed, minecraft.as_str())?;
                Resolver { stage: Stage::Loom, minecraft, loader, mappings: m, loom }
            },
        };
        let q = request_of(next.stage, next.minecraft.as_str());
        let ghost pick = match stage {
            Stage::Game => next.minecraft@,
            Stage::Loader => next.loader@,
            _ => next.mappings@,
        };
        assert(feed_pick(old_view.stage, feed@, pick));
        assert(next@ == after_pick(old_view, pick));
        Ok(Progress::Next(next, q))
    }
    /// Takes the raw version texts of the package index that the build-tool
    /// plugin or compatibility-library lookup requested, orders them from the
    /// highest precedence down and chooses from them.
    pub fn on_index(self, texts: &Vec<String>) -> (r: Result<Progress, ResolveError>)
        requires
            self@.stage == Stage::Loom || self@.stage == Stage::Qfapi,
        ensures
            r is Ok <==> index_succeeds(self@, texts@),
            r matches Ok(p) ==> self@.stage == Stage::Loom ==> exists|vs: Seq<SemVerView>|
                is_descending_of(vs, texts@) && vs.len() > 0 && (p matches Progress::Next(n, q)
                    && n@ == after_pick(self@, version_text(vs[0])) && request_view(q)
                    == request_for(n@)),
            r matches Ok(p) ==> self@.stage == Stage::Qfapi ==> exists|
                vs: Seq<SemVerView>,
                qf: Option<Seq<char>>,
            |
                is_descending_of(vs, texts@) && qfapi_pick(vs, self@.minecraft, qf) && (
                p matches Progress::Done(v) && v@ == (VersionsView {
                    minecraft: self@.minecraft,
                    loader: self@.loader,
                    mappings: self@.mappings,
                    loom: self@.loom,
                    qfapi: qf,
                })),
            r matches Err(e) ==> index_error(self@, texts@, e),
    {
        broadcast use vstd::seq_lib::group_to_multiset_ensures;

        let Resolver { stage, minecraft, loader, mappings, loom } = self;
        let ghost old_view = ResolverView {
            stage,
            minecraft: minecraft@,
            loader: loader@,
            mappings: mappings@,
            loom: loom@,
        };
        let versions = parse_descending(texts)?;
        let ghost vs = views(versions@);
        assert(vs.len() == texts.len()) by {
            assert(vs.to_multiset().len() == parsed_all(texts@).to_multiset().len());
        }
        match stage {
            Stage::Loom => {
                let l = select_loom(&versions)?;
                let next = Resolver { stage: Stage::Qfapi, minecraft, loader, mappings, loom: l };
                let q = request_of(next.stage, next.minecraft.as_str());
                assert(vs[0] == versions@[0]@);
                assert(next@ == after_pick(old_view, version_text(vs[0])));
                assert(is_descending_of(vs, texts@));
                assert(request_view(q) == request_for(next@));
                let r = Progress::Next(next, q);
                assert(r matches Progress::Next(n, q) && n@ == after_pick(
                    old_view,
                    version_text(vs[0]),
                ) && request_view(q) == request_for(n@));
                Ok(r)
            },
            _ => {
                let qf = select_qfapi(&versions, minecraft.as_str());
                let ghost qv = opt_view(qf);
                proof {
                    match qv {
                        Some(t) => {
                            let i = choose|i: int|
                                is_first_build_match(versions@, minecraft@, i) && t
                                    == version_text(versions@[i]@);
                            assert(vs[i] == versions@[i]@);
                            assert forall|k: int| 0 <= k < i implies !text_contains(
                                #[trigger] vs[k].build,
                                minecraft@,
                            ) by {
                                assert(vs[k] == versions@[k]@);
                                assert(!text_contains(versions@[k].build@, minecraft@));
                            }
                        },
                        None => {
                            assert forall|k: int| 0 <= k < vs.len() implies !text_contains(
                                #[trigger] vs[k].build,
                                minecraft@,
                            ) by {
                                assert(vs[k] == versions@[k]@);
                                assert(!text_contains(versions@[k].build@, minecraft@));
                            }
                        },
                    }
                }
                assert(qfapi_pick(vs, minecraft@, qv));
                let v = Versions::new(minecraft, loader, mappings, loom, qf)?;
                Ok(Progress::Done(v))
            },
        }
    }
}

} // verus!
