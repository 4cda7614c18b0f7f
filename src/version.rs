use crate::error::ResolveError;
use crate::text::{decimal, push_decimal};
use core::cmp::Ordering;
use vstd::prelude::*;

verus! {

#[verifier::external_type_specification]
#[verifier::external_body]
pub struct ExSemverError(semver::Error);

/// The major, minor and patch numbers, pre-release and build metadata that
/// `semver::Version::parse` reads from a text, or `None` where it refuses it.
pub uninterp spec fn semver_parts(text: Seq<char>) -> Option<(u64, u64, u64, Seq<char>, Seq<char>)>;

/// How `semver::Prerelease` orders two pre-release texts.
pub uninterp spec fn prerelease_order(a: Seq<char>, b: Seq<char>) -> Ordering;

/// A semantic version: `major.minor.patch`, an optional pre-release and
/// optional build metadata (empty texts when absent).
#[derive(Clone, Debug, PartialEq, Eq)]
pub struct SemVer {
    pub major: u64,
    pub minor: u64,
    pub patch: u64,
    pub pre: String,
    pub build: String,
}

/// The mathematical value of a `SemVer`.
pub ghost struct SemVerView {
    pub major: u64,
    pub minor: u64,
    pub patch: u64,
    pub pre: Seq<char>,
    pub build: Seq<char>,
}

impl View for SemVer {
    type V = SemVerView;

    open spec fn view(&self) -> SemVerView {
        SemVerView {
            major: self.major,
            minor: self.minor,
            patch: self.patch,
            pre: self.pre@,
            build: self.build@,
        }
    }
}

/// The version that `text` denotes, where it is a valid semantic version.
pub open spec fn parsed(text: Seq<char>) -> Option<SemVerView> {
    match semver_parts(text) {
        Some(p) => Some(SemVerView { major: p.0, minor: p.1, patch: p.2, pre: p.3, build: p.4 }),
        None => None,
    }
}

/// The ordering seen from the other side.
pub open spec fn reversed(o: Ordering) -> Ordering {
    match o {
        Ordering::Less => Ordering::Greater,
        Ordering::Equal => Ordering::Equal,
        Ordering::Greater => Ordering::Less,
    }
}

/// How two numbers compare.
pub open spec fn compare_numbers(a: u64, b: u64) -> Ordering {
    if a < b {
        Ordering::Less
    } else if a > b {
        Ordering::Greater
    } else {
        Ordering::Equal
    }
}

/// Semantic-version precedence: major, minor, patch, then pre-release; build
/// metadata takes no part.
#[verifier::opaque]
pub open spec fn precedence(a: SemVerView, b: SemVerView) -> Ordering {
    if a.major != b.major {
        compare_numbers(a.major, b.major)
    } else if a.minor != b.minor {
        compare_numbers(a.minor, b.minor)
    } else if a.patch != b.patch {
        compare_numbers(a.patch, b.patch)
    } else {
        prerelease_order(a.pre, b.pre)
    }
}

/// Each version ranks at or above the one after it.
pub open spec fn is_descending(s: Seq<SemVerView>) -> bool {
    forall|i: int| 0 <= i < s.len() - 1 ==> #[trigger] precedence(s[i], s[i + 1]) != Ordering::Less
}

/// The values of a sequence of versions.
pub open spec fn views(s: Seq<SemVer>) -> Seq<SemVerView> {
    s.map_values(|v: SemVer| v@)
}

/// The versions that the texts denote, where each is valid.
pub open spec fn parsed_all(texts: Seq<String>) -> Seq<SemVerView> {
    texts.map_values(|t: String| parsed(t@)->0)
}

/// Every text is a valid semantic version.
pub open spec fn all_parse(texts: Seq<String>) -> bool {
    forall|i: int| 0 <= i < texts.len() ==> (#[trigger] parsed(texts[i]@)) is Some
}

/// `e` is the decode error for the first of `texts` that is not a valid
/// semantic version.
pub open spec fn first_unparsed(texts: Seq<String>, e: ResolveError) -> bool {
    exists|i: int|
        0 <= i < texts.len() && parsed(texts[i]@) is None && (forall|k: int|
            0 <= k < i ==> parsed(texts[k]@) is Some) && e == ResolveError::Decode(texts[i])
}

/// The canonical text of a version: `major.minor.patch[-pre][+build]`.
pub open spec fn version_text(v: SemVerView) -> Seq<char> {
    decimal(v.major as nat) + seq!['.'] + decimal(v.minor as nat) + seq!['.'] + decimal(
        v.patch as nat,
    ) + (if v.pre.len() == 0 {
        Seq::empty()
    } else {
        seq!['-'] + v.pre
    }) + (if v.build.len() == 0 {
        Seq::empty()
    } else {
        seq!['+'] + v.build
    })
}

/// Relies on `semver::Version::parse`, which reads the five parts of a
/// version or refuses the text.
#[verifier::external_body]
fn parse_semver(text: &str) -> (r: Result<SemVer, semver::Error>)
    ensures
        r is Ok <==> semver_parts(text@) is Some,
        r matches Ok(v) ==> semver_parts(text@) == Some((v.major, v.minor, v.patch, v.pre@, v.build@)),
{
    let v = semver::Version::parse(text)?;
    Ok(SemVer {
        major: v.major,
        minor: v.minor,
        patch: v.patch,
        pre: v.pre.as_str().to_string(),
        build: v.build.as_str().to_string(),
    })
}

/// Relies on the `Ord` of `semver::Prerelease`, which is antisymmetric as `Ord`
/// requires. A text that `semver::Prerelease::new` refuses stands for the empty
/// pre-release.
#[verifier::external_body]
fn compare_prerelease(a: &str, b: &str) -> (r: Ordering)
    ensures
        r == prerelease_order(a@, b@),
        prerelease_order(b@, a@) == reversed(r),
{
    let a = match semver::Prerelease::new(a) {
        Ok(p) => p,
        Err(_) => semver::Prerelease::EMPTY,
    };
    let b = match semver::Prerelease::new(b) {
        Ok(p) => p,
        Err(_) => semver::Prerelease::EMPTY,
    };
    a.cmp(&b)
}

/// How two numbers compare.
fn compare_u64(a: u64, b: u64) -> (r: Ordering)
    ensures
        r == compare_numbers(a, b),
{
    if a < b {
        Ordering::Less
    } else if a > b {
        Ordering::Greater
    } else {
        Ordering::Equal
    }
}

/// Whether an ordering is `Less`.
fn is_less(o: Ordering) -> (r: bool)
    ensures
        r == (o == Ordering::Less),
{
    match o {
        Ordering::Less => true,
        _ => false,
    }
}

impl SemVer {
    /// Parses a semantic version; a text that is not one is a decode error
    /// that carries the text.
    pub fn parse(text: &str) -> (r: Result<SemVer, ResolveError>)
        ensures
            match parsed(text@) {
                Some(v) => r matches Ok(s) && s@ == v,
                None => r matches Err(ResolveError::Decode(t)) && t@ == text@,
            },
    {
        match parse_semver(text) {
            Ok(v) => Ok(v),
            Err(_) => Err(ResolveError::Decode(String::from_str(text))),
        }
    }

    /// Compares two versions by precedence, ignoring build metadata.
    pub fn cmp_precedence(&self, other: &SemVer) -> (r: Ordering)
        ensures
            r == precedence(self@, other@),
            precedence(other@, self@) == reversed(r),
    {
        reveal(precedence);
        if self.major != other.major {
            compare_u64(self.major, other.major)
        } else if self.minor != other.minor {
            compare_u64(self.minor, other.minor)
        } else if self.patch != other.patch {
            compare_u64(self.patch, other.patch)
        } else {
            compare_prerelease(self.pre.as_str(), other.pre.as_str())
        }
    }

    /// The canonical text of the version.
    pub fn to_text(&self) -> (r: String)
        ensures
            r@ == version_text(self@),
    {
        proof {
            reveal_strlit(".");
            reveal_strlit("-");
            reveal_strlit("+");
        }
        let mut out = String::new();
        push_decimal(&mut out, self.major);
        out.append(".");
        push_decimal(&mut out, self.minor);
        out.append(".");
        push_decimal(&mut out, self.patch);
        if !self.pre.as_str().is_empty() {
            out.append("-");
            out.append(self.pre.as_str());
        }
        if !self.build.as_str().is_empty() {
            out.append("+");
            out.append(self.build.as_str());
        }
        assert(out@ =~= version_text(self@));
        out
    }
}

/// Inserts `v` into a descending list, after every version that ranks at or
/// above it, so that the list stays descending.
fn insert_descending(out: &mut Vec<SemVer>, v: SemVer)
    requires
        is_descending(views(old(out)@)),
    ensures
        is_descending(views(final(out)@)),
        views(final(out)@).to_multiset() == views(old(out)@).to_multiset().insert(v@),
{
    let mut j: usize = 0;
    while j < out.len() && !is_less(out[j].cmp_precedence(&v))
        invariant
            j <= out.len(),
            forall|k: int| 0 <= k < j ==> precedence(out@[k]@, v@) != Ordering::Less,
        decreases out.len() - j,
    {
        j = j + 1;
    }
    proof {
        if j < out.len() {
            assert(precedence(v@, out@[j as int]@) == Ordering::Greater);
        }
    }
    let ghost before = views(out@);
    let ghost vv = v@;
    out.insert(j, v);
    proof {
        let after = views(out@);
        assert(after =~= before.insert(j as int, vv));
        vstd::seq_lib::to_multiset_insert(before, j as int, vv);
        assert(forall|k: int| 0 <= k < j ==> after[k] == before[k]);
        assert(forall|k: int| j < k < after.len() ==> after[k] == before[k - 1]);
        assert(after[j as int] == vv);
        assert forall|k: int| 0 <= k < after.len() - 1 implies #[trigger] precedence(
            after[k],
            after[k + 1],
        ) != Ordering::Less by {
            if k < j - 1 {
                assert(precedence(before[k], before[k + 1]) != Ordering::Less);
            } else if k == j - 1 {
                assert(precedence(before[k], vv) != Ordering::Less);
            } else if k == j {
                assert(precedence(vv, before[k]) == Ordering::Greater);
            } else {
                assert(precedence(before[k - 1], before[(k - 1) + 1]) != Ordering::Less);
            }
        }
    }
}

/// Parses every text as a semantic version and returns the versions from the
/// highest precedence down. Fails on the first text that does not parse.
pub fn parse_descending(texts: &Vec<String>) -> (r: Result<Vec<SemVer>, ResolveError>)
    ensures
        r is Ok <==> all_parse(texts@),
        r matches Ok(vs) ==> is_descending(views(vs@)) && views(vs@).to_multiset()
            == parsed_all(texts@).to_multiset(),
        r matches Err(e) ==> first_unparsed(texts@, e),
{
    let mut out: Vec<SemVer> = Vec::new();
    let mut i: usize = 0;
    assert(views(out@) =~= parsed_all(texts@.take(0)));
    while i < texts.len()
        invariant
            i <= texts.len(),
            forall|k: int| 0 <= k < i ==> (#[trigger] parsed(texts@[k]@)) is Some,
            is_descending(views(out@)),
            views(out@).to_multiset() == parsed_all(texts@.take(i as int)).to_multiset(),
        decreases texts.len() - i,
    {
        let v = match SemVer::parse(texts[i].as_str()) {
            Ok(v) => v,
            Err(_) => {
                return Err(ResolveError::Decode(texts[i].clone()));
            },
        };
        proof {
            let p = parsed_all(texts@.take(i as int));
            assert(parsed_all(texts@.take(i + 1)) =~= p.push(v@));
            vstd::seq_lib::to_multiset_build(p, v@);
        }
        insert_descending(&mut out, v);
        i = i + 1;
    }
    assert(texts@.take(i as int) =~= texts@);
    Ok(out)
}

} // verus!
