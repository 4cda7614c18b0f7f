use crate::error::ResolveError;
use crate::text::{occurs_at, starts_with, text_contains};
use vstd::prelude::*;

verus! {

/// The compatibility-library entry of the catalog's `[libraries]` table.
pub const QFAPI_LIBRARY: &'static str = "quilted_fabric_api = { module = \"org.quiltmc.quilted-fabric-api:quilted-fabric-api\", version.ref = \"quilted_fabric_api\" }";

/// A resolved toolchain snapshot. Every version but the optional
/// compatibility-library one is a non-empty text.
#[derive(Debug)]
pub struct Versions {
    minecraft: String,
    loader: String,
    mappings: String,
    loom: String,
    qfapi: Option<String>,
}

/// The mathematical value of a `Versions` snapshot.
pub ghost struct VersionsView {
    pub minecraft: Seq<char>,
    pub loader: Seq<char>,
    pub mappings: Seq<char>,
    pub loom: Seq<char>,
    pub qfapi: Option<Seq<char>>,
}

/// The text of an optional string.
pub open spec fn opt_view(o: Option<String>) -> Option<Seq<char>> {
    match o {
        Some(s) => Some(s@),
        None => None,
    }
}

impl View for Versions {
    type V = VersionsView;

    closed spec fn view(&self) -> VersionsView {
        VersionsView {
            minecraft: self.minecraft@,
            loader: self.loader@,
            mappings: self.mappings@,
            loom: self.loom@,
            qfapi: opt_view(self.qfapi),
        }
    }
}

impl Versions {
    #[verifier::type_invariant]
    spec fn well_formed(&self) -> bool {
        &&& self.minecraft@.len() > 0
        &&& self.loader@.len() > 0
        &&& self.mappings@.len() > 0
        &&& self.loom@.len() > 0
    }

    /// Assembles a snapshot; fails with `EmptyVersion` where one of the four
    /// required versions is empty.
    pub fn new(
        minecraft: String,
        loader: String,
        mappings: String,
        loom: String,
        qfapi: Option<String>,
    ) -> (r: Result<Versions, ResolveError>)
        ensures
            r is Ok <==> (minecraft@.len() > 0 && loader@.len() > 0 && mappings@.len() > 0
                && loom@.len() > 0),
            r matches Ok(v) ==> v@ == (VersionsView {
                minecraft: minecraft@,
                loader: loader@,
                mappings: mappings@,
                loom: loom@,
                qfapi: opt_view(qfapi),
            }),
            r is Err ==> r == Err::<Versions, ResolveError>(ResolveError::EmptyVersion),
    {
        if minecraft.as_str().is_empty() || loader.as_str().is_empty()
            || mappings.as_str().is_empty() || loom.as_str().is_empty() {
            Err(ResolveError::EmptyVersion)
        } else {
            Ok(Versions { minecraft, loader, mappings, loom, qfapi })
        }
    }
}

/// The lines joined by newlines, with none after the last.
pub open spec fn join_lines(lines: Seq<Seq<char>>) -> Seq<char>
    decreases lines.len(),
{
    if lines.len() == 0 {
        Seq::empty()
    } else if lines.len() == 1 {
        lines[0]
    } else {
        join_lines(lines.drop_last()) + seq!['\n'] + lines.last()
    }
}

/// The `[versions]` line of the compatibility library, or an advisory comment
/// where no compatible version is known.
pub open spec fn qfapi_version_line(q: Option<Seq<char>>) -> Seq<char> {
    match q {
        Some(q) => "quilted_fabric_api = \""@ + q + "\""@,
        None => "# Compatible Quilted Fabric API not found; check manually."@,
    }
}

/// The library entry of the compatibility library, commented out where no
/// compatible version is known.
pub open spec fn qfapi_library_line(q: Option<Seq<char>>) -> Seq<char> {
    match q {
        Some(_) => QFAPI_LIBRARY@,
        None => "# "@ + QFAPI_LIBRARY@,
    }
}

/// The lines of the catalog for a snapshot.
pub open spec fn catalog_lines(v: VersionsView) -> Seq<Seq<char>> {
    seq![
        "[versions]"@,
        "minecraft = \""@ + v.minecraft + "\""@,
        "quilt_loader = \""@ + v.loader + "\""@,
        "quilt_mappings = \""@ + v.mappings + "\""@,
        Seq::empty(),
        qfapi_version_line(v.qfapi),
        Seq::empty(),
        "[libraries]"@,
        "minecraft = { module = \"com.mojang:minecraft\", version.ref = \"minecraft\" }"@,
        "quilt_loader = { module = \"org.quiltmc:quilt-loader\", version.ref = \"quilt_loader\" }"@,
        "quilt_mappings = { module = \"org.quiltmc:quilt-mappings\", version.ref = \"quilt_mappings\" }"@,
        "        "@,
        qfapi_library_line(v.qfapi),
        Seq::empty(),
        "[plugins]"@,
        "quilt_loom = { id = \"org.quiltmc.loom\", version = \""@ + v.loom + "\" }"@,
    ]
}

/// `a`, `b` and `c` in a row.
fn concat3(a: &str, b: &str, c: &str) -> (r: String)
    ensures
        r@ == a@ + b@ + c@,
{
    let mut s = String::from_str(a);
    s.append(b);
    s.append(c);
    s
}

/// The lines of a sequence of texts.
pub open spec fn line_views(lines: Seq<String>) -> Seq<Seq<char>> {
    lines.map_values(|l: String| l@)
}

/// Joins lines with newlines.
fn join(lines: &Vec<String>) -> (r: String)
    ensures
        r@ == join_lines(line_views(lines@)),
{
    let mut out = String::new();
    if lines.len() == 0 {
        return out;
    }
    out.append(lines[0].as_str());
    let mut i: usize = 1;
    assert(line_views(lines@).take(1) =~= seq![lines@[0]@]);
    while i < lines.len()
        invariant
            1 <= i <= lines.len(),
            out@ == join_lines(line_views(lines@).take(i as int)),
        decreases lines.len() - i,
    {
        proof {
            reveal_strlit("\n");
            let t = line_views(lines@).take(i + 1);
            assert(t.drop_last() =~= line_views(lines@).take(i as int));
        }
        out.append("\n");
        out.append(lines[i].as_str());
        i = i + 1;
    }
    assert(line_views(lines@).take(i as int) =~= line_views(lines@));
    out
}

/// Renders a snapshot as a Gradle version catalog with `[versions]`,
/// `[libraries]` and `[plugins]` tables.
pub fn format_gradle_catalog(v: &Versions) -> (r: String)
    ensures
        r@ == join_lines(catalog_lines(v@)),
{
    let mut lines: Vec<String> = Vec::new();
    lines.push(String::from_str("[versions]"));
    lines.push(concat3("minecraft = \"", v.minecraft.as_str(), "\""));
    lines.push(concat3("quilt_loader = \"", v.loader.as_str(), "\""));
    lines.push(concat3("quilt_mappings = \"", v.mappings.as_str(), "\""));
    lines.push(String::new());
    match &v.qfapi {
        Some(q) => lines.push(concat3("quilted_fabric_api = \"", q.as_str(), "\"")),
        None => lines.push(
            String::from_str("# Compatible Quilted Fabric API not found; check manually."),
        ),
    }
    lines.push(String::new());
    lines.push(String::from_str("[libraries]"));
    lines.push(
        String::from_str(
            "minecraft = { module = \"com.mojang:minecraft\", version.ref = \"minecraft\" }",
        ),
    );
    lines.push(
        String::from_str(
            "quilt_loader = { module = \"org.quiltmc:quilt-loader\", version.ref = \"quilt_loader\" }",
        ),
    );
    lines.push(
        String::from_str(
            "quilt_mappings = { module = \"org.quiltmc:quilt-mappings\", version.ref = \"quilt_mappings\" }",
        ),
    );
    lines.push(String::from_str("        "));
    match &v.qfapi {
        Some(_) => lines.push(String::from_str(QFAPI_LIBRARY)),
        None => lines.push(concat3("# ", QFAPI_LIBRARY, "")),
    }
    lines.push(String::new());
    lines.push(String::from_str("[plugins]"));
    lines.push(concat3("quilt_loom = { id = \"org.quiltmc.loom\", version = \"", v.loom.as_str(), "\" }"));
    proof {
        reveal_strlit("");
    }
    assert(line_views(lines@) =~= catalog_lines(v@));
    join(&lines)
}

/// Line `i` of `lines` is an uncommented compatibility-library line that holds
/// the text `q`.
pub open spec fn holds_qfapi_version(lines: Seq<Seq<char>>, q: Seq<char>, i: int) -> bool {
    &&& 0 <= i < lines.len()
    &&& starts_with(lines[i], "quilted_fabric_api"@)
    &&& text_contains(lines[i], q)
}

/// A text that differs from `p` at a position of `p` does not begin with `p`.
proof fn lemma_differs_at(s: Seq<char>, p: Seq<char>, k: int)
    requires
        0 <= k < p.len(),
        k < s.len(),
        s[k] != p[k],
    ensures
        !starts_with(s, p),
{
    if starts_with(s, p) {
        assert(s.subrange(0, p.len() as int)[k] == p[k]);
    }
}

/// Every line of the catalog but the two compatibility-library lines begins
/// with something other than `quilted_fabric_api`.
proof fn lemma_other_lines(v: VersionsView, i: int)
    requires
        0 <= i < 16,
        i != 5,
        i != 12,
    ensures
        !starts_with(catalog_lines(v)[i], "quilted_fabric_api"@),
{
    let lines = catalog_lines(v);
    let p = "quilted_fabric_api"@;
    reveal_strlit("quilted_fabric_api");
    reveal_strlit("minecraft = \"");
    reveal_strlit("quilt_loader = \"");
    reveal_strlit("quilt_mappings = \"");
    reveal_strlit("\"");
    reveal_strlit("[versions]");
    reveal_strlit("[libraries]");
    reveal_strlit("[plugins]");
    reveal_strlit("        ");
    reveal_strlit("minecraft = { module = \"com.mojang:minecraft\", version.ref = \"minecraft\" }");
    reveal_strlit(
        "quilt_loader = { module = \"org.quiltmc:quilt-loader\", version.ref = \"quilt_loader\" }",
    );
    reveal_strlit(
        "quilt_mappings = { module = \"org.quiltmc:quilt-mappings\", version.ref = \"quilt_mappings\" }",
    );
    reveal_strlit("quilt_loom = { id = \"org.quiltmc.loom\", version = \"");
    reveal_strlit("\" }");
    if i == 1 || i == 8 {
        lemma_differs_at(lines[i], p, 0);
    } else if i == 2 || i == 3 || i == 9 || i == 10 || i == 15 {
        lemma_differs_at(lines[i], p, 5);
    } else if i == 0 || i == 7 || i == 14 {
        lemma_differs_at(lines[i], p, 0);
    } else if i == 11 {
        lemma_differs_at(lines[i], p, 0);
    } else {
        assert(lines[i].len() == 0);
    }
}

/// Where no compatible library version is known, no line of the catalog
/// begins with `quilted_fabric_api`: both compatibility-library lines are
/// comments.
pub proof fn lemma_absent_qfapi_commented_out(v: VersionsView)
    requires
        v.qfapi is None,
    ensures
        forall|i: int|
            0 <= i < catalog_lines(v).len() ==> !starts_with(
                #[trigger] catalog_lines(v)[i],
                "quilted_fabric_api"@,
            ),
{
    assert forall|i: int|
        0 <= i < catalog_lines(v).len() implies !starts_with(
        #[trigger] catalog_lines(v)[i],
        "quilted_fabric_api"@,
    ) by {
        reveal_strlit("quilted_fabric_api");
        reveal_strlit("# Compatible Quilted Fabric API not found; check manually.");
        reveal_strlit("# ");
        if i == 5 || i == 12 {
            lemma_differs_at(catalog_lines(v)[i], "quilted_fabric_api"@, 0);
        } else {
            lemma_other_lines(v, i);
        }
    }
}

/// Where a compatible library version `q` is known, exactly one uncommented
/// compatibility-library line of the catalog holds it, provided that `q` does
/// not already occur in the library entry itself.
pub proof fn lemma_present_qfapi_single_line(v: VersionsView, q: Seq<char>)
    requires
        v.qfapi == Some(q),
        !text_contains(QFAPI_LIBRARY@, q),
    ensures
        exists|i: int|
            holds_qfapi_version(catalog_lines(v), q, i) && forall|j: int|
                holds_qfapi_version(catalog_lines(v), q, j) ==> j == i,
{
    let lines = catalog_lines(v);
    let head = "quilted_fabric_api = \""@;
    reveal_strlit("quilted_fabric_api");
    reveal_strlit("quilted_fabric_api = \"");
    reveal_strlit("\"");
    assert(lines[5] == head + q + "\""@);
    assert(lines[5].subrange(0, 18) =~= "quilted_fabric_api"@);
    assert(lines[5].subrange(22, 22 + q.len() as int) =~= q);
    assert(occurs_at(lines[5], q, 22));
    assert(holds_qfapi_version(lines, q, 5));
    assert forall|j: int| holds_qfapi_version(lines, q, j) implies j == 5 by {
        if j != 5 && j != 12 {
            lemma_other_lines(v, j);
        }
    }
}

} // verus!
