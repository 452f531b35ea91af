//! The content of a Chocolatey manifest (a nuspec file): which elements it
//! holds, in which order, and with which text. Writing it as XML is left to
//! the caller.

use vstd::prelude::*;
use vstd::string::*;

use crate::chocolatey::ChocolateyMetadataView;
use crate::keyed::pairs_view;
use crate::metadata::DescriptionView;
use crate::text::texts;
use crate::url::Url;
use crate::version::Version;

verus! {

/// The decimal digits of a number, as `u64::to_string` writes them.
pub uninterp spec fn decimal_of(n: u64) -> Seq<char>;

/// Relies on `u64::to_string`: the decimal digits of the number.
#[verifier::external_body]
fn decimal(n: u64) -> (r: String)
    ensures
        r@ == decimal_of(n),
{
    n.to_string()
}

/// The text of a version: its numbers with dots between them.
pub open spec fn version_text(v: Version) -> Seq<char> {
    decimal_of(v.major) + "."@ + decimal_of(v.minor) + "."@ + decimal_of(v.patch)
}

impl Version {
    /// The text of the version, such as `1.2.3`.
    pub fn text(&self) -> (r: String)
        ensures
            r@ == version_text(*self),
    {
        let r = decimal(self.major).concat(".");
        let r = r.concat(decimal(self.minor).as_str());
        let r = r.concat(".");
        r.concat(decimal(self.patch).as_str())
    }
}

/// Texts joined with a separator between each two of them.
pub open spec fn joined(s: Seq<Seq<char>>, sep: Seq<char>) -> Seq<char>
    decreases s.len(),
{
    if s.len() == 0 {
        Seq::empty()
    } else if s.len() == 1 {
        s[0]
    } else {
        joined(s.drop_last(), sep) + sep + s.last()
    }
}

/// Joins texts with a separator between each two of them.
pub fn join(v: &[String], sep: &str) -> (r: String)
    ensures
        r@ == joined(texts(v@), sep@),
{
    let mut r = String::new();
    let mut i: usize = 0;
    while i < v.len()
        invariant
            i <= v@.len(),
            r@ == joined(texts(v@.take(i as int)), sep@),
        decreases v@.len() - i,
    {
        proof {
            let next = texts(v@.take(i + 1));
            assert(next.drop_last() =~= texts(v@.take(i as int)));
            assert(next.last() == v@[i as int]@);
        }
        if i == 0 {
            r = v[0].clone();
            assert(texts(v@.take(1)) =~= seq![v@[0]@]);
        } else {
            r.append(sep);
            r.append(v[i].as_str());
        }
        i += 1;
    }
    assert(v@.take(v@.len() as int) =~= v@);
    r
}

/// One element of the manifest metadata: its tag, its text, and whether
/// the text is written as character data.
#[derive(Debug, Clone, PartialEq)]
pub struct ManifestElement {
    pub name: &'static str,
    pub value: String,
    pub cdata: bool,
}

/// What a manifest element holds.
pub struct ManifestElementView {
    pub name: Seq<char>,
    pub value: Seq<char>,
    pub cdata: bool,
}

impl View for ManifestElement {
    type V = ManifestElementView;

    open spec fn view(&self) -> ManifestElementView {
        ManifestElementView { name: self.name@, value: self.value@, cdata: self.cdata }
    }
}

/// The content of a manifest: the metadata elements in order, the
/// dependencies (identifier and least version), and the files (source and
/// target).
#[derive(Debug, Clone, PartialEq)]
pub struct Manifest {
    pub metadata: Vec<ManifestElement>,
    pub dependencies: Vec<(String, String)>,
    pub files: Vec<(String, String)>,
}

/// What a manifest holds.
pub struct ManifestView {
    pub metadata: Seq<ManifestElementView>,
    pub dependencies: Seq<(Seq<char>, Seq<char>)>,
    pub files: Seq<(Seq<char>, Seq<char>)>,
}

impl View for Manifest {
    type V = ManifestView;

    open spec fn view(&self) -> ManifestView {
        ManifestView {
            metadata: elements_view(self.metadata@),
            dependencies: pairs_view(self.dependencies@),
            files: pairs_view(self.files@),
        }
    }
}

/// An element with a plain text.
pub open spec fn element(name: Seq<char>, value: Seq<char>) -> ManifestElementView {
    ManifestElementView { name, value, cdata: false }
}

/// An element when the value is given, else nothing.
pub open spec fn optional(name: Seq<char>, value: Option<Seq<char>>) -> Seq<ManifestElementView> {
    match value {
        Some(v) => seq![element(name, v)],
        None => Seq::empty(),
    }
}

/// The license elements: the address and whether it must be accepted,
/// when an address is given.
pub open spec fn license_elements(d: ChocolateyMetadataView) -> Seq<ManifestElementView> {
    match d.license_url {
        Some(u) => seq![
            element("licenseUrl"@, u),
            element(
                "requireLicenseAcceptance"@,
                if d.require_license_acceptance {
                    "true"@
                } else {
                    "false"@
                },
            ),
        ],
        None => Seq::empty(),
    }
}

/// The description element, for a description given as text.
pub open spec fn description_elements(d: ChocolateyMetadataView) -> Seq<ManifestElementView> {
    match d.description {
        DescriptionView::Text(t) => seq![ManifestElementView { name: "description"@, value: t, cdata: true }],
        _ => Seq::empty(),
    }
}

/// The first metadata elements: identity, owners, authors and the project.
pub open spec fn manifest_head(d: ChocolateyMetadataView) -> Seq<ManifestElementView> {
    seq![element("id"@, d.id), element("version"@, version_text(d.version))]
        + optional("packageSourceUrl"@, d.package_source_url)
        + seq![element("owners"@, joined(d.maintainers, ","@))]
        + optional("title"@, d.title)
        + seq![element("authors"@, joined(d.authors, ","@))]
        + optional("projectUrl"@, d.project_url)
        + optional("copyright"@, d.copyright)
}

/// The last metadata elements: sources, documentation, tags and texts.
pub open spec fn manifest_tail(d: ChocolateyMetadataView) -> Seq<ManifestElementView> {
    optional("projectSourceUrl"@, d.project_source_url)
        + optional("docsUrl"@, d.documentation_url)
        + optional("bugTrackerUrl"@, d.issues_url)
        + seq![element("tags"@, joined(d.tags, " "@))]
        + optional("summary"@, d.summary)
        + description_elements(d)
        + optional("releaseNotes"@, d.release_notes)
}

/// The metadata elements of the manifest of a package, in order.
pub open spec fn manifest_metadata(d: ChocolateyMetadataView) -> Seq<ManifestElementView> {
    manifest_head(d) + license_elements(d) + manifest_tail(d)
}

/// The elements of a list, as views.
pub open spec fn elements_view(s: Seq<ManifestElement>) -> Seq<ManifestElementView> {
    s.map_values(|e: ManifestElement| e@)
}

/// A source path that names the default `tools/**` pattern, with either
/// separator.
pub open spec fn is_default_source(src: Seq<char>) -> bool {
    src == "tools/**"@ || src == "tools\\**"@
}

/// The files of the manifest: the default pattern to `tools` first, then
/// every other file, in order.
pub open spec fn manifest_files(d: ChocolateyMetadataView, default_source: Seq<char>) -> Seq<
    (Seq<char>, Seq<char>),
> {
    seq![(default_source, "tools"@)] + d.files.filter(
        |f: (Seq<char>, Seq<char>)| !is_default_source(f.0),
    )
}

/// The content of the manifest of a package.
pub open spec fn manifest_of(d: ChocolateyMetadataView, default_source: Seq<char>) -> ManifestView {
    ManifestView {
        metadata: manifest_metadata(d),
        dependencies: d.dependencies.map_values(
            |p: (Seq<char>, Version)| (p.0, version_text(p.1)),
        ),
        files: manifest_files(d, default_source),
    }
}

/// Adds an element of plain text.
pub(crate) fn push_element(out: &mut Vec<ManifestElement>, name: &'static str, value: String)
    ensures
        elements_view(final(out)@) == elements_view(old(out)@).push(element(name@, value@)),
{
    let ghost before = out@;
    out.push(ManifestElement { name, value, cdata: false });
    assert(elements_view(out@) =~= elements_view(before).push(element(name@, value@)));
}

/// Adds an element of plain text when the value is given.
pub(crate) fn push_optional_text(out: &mut Vec<ManifestElement>, name: &'static str, value: &Option<String>)
    ensures
        elements_view(final(out)@) == elements_view(old(out)@) + optional(name@, crate::chocolatey::opt_text(*value)),
{
    let ghost before = elements_view(out@);
    if let Some(v) = value {
        push_element(out, name, v.clone());
    }
    assert(elements_view(out@) =~= before + optional(
        name@,
        crate::chocolatey::opt_text(*value),
    ));
}

/// Adds an element holding an address when the address is given.
pub(crate) fn push_optional_url(out: &mut Vec<ManifestElement>, name: &'static str, value: &Option<Url>)
    ensures
        elements_view(final(out)@) == elements_view(old(out)@) + optional(name@, crate::url::opt_url(*value)),
{
    let ghost before = elements_view(out@);
    if let Some(v) = value {
        push_element(out, name, String::from_str(v.as_str()));
    }
    assert(elements_view(out@) =~= before + optional(
        name@,
        crate::url::opt_url(*value),
    ));
}

/// The dependencies with the text of their versions.
pub(crate) fn manifest_dependencies(deps: &[(String, Version)]) -> (r: Vec<(String, String)>)
    ensures
        pairs_view(r@) == pairs_view(deps@).map_values(
            |p: (Seq<char>, Version)| (p.0, version_text(p.1)),
        ),
{
    let mut r: Vec<(String, String)> = Vec::new();
    let mut i: usize = 0;
    while i < deps.len()
        invariant
            i <= deps@.len(),
            r@.len() == i,
            forall|j: int|
                0 <= j < i ==> (#[trigger] r@[j]).0@ == deps@[j].0@ && r@[j].1@ == version_text(
                    deps@[j].1,
                ),
        decreases deps@.len() - i,
    {
        r.push((deps[i].0.clone(), deps[i].1.text()));
        i += 1;
    }
    assert(pairs_view(r@) =~= pairs_view(deps@).map_values(
        |p: (Seq<char>, Version)| (p.0, version_text(p.1)),
    ));
    r
}

/// The files of the manifest: the default pattern first, then every file
/// whose source is not the default pattern.
pub(crate) fn manifest_file_list(files: &[(String, String)], default_source: &str) -> (r: Vec<(String, String)>)
    ensures
        pairs_view(r@) == seq![(default_source@, "tools"@)] + pairs_view(files@).filter(
            |f: (Seq<char>, Seq<char>)| !is_default_source(f.0),
        ),
{
    let ghost keep = |f: (Seq<char>, Seq<char>)| !is_default_source(f.0);
    let mut r: Vec<(String, String)> = Vec::new();
    r.push((String::from_str(default_source), String::from_str("tools")));
    let tools_unix = String::from_str("tools/**");
    let tools_windows = String::from_str("tools\\**");
    let mut i: usize = 0;
    proof {
        reveal(Seq::filter);
        assert(pairs_view(files@).take(0) =~= Seq::empty());
        assert(pairs_view(r@) =~= seq![(default_source@, "tools"@)] + pairs_view(files@).take(
            0,
        ).filter(keep));
    }
    while i < files.len()
        invariant
            i <= files@.len(),
            tools_unix@ == "tools/**"@,
            tools_windows@ == "tools\\**"@,
            keep == (|f: (Seq<char>, Seq<char>)| !is_default_source(f.0)),
            pairs_view(r@) == seq![(default_source@, "tools"@)] + pairs_view(files@).take(
                i as int,
            ).filter(keep),
        decreases files@.len() - i,
    {
        let ghost before = pairs_view(r@);
        proof {
            reveal(Seq::filter);
            let next = pairs_view(files@).take(i + 1);
            assert(next.drop_last() =~= pairs_view(files@).take(i as int));
            assert(next.last() == (files@[i as int].0@, files@[i as int].1@));
        }
        if files[i].0 != tools_unix && files[i].0 != tools_windows {
            r.push((files[i].0.clone(), files[i].1.clone()));
            assert(pairs_view(r@) =~= before.push((files@[i as int].0@, files@[i as int].1@)));
        }
        i += 1;
    }
    assert(pairs_view(files@).take(files@.len() as int) =~= pairs_view(files@));
    r
}

} // verus!
