//! The metadata that only Chocolatey packages use, and its reconciliation
//! with the shared metadata of the package.

use vstd::prelude::*;
use vstd::string::*;

use crate::keyed::{pairs_view, put, put_all, unique_keys, upsert};
use crate::metadata::{or_placeholder, Description, DescriptionView, PackageMetadata, PackageMetadataView};
use crate::text::{
    canonical_id, clone_texts, contains_text, generate_identifier, lower_of, owned_texts, removed,
    same_texts, str_texts, texts, to_lowercase, without_text,
};
use crate::url::{duplicate_opt, opt_url, Url};
use crate::nuspec::{
    description_elements, elements_view, join, license_elements, manifest_dependencies,
    manifest_file_list, manifest_head, manifest_metadata, manifest_of, manifest_tail, push_element,
    push_optional_text, push_optional_url, Manifest, ManifestElement,
};
use crate::version::Version;

verus! {

/// The characters of an optional text.
pub open spec fn opt_text(o: Option<String>) -> Option<Seq<char>> {
    match o {
        Some(s) => Some(s@),
        None => None,
    }
}

/// A copy of an optional text.
fn duplicate_opt_text(o: &Option<String>) -> (r: Option<String>)
    ensures
        opt_text(r) == opt_text(*o),
{
    match o {
        Some(s) => Some(s.clone()),
        None => None,
    }
}

/// What the Chocolatey metadata of a package holds.
pub struct ChocolateyMetadataView {
    pub lowercase_id: bool,
    pub id: Seq<char>,
    pub maintainers: Seq<Seq<char>>,
    pub summary: Option<Seq<char>>,
    pub project_url: Option<Seq<char>>,
    pub project_source_url: Option<Seq<char>>,
    pub package_source_url: Option<Seq<char>>,
    pub license_url: Option<Seq<char>>,
    pub title: Option<Seq<char>>,
    pub copyright: Option<Seq<char>>,
    pub version: Version,
    pub authors: Seq<Seq<char>>,
    pub description: DescriptionView,
    pub require_license_acceptance: bool,
    pub documentation_url: Option<Seq<char>>,
    pub issues_url: Option<Seq<char>>,
    pub tags: Seq<Seq<char>>,
    pub release_notes: Option<Seq<char>>,
    pub dependencies: Seq<(Seq<char>, Version)>,
    pub files: Seq<(Seq<char>, Seq<char>)>,
}

impl ChocolateyMetadataView {
    /// The keys of the dependencies and of the files are unique.
    pub open spec fn wf(self) -> bool {
        unique_keys(self.dependencies) && unique_keys(self.files)
    }
}

/// What `update_from` makes of Chocolatey metadata `o` with the shared
/// metadata `g`: each field that is unset takes the value derived from `g`,
/// and the lowercase identifier becomes the first tag unless it is a tag
/// already.
pub open spec fn updated(o: ChocolateyMetadataView, g: PackageMetadataView) -> ChocolateyMetadataView {
    let id = if o.id.len() == 0 && g.id.len() != 0 {
        canonical_id(g.id, o.lowercase_id)
    } else {
        o.id
    };
    let tag = lower_of(id);
    ChocolateyMetadataView {
        id,
        maintainers: if o.maintainers.len() == 0 {
            g.maintainers
        } else {
            o.maintainers
        },
        summary: if o.summary is None && g.summary.len() != 0 {
            Some(g.summary)
        } else {
            o.summary
        },
        project_url: if o.project_url is None {
            Some(g.project_url)
        } else {
            o.project_url
        },
        project_source_url: if o.project_source_url is None {
            g.project_source_url
        } else {
            o.project_source_url
        },
        package_source_url: if o.package_source_url is None {
            g.package_source_url
        } else {
            o.package_source_url
        },
        license_url: if o.license_url is None {
            g.license.url_view()
        } else {
            o.license_url
        },
        tags: if id.len() != 0 && !o.tags.contains(tag) {
            seq![tag] + o.tags
        } else {
            o.tags
        },
        ..o
    }
}

/// What `reset_same` makes of Chocolatey metadata `o` with the shared
/// metadata `g`: each field that holds what `g` gives is cleared, and the
/// lowercase identifier is taken out of the tags.
pub open spec fn reset(o: ChocolateyMetadataView, g: PackageMetadataView) -> ChocolateyMetadataView {
    ChocolateyMetadataView {
        id: if o.id == canonical_id(g.id, o.lowercase_id) {
            Seq::empty()
        } else {
            o.id
        },
        maintainers: if o.maintainers == g.maintainers {
            Seq::empty()
        } else {
            o.maintainers
        },
        summary: if o.summary == Some(g.summary) {
            None
        } else {
            o.summary
        },
        project_url: if o.project_url == Some(g.project_url) {
            None
        } else {
            o.project_url
        },
        project_source_url: if o.project_source_url == Some(or_placeholder(g.project_source_url)) {
            None
        } else {
            o.project_source_url
        },
        package_source_url: if o.package_source_url == Some(or_placeholder(g.package_source_url)) {
            None
        } else {
            o.package_source_url
        },
        license_url: if o.license_url is Some && o.license_url == g.license.url_view() {
            None
        } else {
            o.license_url
        },
        tags: removed(o.tags, lower_of(o.id)),
        ..o
    }
}

/// The metadata of a package that only Chocolatey uses. Each optional field
/// that the shared metadata also has is unset until it is given, and then
/// overrides the shared value.
#[derive(Debug, Clone, PartialEq)]
pub struct ChocolateyMetadata {
    lowercase_id: bool,
    id: String,
    maintainers: Vec<String>,
    /// The short summary of the software.
    pub summary: Option<String>,
    /// The home page of the software.
    pub project_url: Option<Url>,
    /// Where the sources of the software are kept.
    pub project_source_url: Option<Url>,
    /// Where the sources of the package are kept.
    pub package_source_url: Option<Url>,
    /// Where the license of the software can be read.
    pub license_url: Option<Url>,
    /// The title of the software.
    pub title: Option<String>,
    /// The copyright of the software.
    pub copyright: Option<String>,
    /// The version of the package.
    pub version: Version,
    authors: Vec<String>,
    /// The description of the software.
    pub description: Description,
    /// Whether users must accept the license.
    pub require_license_acceptance: bool,
    /// The documentation of the software.
    pub documentation_url: Option<Url>,
    /// Where issues with the software are reported.
    pub issues_url: Option<Url>,
    tags: Vec<String>,
    /// The release notes of the version, or where to read them.
    pub release_notes: Option<String>,
    dependencies: Vec<(String, Version)>,
    files: Vec<(String, String)>,
}

impl View for ChocolateyMetadata {
    type V = ChocolateyMetadataView;

    closed spec fn view(&self) -> ChocolateyMetadataView {
        ChocolateyMetadataView {
            lowercase_id: self.lowercase_id,
            id: self.id@,
            maintainers: texts(self.maintainers@),
            summary: opt_text(self.summary),
            project_url: opt_url(self.project_url),
            project_source_url: opt_url(self.project_source_url),
            package_source_url: opt_url(self.package_source_url),
            license_url: opt_url(self.license_url),
            title: opt_text(self.title),
            copyright: opt_text(self.copyright),
            version: self.version,
            authors: texts(self.authors@),
            description: self.description@,
            require_license_acceptance: self.require_license_acceptance,
            documentation_url: opt_url(self.documentation_url),
            issues_url: opt_url(self.issues_url),
            tags: texts(self.tags@),
            release_notes: opt_text(self.release_notes),
            dependencies: pairs_view(self.dependencies@),
            files: pairs_view(self.files@),
        }
    }
}

/// A copy of a list of dependencies.
fn clone_dependencies(v: &Vec<(String, Version)>) -> (r: Vec<(String, Version)>)
    ensures
        pairs_view(r@) == pairs_view(v@),
{
    let mut r: Vec<(String, Version)> = Vec::new();
    let mut i: usize = 0;
    while i < v.len()
        invariant
            i <= v@.len(),
            r@.len() == i,
            forall|j: int| 0 <= j < i ==> (#[trigger] r@[j]).0@ == v@[j].0@ && r@[j].1 == v@[j].1,
        decreases v@.len() - i,
    {
        r.push((v[i].0.clone(), v[i].1));
        i += 1;
    }
    assert(pairs_view(r@) =~= pairs_view(v@));
    r
}

/// A copy of a list of files.
fn clone_files(v: &Vec<(String, String)>) -> (r: Vec<(String, String)>)
    ensures
        pairs_view(r@) == pairs_view(v@),
{
    let mut r: Vec<(String, String)> = Vec::new();
    let mut i: usize = 0;
    while i < v.len()
        invariant
            i <= v@.len(),
            r@.len() == i,
            forall|j: int| 0 <= j < i ==> (#[trigger] r@[j]).0@ == v@[j].0@ && r@[j].1@ == v@[j].1@,
        decreases v@.len() - i,
    {
        r.push((v[i].0.clone(), v[i].1.clone()));
        i += 1;
    }
    assert(pairs_view(r@) =~= pairs_view(v@));
    r
}


/// Taking a text out of a list that starts with it is taking it out of
/// the rest.
proof fn lemma_removed_front(x: Seq<char>, s: Seq<Seq<char>>)
    ensures
        removed(seq![x] + s, x) == removed(s, x),
    decreases s.len(),
{
    if s.len() == 0 {
        assert((seq![x] + s).drop_last() =~= s);
    } else {
        lemma_removed_front(x, s.drop_last());
        assert((seq![x] + s).drop_last() =~= seq![x] + s.drop_last());
    }
}

/// Reconciling twice with the same shared metadata gives what reconciling
/// once gives.
pub proof fn lemma_update_from_idempotent(o: ChocolateyMetadataView, g: PackageMetadataView)
    ensures
        updated(updated(o, g), g) == updated(o, g),
{
    let u = updated(o, g);
    let tag = lower_of(u.id);
    if u.id.len() != 0 && !o.tags.contains(tag) {
        assert(u.tags[0] == tag);
        assert(u.tags.contains(tag));
    }
}

/// Pruning right after reconciling with the same shared metadata clears
/// again every field that reconciling may fill, when all of them were
/// unset before: the tags lose the lowercase identifier, and the other
/// fields are as they were.
pub proof fn lemma_reset_same_undoes_update_from(o: ChocolateyMetadataView, g: PackageMetadataView)
    requires
        o.id.len() == 0,
        o.maintainers.len() == 0,
        o.summary is None,
        o.project_url is None,
        o.project_source_url is None,
        o.package_source_url is None,
        o.license_url is None,
    ensures
        reset(updated(o, g), g) == (ChocolateyMetadataView {
            tags: removed(o.tags, lower_of(updated(o, g).id)),
            ..o
        }),
{
    let u = updated(o, g);
    let tag = lower_of(u.id);
    if u.id.len() != 0 && !o.tags.contains(tag) {
        lemma_removed_front(tag, o.tags);
    }
    let r = reset(u, g);
    assert(r.id =~= o.id);
    assert(r.maintainers =~= o.maintainers);
}

/// After reconciling, a non-empty identifier in lowercase is the first tag
/// and no other tag, unless it was a tag before at another place than the
/// first.
pub proof fn lemma_update_from_tags_identifier_once(o: ChocolateyMetadataView, g: PackageMetadataView)
    requires
        updated(o, g).id.len() != 0,
        forall|i: int| 1 <= i < o.tags.len() ==> o.tags[i] != lower_of(updated(o, g).id),
    ensures
        updated(o, g).tags.len() > 0,
        updated(o, g).tags[0] == lower_of(updated(o, g).id),
        forall|i: int|
            1 <= i < updated(o, g).tags.len() ==> updated(o, g).tags[i] != lower_of(updated(o, g).id),
{
    let u = updated(o, g);
    let tag = lower_of(u.id);
    if o.tags.contains(tag) {
        let k = choose|k: int| 0 <= k < o.tags.len() && o.tags[k] == tag;
        assert(k == 0);
    } else {
        assert forall|i: int| 1 <= i < u.tags.len() implies u.tags[i] != tag by {
            assert(u.tags[i] == o.tags[i - 1]);
        }
    }
}

impl ChocolateyMetadata {
    /// What new metadata holds: lowercase identifiers, license acceptance
    /// required, version `0.0.0`, and nothing else.
    pub open spec fn default_view() -> ChocolateyMetadataView {
        ChocolateyMetadataView {
            lowercase_id: true,
            id: Seq::empty(),
            maintainers: Seq::empty(),
            summary: None,
            project_url: None,
            project_source_url: None,
            package_source_url: None,
            license_url: None,
            title: None,
            copyright: None,
            version: Version { major: 0, minor: 0, patch: 0 },
            authors: Seq::empty(),
            description: DescriptionView::Absent,
            require_license_acceptance: true,
            documentation_url: None,
            issues_url: None,
            tags: Seq::empty(),
            release_notes: None,
            dependencies: Seq::empty(),
            files: Seq::empty(),
        }
    }

    /// The keys of the dependencies and of the files are unique.
    pub open spec fn wf(&self) -> bool {
        self@.wf()
    }

    /// New metadata with default values.
    pub fn new() -> (r: ChocolateyMetadata)
        ensures
            r@ == Self::default_view(),
            r.wf(),
    {
        let r = ChocolateyMetadata {
            lowercase_id: true,
            id: String::new(),
            maintainers: Vec::new(),
            summary: None,
            project_url: None,
            project_source_url: None,
            package_source_url: None,
            license_url: None,
            title: None,
            copyright: None,
            version: Version::zero(),
            authors: Vec::new(),
            description: Description::Absent,
            require_license_acceptance: true,
            documentation_url: None,
            issues_url: None,
            tags: Vec::new(),
            release_notes: None,
            dependencies: Vec::new(),
            files: Vec::new(),
        };
        assert(r@.maintainers =~= Seq::empty());
        assert(r@.authors =~= Seq::empty());
        assert(r@.tags =~= Seq::empty());
        assert(r@.dependencies =~= Seq::empty());
        assert(r@.files =~= Seq::empty());
        r
    }

    /// A copy of the metadata.
    pub fn duplicate(&self) -> (r: ChocolateyMetadata)
        ensures
            r@ == self@,
    {
        ChocolateyMetadata {
            lowercase_id: self.lowercase_id,
            id: self.id.clone(),
            maintainers: clone_texts(&self.maintainers),
            summary: duplicate_opt_text(&self.summary),
            project_url: duplicate_opt(&self.project_url),
            project_source_url: duplicate_opt(&self.project_source_url),
            package_source_url: duplicate_opt(&self.package_source_url),
            license_url: duplicate_opt(&self.license_url),
            title: duplicate_opt_text(&self.title),
            copyright: duplicate_opt_text(&self.copyright),
            version: self.version,
            authors: clone_texts(&self.authors),
            description: self.description.duplicate(),
            require_license_acceptance: self.require_license_acceptance,
            documentation_url: duplicate_opt(&self.documentation_url),
            issues_url: duplicate_opt(&self.issues_url),
            tags: clone_texts(&self.tags),
            release_notes: duplicate_opt_text(&self.release_notes),
            dependencies: clone_dependencies(&self.dependencies),
            files: clone_files(&self.files),
        }
    }

    /// Reconciles the metadata with the shared metadata of the package:
    /// each field that is unset takes the value that the shared metadata
    /// gives (the identifier in its canonical form), and the lowercase
    /// identifier becomes the first tag unless it is a tag already.
    pub fn update_from(&mut self, from: &PackageMetadata)
        ensures
            final(self)@ == updated(old(self)@, from@),
    {
        let ghost o = self@;
        if self.id.as_str().is_empty() && !from.id().is_empty() {
            self.id = generate_identifier(from.id(), self.lowercase_id);
        }
        if self.maintainers.len() == 0 {
            self.maintainers = from.maintainers_vec();
        }
        if self.summary.is_none() && !from.summary().as_str().is_empty() {
            self.summary = Some(from.summary().clone());
        }
        if self.project_url.is_none() {
            self.project_url = Some(from.project_url().duplicate());
        }
        if self.project_source_url.is_none() {
            self.project_source_url = from.project_source_url_opt();
        }
        if self.package_source_url.is_none() {
            self.package_source_url = from.package_source_url_opt();
        }
        if self.license_url.is_none() {
            if let Some(u) = from.license().license_url() {
                self.license_url = Some(u);
            }
        }
        let lower_id = to_lowercase(self.id.as_str());
        if !self.id.as_str().is_empty() && !contains_text(&self.tags, &lower_id) {
            let ghost before = self.tags@;
            self.tags.insert(0, lower_id);
            assert(texts(self.tags@) =~= seq![lower_of(self.id@)] + texts(before));
        }
        assert(self@ == updated(o, from@));
    }

    /// Clears each field that holds what the shared metadata gives, as
    /// `update_from` would set it, and takes the lowercase identifier out
    /// of the tags.
    pub fn reset_same(&mut self, from: &PackageMetadata)
        ensures
            final(self)@ == reset(old(self)@, from@),
    {
        let ghost o = self@;
        let tag = to_lowercase(self.id.as_str());
        let canonical = generate_identifier(from.id(), self.lowercase_id);
        if self.id == canonical {
            self.id = String::new();
        }
        let shared_maintainers = from.maintainers_vec();
        if same_texts(&self.maintainers, &shared_maintainers) {
            self.maintainers = Vec::new();
            assert(texts(self.maintainers@) =~= Seq::empty());
        }
        let same_summary = match &self.summary {
            Some(s) => *s == *from.summary(),
            None => false,
        };
        if same_summary {
            self.summary = None;
        }
        let same_project = match &self.project_url {
            Some(u) => u.same_as(from.project_url()),
            None => false,
        };
        if same_project {
            self.project_url = None;
        }
        let same_project_source = match &self.project_source_url {
            Some(u) => u.same_as(&from.project_source_url()),
            None => false,
        };
        if same_project_source {
            self.project_source_url = None;
        }
        let same_package_source = match &self.package_source_url {
            Some(u) => u.same_as(&from.package_source_url()),
            None => false,
        };
        if same_package_source {
            self.package_source_url = None;
        }
        let same_license = match (&self.license_url, from.license().license_url()) {
            (Some(u), Some(l)) => u.same_as(&l),
            _ => false,
        };
        if same_license {
            self.license_url = None;
        }
        self.tags = without_text(&self.tags, &tag);
        assert(self@ == reset(o, from@));
    }

    /// Whether identifiers taken from the shared metadata are lowercased.
    pub fn lowercase_id(&self) -> (r: bool)
        ensures
            r == self@.lowercase_id,
    {
        self.lowercase_id
    }

    /// Sets whether identifiers taken from the shared metadata are
    /// lowercased.
    pub fn set_lowercase_id(&mut self, lowercase: bool)
        ensures
            final(self)@ == (ChocolateyMetadataView { lowercase_id: lowercase, ..old(self)@ }),
    {
        self.lowercase_id = lowercase;
    }

    /// The identifier of the package; empty until it is set or taken from
    /// the shared metadata.
    pub fn id(&self) -> (r: &str)
        ensures
            r@ == self@.id,
    {
        self.id.as_str()
    }

    /// The authors of the software.
    pub fn authors(&self) -> (r: &[String])
        ensures
            texts(r@) == self@.authors,
    {
        self.authors.as_slice()
    }

    /// The maintainers of the package.
    pub fn maintainers(&self) -> (r: &[String])
        ensures
            texts(r@) == self@.maintainers,
    {
        self.maintainers.as_slice()
    }

    /// Sets the maintainers of the package.
    pub fn set_maintainers(&mut self, vals: &[&str])
        ensures
            final(self)@ == (ChocolateyMetadataView { maintainers: str_texts(vals@), ..old(self)@ }),
    {
        self.maintainers = owned_texts(vals);
    }

    /// The tags of the package.
    pub fn tags(&self) -> (r: &[String])
        ensures
            texts(r@) == self@.tags,
    {
        self.tags.as_slice()
    }

    /// The dependencies of the package: identifiers with their least
    /// version.
    pub fn dependencies(&self) -> (r: &[(String, Version)])
        ensures
            pairs_view(r@) == self@.dependencies,
    {
        self.dependencies.as_slice()
    }

    /// The description of the software.
    pub fn description(&self) -> (r: &Description)
        ensures
            r@ == self@.description,
    {
        &self.description
    }

    /// The files of the package: source paths or patterns with their
    /// target directory.
    pub fn files(&self) -> (r: &[(String, String)])
        ensures
            pairs_view(r@) == self@.files,
    {
        self.files.as_slice()
    }

    /// Sets the description of the software.
    pub fn set_description(&mut self, description: Description)
        ensures
            final(self)@ == (ChocolateyMetadataView { description: description@, ..old(self)@ }),
    {
        self.description = description;
    }

    /// Sets the description of the software to a text.
    pub fn set_description_str(&mut self, description: &str)
        ensures
            final(self)@ == (ChocolateyMetadataView {
                description: DescriptionView::Text(description@),
                ..old(self)@
            }),
    {
        self.set_description(Description::Text(String::from_str(description)));
    }

    /// Sets the title of the software.
    pub fn set_title(&mut self, title: &str)
        ensures
            final(self)@ == (ChocolateyMetadataView { title: Some(title@), ..old(self)@ }),
    {
        self.title = Some(String::from_str(title));
    }

    /// Sets the copyright of the software.
    pub fn set_copyright(&mut self, copyright: &str)
        ensures
            final(self)@ == (ChocolateyMetadataView { copyright: Some(copyright@), ..old(self)@ }),
    {
        self.copyright = Some(String::from_str(copyright));
    }

    /// Sets the release notes of the software, or where to read them.
    pub fn set_release_notes(&mut self, release_notes: &str)
        ensures
            final(self)@ == (ChocolateyMetadataView {
                release_notes: Some(release_notes@),
                ..old(self)@
            }),
    {
        self.release_notes = Some(String::from_str(release_notes));
    }

    /// Sets the least version of a dependency, adding the dependency when
    /// it is new.
    pub fn add_dependencies(&mut self, id: &str, version: Version)
        requires
            old(self).wf(),
        ensures
            final(self).wf(),
            final(self)@ == (ChocolateyMetadataView {
                dependencies: put(old(self)@.dependencies, id@, version),
                ..old(self)@
            }),
    {
        upsert(&mut self.dependencies, String::from_str(id), version);
    }

    /// Sets the target of a file, adding the file when it is new.
    pub fn add_file(&mut self, src: &str, target: &str)
        requires
            old(self).wf(),
        ensures
            final(self).wf(),
            final(self)@ == (ChocolateyMetadataView {
                files: put(old(self)@.files, src@, target@),
                ..old(self)@
            }),
    {
        upsert(&mut self.files, String::from_str(src), String::from_str(target));
    }

    /// Adds a tag at the end of the tags.
    pub fn add_tag(&mut self, tag: &str)
        ensures
            final(self)@ == (ChocolateyMetadataView { tags: old(self)@.tags.push(tag@), ..old(self)@ }),
    {
        let ghost before = self.tags@;
        self.tags.push(String::from_str(tag));
        assert(texts(self.tags@) =~= texts(before).push(tag@));
    }

    /// Replaces the dependencies with the given ones; a later pair with the
    /// same identifier overrides an earlier one.
    pub fn set_dependencies(&mut self, dependencies: &[(&str, Version)])
        requires
            old(self).wf(),
        ensures
            final(self).wf(),
            final(self)@ == (ChocolateyMetadataView {
                dependencies: put_all(Seq::empty(), dependencies@.map_values(|p: (&str, Version)| (p.0@, p.1))),
                ..old(self)@
            }),
    {
        let ghost given = dependencies@.map_values(|p: (&str, Version)| (p.0@, p.1));
        self.dependencies.clear();
        assert(pairs_view(self.dependencies@) =~= Seq::empty());
        let mut i: usize = 0;
        while i < dependencies.len()
            invariant
                i <= dependencies@.len(),
                given == dependencies@.map_values(|p: (&str, Version)| (p.0@, p.1)),
                pairs_view(self.dependencies@) == put_all(Seq::empty(), given.take(i as int)),
                unique_keys(pairs_view(self.dependencies@)),
                self@ == (ChocolateyMetadataView { dependencies: self@.dependencies, ..old(self)@ }),
            decreases dependencies@.len() - i,
        {
            let (id, version) = dependencies[i];
            upsert(&mut self.dependencies, String::from_str(id), version);
            assert(given.take(i + 1).drop_last() =~= given.take(i as int));
            i += 1;
        }
        assert(given.take(i as int) =~= given);
    }

    /// Replaces the files with the given ones; a later pair with the same
    /// source overrides an earlier one.
    pub fn set_files(&mut self, files: &[(&str, &str)])
        requires
            old(self).wf(),
        ensures
            final(self).wf(),
            final(self)@ == (ChocolateyMetadataView {
                files: put_all(Seq::empty(), files@.map_values(|p: (&str, &str)| (p.0@, p.1@))),
                ..old(self)@
            }),
    {
        let ghost given = files@.map_values(|p: (&str, &str)| (p.0@, p.1@));
        self.files.clear();
        assert(pairs_view(self.files@) =~= Seq::empty());
        let mut i: usize = 0;
        while i < files.len()
            invariant
                i <= files@.len(),
                given == files@.map_values(|p: (&str, &str)| (p.0@, p.1@)),
                pairs_view(self.files@) == put_all(Seq::empty(), given.take(i as int)),
                unique_keys(pairs_view(self.files@)),
                self@ == (ChocolateyMetadataView { files: self@.files, ..old(self)@ }),
            decreases files@.len() - i,
        {
            let (src, target) = files[i];
            upsert(&mut self.files, String::from_str(src), String::from_str(target));
            assert(given.take(i + 1).drop_last() =~= given.take(i as int));
            i += 1;
        }
        assert(given.take(i as int) =~= given);
    }

    /// Replaces the tags with the given ones.
    pub fn set_tags(&mut self, tags: &[&str])
        ensures
            final(self)@ == (ChocolateyMetadataView { tags: str_texts(tags@), ..old(self)@ }),
    {
        self.tags = owned_texts(tags);
    }

    /// New metadata with the given authors and default values otherwise.
    /// The list of authors must not be empty.
    pub fn with_authors(values: &[&str]) -> (r: ChocolateyMetadata)
        requires
            values@.len() > 0,
        ensures
            r.wf(),
            r@ == (ChocolateyMetadataView { authors: str_texts(values@), ..Self::default_view() }),
    {
        let mut data = Self::new();
        data.authors = owned_texts(values);
        data
    }

    /// New metadata for the given package name: the identifier is its
    /// canonical form, and the only tag is its lowercase canonical form.
    pub fn with_id(id: &str, lowercase: bool) -> (r: ChocolateyMetadata)
        ensures
            r.wf(),
            r@ == (ChocolateyMetadataView {
                lowercase_id: lowercase,
                id: canonical_id(id@, lowercase),
                tags: seq![canonical_id(id@, true)],
                ..Self::default_view()
            }),
    {
        let mut choco = Self::new();
        choco.lowercase_id = lowercase;
        choco.id = generate_identifier(id, lowercase);
        let tag = generate_identifier(id, true);
        choco.tags.push(tag);
        assert(choco@.tags =~= seq![canonical_id(id@, true)]);
        choco
    }
}

impl Default for ChocolateyMetadata {
    /// New metadata: lowercase identifiers, license acceptance required,
    /// version `0.0.0`, and nothing else.
    fn default() -> (r: ChocolateyMetadata)
        ensures
            r@ == ChocolateyMetadata::default_view(),
            r.wf(),
    {
        ChocolateyMetadata::new()
    }
}

impl ChocolateyMetadata {
    /// Adds the first metadata elements of the manifest.
    fn push_manifest_head(&self, out: &mut Vec<ManifestElement>)
        ensures
            elements_view(final(out)@) == elements_view(old(out)@) + manifest_head(self@),
    {
        let ghost s0 = elements_view(out@);
        push_element(out, "id", String::from_str(self.id()));
        push_element(out, "version", self.version.text());
        push_optional_url(out, "packageSourceUrl", &self.package_source_url);
        push_element(out, "owners", join(self.maintainers(), ","));
        push_optional_text(out, "title", &self.title);
        push_element(out, "authors", join(self.authors(), ","));
        push_optional_url(out, "projectUrl", &self.project_url);
        push_optional_text(out, "copyright", &self.copyright);
        assert(elements_view(out@) =~= s0 + manifest_head(self@));
    }

    /// Adds the license elements of the manifest.
    fn push_manifest_license(&self, out: &mut Vec<ManifestElement>)
        ensures
            elements_view(final(out)@) == elements_view(old(out)@) + license_elements(self@),
    {
        let ghost s0 = elements_view(out@);
        if let Some(u) = &self.license_url {
            push_element(out, "licenseUrl", String::from_str(u.as_str()));
            let accept = if self.require_license_acceptance {
                "true"
            } else {
                "false"
            };
            push_element(out, "requireLicenseAcceptance", String::from_str(accept));
        }
        assert(elements_view(out@) =~= s0 + license_elements(self@));
    }

    /// Adds the last metadata elements of the manifest.
    fn push_manifest_tail(&self, out: &mut Vec<ManifestElement>)
        ensures
            elements_view(final(out)@) == elements_view(old(out)@) + manifest_tail(self@),
    {
        let ghost s0 = elements_view(out@);
        push_optional_url(out, "projectSourceUrl", &self.project_source_url);
        push_optional_url(out, "docsUrl", &self.documentation_url);
        push_optional_url(out, "bugTrackerUrl", &self.issues_url);
        push_element(out, "tags", join(self.tags(), " "));
        push_optional_text(out, "summary", &self.summary);
        let ghost s1 = elements_view(out@);
        if let Description::Text(t) = self.description() {
            out.push(ManifestElement { name: "description", value: t.clone(), cdata: true });
        }
        assert(elements_view(out@) =~= s1 + description_elements(self@));
        push_optional_text(out, "releaseNotes", &self.release_notes);
        assert(elements_view(out@) =~= s0 + manifest_tail(self@));
    }

    /// The content of the manifest of the package. `default_source` is the
    /// default `tools/**` pattern written with the separator of the
    /// platform.
    pub fn manifest(&self, default_source: &str) -> (r: Manifest)
        ensures
            r@ == manifest_of(self@, default_source@),
    {
        let mut metadata: Vec<ManifestElement> = Vec::new();
        assert(elements_view(metadata@) =~= Seq::empty());
        self.push_manifest_head(&mut metadata);
        self.push_manifest_license(&mut metadata);
        self.push_manifest_tail(&mut metadata);
        assert(elements_view(metadata@) =~= manifest_metadata(self@));
        Manifest {
            metadata,
            dependencies: manifest_dependencies(self.dependencies()),
            files: manifest_file_list(self.files(), default_source),
        }
    }
}

} // verus!
