//! The metadata of a package that all package managers share.

use vstd::prelude::*;
use vstd::string::*;

use crate::chocolatey::{ChocolateyMetadata, ChocolateyMetadataView};
use crate::defaults;
use crate::text::{clone_texts, owned_texts, str_texts, texts};
use crate::url::{duplicate_opt, opt_url, parsed_url, placeholder_text, Url, UrlParseError};

verus! {

/// The description of a software: none, a text, or the place of a file
/// that holds it.
#[derive(Debug, Clone, PartialEq)]
pub enum Description {
    /// No description is given.
    Absent,
    /// A file that holds the description, without the lines at its start
    /// and end that the counts give.
    Location {
        /// The path of the file.
        from: String,
        /// How many lines to skip at the start of the file.
        skip_start: u16,
        /// How many lines to leave out at the end of the file.
        skip_end: u16,
    },
    /// The description itself.
    Text(String),
}

/// What a description holds.
pub enum DescriptionView {
    Absent,
    Location { from: Seq<char>, skip_start: u16, skip_end: u16 },
    Text(Seq<char>),
}

impl View for Description {
    type V = DescriptionView;

    open spec fn view(&self) -> DescriptionView {
        match self {
            Description::Absent => DescriptionView::Absent,
            Description::Location { from, skip_start, skip_end } => DescriptionView::Location {
                from: from@,
                skip_start: *skip_start,
                skip_end: *skip_end,
            },
            Description::Text(t) => DescriptionView::Text(t@),
        }
    }
}

impl Description {
    /// A copy of the description.
    pub fn duplicate(&self) -> (r: Description)
        ensures
            r@ == self@,
    {
        match self {
            Description::Absent => Description::Absent,
            Description::Location { from, skip_start, skip_end } => Description::Location {
                from: from.clone(),
                skip_start: *skip_start,
                skip_end: *skip_end,
            },
            Description::Text(t) => Description::Text(t.clone()),
        }
    }
}

/// The license of a software: an expression (such as `MIT`), the address
/// of the license text, or both.
#[derive(Debug, Clone, PartialEq)]
pub enum License {
    /// No license is given.
    Absent,
    /// A license expression, with the address of its text that the table of
    /// known expressions gives, if it knows the expression.
    Expression { expression: String, known_url: Option<Url> },
    /// The address of the license text.
    Url(Url),
    /// A license expression and the address of its text.
    ExpressionAndLocation { expression: String, location: Url },
}

impl License {
    /// The address of the license text, when one is known: the address
    /// given, else the one known for the expression.
    pub open spec fn url_view(&self) -> Option<Seq<char>> {
        match self {
            License::Absent => None,
            License::Expression { known_url, .. } => opt_url(*known_url),
            License::Url(u) => Some(u@),
            License::ExpressionAndLocation { location, .. } => Some(location@),
        }
    }

    /// A license given by an expression, with the address that the table
    /// of known expressions gives for it (`None` when it does not know it).
    pub fn expression(expression: &str, known_url: Option<Url>) -> (r: License)
        ensures
            r matches License::Expression { expression: e, known_url: k } && e@ == expression@
                && k == known_url,
    {
        License::Expression { expression: String::from_str(expression), known_url }
    }

    /// The license that a text names: the address it holds when it is a
    /// URL, else the expression it holds, with no address known for it.
    pub fn from_text(text: &str) -> (r: License)
        ensures
            parsed_url(text@) is Some ==> (r matches License::Url(v) && Some(v@) == parsed_url(
                text@,
            )),
            parsed_url(text@) is None ==> (r matches License::Expression {
                expression: e,
                known_url: k,
            } && e@ == text@ && k is None),
    {
        match Url::parse(text) {
            Ok(u) => License::Url(u),
            Err(_) => License::expression(text, None),
        }
    }

    /// The address of the license text, when one is known.
    pub fn license_url(&self) -> (r: Option<Url>)
        ensures
            opt_url(r) == self.url_view(),
    {
        match self {
            License::Absent => None,
            License::Expression { known_url, .. } => duplicate_opt(known_url),
            License::Url(u) => Some(u.duplicate()),
            License::ExpressionAndLocation { location, .. } => Some(location.duplicate()),
        }
    }
}

/// What the shared metadata of a package holds.
pub struct PackageMetadataView {
    pub id: Seq<char>,
    pub maintainers: Seq<Seq<char>>,
    pub summary: Seq<char>,
    pub project_url: Seq<char>,
    pub project_source_url: Option<Seq<char>>,
    pub package_source_url: Option<Seq<char>>,
    pub license: License,
    pub chocolatey: Option<ChocolateyMetadataView>,
}

/// An optional address, or the placeholder when it is not given.
pub open spec fn or_placeholder(u: Option<Seq<char>>) -> Seq<char> {
    match u {
        Some(v) => v,
        None => placeholder_text(),
    }
}

/// The metadata of a package that all package managers share.
#[derive(Debug, PartialEq)]
pub struct PackageMetadata {
    package_source_url: Option<Url>,
    id: String,
    maintainers: Vec<String>,
    /// A short summary of the software.
    pub summary: String,
    project_url: Url,
    project_source_url: Option<Url>,
    license: License,
    chocolatey: Option<ChocolateyMetadata>,
}

impl View for PackageMetadata {
    type V = PackageMetadataView;

    closed spec fn view(&self) -> PackageMetadataView {
        PackageMetadataView {
            id: self.id@,
            maintainers: texts(self.maintainers@),
            summary: self.summary@,
            project_url: self.project_url@,
            project_source_url: opt_url(self.project_source_url),
            package_source_url: opt_url(self.package_source_url),
            license: self.license,
            chocolatey: match self.chocolatey {
                Some(c) => Some(c@),
                None => None,
            },
        }
    }
}

impl PackageMetadata {
    /// The shared metadata of a package with the given identifier. The
    /// maintainer is the user running the process; the project address is
    /// the placeholder; nothing else is set.
    pub fn new(id: &str) -> (r: PackageMetadata)
        ensures
            r@.id == id@,
            r@.maintainers.len() == 1,
            r@.summary.len() == 0,
            r@.project_url == placeholder_text(),
            r@.project_source_url.is_none(),
            r@.package_source_url.is_none(),
            r@.license == License::Absent,
            r@.chocolatey.is_none(),
    {
        let maintainers = defaults::maintainer(None);
        let r = PackageMetadata {
            package_source_url: None,
            id: String::from_str(id),
            maintainers,
            summary: String::new(),
            project_url: defaults::url(),
            project_source_url: None,
            license: License::Absent,
            chocolatey: None,
        };
        assert(r@.maintainers.len() == 1);
        r
    }

    /// The summary of the software.
    pub fn summary(&self) -> (r: &String)
        ensures
            r@ == self@.summary,
    {
        &self.summary
    }

    /// The identifier of the package.
    pub fn id(&self) -> (r: &str)
        ensures
            r@ == self@.id,
    {
        self.id.as_str()
    }

    /// Whether Chocolatey metadata is set.
    pub fn has_chocolatey(&self) -> (r: bool)
        ensures
            r == self@.chocolatey.is_some(),
    {
        self.chocolatey.is_some()
    }

    /// The Chocolatey metadata that is set, or new default metadata.
    pub fn chocolatey(&self) -> (r: ChocolateyMetadata)
        ensures
            self@.chocolatey matches Some(c) ==> r@ == c,
            self@.chocolatey is None ==> r@ == ChocolateyMetadata::default_view(),
    {
        match &self.chocolatey {
            Some(c) => c.duplicate(),
            None => ChocolateyMetadata::new(),
        }
    }

    /// The people that create and maintain the package.
    pub fn maintainers(&self) -> (r: &[String])
        ensures
            texts(r@) == self@.maintainers,
    {
        self.maintainers.as_slice()
    }

    /// A copy of the maintainers.
    pub fn maintainers_vec(&self) -> (r: Vec<String>)
        ensures
            texts(r@) == self@.maintainers,
    {
        clone_texts(&self.maintainers)
    }

    /// The address where the sources of the package are kept, or the
    /// placeholder when none is given.
    pub fn package_source_url(&self) -> (r: Url)
        ensures
            r@ == or_placeholder(self@.package_source_url),
    {
        match &self.package_source_url {
            Some(u) => u.duplicate(),
            None => defaults::url(),
        }
    }

    /// The address of the package sources as given, if given.
    pub fn package_source_url_opt(&self) -> (r: Option<Url>)
        ensures
            opt_url(r) == self@.package_source_url,
    {
        duplicate_opt(&self.package_source_url)
    }

    /// The address of the home page of the software, with its parts.
    pub closed spec fn project_address(&self) -> Url {
        self.project_url
    }

    /// The address of the home page of the software.
    pub fn project_url(&self) -> (r: &Url)
        ensures
            r@ == self@.project_url,
            *r == self.project_address(),
    {
        &self.project_url
    }

    /// The address where the sources of the software are kept, or the
    /// placeholder when none is given.
    pub fn project_source_url(&self) -> (r: Url)
        ensures
            r@ == or_placeholder(self@.project_source_url),
    {
        match &self.project_source_url {
            Some(u) => u.duplicate(),
            None => defaults::url(),
        }
    }

    /// The address of the software sources as given, if given.
    pub fn project_source_url_opt(&self) -> (r: Option<Url>)
        ensures
            opt_url(r) == self@.project_source_url,
    {
        duplicate_opt(&self.project_source_url)
    }

    /// The license of the software.
    pub fn license(&self) -> (r: &License)
        ensures
            *r == self@.license,
    {
        &self.license
    }

    /// Sets the Chocolatey metadata.
    pub fn set_chocolatey(&mut self, choco: ChocolateyMetadata)
        ensures
            final(self)@ == (PackageMetadataView { chocolatey: Some(choco@), ..old(self)@ }),
    {
        self.chocolatey = Some(choco);
    }

    /// Sets the maintainers of the package.
    pub fn set_maintainers(&mut self, vals: &[&str])
        ensures
            final(self)@ == (PackageMetadataView { maintainers: str_texts(vals@), ..old(self)@ }),
    {
        self.maintainers = owned_texts(vals);
    }

    /// Sets the address where the sources of the package are kept; fails,
    /// changing nothing, when the text is not a URL.
    pub fn set_package_source_url(&mut self, url: &str) -> (r: Result<(), UrlParseError>)
        ensures
            r is Ok <==> parsed_url(url@) is Some,
            r is Ok ==> final(self)@ == (PackageMetadataView {
                package_source_url: parsed_url(url@),
                ..old(self)@
            }),
            r is Err ==> final(self)@ == old(self)@,
    {
        match Url::parse(url) {
            Ok(u) => {
                self.package_source_url = Some(u);
                Ok(())
            },
            Err(e) => Err(e),
        }
    }

    /// Sets the address of the home page of the software; fails, changing
    /// nothing, when the text is not a URL.
    pub fn set_project_url(&mut self, url: &str) -> (r: Result<(), UrlParseError>)
        ensures
            r is Ok <==> parsed_url(url@) is Some,
            r is Ok ==> final(self)@ == (PackageMetadataView {
                project_url: parsed_url(url@)->Some_0,
                ..old(self)@
            }),
            r is Err ==> final(self)@ == old(self)@,
    {
        match Url::parse(url) {
            Ok(u) => {
                self.project_url = u;
                Ok(())
            },
            Err(e) => Err(e),
        }
    }

    /// Sets the address where the sources of the software are kept; fails,
    /// changing nothing, when the text is not a URL.
    pub fn set_project_source_url(&mut self, url: &str) -> (r: Result<(), UrlParseError>)
        ensures
            r is Ok <==> parsed_url(url@) is Some,
            r is Ok ==> final(self)@ == (PackageMetadataView {
                project_source_url: parsed_url(url@),
                ..old(self)@
            }),
            r is Err ==> final(self)@ == old(self)@,
    {
        match Url::parse(url) {
            Ok(u) => {
                self.project_source_url = Some(u);
                Ok(())
            },
            Err(e) => Err(e),
        }
    }

    /// Sets the license of the software.
    pub fn set_license(&mut self, license: License)
        ensures
            final(self)@ == (PackageMetadataView { license, ..old(self)@ }),
    {
        self.license = license;
    }
}

impl Default for PackageMetadata {
    /// Metadata with an empty identifier, as `new` makes it.
    fn default() -> (r: PackageMetadata)
        ensures
            r@.id.len() == 0,
            r@.maintainers.len() == 1,
            r@.summary.len() == 0,
            r@.project_url == placeholder_text(),
            r@.project_source_url.is_none(),
            r@.package_source_url.is_none(),
            r@.license == License::Absent,
            r@.chocolatey.is_none(),
    {
        proof {
            reveal_strlit("");
        }
        PackageMetadata::new("")
    }
}

} // verus!
