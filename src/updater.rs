//! The data that package updaters use.

use vstd::prelude::*;
use vstd::string::*;

use crate::keyed::{pairs_view, put, put_all, unique_keys, upsert};
use crate::url::Url;

verus! {

/// The kind of Chocolatey package to make.
#[derive(Debug, Clone, Copy, PartialEq, Eq, Structural)]
pub enum ChocolateyUpdaterType {
    /// A package of its own make, that uses no template.
    Custom,
    /// A package made from the installer template.
    Installer,
    /// A package made from the archive template.
    Archive,
}

impl Default for ChocolateyUpdaterType {
    /// A package of its own make.
    fn default() -> (r: ChocolateyUpdaterType)
        ensures
            r == ChocolateyUpdaterType::Custom,
    {
        ChocolateyUpdaterType::Custom
    }
}

/// The page to read the addresses of the software from, with an optional
/// regular expression that leads to the download page.
#[derive(Debug, Clone, PartialEq)]
pub enum ChocolateyParseUrl {
    /// A page, and a regular expression that finds the download page on it.
    UrlWithRegex { url: Url, regex: String },
    /// The download page.
    Url(Url),
}

/// What a page to read holds.
pub enum ChocolateyParseUrlView {
    UrlWithRegex { url: Seq<char>, regex: Seq<char> },
    Url(Seq<char>),
}

impl View for ChocolateyParseUrl {
    type V = ChocolateyParseUrlView;

    open spec fn view(&self) -> ChocolateyParseUrlView {
        match self {
            ChocolateyParseUrl::UrlWithRegex { url, regex } => ChocolateyParseUrlView::UrlWithRegex {
                url: url@,
                regex: regex@,
            },
            ChocolateyParseUrl::Url(u) => ChocolateyParseUrlView::Url(u@),
        }
    }
}

impl ChocolateyParseUrl {
    /// A copy of the page to read.
    pub fn duplicate(&self) -> (r: ChocolateyParseUrl)
        ensures
            r@ == self@,
    {
        match self {
            ChocolateyParseUrl::UrlWithRegex { url, regex } => ChocolateyParseUrl::UrlWithRegex {
                url: url.duplicate(),
                regex: regex.clone(),
            },
            ChocolateyParseUrl::Url(u) => ChocolateyParseUrl::Url(u.duplicate()),
        }
    }
}

/// What the updater data of a Chocolatey package holds.
pub struct ChocolateyUpdaterDataView {
    pub embedded: bool,
    pub updater_type: ChocolateyUpdaterType,
    pub parse_url: Option<ChocolateyParseUrlView>,
    pub regexes: Seq<(Seq<char>, Seq<char>)>,
}

/// What a Chocolatey package updater needs: whether the package embeds the
/// software, its kind, the page to read, and named regular expressions.
#[derive(Debug, Clone, PartialEq)]
pub struct ChocolateyUpdaterData {
    /// Whether the package holds the software rather than downloading it.
    pub embedded: bool,
    /// The kind of package.
    pub updater_type: ChocolateyUpdaterType,
    /// The page to read the addresses of the software from.
    pub parse_url: Option<ChocolateyParseUrl>,
    regexes: Vec<(String, String)>,
}

impl View for ChocolateyUpdaterData {
    type V = ChocolateyUpdaterDataView;

    closed spec fn view(&self) -> ChocolateyUpdaterDataView {
        ChocolateyUpdaterDataView {
            embedded: self.embedded,
            updater_type: self.updater_type,
            parse_url: match self.parse_url {
                Some(p) => Some(p@),
                None => None,
            },
            regexes: pairs_view(self.regexes@),
        }
    }
}

/// A copy of named regular expressions.
fn clone_regexes(v: &Vec<(String, String)>) -> (r: Vec<(String, String)>)
    ensures
        pairs_view(r@) == pairs_view(v@),
{
    let mut r: Vec<(String, String)> = Vec::new();
    let mut i: usize = 0;
    while i < v.len()
        invariant
            i <= v@.len(),
            r@.len() == i,
            forall|j: int| 0 <= j < i ==> (#[trigger] r@[j]).0@ == v@[j].0@ && r@[j].1@ == v@[j].1@,
        decreases v@.len() - i,
    {
        r.push((v[i].0.clone(), v[i].1.clone()));
        i += 1;
    }
    assert(pairs_view(r@) =~= pairs_view(v@));
    r
}

impl ChocolateyUpdaterData {
    /// What new updater data holds: a package of its own make that does
    /// not embed the software, no page, and no regular expression.
    pub open spec fn default_view() -> ChocolateyUpdaterDataView {
        ChocolateyUpdaterDataView {
            embedded: false,
            updater_type: ChocolateyUpdaterType::Custom,
            parse_url: None,
            regexes: Seq::empty(),
        }
    }

    /// The names of the regular expressions are unique.
    pub open spec fn wf(&self) -> bool {
        unique_keys(self@.regexes)
    }

    /// New updater data with default values.
    pub fn new() -> (r: ChocolateyUpdaterData)
        ensures
            r@ == Self::default_view(),
            r.wf(),
    {
        let r = ChocolateyUpdaterData {
            embedded: false,
            updater_type: ChocolateyUpdaterType::default(),
            parse_url: None,
            regexes: Vec::new(),
        };
        assert(r@.regexes =~= Seq::empty());
        r
    }

    /// A copy of the updater data.
    pub fn duplicate(&self) -> (r: ChocolateyUpdaterData)
        ensures
            r@ == self@,
    {
        ChocolateyUpdaterData {
            embedded: self.embedded,
            updater_type: self.updater_type,
            parse_url: match &self.parse_url {
                Some(p) => Some(p.duplicate()),
                None => None,
            },
            regexes: clone_regexes(&self.regexes),
        }
    }

    /// The named regular expressions that find the addresses of the
    /// software; `arch32` and `arch64` name those of the installers.
    pub fn regexes(&self) -> (r: &[(String, String)])
        ensures
            pairs_view(r@) == self@.regexes,
    {
        self.regexes.as_slice()
    }

    /// Sets the regular expression of a name, adding the name when it is
    /// new.
    pub fn add_regex(&mut self, name: &str, value: &str)
        requires
            old(self).wf(),
        ensures
            final(self).wf(),
            final(self)@ == (ChocolateyUpdaterDataView {
                regexes: put(old(self)@.regexes, name@, value@),
                ..old(self)@
            }),
    {
        upsert(&mut self.regexes, String::from_str(name), String::from_str(value));
    }

    /// Replaces the regular expressions with the given ones; a later pair
    /// with the same name overrides an earlier one.
    pub fn set_regexes(&mut self, values: &[(&str, &str)])
        requires
            old(self).wf(),
        ensures
            final(self).wf(),
            final(self)@ == (ChocolateyUpdaterDataView {
                regexes: put_all(Seq::empty(), values@.map_values(|p: (&str, &str)| (p.0@, p.1@))),
                ..old(self)@
            }),
    {
        let ghost given = values@.map_values(|p: (&str, &str)| (p.0@, p.1@));
        self.regexes.clear();
        assert(pairs_view(self.regexes@) =~= Seq::empty());
        let mut i: usize = 0;
        while i < values.len()
            invariant
                i <= values@.len(),
                given == values@.map_values(|p: (&str, &str)| (p.0@, p.1@)),
                pairs_view(self.regexes@) == put_all(Seq::empty(), given.take(i as int)),
                unique_keys(pairs_view(self.regexes@)),
                self@ == (ChocolateyUpdaterDataView { regexes: self@.regexes, ..old(self)@ }),
            decreases values@.len() - i,
        {
            let (name, value) = values[i];
            upsert(&mut self.regexes, String::from_str(name), String::from_str(value));
            assert(given.take(i + 1).drop_last() =~= given.take(i as int));
            i += 1;
        }
        assert(given.take(i as int) =~= given);
    }
}

impl Default for ChocolateyUpdaterData {
    /// New updater data with default values.
    fn default() -> (r: ChocolateyUpdaterData)
        ensures
            r@ == ChocolateyUpdaterData::default_view(),
            r.wf(),
    {
        ChocolateyUpdaterData::new()
    }
}

/// The data of the updaters of every package manager.
#[derive(Debug, PartialEq)]
pub struct PackageUpdateData {
    chocolatey: Option<ChocolateyUpdaterData>,
}

impl View for PackageUpdateData {
    type V = Option<ChocolateyUpdaterDataView>;

    closed spec fn view(&self) -> Option<ChocolateyUpdaterDataView> {
        match self.chocolatey {
            Some(c) => Some(c@),
            None => None,
        }
    }
}

impl PackageUpdateData {
    /// Updater data with nothing set.
    pub fn new() -> (r: PackageUpdateData)
        ensures
            r@ is None,
    {
        PackageUpdateData { chocolatey: None }
    }

    /// Whether Chocolatey updater data is set.
    pub fn has_chocolatey(&self) -> (r: bool)
        ensures
            r == self@ is Some,
    {
        self.chocolatey.is_some()
    }

    /// The Chocolatey updater data that is set, or new default data.
    pub fn chocolatey(&self) -> (r: ChocolateyUpdaterData)
        ensures
            self@ matches Some(c) ==> r@ == c,
            self@ is None ==> r@ == ChocolateyUpdaterData::default_view(),
    {
        match &self.chocolatey {
            Some(c) => c.duplicate(),
            None => ChocolateyUpdaterData::new(),
        }
    }

    /// Sets the Chocolatey updater data.
    pub fn set_chocolatey(&mut self, choco: ChocolateyUpdaterData)
        ensures
            final(self)@ == Some(choco@),
    {
        self.chocolatey = Some(choco);
    }
}

impl Default for PackageUpdateData {
    /// Updater data with nothing set.
    fn default() -> (r: PackageUpdateData)
        ensures
            r@ is None,
    {
        PackageUpdateData::new()
    }
}

} // verus!
