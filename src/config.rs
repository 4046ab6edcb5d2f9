//! The configuration model, the command-line overlay and the merge that
//! lays one over the other.
use vstd::prelude::*;
use crate::text::{upper_of, uppercase};

verus! {

/// All license metadata of one invocation.
pub struct LicenseConfig {
    pub copyright: String,
    pub email: Option<String>,
    pub url: Option<String>,
    pub year: Option<u32>,
    pub start_year: Option<u32>,
    pub end_year: Option<u32>,
    pub license: String,
    pub format: Option<String>,
    pub theme: Option<String>,
}

/// The mathematical view of a [`LicenseConfig`].
pub struct ConfigModel {
    pub copyright: Seq<char>,
    pub email: Option<Seq<char>>,
    pub url: Option<Seq<char>>,
    pub year: Option<u32>,
    pub start_year: Option<u32>,
    pub end_year: Option<u32>,
    pub license: Seq<char>,
    pub format: Option<Seq<char>>,
    pub theme: Option<Seq<char>>,
}

impl View for LicenseConfig {
    type V = ConfigModel;

    open spec fn view(&self) -> ConfigModel {
        ConfigModel {
            copyright: self.copyright@,
            email: self.email.deep_view(),
            url: self.url.deep_view(),
            year: self.year,
            start_year: self.start_year,
            end_year: self.end_year,
            license: self.license@,
            format: self.format.deep_view(),
            theme: self.theme.deep_view(),
        }
    }
}

/// Values given on the command line. Each present field overrides the
/// base configuration; `license` counts as present when it is not empty.
pub struct CliOverlay {
    pub name: Option<String>,
    pub email: Option<String>,
    pub url: Option<String>,
    pub year: Option<u32>,
    pub start_year: Option<u32>,
    pub end_year: Option<u32>,
    pub license: String,
}

/// The mathematical view of a [`CliOverlay`].
pub struct OverlayModel {
    pub name: Option<Seq<char>>,
    pub email: Option<Seq<char>>,
    pub url: Option<Seq<char>>,
    pub year: Option<u32>,
    pub start_year: Option<u32>,
    pub end_year: Option<u32>,
    pub license: Seq<char>,
}

impl View for CliOverlay {
    type V = OverlayModel;

    open spec fn view(&self) -> OverlayModel {
        OverlayModel {
            name: self.name.deep_view(),
            email: self.email.deep_view(),
            url: self.url.deep_view(),
            year: self.year,
            start_year: self.start_year,
            end_year: self.end_year,
            license: self.license@,
        }
    }
}

/// `over` when present, else `base`.
pub open spec fn pick<T>(over: Option<T>, base: T) -> T {
    match over {
        Some(v) => v,
        None => base,
    }
}

/// `over` when present, else `base`, for fields that are optional in both.
pub open spec fn pick_opt<T>(over: Option<T>, base: Option<T>) -> Option<T> {
    if over is Some { over } else { base }
}

/// The configuration that results from laying `ov` over `base`.
pub open spec fn merged(base: ConfigModel, ov: OverlayModel) -> ConfigModel {
    ConfigModel {
        copyright: pick(ov.name, base.copyright),
        email: pick_opt(ov.email, base.email),
        url: pick_opt(ov.url, base.url),
        year: pick_opt(ov.year, base.year),
        start_year: pick_opt(ov.start_year, base.start_year),
        end_year: pick_opt(ov.end_year, base.end_year),
        license: if ov.license.len() > 0 { upper_of(ov.license) } else { base.license },
        format: base.format,
        theme: base.theme,
    }
}

/// Every overlay field that is absent leaves the base field as it was, and
/// every present one replaces it, whatever the base held.
pub proof fn lemma_merge_overlay(base: ConfigModel, ov: OverlayModel)
    ensures
        ov.name is None ==> merged(base, ov).copyright == base.copyright,
        ov.name is Some ==> merged(base, ov).copyright == ov.name->0,
        ov.email is None ==> merged(base, ov).email == base.email,
        ov.email is Some ==> merged(base, ov).email == ov.email,
        ov.url is None ==> merged(base, ov).url == base.url,
        ov.url is Some ==> merged(base, ov).url == ov.url,
        ov.year is None ==> merged(base, ov).year == base.year,
        ov.year is Some ==> merged(base, ov).year == ov.year,
        ov.start_year is None ==> merged(base, ov).start_year == base.start_year,
        ov.start_year is Some ==> merged(base, ov).start_year == ov.start_year,
        ov.end_year is None ==> merged(base, ov).end_year == base.end_year,
        ov.end_year is Some ==> merged(base, ov).end_year == ov.end_year,
        ov.license.len() == 0 ==> merged(base, ov).license == base.license,
        ov.license.len() > 0 ==> merged(base, ov).license == upper_of(ov.license),
        merged(base, ov).format == base.format,
        merged(base, ov).theme == base.theme,
{
}

/// The license kind used when none is given.
pub fn default_license() -> (r: String)
    ensures
        r@ == seq!['M', 'I', 'T'],
{
    let s = "MIT";
    proof {
        reveal_strlit("MIT");
    }
    assert(s@ =~= seq!['M', 'I', 'T']);
    String::from_str(s)
}

/// A copy of an optional string.
pub(crate) fn clone_opt(o: &Option<String>) -> (r: Option<String>)
    ensures
        r.deep_view() == o.deep_view(),
{
    match o {
        Some(s) => Some(s.clone()),
        None => None,
    }
}

impl LicenseConfig {
    /// Lays the command-line overlay over this configuration.
    pub fn merge_with_cli(&mut self, cli: &CliOverlay)
        ensures
            final(self)@ == merged(old(self)@, cli@),
    {
        if let Some(name) = &cli.name {
            self.copyright = name.clone();
        }
        if cli.email.is_some() {
            self.email = clone_opt(&cli.email);
        }
        if cli.url.is_some() {
            self.url = clone_opt(&cli.url);
        }
        if cli.year.is_some() {
            self.year = cli.year;
        }
        if cli.start_year.is_some() {
            self.start_year = cli.start_year;
        }
        if cli.end_year.is_some() {
            self.end_year = cli.end_year;
        }
        if !cli.license.as_str().is_empty() {
            self.license = uppercase(cli.license.as_str());
        }
    }
}

} // verus!
