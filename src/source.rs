//! The three base sources of a configuration, the choice among them, and
//! the resolution that lays the command line over the chosen base.
use vstd::prelude::*;
use crate::config::{clone_opt, merged, pick, CliOverlay, ConfigModel, LicenseConfig, OverlayModel};
use crate::error::{is_invalid_year, LicenseError};
use crate::text::{parse_u32, parsed_u32};

verus! {

/// Where the base configuration comes from.
#[derive(Debug, Clone, Copy, PartialEq, Eq, Structural)]
pub enum SourceKind {
    /// A configuration file.
    File,
    /// A sequence of prompts.
    Interactive,
    /// The command-line values themselves.
    CommandLine,
}

/// Picks the base source: a configuration file when one is named; else the
/// prompts when asked for or when no holder name was given; else the
/// command line.
pub fn select_source(has_config_file: bool, interactive: bool, has_name: bool) -> (r: SourceKind)
    ensures
        has_config_file ==> r == SourceKind::File,
        !has_config_file && (interactive || !has_name) ==> r == SourceKind::Interactive,
        !has_config_file && !interactive && has_name ==> r == SourceKind::CommandLine,
{
    if has_config_file {
        SourceKind::File
    } else if interactive || !has_name {
        SourceKind::Interactive
    } else {
        SourceKind::CommandLine
    }
}

/// The holder name used when the command line gives none.
pub open spec fn placeholder_holder() -> Seq<char> {
    "Copyright Holder"@
}

/// The configuration that the command-line values make on their own.
pub open spec fn cli_base(ov: OverlayModel) -> ConfigModel {
    ConfigModel {
        copyright: pick(ov.name, placeholder_holder()),
        email: ov.email,
        url: ov.url,
        year: ov.year,
        start_year: ov.start_year,
        end_year: ov.end_year,
        license: ov.license,
        format: None,
        theme: None,
    }
}

/// Builds a base configuration from the command-line values alone.
pub fn from_cli_base(cli: &CliOverlay) -> (r: LicenseConfig)
    ensures
        r@ == cli_base(cli@),
{
    let copyright = match &cli.name {
        Some(n) => n.clone(),
        None => String::from_str("Copyright Holder"),
    };
    LicenseConfig {
        copyright,
        email: clone_opt(&cli.email),
        url: clone_opt(&cli.url),
        year: cli.year,
        start_year: cli.start_year,
        end_year: cli.end_year,
        license: cli.license.clone(),
        format: None,
        theme: None,
    }
}

/// Lays the command line over `base` and checks that a holder name remains.
pub fn resolve(base: LicenseConfig, cli: &CliOverlay) -> (r: Result<LicenseConfig, LicenseError>)
    ensures
        r is Err <==> merged(base@, cli@).copyright.len() == 0,
        r is Err ==> r->Err_0 is EmptyCopyrightHolder,
        r is Ok ==> r->Ok_0@ == merged(base@, cli@),
{
    let mut config = base;
    config.merge_with_cli(cli);
    if config.copyright.as_str().is_empty() {
        Err(LicenseError::EmptyCopyrightHolder)
    } else {
        Ok(config)
    }
}

/// A license kind offered by the prompts.
#[derive(Debug, Clone, Copy, PartialEq, Eq, Structural)]
pub enum LicenseKind {
    Mit,
    Isc,
}

/// The upper-case name of a license kind.
pub open spec fn kind_name(k: LicenseKind) -> Seq<char> {
    match k {
        LicenseKind::Mit => "MIT"@,
        LicenseKind::Isc => "ISC"@,
    }
}

impl LicenseKind {
    /// The upper-case name of this kind.
    pub fn name(&self) -> (r: String)
        ensures
            r@ == kind_name(*self),
    {
        match self {
            LicenseKind::Mit => String::from_str("MIT"),
            LicenseKind::Isc => String::from_str("ISC"),
        }
    }
}

/// What the prompts collected, as entered.
pub struct InteractiveAnswers {
    pub copyright: String,
    pub email: String,
    pub url: String,
    pub start_year: String,
    pub end_year: String,
    pub license: LicenseKind,
}

/// An entry that is absent when left empty.
pub open spec fn optional_entry(s: Seq<char>) -> Option<Seq<char>> {
    if s.len() == 0 { None } else { Some(s) }
}

/// A year entry: `current` when left empty, else the number it denotes.
pub open spec fn year_entry(s: Seq<char>, current: u32) -> Option<u32> {
    if s.len() == 0 { Some(current) } else { parsed_u32(s) }
}

/// The configuration that valid answers make.
pub open spec fn answers_config(a: InteractiveAnswers, current: u32) -> ConfigModel {
    ConfigModel {
        copyright: a.copyright@,
        email: optional_entry(a.email@),
        url: optional_entry(a.url@),
        year: None,
        start_year: year_entry(a.start_year@, current),
        end_year: year_entry(a.end_year@, current),
        license: kind_name(a.license),
        format: None,
        theme: None,
    }
}

fn optional(s: String) -> (r: Option<String>)
    ensures
        r.deep_view() == optional_entry(s@),
{
    if s.as_str().is_empty() {
        None
    } else {
        Some(s)
    }
}

fn year_from_entry(s: &String, current_year: u32) -> (r: Result<u32, LicenseError>)
    ensures
        year_entry(s@, current_year) is Some ==> r == Ok::<u32, LicenseError>(
            year_entry(s@, current_year)->0,
        ),
        year_entry(s@, current_year) is None ==> r is Err && is_invalid_year(r->Err_0, s@),
{
    if s.as_str().is_empty() {
        Ok(current_year)
    } else {
        match parse_u32(s.as_str()) {
            Some(y) => Ok(y),
            None => Err(LicenseError::InvalidYearInput(s.clone())),
        }
    }
}

/// Builds a configuration from the prompts' answers. The year field stays
/// absent; both ends of the range are always set, an empty entry standing
/// for `current_year`.
pub fn from_answers(answers: InteractiveAnswers, current_year: u32) -> (r: Result<
    LicenseConfig,
    LicenseError,
>)
    ensures
        year_entry(answers.start_year@, current_year) is None ==> r is Err && is_invalid_year(
            r->Err_0,
            answers.start_year@,
        ),
        year_entry(answers.start_year@, current_year) is Some && year_entry(
            answers.end_year@,
            current_year,
        ) is None ==> r is Err && is_invalid_year(r->Err_0, answers.end_year@),
        year_entry(answers.start_year@, current_year) is Some && year_entry(
            answers.end_year@,
            current_year,
        ) is Some ==> r is Ok && r->Ok_0@ == answers_config(answers, current_year),
{
    let start_year = match year_from_entry(&answers.start_year, current_year) {
        Ok(y) => y,
        Err(e) => return Err(e),
    };
    let end_year = match year_from_entry(&answers.end_year, current_year) {
        Ok(y) => y,
        Err(e) => return Err(e),
    };
    let license = answers.license.name();
    Ok(
        LicenseConfig {
            copyright: answers.copyright,
            email: optional(answers.email),
            url: optional(answers.url),
            year: None,
            start_year: Some(start_year),
            end_year: Some(end_year),
            license,
            format: None,
            theme: None,
        },
    )
}

} // verus!
