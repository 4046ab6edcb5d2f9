//! Derivation of the two strings that a license template receives: the
//! copyright information and the year string.
use vstd::prelude::*;
use chrono::Datelike;
use crate::config::{ConfigModel, LicenseConfig};
use crate::text::{decimal, decimal_string, lemma_decimal_has_no_hyphen};

verus! {

/// The holder, then `, {url}` if a URL is present, then ` <{email}>` if an
/// email is present.
pub open spec fn copyright_info(c: ConfigModel) -> Seq<char> {
    let with_url = match c.url {
        Some(u) => c.copyright + seq![',', ' '] + u,
        None => c.copyright,
    };
    match c.email {
        Some(e) => with_url + seq![' ', '<'] + e + seq!['>'],
        None => with_url,
    }
}

/// The first year of the range, defaulting to `current`.
pub open spec fn range_start(c: ConfigModel, current: u32) -> u32 {
    match c.start_year {
        Some(s) => s,
        None => current,
    }
}

/// The last year of the range, defaulting to `current`.
pub open spec fn range_end(c: ConfigModel, current: u32) -> u32 {
    match c.end_year {
        Some(e) => e,
        None => current,
    }
}

/// The year string: `year` when present; otherwise the range, written as a
/// single year when both ends agree.
pub open spec fn year_text(c: ConfigModel, current: u32) -> Seq<char> {
    match c.year {
        Some(y) => decimal(y as nat),
        None => {
            let s = range_start(c, current);
            let e = range_end(c, current);
            if s == e {
                decimal(s as nat)
            } else {
                decimal(s as nat) + seq!['-'] + decimal(e as nat)
            }
        },
    }
}

/// Builds the copyright information of `config`.
pub fn build_copyright_info(config: &LicenseConfig) -> (r: String)
    ensures
        r@ == copyright_info(config@),
{
    let mut info = config.copyright.clone();
    if let Some(url) = &config.url {
        let sep = ", ";
        proof {
            reveal_strlit(", ");
        }
        assert(sep@ =~= seq![',', ' ']);
        info.append(sep);
        info.append(url.as_str());
    }
    if let Some(email) = &config.email {
        let open = " <";
        let close = ">";
        proof {
            reveal_strlit(" <");
            reveal_strlit(">");
        }
        assert(open@ =~= seq![' ', '<']);
        assert(close@ =~= seq!['>']);
        info.append(open);
        info.append(email.as_str());
        info.append(close);
    }
    info
}

/// Builds the year string of `config`, with `current_year` standing for
/// each missing end of the range.
pub fn build_year_string(config: &LicenseConfig, current_year: u32) -> (r: String)
    ensures
        r@ == year_text(config@, current_year),
{
    if let Some(year) = config.year {
        return decimal_string(year);
    }
    let start = match config.start_year {
        Some(s) => s,
        None => current_year,
    };
    let end = match config.end_year {
        Some(e) => e,
        None => current_year,
    };
    if start == end {
        decimal_string(start)
    } else {
        let mut r = decimal_string(start);
        let dash = "-";
        proof {
            reveal_strlit("-");
        }
        assert(dash@ =~= seq!['-']);
        r.append(dash);
        let tail = decimal_string(end);
        r.append(tail.as_str());
        r
    }
}

/// Relies on `chrono::Local::now` and `Datelike::year`: the calendar year of
/// the present moment in local time. Nothing is promised of its value.
#[verifier::external_body]
fn local_year() -> (r: i32) {
    chrono::Local::now().year()
}

/// The current calendar year in local time, as an unsigned number.
pub fn current_year() -> (r: u32) {
    local_year() as u32
}

/// Builds the year string of `config` against the current calendar year.
pub fn build_year_string_now(config: &LicenseConfig) -> (r: String)
    ensures
        exists|cy: u32| r@ == year_text(config@, cy),
        config.year is Some ==> r@ == decimal(config.year->0 as nat),
{
    let cy = current_year();
    build_year_string(config, cy)
}

/// `c` with the URL set to `url`.
pub open spec fn with_url(c: ConfigModel, url: Seq<char>) -> ConfigModel {
    ConfigModel { url: Some(url), ..c }
}

/// `c` with the email set to `email`.
pub open spec fn with_email(c: ConfigModel, email: Seq<char>) -> ConfigModel {
    ConfigModel { email: Some(email), ..c }
}

/// When `year` is present the range fields and the current year play no part.
pub proof fn lemma_year_overrides_range(c1: ConfigModel, c2: ConfigModel, cy1: u32, cy2: u32)
    requires
        c1.year is Some,
        c1.year == c2.year,
    ensures
        year_text(c1, cy1) == year_text(c2, cy2),
{
}

/// Without `year`, the year string is one year with no hyphen when the
/// defaulted ends agree, and `{start}-{end}` otherwise.
pub proof fn lemma_year_range_shape(c: ConfigModel, cy: u32)
    requires
        c.year is None,
    ensures
        range_start(c, cy) == range_end(c, cy) ==> year_text(c, cy) == decimal(
            range_start(c, cy) as nat,
        ) && !year_text(c, cy).contains('-'),
        range_start(c, cy) != range_end(c, cy) ==> year_text(c, cy) == decimal(
            range_start(c, cy) as nat,
        ) + seq!['-'] + decimal(range_end(c, cy) as nat),
{
    lemma_decimal_has_no_hyphen(range_start(c, cy) as nat);
}

/// Adding a URL to a configuration that has neither URL nor email appends
/// exactly `, {url}`; adding an email after that appends exactly
/// ` <{email}>`. Adding them in the other order gives the same result.
pub proof fn lemma_copyright_info_grows(c: ConfigModel, url: Seq<char>, email: Seq<char>)
    requires
        c.url is None,
        c.email is None,
    ensures
        copyright_info(with_url(c, url)) == copyright_info(c) + seq![',', ' '] + url,
        copyright_info(with_email(with_url(c, url), email)) == copyright_info(with_url(c, url))
            + seq![' ', '<'] + email + seq!['>'],
        copyright_info(with_email(c, email)) == copyright_info(c) + seq![' ', '<'] + email
            + seq!['>'],
        copyright_info(with_url(with_email(c, email), url)) == copyright_info(
            with_email(with_url(c, url), email),
        ),
{
}

} // verus!
