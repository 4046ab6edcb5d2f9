//! License templates and the substitution of the two derived strings into
//! them.
use vstd::prelude::*;
use vstd::string::*;
use crate::config::{ConfigModel, LicenseConfig};
use crate::derive::{build_copyright_info, build_year_string, copyright_info, current_year, year_text};
use crate::error::{is_unsupported, LicenseError};
use crate::text::{occurs_at, same_text, upper_of, uppercase};

verus! {

/// The MIT license, with `{{year}}` and `{{copyright}}` placeholders.
pub const MIT_TEMPLATE: &'static str = "MIT License

Copyright (c) {{year}} {{copyright}}

Permission is hereby granted, free of charge, to any person obtaining a copy
of this software and associated documentation files (the \"Software\"), to deal
in the Software without restriction, including without limitation the rights
to use, copy, modify, merge, publish, distribute, sublicense, and/or sell
copies of the Software, and to permit persons to whom the Software is
furnished to do so, subject to the following conditions:

The above copyright notice and this permission notice shall be included in all
copies or substantial portions of the Software.

THE SOFTWARE IS PROVIDED \"AS IS\", WITHOUT WARRANTY OF ANY KIND, EXPRESS OR
IMPLIED, INCLUDING BUT NOT LIMITED TO THE WARRANTIES OF MERCHANTABILITY,
FITNESS FOR A PARTICULAR PURPOSE AND NONINFRINGEMENT. IN NO EVENT SHALL THE
AUTHORS OR COPYRIGHT HOLDERS BE LIABLE FOR ANY CLAIM, DAMAGES OR OTHER
LIABILITY, WHETHER IN AN ACTION OF CONTRACT, TORT OR OTHERWISE, ARISING FROM,
OUT OF OR IN CONNECTION WITH THE SOFTWARE OR THE USE OR OTHER DEALINGS IN THE
SOFTWARE.
";

/// The ISC license, with `{{year}}` and `{{copyright}}` placeholders.
pub const ISC_TEMPLATE: &'static str = "ISC License

Copyright (c) {{year}} {{copyright}}

Permission to use, copy, modify, and/or distribute this software for any
purpose with or without fee is hereby granted, provided that the above
copyright notice and this permission notice appear in all copies.

THE SOFTWARE IS PROVIDED \"AS IS\" AND THE AUTHOR DISCLAIMS ALL WARRANTIES
WITH REGARD TO THIS SOFTWARE INCLUDING ALL IMPLIED WARRANTIES OF
MERCHANTABILITY AND FITNESS. IN NO EVENT SHALL THE AUTHOR BE LIABLE FOR
ANY SPECIAL, DIRECT, INDIRECT, OR CONSEQUENTIAL DAMAGES OR ANY DAMAGES
WHATSOEVER RESULTING FROM LOSS OF USE, DATA OR PROFITS, WHETHER IN AN
ACTION OF CONTRACT, NEGLIGENCE OR OTHER TORTIOUS ACTION, ARISING OUT OF
OR IN CONNECTION WITH THE USE OR PERFORMANCE OF THIS SOFTWARE.
";

/// The copyright placeholder, `{{copyright}}`.
pub open spec fn copyright_tag() -> Seq<char> {
    seq!['{', '{', 'c', 'o', 'p', 'y', 'r', 'i', 'g', 'h', 't', '}', '}']
}

/// The year placeholder, `{{year}}`.
pub open spec fn year_tag() -> Seq<char> {
    seq!['{', '{', 'y', 'e', 'a', 'r', '}', '}']
}

/// Whether `t` begins with `tag`.
pub open spec fn starts_with(t: Seq<char>, tag: Seq<char>) -> bool {
    tag.len() <= t.len() && t.subrange(0, tag.len() as int) == tag
}

/// `t` with every placeholder, read from left to right, replaced by its
/// value: `{{copyright}}` by `c` and `{{year}}` by `y`.
pub open spec fn fill(t: Seq<char>, c: Seq<char>, y: Seq<char>) -> Seq<char>
    decreases t.len(),
{
    if t.len() == 0 {
        Seq::empty()
    } else if starts_with(t, copyright_tag()) {
        c + fill(t.skip(13), c, y)
    } else if starts_with(t, year_tag()) {
        y + fill(t.skip(8), c, y)
    } else {
        seq![t[0]] + fill(t.skip(1), c, y)
    }
}

/// Replaces the placeholders of `template` by `copyright` and `year`.
pub fn substitute(template: &str, copyright: &str, year: &str) -> (r: String)
    ensures
        r@ == fill(template@, copyright@, year@),
{
    let ctag = "{{copyright}}";
    let ytag = "{{year}}";
    proof {
        reveal_strlit("{{copyright}}");
        reveal_strlit("{{year}}");
    }
    assert(ctag@ =~= copyright_tag());
    assert(ytag@ =~= year_tag());
    let n = template.unicode_len();
    let mut out = String::new();
    let mut i: usize = 0;
    assert(template@.skip(0) =~= template@);
    assert(out@ + fill(template@, copyright@, year@) =~= fill(template@, copyright@, year@));
    while i < n
        invariant
            n == template@.len(),
            i <= n,
            ctag@ == copyright_tag(),
            ytag@ == year_tag(),
            fill(template@, copyright@, year@) == out@ + fill(
                template@.skip(i as int),
                copyright@,
                year@,
            ),
        decreases n - i,
    {
        let ghost rest = template@.skip(i as int);
        assert(rest.len() > 0);
        if occurs_at(template, i, ctag) {
            assert(rest.subrange(0, 13) =~= template@.subrange(i as int, i + 13));
            assert(rest.skip(13) =~= template@.skip(i + 13));
            out.append(copyright);
            i = i + 13;
        } else if occurs_at(template, i, ytag) {
            assert(!starts_with(rest, copyright_tag())) by {
                if 13 <= rest.len() {
                    assert(rest.subrange(0, 13) =~= template@.subrange(i as int, i + 13));
                }
            }
            assert(rest.subrange(0, 8) =~= template@.subrange(i as int, i + 8));
            assert(rest.skip(8) =~= template@.skip(i + 8));
            out.append(year);
            i = i + 8;
        } else {
            assert(!starts_with(rest, copyright_tag())) by {
                if 13 <= rest.len() {
                    assert(rest.subrange(0, 13) =~= template@.subrange(i as int, i + 13));
                }
            }
            assert(!starts_with(rest, year_tag())) by {
                if 8 <= rest.len() {
                    assert(rest.subrange(0, 8) =~= template@.subrange(i as int, i + 8));
                }
            }
            let ch = template.substring_char(i, i + 1);
            assert(ch@ =~= seq![rest[0]]);
            assert(rest.skip(1) =~= template@.skip(i + 1));
            out.append(ch);
            assert(out@ + fill(template@.skip(i + 1), copyright@, year@) =~= out@.subrange(
                0,
                out@.len() - 1,
            ) + (seq![rest[0]] + fill(rest.skip(1), copyright@, year@)));
            i = i + 1;
        }
    }
    assert(template@.skip(n as int) =~= Seq::<char>::empty());
    assert(out@ + Seq::<char>::empty() =~= out@);
    out
}

} // verus!

verus! {

/// The template of a license kind, given in upper case.
pub open spec fn template_for(kind: Seq<char>) -> Option<Seq<char>> {
    if kind == "MIT"@ {
        Some(MIT_TEMPLATE@)
    } else if kind == "ISC"@ {
        Some(ISC_TEMPLATE@)
    } else {
        None
    }
}

/// Renders the template of `config.license`, matched without regard to
/// case, with the given copyright information and year string.
pub fn render(config: &LicenseConfig, copyright_info: &str, year_string: &str) -> (r: Result<
    String,
    LicenseError,
>)
    ensures
        match template_for(upper_of(config@.license)) {
            Some(t) => r is Ok && r->Ok_0@ == fill(t, copyright_info@, year_string@),
            None => r is Err && is_unsupported(r->Err_0, config@.license),
        },
{
    let kind = uppercase(config.license.as_str());
    if same_text(kind.as_str(), "MIT") {
        Ok(substitute(MIT_TEMPLATE, copyright_info, year_string))
    } else if same_text(kind.as_str(), "ISC") {
        Ok(substitute(ISC_TEMPLATE, copyright_info, year_string))
    } else {
        Err(LicenseError::UnsupportedLicenseKind(config.license.clone()))
    }
}

/// A rendered license together with what went into it.
pub struct LicenseOutput {
    /// The full license text, before trimming.
    pub text: String,
    /// The license kind as the configuration gave it.
    pub license: String,
    pub copyright_info: String,
    pub year_string: String,
}

/// Whether `r` is what rendering `c` gives when the current year is `cy`.
pub open spec fn generated(c: ConfigModel, cy: u32, r: Result<LicenseOutput, LicenseError>) -> bool {
    match template_for(upper_of(c.license)) {
        Some(t) => match r {
            Ok(o) => {
                &&& o.text@ == fill(t, copyright_info(c), year_text(c, cy))
                &&& o.copyright_info@ == copyright_info(c)
                &&& o.year_string@ == year_text(c, cy)
                &&& o.license@ == c.license
            },
            Err(_) => false,
        },
        None => match r {
            Ok(_) => false,
            Err(e) => is_unsupported(e, c.license),
        },
    }
}

/// Derives both strings of `config` and renders its license, with
/// `current_year` standing for each missing end of the year range.
pub fn generate_license(config: &LicenseConfig, current_year: u32) -> (r: Result<
    LicenseOutput,
    LicenseError,
>)
    ensures
        generated(config@, current_year, r),
{
    let copyright_info = build_copyright_info(config);
    let year_string = build_year_string(config, current_year);
    match render(config, copyright_info.as_str(), year_string.as_str()) {
        Ok(text) => Ok(
            LicenseOutput { text, license: config.license.clone(), copyright_info, year_string },
        ),
        Err(e) => Err(e),
    }
}

/// Renders the license of `config` against the current calendar year.
pub fn generate_license_now(config: &LicenseConfig) -> (r: Result<LicenseOutput, LicenseError>)
    ensures
        exists|cy: u32| generated(config@, cy, r),
{
    let cy = current_year();
    generate_license(config, cy)
}

} // verus!
