use auto_mit::config::{default_license, CliOverlay, LicenseConfig};
use auto_mit::derive::{build_copyright_info, build_year_string, build_year_string_now, current_year};
use auto_mit::error::LicenseError;
use auto_mit::render::{generate_license, generate_license_now, render, substitute, ISC_TEMPLATE, MIT_TEMPLATE};
use auto_mit::source::{from_answers, from_cli_base, resolve, select_source, InteractiveAnswers, LicenseKind, SourceKind};
use auto_mit::text::{decimal_string, occurs_at, same_text};

fn config(copyright: &str, license: &str) -> LicenseConfig {
    LicenseConfig {
        copyright: copyright.to_string(),
        email: None,
        url: None,
        year: None,
        start_year: None,
        end_year: None,
        license: license.to_string(),
        format: None,
        theme: None,
    }
}

fn overlay() -> CliOverlay {
    CliOverlay {
        name: None,
        email: None,
        url: None,
        year: None,
        start_year: None,
        end_year: None,
        license: String::new(),
    }
}

fn answers(start: &str, end: &str) -> InteractiveAnswers {
    InteractiveAnswers {
        copyright: "Jane Doe".to_string(),
        email: String::new(),
        url: "https://jane.dev".to_string(),
        start_year: start.to_string(),
        end_year: end.to_string(),
        license: LicenseKind::Isc,
    }
}

#[test]
fn scenario_single_year_mit() {
    let mut c = config("Jane Doe", "mit");
    c.year = Some(2023);
    let out = generate_license(&c, 1999).unwrap();
    assert!(out.text.contains("Copyright (c) 2023 Jane Doe"));
    assert!(out.text.starts_with("MIT License"));
    assert_eq!(out.year_string, "2023");
    assert_eq!(out.copyright_info, "Jane Doe");
    assert_eq!(out.license, "mit");
}

#[test]
fn scenario_range_with_url_isc() {
    let mut c = config("Acme", "ISC");
    c.start_year = Some(2020);
    c.end_year = Some(2024);
    c.url = Some("https://acme.dev".to_string());
    assert_eq!(build_year_string(&c, 2030), "2020-2024");
    assert_eq!(build_copyright_info(&c), "Acme, https://acme.dev");
    let out = generate_license(&c, 2030).unwrap();
    assert!(out.text.starts_with("ISC License"));
    assert!(out.text.contains("Copyright (c) 2020-2024 Acme, https://acme.dev"));
}

#[test]
fn scenario_cli_name_overrides_file() {
    let base = config("FileName", "MIT");
    let mut cli = overlay();
    cli.name = Some("CliName".to_string());
    let c = resolve(base, &cli).unwrap();
    assert_eq!(c.copyright, "CliName");
}

#[test]
fn scenario_empty_holder_fails() {
    let base = config("", "MIT");
    assert_eq!(resolve(base, &overlay()).err(), Some(LicenseError::EmptyCopyrightHolder));
    let mut cli = overlay();
    cli.name = Some(String::new());
    assert_eq!(
        resolve(config("FileName", "MIT"), &cli).err(),
        Some(LicenseError::EmptyCopyrightHolder)
    );
}

#[test]
fn year_overrides_range_fields() {
    let mut a = config("A", "MIT");
    a.year = Some(2021);
    let mut b = config("A", "MIT");
    b.year = Some(2021);
    b.start_year = Some(1990);
    b.end_year = Some(2000);
    assert_eq!(build_year_string(&a, 2025), "2021");
    assert_eq!(build_year_string(&b, 2030), "2021");
}

#[test]
fn equal_range_ends_give_single_year() {
    let mut c = config("A", "MIT");
    c.start_year = Some(2022);
    c.end_year = Some(2022);
    assert_eq!(build_year_string(&c, 2025), "2022");
    let d = config("A", "MIT");
    assert_eq!(build_year_string(&d, 2025), "2025");
}

#[test]
fn range_ends_default_independently() {
    let mut c = config("A", "MIT");
    c.start_year = Some(2019);
    assert_eq!(build_year_string(&c, 2025), "2019-2025");
    let mut d = config("A", "MIT");
    d.end_year = Some(2030);
    assert_eq!(build_year_string(&d, 2025), "2025-2030");
    let mut e = config("A", "MIT");
    e.start_year = Some(2026);
    e.end_year = Some(2024);
    assert_eq!(build_year_string(&e, 2025), "2026-2024");
}

#[test]
fn copyright_info_appends_url_then_email() {
    let mut c = config("Jane", "MIT");
    assert_eq!(build_copyright_info(&c), "Jane");
    c.email = Some("j@x.org".to_string());
    assert_eq!(build_copyright_info(&c), "Jane <j@x.org>");
    c.url = Some("https://j.dev".to_string());
    assert_eq!(build_copyright_info(&c), "Jane, https://j.dev <j@x.org>");
}

#[test]
fn email_is_not_escaped_in_output() {
    let mut c = config("Jane", "MIT");
    c.year = Some(2024);
    c.email = Some("j@x.org".to_string());
    let out = generate_license(&c, 2024).unwrap();
    assert!(out.text.contains("Copyright (c) 2024 Jane <j@x.org>"));
}

#[test]
fn merge_absent_fields_keep_base() {
    let mut c = config("Base", "ISC");
    c.email = Some("b@b".to_string());
    c.url = Some("u".to_string());
    c.year = Some(2001);
    c.start_year = Some(2002);
    c.end_year = Some(2003);
    c.format = Some("f".to_string());
    c.theme = Some("t".to_string());
    c.merge_with_cli(&overlay());
    assert_eq!(c.copyright, "Base");
    assert_eq!(c.email.as_deref(), Some("b@b"));
    assert_eq!(c.url.as_deref(), Some("u"));
    assert_eq!(c.year, Some(2001));
    assert_eq!(c.start_year, Some(2002));
    assert_eq!(c.end_year, Some(2003));
    assert_eq!(c.license, "ISC");
    assert_eq!(c.format.as_deref(), Some("f"));
    assert_eq!(c.theme.as_deref(), Some("t"));
}

#[test]
fn merge_present_fields_replace_base() {
    let mut c = config("Base", "ISC");
    c.email = Some("b@b".to_string());
    c.url = Some("u".to_string());
    c.year = Some(2001);
    c.start_year = Some(2002);
    c.end_year = Some(2003);
    let cli = CliOverlay {
        name: Some("New".to_string()),
        email: Some("n@n".to_string()),
        url: Some("v".to_string()),
        year: Some(2011),
        start_year: Some(2012),
        end_year: Some(2013),
        license: "mit".to_string(),
    };
    c.merge_with_cli(&cli);
    assert_eq!(c.copyright, "New");
    assert_eq!(c.email.as_deref(), Some("n@n"));
    assert_eq!(c.url.as_deref(), Some("v"));
    assert_eq!(c.year, Some(2011));
    assert_eq!(c.start_year, Some(2012));
    assert_eq!(c.end_year, Some(2013));
    assert_eq!(c.license, "MIT");
}

#[test]
fn unsupported_license_kinds_fail() {
    for kind in ["GPL", "mit ", "", "Apache-2.0"] {
        let c = config("A", kind);
        assert_eq!(
            render(&c, "A", "2024"),
            Err(LicenseError::UnsupportedLicenseKind(kind.to_string()))
        );
        assert_eq!(
            generate_license(&c, 2024).err(),
            Some(LicenseError::UnsupportedLicenseKind(kind.to_string()))
        );
    }
}

#[test]
fn license_kind_matches_case_insensitively() {
    for kind in ["isc", "Isc", "ISC", "iSc"] {
        let text = render(&config("A", kind), "A", "2024").unwrap();
        assert!(text.starts_with("ISC License"));
        assert!(text.contains("Copyright (c) 2024 A"));
    }
    let text = render(&config("A", "Mit"), "B", "1").unwrap();
    assert!(text.starts_with("MIT License"));
}

#[test]
fn substitute_replaces_every_placeholder() {
    assert_eq!(substitute("{{year}}|{{copyright}}|{{year}}", "C", "Y"), "Y|C|Y");
    assert_eq!(substitute("", "C", "Y"), "");
    assert_eq!(substitute("{{other}} {{year", "C", "Y"), "{{other}} {{year");
    assert_eq!(substitute("{{{year}}}", "C", "Y"), "{Y}");
    let full = substitute(MIT_TEMPLATE, "X", "Z");
    assert!(!full.contains("{{"));
    assert!(substitute(ISC_TEMPLATE, "X", "Z").contains("Copyright (c) Z X"));
}

#[test]
fn decimal_formatting() {
    assert_eq!(decimal_string(0), "0");
    assert_eq!(decimal_string(7), "7");
    assert_eq!(decimal_string(10), "10");
    assert_eq!(decimal_string(2024), "2024");
    assert_eq!(decimal_string(u32::MAX), "4294967295");
}

#[test]
fn text_helpers() {
    assert!(same_text("abc", "abc"));
    assert!(!same_text("abc", "abd"));
    assert!(!same_text("abc", "ab"));
    assert!(occurs_at("xx{{year}}", 2, "{{year}}"));
    assert!(!occurs_at("xx{{year}}", 3, "{{year}}"));
    assert!(!occurs_at("xx{{ye", 2, "{{year}}"));
}

#[test]
fn default_license_is_mit() {
    assert_eq!(default_license(), "MIT");
}

#[test]
fn source_selection() {
    assert_eq!(select_source(true, true, false), SourceKind::File);
    assert_eq!(select_source(false, true, true), SourceKind::Interactive);
    assert_eq!(select_source(false, false, false), SourceKind::Interactive);
    assert_eq!(select_source(false, false, true), SourceKind::CommandLine);
}

#[test]
fn cli_base_uses_placeholder_holder() {
    let mut cli = overlay();
    cli.license = "MIT".to_string();
    cli.year = Some(2020);
    let c = from_cli_base(&cli);
    assert_eq!(c.copyright, "Copyright Holder");
    assert_eq!(c.year, Some(2020));
    assert_eq!(c.license, "MIT");
    assert_eq!(c.format, None);
    cli.name = Some("Named".to_string());
    assert_eq!(from_cli_base(&cli).copyright, "Named");
}

#[test]
fn answers_default_years_and_drop_empty_entries() {
    let c = from_answers(answers("", ""), 2025).unwrap();
    assert_eq!(c.copyright, "Jane Doe");
    assert_eq!(c.email, None);
    assert_eq!(c.url.as_deref(), Some("https://jane.dev"));
    assert_eq!(c.year, None);
    assert_eq!(c.start_year, Some(2025));
    assert_eq!(c.end_year, Some(2025));
    assert_eq!(c.license, "ISC");
    assert_eq!(build_year_string(&c, 1), "2025");
}

#[test]
fn answers_parse_years() {
    let c = from_answers(answers("2018", "+2024"), 2025).unwrap();
    assert_eq!(c.start_year, Some(2018));
    assert_eq!(c.end_year, Some(2024));
    assert_eq!(build_year_string(&c, 1), "2018-2024");
}

#[test]
fn answers_reject_invalid_years() {
    assert_eq!(
        from_answers(answers("20x0", "abc"), 2025).err(),
        Some(LicenseError::InvalidYearInput("20x0".to_string()))
    );
    assert_eq!(
        from_answers(answers("2020", "-1"), 2025).err(),
        Some(LicenseError::InvalidYearInput("-1".to_string()))
    );
    assert_eq!(
        from_answers(answers("99999999999", ""), 2025).err(),
        Some(LicenseError::InvalidYearInput("99999999999".to_string()))
    );
    assert_eq!(
        from_answers(answers("+", ""), 2025).err(),
        Some(LicenseError::InvalidYearInput("+".to_string()))
    );
}

#[test]
fn license_kind_names() {
    assert_eq!(LicenseKind::Mit.name(), "MIT");
    assert_eq!(LicenseKind::Isc.name(), "ISC");
}

#[test]
fn current_year_is_used_for_missing_range() {
    let cy = current_year();
    assert!(cy >= 2024);
    let c = config("A", "MIT");
    assert_eq!(build_year_string_now(&c), cy.to_string());
    let out = generate_license_now(&c).unwrap();
    assert!(out.text.contains(&format!("Copyright (c) {} A", cy)));
}
