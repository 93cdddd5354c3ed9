use xml_fmt::{build_config, exit_code, Config, ConfigError, Indent};

fn s(t: &str) -> String {
    t.to_owned()
}

#[test]
fn indent_strings() {
    assert_eq!(Indent::Tab.get_str(), "\t");
    assert_eq!(Indent::Two.get_str(), "  ");
    assert_eq!(Indent::Four.get_str(), "    ");
}

#[test]
fn selector_parsing() {
    assert_eq!(Indent::from_selector("tab"), Some(Indent::Tab));
    assert_eq!(Indent::from_selector("2space"), Some(Indent::Two));
    assert_eq!(Indent::from_selector("4space"), Some(Indent::Four));
    assert_eq!(Indent::from_selector("spaces"), None);
    assert_eq!(Indent::from_selector(""), None);
    assert_eq!(Indent::from_selector("TAB"), None);
}

#[test]
fn stdout_and_output_are_mutually_exclusive() {
    // Rejected regardless of whether the input file exists (no canonical
    // form could be computed here).
    let r = build_config(s("missing.xml"), Some(s("out.xml")), true, "tab", None, None);
    assert_eq!(r.unwrap_err(), ConfigError::OutputConflict);
}

#[test]
fn same_canonical_file_is_rejected() {
    let r = build_config(
        s("./dir/../in.xml"),
        Some(s("in.xml")),
        false,
        "tab",
        Some(s("/abs/in.xml")),
        Some(s("/abs/in.xml")),
    );
    assert_eq!(r.unwrap_err(), ConfigError::SamePath);
}

#[test]
fn distinct_canonical_files_are_accepted() {
    let r = build_config(
        s("in.xml"),
        Some(s("out.xml")),
        false,
        "2space",
        Some(s("/abs/in.xml")),
        Some(s("/abs/out.xml")),
    );
    let c: Config = r.unwrap();
    assert_eq!(c.input, "in.xml");
    assert_eq!(c.output, Some(s("out.xml")));
    assert!(!c.to_stdout);
    assert_eq!(c.indent, Indent::Two);
}

#[test]
fn unresolvable_output_path_is_accepted() {
    // A fresh output file has no canonical form yet; the same-file rule
    // cannot apply.
    let r = build_config(
        s("in.xml"),
        Some(s("new.xml")),
        false,
        "4space",
        Some(s("/abs/in.xml")),
        None,
    );
    assert_eq!(r.unwrap().indent, Indent::Four);
}

#[test]
fn unknown_indent_is_checked_first() {
    let r = build_config(s("in.xml"), Some(s("out.xml")), true, "3space", None, None);
    assert_eq!(r.unwrap_err(), ConfigError::UnknownIndent);
}

#[test]
fn conflict_is_checked_before_same_file() {
    let r = build_config(
        s("in.xml"),
        Some(s("in.xml")),
        true,
        "tab",
        Some(s("/abs/in.xml")),
        Some(s("/abs/in.xml")),
    );
    assert_eq!(r.unwrap_err(), ConfigError::OutputConflict);
}

#[test]
fn stdout_run_builds_a_config() {
    let c = build_config(s("in.xml"), None, true, "tab", Some(s("/abs/in.xml")), None).unwrap();
    assert!(c.to_stdout);
    assert_eq!(c.output, None);
    assert_eq!(c.indent, Indent::Tab);
}

#[test]
fn error_messages() {
    assert_eq!(
        ConfigError::OutputConflict.message(),
        "Cannot use both --stdout and --output options"
    );
    assert_eq!(
        ConfigError::UnknownIndent.message(),
        "Unknown indent style: expected tab, 2space or 4space"
    );
    assert!(ConfigError::SamePath.message().contains("same file"));
}

#[test]
fn exit_codes() {
    assert_eq!(exit_code(true), 0);
    assert_eq!(exit_code(false), 1);
}
