use rusty_ci::{unmatched_quotes, unwrap, CiError, Yaml};

#[test]
fn unmatched_quotes_yaml() {
    let yaml = Yaml::from_text(
        r#"

testing:
  - "Test"
  - 2.0
  - "this line will fail
  - okay

"#,
    );

    assert_eq!(
        unmatched_quotes(&yaml),
        Some(String::from(r#"  - "this line will fail"#))
    );

    let yaml = Yaml::from_text(
        r#"

testing:
  - "Test"
  - 2.0
  - okay

"#,
    );

    assert_eq!(unmatched_quotes(&yaml), None);
}

#[test]
fn unwrap_yaml() {
    let yaml = Yaml::from_text(
        r#"
testing: "hey there"
key: 1.0
value: https://github.com/adam-mcdaniel/rusty-ci
"#,
    );

    assert_eq!(unwrap(&yaml, "testing"), String::from("hey there"));
    assert_eq!(unwrap(&yaml, "key"), String::from("1.0"));
    assert_eq!(
        unwrap(&yaml, "value"),
        String::from("https://github.com/adam-mcdaniel/rusty-ci")
    );
}

#[test]
fn section_lookup_and_names() {
    let yaml = Yaml::from_text("alpha: 1\nbeta:\n  inner: x\ngamma: 3\n");
    assert!(yaml.has_section("alpha"));
    assert!(yaml.has_section("beta"));
    assert!(!yaml.has_section("delta"));
    assert_eq!(
        yaml.get_section_names(),
        vec![
            String::from("alpha"),
            String::from("beta"),
            String::from("gamma")
        ]
    );
    let beta = yaml.get_section("beta").unwrap();
    assert_eq!(beta.get_name(), "beta");
    assert!(beta.has_section("inner"));
    assert_eq!(unwrap(&beta, "inner"), "x");
}

#[test]
fn missing_section_is_typed() {
    let yaml = Yaml::from_text("alpha: 1\n");
    match yaml.get_section("missing") {
        Err(CiError::MissingSection { entity, section }) => {
            assert_eq!(entity, "");
            assert_eq!(section, "missing");
        }
        _ => panic!("a missing section must yield the typed failure"),
    }
}

#[test]
fn document_scalars_strip_single_and_double_quotes_only() {
    // a backtick-wrapped document value is kept verbatim, unlike `unquote`
    let yaml = Yaml::from_text("a: `x`\nb: 'x'\nc: \"x\"\n");
    assert_eq!(unwrap(&yaml, "a"), "`x`");
    assert_eq!(unwrap(&yaml, "b"), "x");
    assert_eq!(unwrap(&yaml, "c"), "x");
    assert_eq!(rusty_ci::unquote("`x`"), "x");
}

#[test]
fn quoted_values_with_colons_stay_scalars() {
    let yaml = Yaml::from_text("title: \"My: Title\"\nrepo: https://example.com/r.git\n");
    assert_eq!(unwrap(&yaml, "title"), "My: Title");
    assert_eq!(unwrap(&yaml, "repo"), "https://example.com/r.git");
}

#[test]
fn sequence_iteration() {
    let yaml = Yaml::from_text("list:\n  - one\n  - two\n  - three\n");
    let list = yaml.get_section("list").unwrap();
    let first = list.nth(0).unwrap();
    assert_eq!(first.text(), "one");
    assert_eq!(list.nth(2).unwrap().text(), "three");
    assert!(list.nth(3).is_none());
}

#[test]
fn mapping_iterated_as_items() {
    let yaml = Yaml::from_text("workers:\n  w1:\n    basedir: /a\n  w2:\n    basedir: /b\n");
    let workers = yaml.get_section("workers").unwrap();
    let items = workers.items();
    assert_eq!(items.len(), 2);
    assert_eq!(items[0].get_name(), "w1");
    assert_eq!(items[1].get_name(), "w2");
}
