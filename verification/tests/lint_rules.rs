use nur::lint_rules::{BinVisibilityRule, LineLimitRule, LintRule, PubFieldsRule};

#[test]
fn flags_bare_pub() {
    assert!(BinVisibilityRule::is_bare_pub("pub fn x() {}"));
    assert!(BinVisibilityRule::is_bare_pub("    pub struct S;"));
    assert!(BinVisibilityRule::is_bare_pub("pub use crate::X;"));
}

#[test]
fn accepts_restricted_or_private() {
    assert!(!BinVisibilityRule::is_bare_pub("pub(crate) fn x() {}"));
    assert!(!BinVisibilityRule::is_bare_pub("    pub(super) struct S;"));
    assert!(!BinVisibilityRule::is_bare_pub("fn private() {}"));
    assert!(!BinVisibilityRule::is_bare_pub("// pub fn doc example"));
    assert!(!BinVisibilityRule::is_bare_pub("/// pub fn em doc"));
}

#[test]
fn flags_public_field() {
    assert!(PubFieldsRule::is_pub_field("    pub name: String,"));
    assert!(PubFieldsRule::is_pub_field("pub size: [usize; 2],"));
}

#[test]
fn ignores_public_items() {
    assert!(!PubFieldsRule::is_pub_field("    pub fn foo() {"));
    assert!(!PubFieldsRule::is_pub_field("pub struct Foo {"));
    assert!(!PubFieldsRule::is_pub_field(
        "    pub const LIMIT: usize = 200;"
    ));
    assert!(!PubFieldsRule::is_pub_field("pub use foo::Bar;"));
    assert!(!PubFieldsRule::is_pub_field("pub mod theme;"));
}

#[test]
fn ignores_restricted_visibility() {
    assert!(!PubFieldsRule::is_pub_field("    pub(crate) name: String,"));
    assert!(!PubFieldsRule::is_pub_field("    name: String,"));
}

#[test]
fn points_out_file_above_limit() {
    let mut content = String::new();
    for _ in 0..LineLimitRule::LIMIT {
        content.push_str("// linha\n");
    }
    let files = vec![("nur_xtask_test_large/large.rs".to_owned(), content)];
    let violations = LineLimitRule::check(&files);
    assert!(violations.iter().any(|v| v.contains("large.rs")));
    assert_eq!(violations, vec!["nur_xtask_test_large/large.rs (200 linhas)".to_owned()]);
}

#[test]
fn accepts_file_within_limit() {
    let files = vec![(
        "nur_xtask_test_small/small.rs".to_owned(),
        "// só uma linha\n".to_owned(),
    )];
    let violations = LineLimitRule::check(&files);
    assert!(violations.is_empty());
}

#[test]
fn one_line_below_limit_is_accepted() {
    let mut content = String::new();
    for _ in 0..LineLimitRule::LIMIT - 1 {
        content.push_str("x\n");
    }
    let files = vec![("a.rs".to_owned(), content)];
    assert!(LineLimitRule::check(&files).is_empty());
}

#[test]
fn bare_pub_hits_name_file_and_line() {
    let files = vec![
        ("src/main.rs".to_owned(), "fn main() {}\npub fn x() {}\n".to_owned()),
        ("src/lib.rs".to_owned(), "pub(crate) fn y() {}\n  pub struct S;".to_owned()),
    ];
    assert_eq!(
        BinVisibilityRule::check(&files),
        vec!["src/main.rs:2".to_owned(), "src/lib.rs:2".to_owned()]
    );
}

#[test]
fn pub_field_hits_name_file_and_line() {
    let files = vec![(
        "crates/a.rs".to_owned(),
        "pub struct A {\n    pub name: String,\n    size: u8,\n    pub(crate) x: u8,\n}\n".to_owned(),
    )];
    assert_eq!(PubFieldsRule::check(&files), vec!["crates/a.rs:2".to_owned()]);
}

#[test]
fn pub_field_with_space_before_colon_counts() {
    assert!(PubFieldsRule::is_pub_field("pub value : u32,"));
    assert!(!PubFieldsRule::is_pub_field("pub "));
    assert!(!PubFieldsRule::is_pub_field("pub enum E {"));
}

#[test]
fn commands_select_rules() {
    assert_eq!(LintRule::rules_for("line-limit"), Some(vec![LintRule::LineLimit]));
    assert_eq!(LintRule::rules_for("pub-fields"), Some(vec![LintRule::PubFields]));
    assert_eq!(LintRule::rules_for("bin-visibility"), Some(vec![LintRule::BinVisibility]));
    assert_eq!(
        LintRule::rules_for("check"),
        Some(vec![LintRule::LineLimit, LintRule::PubFields, LintRule::BinVisibility])
    );
    assert_eq!(LintRule::rules_for(""), None);
    assert_eq!(LintRule::rules_for("checks"), None);
    assert_eq!(LintRule::rules_for("Check"), None);
}
