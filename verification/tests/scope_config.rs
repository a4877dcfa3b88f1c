use commit_msg_hook::commit_msg::{ConfigFault, Failure, ScopeConfig, Verdict};

fn only_test() -> ScopeConfig {
    ScopeConfig { allowed_scopes: Some(vec!["test".to_string()]) }
}

#[test]
fn test_validate_scope1() {
    let scope_config = ScopeConfig { allowed_scopes: Some(vec!["test".to_string()]) };
    assert!(!scope_config.validate_scope_with_config("feat(test123): add feature").is_pass());
}

#[test]
fn test_validate_scope2() {
    let scope_config = ScopeConfig { allowed_scopes: Some(vec!["test".to_string()]) };
    assert!(scope_config.validate_scope_with_config("feat(test): test").is_pass());
}

#[test]
fn test_validate_scope3() {
    let scope_config = ScopeConfig { allowed_scopes: Some(vec!["test".to_string()]) };
    assert!(!scope_config.validate_scope_with_config("feat(rust): add a new feature").is_pass());
}

#[test]
fn test_validate_scope4() {
    let scope_config = ScopeConfig { allowed_scopes: Some(vec!["test".to_string()]) };
    assert!(!scope_config.validate_scope_with_config("feat(): add a new feature").is_pass());
    assert!(!scope_config.validate_scope_with_config("feat(: add a new feature").is_pass());
    assert!(!scope_config.validate_scope_with_config("feat): add a new feature").is_pass());
    assert!(!scope_config.validate_scope_with_config("feat(te: add a new feature").is_pass());
}

#[test]
fn scope_faults_are_told_apart() {
    let c = only_test();
    assert_eq!(
        c.validate_scope_with_config("feat(test123): add feature"),
        Verdict::Fail(Failure::ScopeNotAllowed { found: "test123".to_string() })
    );
    assert_eq!(
        c.validate_scope_with_config("feat(): add"),
        Verdict::Fail(Failure::ScopeNotAllowed { found: String::new() })
    );
    assert_eq!(
        c.validate_scope_with_config("feat(: add"),
        Verdict::Fail(Failure::ScopeRightParenMissing)
    );
    assert_eq!(
        c.validate_scope_with_config("feat): add"),
        Verdict::Fail(Failure::ScopeLeftParenMissing)
    );
    assert_eq!(
        c.validate_scope_with_config("feat(te: add"),
        Verdict::Fail(Failure::ScopeRightParenMissing)
    );
    assert_eq!(c.validate_scope_with_config("feat: add"), Verdict::Fail(Failure::ScopeMissing));
    assert_eq!(c.validate_scope_with_config("no colon (here)"), Verdict::Fail(Failure::ScopeMissing));
}

#[test]
fn degenerate_scope_lists_are_configuration_errors() {
    let msg = "feat(test): add";
    let none = ScopeConfig { allowed_scopes: None };
    let empty = ScopeConfig { allowed_scopes: Some(vec![]) };
    let blank = ScopeConfig { allowed_scopes: Some(vec![String::new(), String::new()]) };
    assert_eq!(
        none.validate_scope_with_config(msg),
        Verdict::ConfigError(ConfigFault::AllowedScopesEmpty)
    );
    assert_eq!(
        empty.validate_scope_with_config(msg),
        Verdict::ConfigError(ConfigFault::AllowedScopesEmpty)
    );
    assert_eq!(
        blank.validate_scope_with_config(msg),
        Verdict::ConfigError(ConfigFault::AllowedScopesBlank)
    );
    assert_eq!(
        blank.validate_scope_with_config(""),
        Verdict::ConfigError(ConfigFault::AllowedScopesBlank)
    );
}

#[test]
fn unbalanced_scopes_fail_with_and_without_a_list() {
    let lists: Vec<Option<Vec<String>>> = vec![
        None,
        Some(vec![]),
        Some(vec![String::new()]),
        Some(vec!["test".to_string()]),
        Some(vec!["(".to_string(), ")".to_string(), "te".to_string(), String::new()]),
    ];
    for msg in ["feat(: msg", "feat): msg", "feat(te: msg"] {
        for list in &lists {
            let c = ScopeConfig { allowed_scopes: list.clone() };
            assert!(!c.validate_scope_with_config(msg).is_pass(), "{msg}");
        }
        assert!(ScopeConfig::validate_scope_without_config(msg).is_fail(), "{msg}");
    }
}

#[test]
fn balanced_scope_passes_if_and_only_if_allowed() {
    let msg = "feat(test): msg";
    assert!(only_test().validate_scope_with_config(msg).is_pass());
    let other = ScopeConfig { allowed_scopes: Some(vec!["core".to_string(), "docs".to_string()]) };
    assert_eq!(
        other.validate_scope_with_config(msg),
        Verdict::Fail(Failure::ScopeNotAllowed { found: "test".to_string() })
    );
    let second = ScopeConfig { allowed_scopes: Some(vec!["core".to_string(), "test".to_string()]) };
    assert!(second.validate_scope_with_config(msg).is_pass());
    assert_eq!(ScopeConfig::validate_scope_without_config(msg), Verdict::Pass);
}

#[test]
fn syntax_check_lets_a_missing_scope_pass() {
    assert_eq!(ScopeConfig::validate_scope_without_config("feat: add"), Verdict::Pass);
    assert_eq!(ScopeConfig::validate_scope_without_config("no colon at all"), Verdict::Pass);
    assert_eq!(ScopeConfig::validate_scope_without_config("feat: add (x)"), Verdict::Pass);
    assert_eq!(ScopeConfig::validate_scope_without_config("a|b: c"), Verdict::Pass);
}

#[test]
fn syntax_check_faults() {
    assert_eq!(
        ScopeConfig::validate_scope_without_config("feat(): subject"),
        Verdict::Fail(Failure::ScopeEmptyParens)
    );
    assert_eq!(
        ScopeConfig::validate_scope_without_config("feat((x)): subject"),
        Verdict::Fail(Failure::ScopeRedundantParens)
    );
    assert_eq!(
        ScopeConfig::validate_scope_without_config("feat(a)b): subject"),
        Verdict::Fail(Failure::ScopeRedundantParens)
    );
    assert_eq!(
        ScopeConfig::validate_scope_without_config("feat)x(: subject"),
        Verdict::Fail(Failure::ScopeLeftParenMissing)
    );
    assert_eq!(
        ScopeConfig::validate_scope_without_config("feat(x: subject"),
        Verdict::Fail(Failure::ScopeRightParenMissing)
    );
    assert_eq!(
        ScopeConfig::validate_scope_without_config("feat(x) : subject"),
        Verdict::Fail(Failure::ScopeRightParenMissing)
    );
}

#[test]
fn scope_may_follow_an_earlier_colon() {
    let c = ScopeConfig { allowed_scopes: Some(vec!["foo".to_string()]) };
    assert_eq!(c.validate_scope_with_config("feat: add (foo): bar"), Verdict::Pass);
    assert_eq!(c.validate_scope_with_config("feat: add (foo) bar"), Verdict::Fail(Failure::ScopeMissing));
}

#[test]
fn empty_scope_is_held_against_the_list_like_any_other() {
    let c = ScopeConfig { allowed_scopes: Some(vec![String::new(), "x".to_string()]) };
    assert_eq!(c.validate_scope_with_config("feat(): add"), Verdict::Pass);
}

#[test]
fn scope_is_read_from_the_first_significant_line() {
    let c = only_test();
    let msg = "\n# feat(other): comment\n   \r\nfeat(test): real\nfix(other): later\n";
    assert_eq!(c.validate_scope_with_config(msg), Verdict::Pass);
    assert_eq!(ScopeConfig::validate_scope_without_config(msg), Verdict::Pass);
    assert_eq!(c.validate_scope_with_config("# only\n\n"), Verdict::EmptyMessage);
    assert_eq!(ScopeConfig::validate_scope_without_config(" \n#x"), Verdict::EmptyMessage);
}

#[test]
fn scope_of_other_scripts_is_counted_in_codepoints() {
    let c = ScopeConfig { allowed_scopes: Some(vec!["核心".to_string()]) };
    assert_eq!(c.validate_scope_with_config("功能(核心): 新增"), Verdict::Pass);
    assert_eq!(
        c.validate_scope_with_config("功能(界面): 新增"),
        Verdict::Fail(Failure::ScopeNotAllowed { found: "界面".to_string() })
    );
}
