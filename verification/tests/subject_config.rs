use commit_msg_hook::commit_msg::{Failure, SubjectConfig, Verdict};

fn bounds(require_space: bool, min: u8, max: u8) -> SubjectConfig {
    SubjectConfig {
        require_space_after_colon: Some(require_space),
        min_length: Some(min),
        max_length: Some(max),
    }
}

fn out_of_range(length: usize, min_length: u8, max_length: u8) -> Verdict {
    Verdict::Fail(Failure::SubjectLengthOutOfRange { length, min_length, max_length })
}

#[test]
fn test_validate_subject_space() {
    let commit_msg = "feat: Add new feature";
    let subject_config = SubjectConfig {
        require_space_after_colon: Some(true),
        min_length: Some(10),
        max_length: Some(50),
    };
    assert!(subject_config.validate_subject(commit_msg).is_pass());
}

#[test]
fn test_validate_subject_space_failure() {
    let commit_msg = "feat:Add new feature";
    let subject_config = SubjectConfig {
        require_space_after_colon: Some(true),
        min_length: Some(10),
        max_length: Some(50),
    };
    assert!(!subject_config.validate_subject(commit_msg).is_pass());
}

#[test]
fn test_validate_subject_space_failure2() {
    let commit_msg = "feat: Add new feature";
    let subject_config = SubjectConfig {
        require_space_after_colon: Some(false),
        min_length: Some(10),
        max_length: Some(50),
    };
    assert!(!subject_config.validate_subject(commit_msg).is_pass());
}

#[test]
fn test_validate_subject_length_failure() {
    let commit_msg = "subject: This is a very long subject that exceeds the maximum length";
    let subject_config = SubjectConfig {
        require_space_after_colon: Some(true),
        min_length: Some(10),
        max_length: Some(50),
    };
    assert!(!subject_config.validate_subject(commit_msg).is_pass());
}

#[test]
fn subject_bounds_are_inclusive() {
    let config = bounds(true, 10, 50);
    let of = |n: usize| format!("feat: {}", "x".repeat(n));
    assert_eq!(config.validate_subject(&of(10)), Verdict::Pass);
    assert_eq!(config.validate_subject(&of(50)), Verdict::Pass);
    assert_eq!(config.validate_subject(&of(30)), Verdict::Pass);
    assert_eq!(config.validate_subject(&of(9)), out_of_range(9, 10, 50));
    assert_eq!(config.validate_subject(&of(51)), out_of_range(51, 10, 50));
    assert_eq!(config.validate_subject(&of(0)), out_of_range(0, 10, 50));
    assert_eq!(
        config.validate_subject(
            "subject: This is a very long subject that exceeds the maximum length"
        ),
        out_of_range(59, 10, 50)
    );
}

#[test]
fn subject_length_is_counted_after_trimming() {
    let config = bounds(true, 10, 50);
    assert_eq!(config.validate_subject("feat:   0123456789 \t "), Verdict::Pass);
    assert_eq!(config.validate_subject("feat:   012345678 \t "), out_of_range(9, 10, 50));
    assert_eq!(config.validate_subject("feat: 01234 6789"), Verdict::Pass);
    assert_eq!(config.validate_subject("feat: \u{3000}0123456789\u{a0}"), Verdict::Pass);
}

#[test]
fn subject_length_is_counted_in_codepoints() {
    let config = bounds(true, 10, 50);
    assert_eq!(config.validate_subject("feat: 一二三四五六七八九十"), Verdict::Pass);
    assert_eq!(config.validate_subject("feat: 一二三四五六七八九"), out_of_range(9, 10, 50));
    let long: String = "é".repeat(50);
    assert_eq!(config.validate_subject(&format!("feat: {long}")), Verdict::Pass);
    assert_eq!(config.validate_subject(&format!("feat: {long}é")), out_of_range(51, 10, 50));
}

#[test]
fn space_policy_is_judged_before_the_length() {
    let required = bounds(true, 10, 50);
    let forbidden = bounds(false, 10, 50);
    let space_required = Verdict::Fail(Failure::SubjectSpaceRequired);
    let space_forbidden = Verdict::Fail(Failure::SubjectSpaceForbidden);
    assert_eq!(required.validate_subject("feat:no space"), space_required);
    assert_eq!(required.validate_subject("feat:no space but long enough"), space_required);
    assert_eq!(required.validate_subject("feat:x"), space_required);
    assert_eq!(required.validate_subject("feat:"), space_required);
    assert_eq!(required.validate_subject("feat:\tAdd new feature"), space_required);
    assert_eq!(forbidden.validate_subject("feat: Add new feature"), space_forbidden);
    assert_eq!(forbidden.validate_subject("feat: x"), space_forbidden);
    assert_eq!(forbidden.validate_subject("feat:Add new feature"), Verdict::Pass);
    assert_eq!(forbidden.validate_subject("feat:short"), out_of_range(5, 10, 50));
}

#[test]
fn subject_is_what_follows_the_first_colon() {
    let config = bounds(true, 1, 8);
    assert_eq!(config.validate_subject("feat: a: b"), Verdict::Pass);
    assert_eq!(config.validate_subject("feat: abcdef: b"), out_of_range(9, 1, 8));
    assert_eq!(config.validate_subject(": abc"), Verdict::Pass);
    assert_eq!(config.validate_subject("feat(x): abc"), Verdict::Pass);
}

#[test]
fn subject_needs_a_colon() {
    let config = bounds(true, 1, 72);
    assert_eq!(config.validate_subject("feat add"), Verdict::Fail(Failure::SubjectMissing));
    assert_eq!(config.validate_subject("feat\n: add"), Verdict::Fail(Failure::SubjectMissing));
    assert_eq!(config.validate_subject("\n#feat: add\n"), Verdict::EmptyMessage);
}

#[test]
fn subject_defaults() {
    let config =
        SubjectConfig { require_space_after_colon: None, min_length: None, max_length: None };
    assert!(config.require_space());
    assert_eq!(config.min_len(), 1);
    assert_eq!(config.max_len(), 72);
    assert_eq!(config.validate_subject("feat: x"), Verdict::Pass);
    assert_eq!(config.validate_subject("feat:x"), Verdict::Fail(Failure::SubjectSpaceRequired));
    assert_eq!(config.validate_subject("feat: "), out_of_range(0, 1, 72));
    assert_eq!(config.validate_subject(&format!("feat: {}", "x".repeat(72))), Verdict::Pass);
    assert_eq!(
        config.validate_subject(&format!("feat: {}", "x".repeat(73))),
        out_of_range(73, 1, 72)
    );
    let set = bounds(false, 3, 4);
    assert!(!set.require_space());
    assert_eq!(set.min_len(), 3);
    assert_eq!(set.max_len(), 4);
}

#[test]
fn empty_subject_passes_only_where_nothing_is_asked() {
    assert_eq!(bounds(false, 0, 5).validate_subject("feat:"), Verdict::Pass);
    assert_eq!(bounds(false, 1, 5).validate_subject("feat:"), out_of_range(0, 1, 5));
    assert_eq!(bounds(true, 0, 5).validate_subject("feat: "), Verdict::Pass);
    assert_eq!(bounds(true, 6, 5).validate_subject("feat: abcdef"), out_of_range(6, 6, 5));
}

#[test]
fn subject_ends_with_its_line() {
    let config = bounds(true, 1, 5);
    assert_eq!(config.validate_subject("feat: abcde\nmore text here"), Verdict::Pass);
    assert_eq!(config.validate_subject("feat: abcde\r\nmore text here"), Verdict::Pass);
    assert_eq!(config.validate_subject("# c\n\nfeat: abcdef\n"), out_of_range(6, 1, 5));
}

/// The subject rule written with the string functions of std.
fn subject_passes_by_std(require_space: bool, min: usize, max: usize, line: &str) -> bool {
    let Some((_, subject)) = line.split_once(':') else {
        return false;
    };
    if require_space != subject.starts_with(' ') {
        return false;
    }
    let n = subject.trim().chars().count();
    min <= n && n <= max
}

#[test]
fn subject_rule_agrees_with_its_std_form_on_all_short_lines() {
    let alphabet = ['a', ' ', ':', '\t', 'é'];
    let mut lines = vec![String::new()];
    let mut last = vec![String::new()];
    for _ in 0..6 {
        let mut next = Vec::new();
        for s in &last {
            for c in alphabet {
                next.push(format!("{s}{c}"));
            }
        }
        lines.extend(next.iter().cloned());
        last = next;
    }
    for line in lines {
        if line.trim().is_empty() {
            continue;
        }
        for require_space in [true, false] {
            let config = bounds(require_space, 2, 3);
            assert_eq!(
                config.validate_subject(&line).is_pass(),
                subject_passes_by_std(require_space, 2, 3, &line),
                "{line:?}"
            );
        }
    }
}
