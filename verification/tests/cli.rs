use commit_msg_hook::cli::{validate_file_path, Cli, CommitMsgAction, Hooks, Step};
use commit_msg_hook::config::COMMIT_MSG_RULE_NAME;
use commit_msg_hook::install::unix_line_endings;
use commit_msg_hook::util::{init_tracing_once, TracingSetup};

#[test]
fn existing_path_is_accepted_as_it_is() {
    assert_eq!(validate_file_path("some/msg.txt", true), Ok("some/msg.txt".to_string()));
    assert_eq!(validate_file_path("", true), Ok(String::new()));
}

#[test]
fn missing_path_is_named_in_the_error() {
    assert_eq!(
        validate_file_path("some/msg.txt", false),
        Err("File some/msg.txt does not exist!".to_string())
    );
    assert_eq!(validate_file_path("é", false), Err("File é does not exist!".to_string()));
}

#[test]
fn actions_and_their_steps() {
    assert_eq!(CommitMsgAction::Init.steps(), vec![Step::WriteRuleFile]);
    assert_eq!(CommitMsgAction::Install.steps(), vec![Step::InstallHook]);
    assert_eq!(CommitMsgAction::II.steps(), vec![Step::InstallHook, Step::WriteRuleFile]);
    assert_eq!(CommitMsgAction::Uninstall.steps(), vec![Step::RemoveHook]);
    let validate = CommitMsgAction::Validate { msg_path: "m".to_string(), rule_path: "r".to_string() };
    assert_eq!(validate.steps(), vec![Step::ValidateMessage]);
    let cli = Cli { command: Hooks::CommitMsg { action: CommitMsgAction::II } };
    assert_eq!(cli.steps(), vec![Step::InstallHook, Step::WriteRuleFile]);
}

#[test]
fn tracing_is_asked_for_once() {
    let mut setup = TracingSetup::new();
    assert!(init_tracing_once(&mut setup));
    assert!(!init_tracing_once(&mut setup));
    assert!(!init_tracing_once(&mut setup));
}

#[test]
fn rule_file_name() {
    assert_eq!(COMMIT_MSG_RULE_NAME, ".commit-msg-rule.yaml");
}

#[test]
fn hook_script_is_written_with_line_feeds_only() {
    assert_eq!(unix_line_endings("#!/bin/sh\r\necho hi\r\n"), "#!/bin/sh\necho hi\n");
    assert_eq!(unix_line_endings("a\rb\r\r\nc\n\rd"), "ab\nc\nd");
    assert_eq!(unix_line_endings("\r"), "");
    assert_eq!(unix_line_endings(""), "");
    assert_eq!(unix_line_endings("no returns\nat all é\n"), "no returns\nat all é\n");
    for s in ["\r\n\r\n", "x\r", "\rx", "é\r\né", "\r\r\r", "a\nb"] {
        assert_eq!(unix_line_endings(s), s.replace("\r\n", "\n").replace('\r', ""), "{s:?}");
    }
}
