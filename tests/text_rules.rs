use acp_bridge::config::preferred_model_change;
use acp_bridge::turn::turn_title_update;
use acp_bridge::command::{extract_command_tokens, split_shell_like_tokens, CommandValue};
use acp_bridge::config::{build_commit_message_prompt, micode_settings_path, parse_js_bool_field};
use acp_bridge::titles::{derive_thread_title, parse_prompt_from_turn_start, InputItem};
use acp_bridge::tool::{normalize_tool_name, sanitize_approval_title, sanitize_tool_title};
use acp_bridge::turn::{
    is_not_generating_message, is_request_aborted_message, is_session_not_found_error,
    is_workspace_not_connected_error,
};
use acp_bridge::worktree::{sanitize_lowered_worktree_name, sanitize_run_worktree_name};

#[test]
fn thread_title_from_first_line() {
    assert_eq!(derive_thread_title("  fix   the\tbug \nsecond line").as_deref(), Some("fix the bug"));
    assert!(derive_thread_title("   \nhello").is_none());
    assert!(derive_thread_title("").is_none());
    let long = "a".repeat(50);
    assert_eq!(derive_thread_title(&long).unwrap().chars().count(), 38);
}

#[test]
fn prompt_from_input_items() {
    let items = vec![
        InputItem { kind: Some("text".to_string()), text: Some(" one".to_string()) },
        InputItem { kind: Some("image".to_string()), text: Some("skip".to_string()) },
        InputItem { kind: Some("text".to_string()), text: Some("two ".to_string()) },
    ];
    assert_eq!(parse_prompt_from_turn_start(&items, Some("ignored")), "one\ntwo");
    assert_eq!(parse_prompt_from_turn_start(&Vec::new(), Some("   ")), "");
    assert_eq!(parse_prompt_from_turn_start(&Vec::new(), None), "");
}

#[test]
fn shell_tokens_and_command_lists() {
    assert_eq!(split_shell_like_tokens("  ls  -la\tsrc\n"), vec!["ls", "-la", "src"]);
    assert!(split_shell_like_tokens("   ").is_empty());
    let list = CommandValue::List(vec![" git ".to_string(), "".to_string(), "status".to_string()]);
    assert_eq!(extract_command_tokens(&list), vec!["git", "status"]);
    assert!(extract_command_tokens(&CommandValue::Absent).is_empty());
}

#[test]
fn title_sanitizing() {
    assert!(sanitize_approval_title(Some(" NULL ")).is_none());
    assert!(sanitize_approval_title(Some("[]")).is_none());
    assert!(sanitize_approval_title(None).is_none());
    assert_eq!(sanitize_approval_title(Some("  run ls ")).as_deref(), Some("run ls"));
    assert!(sanitize_tool_title(Some(" .. ")).is_none());
    assert_eq!(sanitize_tool_title(Some("Read file")).as_deref(), Some("Read file"));
    assert_eq!(normalize_tool_name(" \"'glob'\" ").as_deref(), Some("glob"));
    assert!(normalize_tool_name(" \"\" ").is_none());
}

#[test]
fn error_phrases_ignore_ascii_case() {
    assert!(is_request_aborted_message("Request Was Aborted by user"));
    assert!(!is_request_aborted_message("aborted"));
    assert!(is_not_generating_message("NOT CURRENTLY GENERATING"));
    assert!(is_session_not_found_error("session not found"));
    assert!(is_workspace_not_connected_error("Workspace Not Connected: ws-1"));
    assert!(!is_workspace_not_connected_error("connected"));
}

#[test]
fn worktree_names() {
    assert_eq!(sanitize_run_worktree_name("  Fix Login Bug "), "fix/login-bug");
    assert_eq!(sanitize_run_worktree_name("Add Login"), "feat/add-login");
    assert_eq!(sanitize_run_worktree_name("fix/Login--Bug//"), "fix/login-bug");
    assert_eq!(sanitize_run_worktree_name("Docs-Update readme"), "docs/update-readme");
    assert_eq!(sanitize_run_worktree_name("//weird!!"), "feat/weird");
    assert_eq!(sanitize_lowered_worktree_name("chore_cleanup"), "chore/cleanup");
}

#[test]
fn settings_and_bundle_fields() {
    assert_eq!(micode_settings_path(Some(" /opt/mi "), Some("/home/u")).as_deref(), Some("/opt/mi/settings.json"));
    assert_eq!(micode_settings_path(Some("  "), Some("/home/u")).as_deref(), Some("/home/u/.micode/settings.json"));
    assert!(micode_settings_path(None, None).is_none());
    assert_eq!(parse_js_bool_field("  isDefault: true,", "isDefault"), Some(true));
    assert_eq!(parse_js_bool_field("isDefault:false", "isDefault"), Some(false));
    assert_eq!(parse_js_bool_field("isDefault: maybe", "isDefault"), None);
    assert_eq!(parse_js_bool_field("other: true", "isDefault"), None);
    let prompt = build_commit_message_prompt("diff --git a b");
    assert!(prompt.starts_with("Generate a concise git commit message"));
    assert!(prompt.ends_with("Changes:\ndiff --git a b"));
}

#[test]
fn first_prompt_names_a_new_thread_and_models_change_once() {
    assert_eq!(turn_title_update("  New THREAD ", "Refactor   parser\nmore").as_deref(), Some("Refactor parser"));
    assert!(turn_title_update("Named", "Refactor parser").is_none());
    assert!(turn_title_update("new thread", "  \n").is_none());
    assert_eq!(preferred_model_change(" gpt-x ", Some("other")).as_deref(), Some("gpt-x"));
    assert!(preferred_model_change("gpt-x", Some(" gpt-x ")).is_none());
    assert!(preferred_model_change("   ", None).is_none());
    assert_eq!(preferred_model_change("m", None).as_deref(), Some("m"));
}
