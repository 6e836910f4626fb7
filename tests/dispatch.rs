use acp_bridge::approval::{ApprovalOption, ApprovalOutcome, Decision};
use acp_bridge::command::{
    extract_tool_presentation_from_permission, CommandValue, PermissionRequest, PermissionToolCall,
};
use acp_bridge::prompt::{BridgeEvent, SessionUpdate};
use acp_bridge::session::{SessionCore, ToolCallCache};
use acp_bridge::thread_items::ThreadItem;
use acp_bridge::thread_store::{LocalThreadRecord, LocalThreadStore};
use acp_bridge::tool::{
    extract_tool_presentation_from_update, StringField, ToolArguments, ToolCallPresentation,
    ToolUpdate,
};

fn field(key: &str, value: &str) -> StringField {
    StringField { key: key.to_string(), value: value.to_string() }
}

fn update(id: Option<&str>, fields: Vec<StringField>) -> ToolUpdate {
    ToolUpdate {
        tool_call_id: id.map(ToString::to_string),
        fields,
        content_fields: Vec::new(),
        arguments: None,
        content_object: None,
    }
}

fn core_with_thread() -> SessionCore {
    let mut store = LocalThreadStore::new("/tmp".to_string());
    store.upsert(LocalThreadRecord {
        thread_id: "thread-1".to_string(),
        session_id: "s1".to_string(),
        title: "New Thread".to_string(),
        archived: false,
        updated_at: 1,
        message_index: 0,
    });
    SessionCore::new(store)
}

fn delta_item(event: &Option<BridgeEvent>) -> String {
    match event {
        Some(BridgeEvent::AgentMessageDelta { item_id, .. }) => item_id.clone(),
        other => panic!("unexpected event {:?}", other),
    }
}

#[test]
fn presentation_from_explicit_fields_and_title() {
    let explicit = extract_tool_presentation_from_update(&update(
        Some("c"),
        vec![field("server", "micode"), field("tool", "glob")],
    ));
    assert_eq!(acp_bridge::tool::tool_call_display_title(&explicit), "Tool: micode / glob");
    let titled = extract_tool_presentation_from_update(&update(Some("c"), vec![field("title", "abc.md: foo => bar")]));
    assert_eq!(titled.tool.as_deref(), Some("edit"));
    assert_eq!(titled.title.as_deref(), Some("abc.md: foo => bar"));
    let mut from_content = update(Some("c"), vec![field("result", "ok")]);
    from_content.content_fields = vec![field("name", " 'read' ")];
    from_content.content_object = Some("{\"name\":\"read\"}".to_string());
    let p = extract_tool_presentation_from_update(&from_content);
    assert_eq!(p.tool.as_deref(), Some("read"));
    assert_eq!(p.result.as_deref(), Some("ok"));
    assert!(matches!(p.arguments, Some(ToolArguments::Json(ref j)) if j == "{\"name\":\"read\"}"));
}

#[test]
fn tool_cache_merges_then_forgets() {
    let mut cache = ToolCallCache::new();
    let first = ToolCallPresentation { title: Some("a".to_string()), ..Default::default() };
    let (merged, existed) = cache.merge("c1", first);
    assert!(!existed);
    assert_eq!(merged.title.as_deref(), Some("a"));
    let second = ToolCallPresentation {
        title: Some("b".to_string()),
        tool: Some("edit".to_string()),
        ..Default::default()
    };
    let (merged, existed) = cache.merge("c1", second);
    assert!(existed);
    assert_eq!(merged.title.as_deref(), Some("a"));
    assert_eq!(merged.tool.as_deref(), Some("edit"));
    cache.clear("c1");
    assert!(!cache.merge("c1", ToolCallPresentation::default()).1);
}

#[test]
fn text_after_a_tool_call_starts_a_new_segment() {
    let mut core = core_with_thread();
    core.tracker.begin("s1", "thread-1", "turn-1");
    let chunk = |t: &str| SessionUpdate::AgentMessageChunk { text: Some(t.to_string()) };
    let first = core.on_session_update("s1", &chunk("before "));
    assert_eq!(delta_item(&first.event), "agent-thread-1-turn-1");
    let started = core.on_session_update("s1", &SessionUpdate::ToolCall(update(Some("c9"), vec![field("toolName", "glob")])));
    match &started.tool_item {
        Some(ThreadItem::ToolCall { id, status, .. }) => {
            assert_eq!(id, "tool-c9");
            assert_eq!(status, "in_progress");
        }
        other => panic!("unexpected item {:?}", other),
    }
    let after = core.on_session_update("s1", &chunk("after"));
    assert_eq!(delta_item(&after.event), "agent-thread-1-turn-1-s1");
    let done = core.on_session_update("s1", &SessionUpdate::ToolCallUpdate(update(Some("c9"), Vec::new())));
    match &done.event {
        Some(BridgeEvent::ItemCompleted { presentation, .. }) => assert_eq!(presentation.tool.as_deref(), Some("glob")),
        other => panic!("unexpected event {:?}", other),
    }
    let later = core.on_session_update("s1", &chunk("end"));
    assert_eq!(delta_item(&later.event), "agent-thread-1-turn-1-s2");
    let finished = core.tracker.finish("s1").unwrap();
    assert!(finished.streaming);
    assert_eq!(finished.text, "before afterend");
}

#[test]
fn updates_outside_a_turn() {
    let mut core = core_with_thread();
    let chunk = SessionUpdate::AgentMessageChunk { text: Some("stray".to_string()) };
    let effects = core.on_session_update("s1", &chunk);
    assert!(effects.event.is_none());
    let commands = SessionUpdate::AvailableCommandsUpdate { commands: Some("[]".to_string()) };
    let effects = core.on_session_update("s1", &commands);
    match &effects.event {
        Some(BridgeEvent::AvailableCommandsUpdated { thread_id, .. }) => assert_eq!(thread_id, "thread-1"),
        other => panic!("unexpected event {:?}", other),
    }
    assert!(core.on_session_update("unknown", &commands).event.is_none());
}

#[test]
fn permission_request_registers_call_and_options() {
    let mut core = core_with_thread();
    core.tracker.begin("s1", "thread-1", "turn-1");
    let request = PermissionRequest {
        session_id: Some("s1".to_string()),
        tool_call: Some(PermissionToolCall {
            tool_call_id: Some("c7".to_string()),
            fields: vec![field("title", "Run tests")],
            command: CommandValue::Absent,
            argv: CommandValue::List(vec!["cargo".to_string(), "test".to_string()]),
            args: CommandValue::Absent,
            arguments: None,
        }),
        command: CommandValue::Text("ignored here".to_string()),
        argv: CommandValue::Absent,
        args: CommandValue::Absent,
        options: vec![ApprovalOption { kind: Some("allow_once".to_string()), option_id: Some("ok".to_string()) }],
    };
    let (call_id, p) = extract_tool_presentation_from_permission(&request).unwrap();
    assert_eq!(call_id, "c7");
    assert_eq!(p.tool.as_deref(), Some("cargo"));
    assert!(matches!(p.arguments, Some(ToolArguments::Command(ref w)) if w == &vec!["cargo".to_string(), "test".to_string()]));
    let effects = core.on_permission_request("41".to_string(), request.clone());
    assert_eq!(effects.thread_id, "thread-1");
    assert_eq!(effects.command, vec!["cargo", "test"]);
    assert!(matches!(effects.started, Some(BridgeEvent::ItemStarted { .. })));
    assert!(effects.tool_item.is_some());
    let again = core.on_permission_request("42".to_string(), request);
    assert!(again.started.is_none());
    assert!(matches!(core.approvals.resolve("41", Decision::Accept), Some(ApprovalOutcome::Selected(ref id)) if id == "ok"));
    let agent_item = core.tracker.current_agent_item_id("s1").unwrap();
    assert_eq!(agent_item, "agent-thread-1-turn-1-s1");
}

#[test]
fn archive_keeps_the_record_out_of_the_list() {
    let mut core = core_with_thread();
    assert!(core.store.archive("thread-1", 9));
    assert!(core.store.list_unarchived().is_empty());
    assert!(core.store.by_thread_id("thread-1").unwrap().archived);
    assert!(!core.store.archive("missing", 9));
}
