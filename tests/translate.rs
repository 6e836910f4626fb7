use acp_bridge::command::{extract_approval_command, CommandValue, PermissionRequest, PermissionToolCall};
use acp_bridge::prompt::{translate_acp_update, ActivePromptContext, BridgeEvent, SessionUpdate};
use acp_bridge::titles::parse_prompt_from_turn_start;
use acp_bridge::tool::{StringField, ToolCallPresentation, ToolUpdate};

fn field(key: &str, value: &str) -> StringField {
    StringField { key: key.to_string(), value: value.to_string() }
}

fn tool_update(id: &str, fields: Vec<StringField>) -> ToolUpdate {
    ToolUpdate {
        tool_call_id: Some(id.to_string()),
        fields,
        content_fields: Vec::new(),
        arguments: None,
        content_object: None,
    }
}

#[test]
fn translate_agent_message_chunk_to_delta_event() {
    let update = SessionUpdate::AgentMessageChunk { text: Some("hello".to_string()) };
    let context = ActivePromptContext::new("thread-1".to_string(), "turn-1".to_string());
    let events = translate_acp_update(&context, &update, "ws-1", None, None);
    assert_eq!(events.len(), 1);
    assert_eq!(events[0].workspace_id, "ws-1");
    match &events[0].event {
        BridgeEvent::AgentMessageDelta { thread_id, item_id, delta } => {
            assert_eq!(thread_id, "thread-1");
            assert_eq!(item_id, "agent-thread-1-turn-1");
            assert_eq!(delta, "hello");
        }
        other => panic!("unexpected event {:?}", other),
    }
}

#[test]
fn translate_plan_to_turn_plan_updated_event() {
    let entries = r#"[{"content":"step1","status":"pending","priority":"high"}]"#;
    let update = SessionUpdate::Plan { entries: Some(entries.to_string()) };
    let context = ActivePromptContext::new("thread-2".to_string(), "turn-2".to_string());
    let events = translate_acp_update(&context, &update, "ws-2", None, None);
    assert_eq!(events.len(), 1);
    match &events[0].event {
        BridgeEvent::PlanUpdated { thread_id, turn_id, plan } => {
            assert_eq!(thread_id, "thread-2");
            assert_eq!(turn_id, "turn-2");
            assert_eq!(plan, entries);
        }
        other => panic!("unexpected event {:?}", other),
    }
}

#[test]
fn translate_available_commands_update_event() {
    let commands = r#"[{"name":"status","description":"Show status"}]"#;
    let update = SessionUpdate::AvailableCommandsUpdate { commands: Some(commands.to_string()) };
    let context = ActivePromptContext::new("thread-3".to_string(), "turn-3".to_string());
    let events = translate_acp_update(&context, &update, "ws-3", None, None);
    assert_eq!(events.len(), 1);
    match &events[0].event {
        BridgeEvent::AvailableCommandsUpdated { thread_id, commands: c } => {
            assert_eq!(thread_id, "thread-3");
            assert_eq!(c, commands);
        }
        other => panic!("unexpected event {:?}", other),
    }
}

#[test]
fn translate_tool_call_event_includes_server_and_tool() {
    let update = SessionUpdate::ToolCall(tool_update("call_1", vec![field("toolName", "glob")]));
    let context = ActivePromptContext::new("thread-4".to_string(), "turn-4".to_string());
    let events = translate_acp_update(&context, &update, "ws-4", None, None);
    assert_eq!(events.len(), 1);
    match &events[0].event {
        BridgeEvent::ItemStarted { item_id, presentation, title, .. } => {
            assert_eq!(item_id, "tool-call_1");
            assert_eq!(presentation.server.as_deref(), Some("micode"));
            assert_eq!(presentation.tool.as_deref(), Some("glob"));
            assert_eq!(title, "Tool: micode / glob");
        }
        other => panic!("unexpected event {:?}", other),
    }
}

#[test]
fn translate_tool_call_update_uses_cached_tool_identity() {
    let update = SessionUpdate::ToolCallUpdate(tool_update("call_2", Vec::new()));
    let context = ActivePromptContext::new("thread-5".to_string(), "turn-5".to_string());
    let cached = ToolCallPresentation {
        server: Some("micode".to_string()),
        tool: Some("edit".to_string()),
        title: Some("abc.md: foo => bar".to_string()),
        arguments: None,
        result: None,
        error: None,
    };
    let events = translate_acp_update(&context, &update, "ws-5", None, Some(&cached));
    assert_eq!(events.len(), 1);
    match &events[0].event {
        BridgeEvent::ItemCompleted { presentation, .. } => {
            assert_eq!(presentation.server.as_deref(), Some("micode"));
            assert_eq!(presentation.tool.as_deref(), Some("edit"));
        }
        other => panic!("unexpected event {:?}", other),
    }
}

#[test]
fn parse_prompt_from_turn_start_falls_back_to_text() {
    let prompt = parse_prompt_from_turn_start(&Vec::new(), Some("hello from text"));
    assert_eq!(prompt, "hello from text");
}

#[test]
fn extract_approval_command_ignores_empty_object_title() {
    let params = PermissionRequest {
        session_id: None,
        tool_call: Some(PermissionToolCall {
            tool_call_id: None,
            fields: vec![field("title", "{}")],
            command: CommandValue::Absent,
            argv: CommandValue::Absent,
            args: CommandValue::Absent,
            arguments: None,
        }),
        command: CommandValue::Absent,
        argv: CommandValue::Absent,
        args: CommandValue::Absent,
        options: Vec::new(),
    };
    let command = extract_approval_command(&params);
    assert_eq!(command, vec!["Approve action"]);
}

#[test]
fn translate_segment_and_reasoning_ids() {
    let context = ActivePromptContext::new("t".to_string(), "u".to_string());
    assert_eq!(context.agent_item_id(0), "agent-t-u");
    assert_eq!(context.agent_item_id(12), "agent-t-u-s12");
    assert_eq!(context.reasoning_item_id(), "reasoning-t-u");
    assert_eq!(context.fallback_tool_item_id(), "tool-t-u");
    let thought = SessionUpdate::AgentThoughtChunk { text: Some("hmm".to_string()) };
    let events = translate_acp_update(&context, &thought, "ws", None, None);
    match &events[0].event {
        BridgeEvent::ReasoningDelta { item_id, delta, .. } => {
            assert_eq!(item_id, "reasoning-t-u");
            assert_eq!(delta, "hmm");
        }
        other => panic!("unexpected event {:?}", other),
    }
    let empty = SessionUpdate::AgentMessageChunk { text: Some(String::new()) };
    assert!(translate_acp_update(&context, &empty, "ws", None, None).is_empty());
    assert!(translate_acp_update(&context, &SessionUpdate::Other, "ws", None, None).is_empty());
    let plan = SessionUpdate::Plan { entries: None };
    match &translate_acp_update(&context, &plan, "ws", None, None)[0].event {
        BridgeEvent::PlanUpdated { plan, .. } => assert_eq!(plan, "[]"),
        other => panic!("unexpected event {:?}", other),
    }
}

#[test]
fn translate_tool_call_without_id_uses_fallback_item() {
    let context = ActivePromptContext::new("t".to_string(), "u".to_string());
    let mut update = tool_update("x", vec![field("title", "src/**/*.rs")]);
    update.tool_call_id = None;
    let events = translate_acp_update(&context, &SessionUpdate::ToolCall(update), "ws", None, None);
    match &events[0].event {
        BridgeEvent::ItemStarted { item_id, presentation, title, .. } => {
            assert_eq!(item_id, "tool-t-u");
            assert_eq!(presentation.tool.as_deref(), Some("glob"));
            assert_eq!(title, "Tool: micode / glob");
        }
        other => panic!("unexpected event {:?}", other),
    }
}
