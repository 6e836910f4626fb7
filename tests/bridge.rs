use acp_bridge::approval::{
    parse_decision, select_approval_outcome, ApprovalBroker, ApprovalOption, ApprovalOutcome,
    Decision,
};
use acp_bridge::prompt::{BridgeEvent, SessionUpdate};
use acp_bridge::session::SessionCore;
use acp_bridge::thread_items::{build_agent_thread_item, upsert_thread_item, ThreadItem};
use acp_bridge::thread_store::{LocalThreadRecord, LocalThreadStore};
use acp_bridge::tool::{
    infer_tool_name_from_title, merge_tool_presentation, tool_call_display_title,
    ToolCallPresentation,
};
use acp_bridge::tracker::PromptTracker;
use acp_bridge::turn::{
    acp_error_message, conclude_turn, decide_turn, interrupt_outcome, AcpError,
    InterruptOutcome, PromptReply, TurnOutcome,
};

fn record(thread: &str, session: &str, updated_at: i64, message_index: u64) -> LocalThreadRecord {
    LocalThreadRecord {
        thread_id: thread.to_string(),
        session_id: session.to_string(),
        title: "New Thread".to_string(),
        archived: false,
        updated_at,
        message_index,
    }
}

fn option(kind: &str, id: &str) -> ApprovalOption {
    ApprovalOption { kind: Some(kind.to_string()), option_id: Some(id.to_string()) }
}

fn text_of(item: &ThreadItem) -> String {
    match item {
        ThreadItem::AgentMessage { text, .. } => text.clone(),
        ThreadItem::UserMessage { text, .. } => text.clone(),
        ThreadItem::ToolCall { title, .. } => title.clone(),
    }
}

#[test]
fn repair_keeps_latest_holder_of_each_session() {
    let records = vec![
        record("a", "s1", 5, 1),
        record("b", "s1", 5, 3),
        record("c", "s1", 4, 9),
        record("d", "s2", 1, 0),
        record("e", "", 9, 9),
        record("f", "s2", 1, 0),
    ];
    let (store, changed) = LocalThreadStore::load("/tmp/ws".to_string(), records);
    assert!(changed);
    let sessions: Vec<&str> = store.records.iter().map(|r| r.session_id.as_str()).collect();
    assert_eq!(sessions, vec!["", "s1", "", "s2", "", ""]);
    assert_eq!(store.records.len(), 6);
}

#[test]
fn repair_without_collisions_changes_nothing() {
    let (store, changed) =
        LocalThreadStore::load("/tmp/ws".to_string(), vec![record("a", "s1", 1, 0), record("b", "s2", 1, 0)]);
    assert!(!changed);
    assert_eq!(store.records[0].session_id, "s1");
    assert_eq!(store.records[1].session_id, "s2");
}

#[test]
fn upsert_same_item_id_keeps_one_latest_entry() {
    let mut items = vec![build_agent_thread_item("t", "0", "first")];
    upsert_thread_item(&mut items, build_agent_thread_item("thread-1", "turn-1", "hello"));
    upsert_thread_item(&mut items, build_agent_thread_item("thread-1", "turn-1", "hello world"));
    upsert_thread_item(&mut items, build_agent_thread_item("t", "9", "last"));
    assert_eq!(items.len(), 3);
    assert_eq!(items[0].id(), "agent-t-0");
    assert_eq!(items[1].id(), "agent-thread-1-turn-1");
    assert_eq!(text_of(&items[1]), "hello world");
    assert_eq!(items[2].id(), "agent-t-9");
}

#[test]
fn store_lookups_and_session_rebinding() {
    let mut store = LocalThreadStore::new("/tmp/ws/.micodemonitor".to_string());
    store.upsert(record("thread-1", "session-1", 1, 0));
    store.upsert(record("thread-2", "session-2", 2, 0));
    let mut renamed = record("thread-1", "session-1", 3, 0);
    renamed.title = "Renamed".to_string();
    store.upsert(renamed);
    assert_eq!(store.records.len(), 2);
    assert_eq!(store.by_thread_id("thread-1").unwrap().title, "Renamed");
    assert!(store.by_thread_id("missing").is_none());
    assert!(store.set_session_id("thread-2", "session-1".to_string(), 10));
    assert_eq!(store.by_thread_id("thread-1").unwrap().session_id, "");
    assert_eq!(store.by_session_id("session-1").unwrap().thread_id, "thread-2");
    assert_eq!(store.by_thread_id("thread-2").unwrap().updated_at, 10);
    store.touch_message("thread-2", 11);
    assert_eq!(store.by_thread_id("thread-2").unwrap().message_index, 1);
    store.set_title("thread-2", "Title".to_string(), 12);
    assert_eq!(store.by_thread_id("thread-2").unwrap().title, "Title");
    assert!(store.clear_session_ids());
    assert!(!store.clear_session_ids());
    assert!(store.delete("thread-1"));
    assert!(!store.delete("thread-1"));
    assert_eq!(store.list_unarchived().len(), 1);
    assert_eq!(
        store.thread_items_path("a/b"),
        "/tmp/ws/.micodemonitor/thread-items/a_b.json"
    );
}

#[test]
fn by_session_id_prefers_latest_and_last_of_equals() {
    let mut store = LocalThreadStore::new("/tmp".to_string());
    store.records = vec![record("a", "s", 2, 1), record("b", "s", 2, 1), record("c", "s", 1, 7)];
    assert_eq!(store.by_session_id("s").unwrap().thread_id, "b");
    assert!(store.by_session_id("other").is_none());
}

#[test]
fn create_local_thread_gets_a_random_id() {
    let mut store = LocalThreadStore::new("/tmp".to_string());
    let a = store.create_local_thread("s1".to_string(), 5);
    let b = store.create_local_thread("s1".to_string(), 6);
    assert_eq!(a.thread_id.len(), 36);
    assert_ne!(a.thread_id, b.thread_id);
    assert_eq!(a.title, "New Thread");
    assert_eq!(store.by_thread_id(&a.thread_id).unwrap().session_id, "");
    assert_eq!(store.by_thread_id(&b.thread_id).unwrap().session_id, "s1");
}

fn prompt_on_session(session: &str) -> (PromptTracker, LocalThreadStore, Vec<ThreadItem>) {
    let mut tracker = PromptTracker::new();
    tracker.begin(session, "thread-1", "turn-1");
    let mut store = LocalThreadStore::new("/tmp".to_string());
    store.upsert(record("thread-1", session, 1, 0));
    (tracker, store, Vec::new())
}

#[test]
fn timeout_with_streaming_yields_end_turn() {
    let (mut tracker, mut store, mut items) = prompt_on_session("s1");
    tracker.mark_streaming("s1");
    tracker.append_agent_delta("s1", "partial answer");
    let outcome = conclude_turn(
        &mut tracker, &mut store, &mut items, "s1", "thread-1", "turn-1",
        &PromptReply::TimedOut, false, false, 50,
    );
    assert!(matches!(outcome, TurnOutcome::EndTurn));
    assert_eq!(items.len(), 1);
    assert_eq!(text_of(&items[0]), "partial answer");
    assert_eq!(store.by_thread_id("thread-1").unwrap().message_index, 1);
    assert!(tracker.active_prompt("s1").is_none());
}

#[test]
fn timeout_without_streaming_fails() {
    let (mut tracker, mut store, mut items) = prompt_on_session("s1");
    let outcome = conclude_turn(
        &mut tracker, &mut store, &mut items, "s1", "thread-1", "turn-1",
        &PromptReply::TimedOut, false, false, 50,
    );
    match outcome {
        TurnOutcome::Failed(m) => assert_eq!(m, "turn/start timed out waiting for MiCode response"),
        other => panic!("unexpected outcome {:?}", other),
    }
    assert!(items.is_empty());
    assert_eq!(store.by_thread_id("thread-1").unwrap().message_index, 0);
}

#[test]
fn session_not_found_is_retried_once() {
    let lost = PromptReply::Responded { error: Some("Session not found: abc".to_string()) };
    assert!(matches!(decide_turn(&lost, false, false), TurnOutcome::RetryWithNewSession));
    match decide_turn(&lost, false, true) {
        TurnOutcome::Failed(m) => assert_eq!(m, "turn/start failed: Session not found: abc"),
        other => panic!("unexpected outcome {:?}", other),
    }
    match decide_turn(&PromptReply::TimedOut, false, true) {
        TurnOutcome::Failed(m) => assert_eq!(
            m,
            "turn/start timed out waiting for MiCode response after session recovery"
        ),
        other => panic!("unexpected outcome {:?}", other),
    }
}

#[test]
fn aborted_request_is_cancelled() {
    let aborted = PromptReply::Responded { error: Some("The REQUEST WAS ABORTED".to_string()) };
    assert!(matches!(decide_turn(&aborted, false, false), TurnOutcome::Cancelled));
    assert!(matches!(decide_turn(&PromptReply::Responded { error: None }, false, false), TurnOutcome::Completed));
    assert!(matches!(decide_turn(&PromptReply::TimedOut, true, true), TurnOutcome::EndTurn));
}

#[test]
fn acp_error_message_joins_details() {
    let e = Some(AcpError { message: Some("boom".to_string()), details: Some("disk".to_string()) });
    assert_eq!(acp_error_message(&e).unwrap(), "boom: disk");
    let e = Some(AcpError { message: None, details: Some(String::new()) });
    assert_eq!(acp_error_message(&e).unwrap(), "ACP error");
    assert!(acp_error_message(&None).is_none());
}

#[test]
fn interrupt_when_not_generating_is_a_no_op() {
    assert!(matches!(interrupt_outcome(&None), InterruptOutcome::Interrupted));
    let idle = Some("Agent is not currently generating".to_string());
    assert!(matches!(interrupt_outcome(&idle), InterruptOutcome::NotGenerating));
    match interrupt_outcome(&Some("oops".to_string())) {
        InterruptOutcome::Failed(m) => assert_eq!(m, "turn/interrupt failed: oops"),
        other => panic!("unexpected outcome {:?}", other),
    }
}

#[test]
fn approval_round_trip() {
    let options = vec![option("allow_once", "A"), option("reject_once", "B")];
    match select_approval_outcome(&options, Decision::Accept) {
        ApprovalOutcome::Selected(id) => assert_eq!(id, "A"),
        other => panic!("unexpected outcome {:?}", other),
    }
    match select_approval_outcome(&options, Decision::Decline) {
        ApprovalOutcome::Selected(id) => assert_eq!(id, "B"),
        other => panic!("unexpected outcome {:?}", other),
    }
    assert!(matches!(select_approval_outcome(&Vec::new(), Decision::Accept), ApprovalOutcome::Cancelled));
    assert!(matches!(select_approval_outcome(&Vec::new(), Decision::Decline), ApprovalOutcome::Cancelled));
}

#[test]
fn approval_falls_back_to_any_option_and_broker_forgets() {
    let options = vec![
        ApprovalOption { kind: Some("allow_always".to_string()), option_id: None },
        option("reject_always", "R"),
        option("allow_always", "AA"),
    ];
    match select_approval_outcome(&options, Decision::Accept) {
        ApprovalOutcome::Selected(id) => assert_eq!(id, "AA"),
        other => panic!("unexpected outcome {:?}", other),
    }
    let only_other = vec![option("allow_once", "X")];
    match select_approval_outcome(&only_other, Decision::Decline) {
        ApprovalOutcome::Selected(id) => assert_eq!(id, "X"),
        other => panic!("unexpected outcome {:?}", other),
    }
    assert_eq!(parse_decision(Some("accept")), Decision::Accept);
    assert_eq!(parse_decision(Some("maybe")), Decision::Decline);
    let mut broker = ApprovalBroker::new();
    broker.remember("7".to_string(), vec![option("allow_once", "A")]);
    assert!(matches!(broker.resolve("7", Decision::Accept), Some(ApprovalOutcome::Selected(_))));
    assert!(broker.resolve("7", Decision::Accept).is_none());
}

#[test]
fn tool_title_derivation() {
    let explicit = ToolCallPresentation {
        server: Some("micode".to_string()),
        tool: Some("glob".to_string()),
        ..Default::default()
    };
    assert_eq!(tool_call_display_title(&explicit), "Tool: micode / glob");
    assert_eq!(infer_tool_name_from_title("abc.md: foo => bar").as_deref(), Some("edit"));
    assert_eq!(infer_tool_name_from_title("notes.TXT").as_deref(), Some("edit"));
    assert_eq!(infer_tool_name_from_title("*.rs").as_deref(), Some("glob"));
    assert!(infer_tool_name_from_title("run tests").is_none());
    let titled = ToolCallPresentation { title: Some("Read".to_string()), ..Default::default() };
    assert_eq!(tool_call_display_title(&titled), "Tool: Read");
    assert_eq!(tool_call_display_title(&ToolCallPresentation::default()), "Tool Call");
    let merged = merge_tool_presentation(
        Some(ToolCallPresentation { title: Some("first".to_string()), ..Default::default() }),
        ToolCallPresentation {
            title: Some("second".to_string()),
            tool: Some("edit".to_string()),
            ..Default::default()
        },
    );
    assert_eq!(merged.title.as_deref(), Some("first"));
    assert_eq!(merged.server.as_deref(), Some("micode"));
}

#[test]
fn hello_turn_end_to_end() {
    let mut store = LocalThreadStore::new("/tmp".to_string());
    let thread = store.create_local_thread("session-1".to_string(), 1);
    let mut core = SessionCore::new(store);
    core.tracker.begin("session-1", &thread.thread_id, "turn-1");
    let effects = core.on_session_update(
        "session-1",
        &SessionUpdate::AgentMessageChunk { text: Some("Hi there".to_string()) },
    );
    match effects.event {
        Some(BridgeEvent::AgentMessageDelta { delta, .. }) => assert_eq!(delta, "Hi there"),
        other => panic!("unexpected event {:?}", other),
    }
    let mut items = Vec::new();
    let outcome = conclude_turn(
        &mut core.tracker, &mut core.store, &mut items, "session-1", &thread.thread_id, "turn-1",
        &PromptReply::Responded { error: None }, false, false, 2,
    );
    assert!(matches!(outcome, TurnOutcome::Completed));
    assert_eq!(items.len(), 1);
    assert!(matches!(items[0], ThreadItem::AgentMessage { .. }));
    assert_eq!(text_of(&items[0]), "Hi there");
    assert_eq!(core.store.by_thread_id(&thread.thread_id).unwrap().message_index, 1);
}

#[test]
fn local_thread_store_persists_and_updates_thread_items() {
    let mut store = LocalThreadStore::new("/tmp/workspace/.micodemonitor".to_string());
    let thread_id = "thread-1";
    store.upsert(LocalThreadRecord {
        thread_id: thread_id.to_string(),
        session_id: "session-1".to_string(),
        title: "New Thread".to_string(),
        archived: false,
        updated_at: 1,
        message_index: 0,
    });
    let mut items: Vec<ThreadItem> = Vec::new();
    upsert_thread_item(
        &mut items,
        ThreadItem::AgentMessage { id: "agent-thread-1-turn-1".to_string(), text: "hello".to_string() },
    );
    upsert_thread_item(
        &mut items,
        ThreadItem::AgentMessage { id: "agent-thread-1-turn-1".to_string(), text: "hello world".to_string() },
    );
    assert_eq!(items.len(), 1);
    assert_eq!(text_of(&items[0]), "hello world");
    assert!(store.delete(thread_id));
    assert!(store.by_thread_id(thread_id).is_none());
}
