use vstd::prelude::*;
use vstd::string::*;

use crate::tool::{
    display_title, extract_tool_presentation_from_update, merge_tool_presentation, merged,
    tool_call_display_title, update_presentation, PresentationView, ToolCallPresentation,
    ToolUpdate,
};

verus! {

pub open spec fn digit_char(d: nat) -> char {
    ((48 + d) as u8) as char
}

/// Decimal digits of `n`, most significant first.
pub open spec fn decimal(n: nat) -> Seq<char>
    decreases n,
{
    if n < 10 {
        seq![digit_char(n)]
    } else {
        decimal(n / 10).push(digit_char(n % 10))
    }
}

/// The decimal digits of `n`.
pub fn decimal_string(n: u32) -> (r: String)
    ensures
        r@ == decimal(n as nat),
    decreases n,
{
    let d = ((48 + n % 10) as u8) as char;
    let digit = crate::text::string_from_chars(&[d]);
    assert(digit@ =~= seq![digit_char((n % 10) as nat)]);
    if n < 10 {
        digit
    } else {
        let mut out = decimal_string(n / 10);
        out.append(digit.as_str());
        assert(out@ =~= decimal(n as nat));
        out
    }
}

/// The thread and turn a session's streamed output belongs to.
#[derive(Clone, Debug)]
pub struct ActivePromptContext {
    pub thread_id: String,
    pub turn_id: String,
}

pub open spec fn agent_id(thread: Seq<char>, turn: Seq<char>, segment: nat) -> Seq<char> {
    if segment == 0 {
        "agent-"@ + thread + "-"@ + turn
    } else {
        "agent-"@ + thread + "-"@ + turn + "-s"@ + decimal(segment)
    }
}

impl ActivePromptContext {
    pub fn new(thread_id: String, turn_id: String) -> (r: Self)
        ensures
            r.thread_id == thread_id,
            r.turn_id == turn_id,
    {
        ActivePromptContext { thread_id, turn_id }
    }

    pub fn copy_context(&self) -> (r: Self)
        ensures
            r.thread_id@ == self.thread_id@,
            r.turn_id@ == self.turn_id@,
    {
        ActivePromptContext { thread_id: self.thread_id.clone(), turn_id: self.turn_id.clone() }
    }

    /// The assistant-message item of a segment: segment 0 keeps the plain id,
    /// later segments (text after a tool call) get a suffix.
    pub fn agent_item_id(&self, segment: u32) -> (r: String)
        ensures
            r@ == agent_id(self.thread_id@, self.turn_id@, segment as nat),
    {
        let mut out = String::from_str("agent-");
        out.append(self.thread_id.as_str());
        out.append("-");
        out.append(self.turn_id.as_str());
        if segment != 0 {
            out.append("-s");
            let d = decimal_string(segment);
            out.append(d.as_str());
        }
        out
    }

    /// The reasoning item of the turn (not segmented).
    pub fn reasoning_item_id(&self) -> (r: String)
        ensures
            r@ == "reasoning-"@ + self.thread_id@ + "-"@ + self.turn_id@,
    {
        let mut out = String::from_str("reasoning-");
        out.append(self.thread_id.as_str());
        out.append("-");
        out.append(self.turn_id.as_str());
        out
    }

    /// The item of a tool call that came without a call id.
    pub fn fallback_tool_item_id(&self) -> (r: String)
        ensures
            r@ == "tool-"@ + self.thread_id@ + "-"@ + self.turn_id@,
    {
        let mut out = String::from_str("tool-");
        out.append(self.thread_id.as_str());
        out.append("-");
        out.append(self.turn_id.as_str());
        out
    }
}

/// A notification about a session, by kind. Raw JSON payloads that are only
/// passed on are kept as text.
#[derive(Clone, Debug)]
pub enum SessionUpdate {
    AgentMessageChunk { text: Option<String> },
    AgentThoughtChunk { text: Option<String> },
    Plan { entries: Option<String> },
    AvailableCommandsUpdate { commands: Option<String> },
    ToolCall(ToolUpdate),
    ToolCallUpdate(ToolUpdate),
    Other,
}

impl SessionUpdate {
    /// Kinds that show the prompt is making progress.
    pub open spec fn shows_progress(self) -> bool {
        !(self is AvailableCommandsUpdate || self is Other)
    }
}

/// An event for the caller's event sink.
#[derive(Clone, Debug)]
pub enum BridgeEvent {
    AgentMessageDelta { thread_id: String, item_id: String, delta: String },
    ReasoningDelta { thread_id: String, item_id: String, delta: String },
    PlanUpdated { thread_id: String, turn_id: String, plan: String },
    AvailableCommandsUpdated { thread_id: String, commands: String },
    ItemStarted {
        thread_id: String,
        item_id: String,
        title: String,
        presentation: ToolCallPresentation,
    },
    ItemCompleted {
        thread_id: String,
        item_id: String,
        title: String,
        presentation: ToolCallPresentation,
    },
}

pub open spec fn nonempty_text(t: Option<String>) -> bool {
    t matches Some(s) && s@.len() > 0
}

pub open spec fn tool_item_id(thread: Seq<char>, turn: Seq<char>, u: ToolUpdate) -> Seq<char> {
    match u.tool_call_id {
        Some(id) => "tool-"@ + id@,
        None => "tool-"@ + thread + "-"@ + turn,
    }
}

pub open spec fn tool_view(cached: Option<PresentationView>, u: ToolUpdate) -> PresentationView {
    merged(cached, update_presentation(u))
}

pub open spec fn pres_opt(c: Option<&ToolCallPresentation>) -> Option<PresentationView> {
    match c {
        Some(p) => Some(p@),
        None => None,
    }
}

pub open spec fn str_opt(a: Option<&str>) -> Option<Seq<char>> {
    match a {
        Some(s) => Some(s@),
        None => None,
    }
}

/// `r` is the event for `update` in the turn `turn` of thread `thread`, with
/// `agent_item` the assistant item in use and `cached` the tool call's
/// presentation known so far.
pub open spec fn translates_to(
    thread: Seq<char>,
    turn: Seq<char>,
    update: SessionUpdate,
    agent_item: Option<Seq<char>>,
    cached: Option<PresentationView>,
    r: Option<BridgeEvent>,
) -> bool {
    match update {
        SessionUpdate::AgentMessageChunk { text } => if nonempty_text(text) {
            r matches Some(BridgeEvent::AgentMessageDelta { thread_id, item_id, delta })
                && thread_id@ == thread && delta@ == text->0@ && item_id@ == match agent_item {
                Some(a) => a,
                None => agent_id(thread, turn, 0),
            }
        } else {
            r is None
        },
        SessionUpdate::AgentThoughtChunk { text } => if nonempty_text(text) {
            r matches Some(BridgeEvent::ReasoningDelta { thread_id, item_id, delta })
                && thread_id@ == thread && delta@ == text->0@ && item_id@ == "reasoning-"@ + thread
                + "-"@ + turn
        } else {
            r is None
        },
        SessionUpdate::Plan { entries } => r matches Some(
            BridgeEvent::PlanUpdated { thread_id, turn_id, plan },
        ) && thread_id@ == thread && turn_id@ == turn && plan@ == match entries {
            Some(e) => e@,
            None => "[]"@,
        },
        SessionUpdate::AvailableCommandsUpdate { commands } => r matches Some(
            BridgeEvent::AvailableCommandsUpdated { thread_id, commands: c },
        ) && thread_id@ == thread && c@ == match commands {
            Some(e) => e@,
            None => "[]"@,
        },
        SessionUpdate::ToolCall(u) => r matches Some(
            BridgeEvent::ItemStarted { thread_id, item_id, title, presentation },
        ) && thread_id@ == thread && item_id@ == tool_item_id(thread, turn, u) && presentation@
            == tool_view(cached, u) && title@ == display_title(tool_view(cached, u)),
        SessionUpdate::ToolCallUpdate(u) => r matches Some(
            BridgeEvent::ItemCompleted { thread_id, item_id, title, presentation },
        ) && thread_id@ == thread && item_id@ == tool_item_id(thread, turn, u) && presentation@
            == tool_view(cached, u) && title@ == display_title(tool_view(cached, u)),
        SessionUpdate::Other => r is None,
    }
}

fn json_or_empty_list(v: &Option<String>) -> (r: String)
    ensures
        r@ == match v {
            Some(s) => s@,
            None => "[]"@,
        },
{
    match v {
        Some(s) => s.clone(),
        None => String::from_str("[]"),
    }
}

fn tool_item_id_exec(ctx: &ActivePromptContext, u: &ToolUpdate) -> (r: String)
    ensures
        r@ == tool_item_id(ctx.thread_id@, ctx.turn_id@, *u),
{
    match &u.tool_call_id {
        Some(id) => {
            let mut out = String::from_str("tool-");
            out.append(id.as_str());
            out
        },
        None => ctx.fallback_tool_item_id(),
    }
}

/// Maps one notification to at most one event, addressed with the prompt
/// context: text deltas to the current assistant item, thoughts to the
/// reasoning item, tool calls to their merged presentation.
pub fn translate_update(
    context: &ActivePromptContext,
    update: &SessionUpdate,
    agent_item_id: Option<&str>,
    cached_tool: Option<&ToolCallPresentation>,
) -> (r: Option<BridgeEvent>)
    ensures
        translates_to(
            context.thread_id@,
            context.turn_id@,
            *update,
            str_opt(agent_item_id),
            pres_opt(cached_tool),
            r,
        ),
{
    match update {
        SessionUpdate::AgentMessageChunk { text } => match text {
            Some(t) => if t.unicode_len() > 0 {
                let item_id = match agent_item_id {
                    Some(a) => String::from_str(a),
                    None => context.agent_item_id(0),
                };
                Some(
                    BridgeEvent::AgentMessageDelta {
                        thread_id: context.thread_id.clone(),
                        item_id,
                        delta: t.clone(),
                    },
                )
            } else {
                None
            },
            None => None,
        },
        SessionUpdate::AgentThoughtChunk { text } => match text {
            Some(t) => if t.unicode_len() > 0 {
                Some(
                    BridgeEvent::ReasoningDelta {
                        thread_id: context.thread_id.clone(),
                        item_id: context.reasoning_item_id(),
                        delta: t.clone(),
                    },
                )
            } else {
                None
            },
            None => None,
        },
        SessionUpdate::Plan { entries } => Some(
            BridgeEvent::PlanUpdated {
                thread_id: context.thread_id.clone(),
                turn_id: context.turn_id.clone(),
                plan: json_or_empty_list(entries),
            },
        ),
        SessionUpdate::AvailableCommandsUpdate { commands } => Some(
            BridgeEvent::AvailableCommandsUpdated {
                thread_id: context.thread_id.clone(),
                commands: json_or_empty_list(commands),
            },
        ),
        SessionUpdate::ToolCall(u) => {
            let cached = match cached_tool {
                Some(c) => Some(c.copy_presentation()),
                None => None,
            };
            let presentation = merge_tool_presentation(cached, extract_tool_presentation_from_update(u));
            let title = tool_call_display_title(&presentation);
            Some(
                BridgeEvent::ItemStarted {
                    thread_id: context.thread_id.clone(),
                    item_id: tool_item_id_exec(context, u),
                    title,
                    presentation,
                },
            )
        },
        SessionUpdate::ToolCallUpdate(u) => {
            let cached = match cached_tool {
                Some(c) => Some(c.copy_presentation()),
                None => None,
            };
            let presentation = merge_tool_presentation(cached, extract_tool_presentation_from_update(u));
            let title = tool_call_display_title(&presentation);
            Some(
                BridgeEvent::ItemCompleted {
                    thread_id: context.thread_id.clone(),
                    item_id: tool_item_id_exec(context, u),
                    title,
                    presentation,
                },
            )
        },
        SessionUpdate::Other => None,
    }
}

/// An event for the sink, tagged with the workspace it comes from.
#[derive(Clone, Debug)]
pub struct AppServerEvent {
    pub workspace_id: String,
    pub event: BridgeEvent,
}

/// The events (none or one) for a notification in workspace `workspace_id`,
/// as `translate_update` gives them.
pub fn translate_acp_update(
    context: &ActivePromptContext,
    update: &SessionUpdate,
    workspace_id: &str,
    agent_item_id: Option<&str>,
    cached_tool: Option<&ToolCallPresentation>,
) -> (r: Vec<AppServerEvent>)
    ensures
        r@.len() <= 1,
        forall|i: int| 0 <= i < r@.len() ==> r@[i].workspace_id@ == workspace_id@,
        translates_to(
            context.thread_id@,
            context.turn_id@,
            *update,
            str_opt(agent_item_id),
            pres_opt(cached_tool),
            if r@.len() == 1 {
                Some(r@[0].event)
            } else {
                None
            },
        ),
{
    let mut out: Vec<AppServerEvent> = Vec::new();
    if let Some(event) = translate_update(context, update, agent_item_id, cached_tool) {
        out.push(AppServerEvent { workspace_id: String::from_str(workspace_id), event });
    }
    out
}

} // verus!
