use vstd::prelude::*;
use vstd::string::*;

use crate::approval::{ApprovalBroker, PendingApproval};
use crate::command::{
    approval_command, extract_approval_command, extract_tool_presentation_from_permission,
    permission_presentation, PermissionRequest,
};
use crate::tool::string_views;
use crate::prompt::{
    agent_id, translate_update, translates_to, ActivePromptContext, BridgeEvent,
    SessionUpdate,
};
use crate::text::str_eq;
use crate::thread_items::{build_tool_thread_item, ThreadItem};
use crate::thread_store::{has_session, is_session_pick, LocalThreadStore};
use crate::tool::{
    merge_tool_presentation, merged, update_presentation, PresentationView, ToolCallPresentation,
    ToolUpdate,
};
use crate::tracker::{
    PromptView,
    append_fn, bump_fn, changed_prompt, has_prompt, is_first_prompt, mark_fn, PromptTracker,
};

verus! {

/// The presentation known for one tool-call id.
#[derive(Clone, Debug)]
pub struct CachedTool {
    pub call_id: String,
    pub presentation: ToolCallPresentation,
}

/// A cached presentation, as the contracts see it.
pub struct CachedView {
    pub call_id: Seq<char>,
    pub presentation: PresentationView,
}

pub open spec fn cviews(es: Seq<CachedTool>) -> Seq<CachedView> {
    es.map_values(|e: CachedTool| CachedView { call_id: e.call_id@, presentation: e.presentation@ })
}

pub open spec fn is_first_tool(es: Seq<CachedView>, id: Seq<char>, i: int) -> bool {
    0 <= i < es.len() && es[i].call_id == id && forall|j: int| 0 <= j < i ==> es[j].call_id != id
}

pub open spec fn has_tool(es: Seq<CachedView>, id: Seq<char>) -> bool {
    exists|i: int| 0 <= i < es.len() && es[i].call_id == id
}

/// The presentation cached for a call id, if any.
pub open spec fn known_tool(es: Seq<CachedView>, id: Seq<char>) -> Option<PresentationView> {
    if has_tool(es, id) {
        Some(es[choose|i: int| is_first_tool(es, id, i)].presentation)
    } else {
        None
    }
}

proof fn lemma_first_tool_unique(es: Seq<CachedView>, id: Seq<char>, i: int, j: int)
    requires
        is_first_tool(es, id, i),
        is_first_tool(es, id, j),
    ensures
        i == j,
{
    if i < j {
        assert(es[i].call_id == id);
    } else if j < i {
        assert(es[j].call_id == id);
    }
}

/// Tool-call presentations merged across the messages that share a call id.
pub struct ToolCallCache {
    pub entries: Vec<CachedTool>,
}

impl ToolCallCache {
    pub open spec fn view_seq(&self) -> Seq<CachedView> {
        cviews(self.entries@)
    }

    pub fn new() -> (r: ToolCallCache)
        ensures
            r.view_seq().len() == 0,
    {
        ToolCallCache { entries: Vec::new() }
    }

    fn find(&self, call_id: &str) -> (r: Option<usize>)
        ensures
            match r {
                Some(i) => is_first_tool(self.view_seq(), call_id@, i as int),
                None => !has_tool(self.view_seq(), call_id@),
            },
    {
        let mut i: usize = 0;
        while i < self.entries.len()
            invariant
                i <= self.entries.len(),
                forall|j: int| 0 <= j < i ==> self.view_seq()[j].call_id != call_id@,
            decreases self.entries.len() - i,
        {
            if str_eq(self.entries[i].call_id.as_str(), call_id) {
                return Some(i);
            }
            i = i + 1;
        }
        None
    }

    /// Merges what a message says of a call into what was known; returns the
    /// merged presentation and whether the call was known before.
    pub fn merge(&mut self, call_id: &str, incoming: ToolCallPresentation) -> (r: (
        ToolCallPresentation,
        bool,
    ))
        ensures
            r.1 == has_tool(old(self).view_seq(), call_id@),
            r.0@ == merged(known_tool(old(self).view_seq(), call_id@), incoming@),
            r.1 ==> exists|i: int|
                is_first_tool(old(self).view_seq(), call_id@, i) && r.0@ == merged(
                    Some(old(self).view_seq()[i].presentation),
                    incoming@,
                ) && final(self).view_seq() == old(self).view_seq().update(
                    i,
                    CachedView { call_id: call_id@, presentation: r.0@ },
                ),
            !r.1 ==> r.0@ == merged(None, incoming@) && final(self).view_seq() == old(
                self,
            ).view_seq().push(CachedView { call_id: call_id@, presentation: r.0@ }),
    {
        match self.find(call_id) {
            Some(i) => {
                let m = merge_tool_presentation(
                    Some(self.entries[i].presentation.copy_presentation()),
                    incoming,
                );
                proof {
                    let c = choose|c: int| is_first_tool(old(self).view_seq(), call_id@, c);
                    lemma_first_tool_unique(old(self).view_seq(), call_id@, i as int, c);
                }
                let e = CachedTool { call_id: String::from_str(call_id), presentation: m.copy_presentation() };
                self.entries.set(i, e);
                assert(self.view_seq() =~= old(self).view_seq().update(
                    i as int,
                    CachedView { call_id: call_id@, presentation: m@ },
                ));
                (m, true)
            },
            None => {
                let m = merge_tool_presentation(None, incoming);
                let e = CachedTool { call_id: String::from_str(call_id), presentation: m.copy_presentation() };
                self.entries.push(e);
                assert(self.view_seq() =~= old(self).view_seq().push(
                    CachedView { call_id: call_id@, presentation: m@ },
                ));
                (m, false)
            },
        }
    }

    /// Forgets a call once it has completed.
    pub fn clear(&mut self, call_id: &str)
        ensures
            has_tool(old(self).view_seq(), call_id@) ==> exists|i: int|
                is_first_tool(old(self).view_seq(), call_id@, i) && final(self).view_seq() == old(
                    self,
                ).view_seq().remove(i),
            !has_tool(old(self).view_seq(), call_id@) ==> final(self).view_seq() == old(
                self,
            ).view_seq(),
    {
        if let Some(i) = self.find(call_id) {
            self.entries.remove(i);
            assert(self.view_seq() =~= old(self).view_seq().remove(i as int));
        }
    }
}

/// What one incoming message leads to: an event for the sink (with the
/// thread it concerns) and a tool-call item to write to that thread's log.
#[derive(Clone, Debug)]
pub struct UpdateEffects {
    pub thread_id: Option<String>,
    pub event: Option<BridgeEvent>,
    pub tool_item: Option<ThreadItem>,
}

/// The mutable state of one workspace's bridge to its agent.
pub struct SessionCore {
    pub store: LocalThreadStore,
    pub tracker: PromptTracker,
    pub tools: ToolCallCache,
    pub approvals: ApprovalBroker,
}

pub open spec fn tool_update_of(u: SessionUpdate) -> Option<ToolUpdate> {
    match u {
        SessionUpdate::ToolCall(t) => Some(t),
        SessionUpdate::ToolCallUpdate(t) => Some(t),
        _ => None,
    }
}

/// `item` is the log entry of tool call `call_id` of thread `thread`, with
/// presentation `p`, completed or still in progress.
pub open spec fn logged_tool_item(
    item: Option<ThreadItem>,
    call_id: Seq<char>,
    thread: Seq<char>,
    p: PresentationView,
    completed: bool,
) -> bool {
    match item {
        Some(ThreadItem::ToolCall { id, thread_id, presentation, title, status }) => id@ == "tool-"@
            + call_id && thread_id@ == thread && presentation@ == p && title@ == crate::tool::display_title(p)
            && status@ == if completed {
            "completed"@
        } else {
            "in_progress"@
        },
        _ => false,
    }
}

pub open spec fn tool_call_id_of(u: SessionUpdate) -> Option<Seq<char>> {
    match tool_update_of(u) {
        Some(t) => match t.tool_call_id {
            Some(id) => Some(id@),
            None => None,
        },
        None => None,
    }
}

fn tool_update_exec(u: &SessionUpdate) -> (r: Option<&ToolUpdate>)
    ensures
        match r {
            Some(t) => tool_update_of(*u) == Some(*t),
            None => tool_update_of(*u) is None,
        },
{
    match u {
        SessionUpdate::ToolCall(t) => Some(t),
        SessionUpdate::ToolCallUpdate(t) => Some(t),
        _ => None,
    }
}

/// The prompt tracker after an update: progress marks the prompt as
/// streaming, assistant text is appended, and a tool call's first sight or
/// its completion starts a new segment.
pub open spec fn after_update(
    ps: Seq<PromptView>,
    sid: Seq<char>,
    u: SessionUpdate,
    in_turn: bool,
    tool_known: bool,
) -> Seq<PromptView> {
    let t1 = if u.shows_progress() {
        changed_prompt(ps, sid, mark_fn())
    } else {
        ps
    };
    let t2 = match u {
        SessionUpdate::AgentMessageChunk { text: Some(t) } => if t@.len() > 0 {
            changed_prompt(t1, sid, append_fn(t@))
        } else {
            t1
        },
        _ => t1,
    };
    if in_turn && (u is ToolCallUpdate || (u is ToolCall && !tool_known)) {
        changed_prompt(t2, sid, bump_fn())
    } else {
        t2
    }
}

impl SessionCore {
    pub fn new(store: LocalThreadStore) -> (r: SessionCore)
        ensures
            r.store == store,
            r.tracker.view_seq().len() == 0,
            r.tools.view_seq().len() == 0,
            r.approvals.pending@.len() == 0,
    {
        SessionCore {
            store,
            tracker: PromptTracker::new(),
            tools: ToolCallCache::new(),
            approvals: ApprovalBroker::new(),
        }
    }

    /// Handles a session-update notification for `session_id`: marks the
    /// prompt as streaming, accumulates its text, merges tool-call facts,
    /// translates the update for the prompt's turn (or, for a commands
    /// update outside a turn, for the thread holding the session), and moves
    /// to a new assistant segment at tool-call boundaries.
    pub fn on_session_update(&mut self, session_id: &str, update: &SessionUpdate) -> (r: UpdateEffects)
        ensures
            final(self).store == old(self).store,
            final(self).approvals == old(self).approvals,
            !has_prompt(old(self).tracker.view_seq(), session_id@) && !(update is AvailableCommandsUpdate
                && has_session(old(self).store.recs(), session_id@)) ==> r.event is None
                && r.tool_item is None,
            has_prompt(old(self).tracker.view_seq(), session_id@) && (update is AgentMessageChunk
                || update is AgentThoughtChunk || update is Plan || update is AvailableCommandsUpdate)
                ==> exists|i: int|
                is_first_prompt(old(self).tracker.view_seq(), session_id@, i) && translates_to(
                    old(self).tracker.view_seq()[i].thread_id,
                    old(self).tracker.view_seq()[i].turn_id,
                    *update,
                    if update is AgentMessageChunk {
                        Some(
                            agent_id(
                                old(self).tracker.view_seq()[i].thread_id,
                                old(self).tracker.view_seq()[i].turn_id,
                                old(self).tracker.view_seq()[i].segment as nat,
                            ),
                        )
                    } else {
                        None
                    },
                    None,
                    r.event,
                ),
            has_prompt(old(self).tracker.view_seq(), session_id@) && tool_call_id_of(*update) is Some
                ==> exists|i: int|
                is_first_prompt(old(self).tracker.view_seq(), session_id@, i) && translates_to(
                    old(self).tracker.view_seq()[i].thread_id,
                    old(self).tracker.view_seq()[i].turn_id,
                    *update,
                    None,
                    Some(
                        merged(
                            known_tool(old(self).tools.view_seq(), tool_call_id_of(*update)->0),
                            update_presentation(tool_update_of(*update)->0),
                        ),
                    ),
                    r.event,
                ) && (old(self).tracker.view_seq()[i].thread_id.len() > 0 ==> logged_tool_item(
                    r.tool_item,
                    tool_call_id_of(*update)->0,
                    old(self).tracker.view_seq()[i].thread_id,
                    merged(
                        known_tool(old(self).tools.view_seq(), tool_call_id_of(*update)->0),
                        update_presentation(tool_update_of(*update)->0),
                    ),
                    update is ToolCallUpdate,
                )) && (old(self).tracker.view_seq()[i].thread_id.len() == 0 ==> r.tool_item is None),
            final(self).tracker.view_seq() == after_update(
                old(self).tracker.view_seq(),
                session_id@,
                *update,
                has_prompt(old(self).tracker.view_seq(), session_id@),
                match tool_update_of(*update) {
                    Some(t) => match t.tool_call_id {
                        Some(id) => has_tool(old(self).tools.view_seq(), id@),
                        None => true,
                    },
                    None => true,
                },
            ),
    {
        let kind_commands = match update {
            SessionUpdate::AvailableCommandsUpdate { .. } => true,
            _ => false,
        };
        let context: Option<ActivePromptContext> = match self.tracker.active_prompt(session_id) {
            Some(c) => Some(c),
            None => if kind_commands {
                match self.store.by_session_id(session_id) {
                    Some(rec) => Some(
                        ActivePromptContext::new(rec.thread_id, String::from_str("out-of-turn")),
                    ),
                    None => None,
                }
            } else {
                None
            },
        };
        let progress = match update {
            SessionUpdate::AvailableCommandsUpdate { .. } | SessionUpdate::Other => false,
            _ => true,
        };
        let agent_item_id = match update {
            SessionUpdate::AgentMessageChunk { .. } => self.tracker.current_agent_item_id(session_id),
            _ => None,
        };
        if progress {
            self.tracker.mark_streaming(session_id);
        }
        if let SessionUpdate::AgentMessageChunk { text: Some(t) } = update {
            if t.unicode_len() > 0 {
                self.tracker.append_agent_delta(session_id, t.as_str());
            }
        }
        let ctx = match context {
            Some(c) => c,
            None => return UpdateEffects { thread_id: None, event: None, tool_item: None },
        };
        let mut existed = true;
        let mut cached: Option<ToolCallPresentation> = None;
        let tool = tool_update_exec(update);
        if let Some(t) = tool {
            if let Some(id) = &t.tool_call_id {
                let (m, e) = self.tools.merge(
                    id.as_str(),
                    crate::tool::extract_tool_presentation_from_update(t),
                );
                existed = e;
                cached = Some(m);
            }
        }
        let event = match &agent_item_id {
            Some(a) => translate_update(&ctx, update, Some(a.as_str()), cached.as_ref()),
            None => translate_update(&ctx, update, None, cached.as_ref()),
        };
        let mut tool_item: Option<ThreadItem> = None;
        if let Some(t) = tool {
            let completed = match update {
                SessionUpdate::ToolCallUpdate(_) => true,
                _ => false,
            };
            if let Some(id) = &t.tool_call_id {
                if completed {
                    self.tools.clear(id.as_str());
                }
                if ctx.thread_id.unicode_len() > 0 {
                    if let Some(p) = &cached {
                        let mut item_id = String::from_str("tool-");
                        item_id.append(id.as_str());
                        let status = if completed {
                            "completed"
                        } else {
                            "in_progress"
                        };
                        tool_item = Some(
                            build_tool_thread_item(ctx.thread_id.as_str(), item_id.as_str(), p, status),
                        );
                    }
                }
            }
            if completed || !existed {
                self.tracker.bump_segment(session_id);
            }
        }
        UpdateEffects { thread_id: Some(ctx.thread_id), event, tool_item }
    }

    /// Handles a permission request from the agent: keeps its options until
    /// the caller decides, finds what it would run, merges what it says of its
    /// tool call, and, for a call not seen before on a known thread, starts a
    /// new assistant segment and reports the call as started.
    pub fn on_permission_request(&mut self, request_id: String, request: PermissionRequest) -> (r:
        PermissionEffects)
        ensures
            final(self).approvals.pending@ == old(self).approvals.pending@.push(
                PendingApproval { request_id, options: request.options },
            ),
            final(self).store == old(self).store,
            string_views(r.command@) == approval_command(request),
            match request.session_id {
                Some(sid) => if has_session(old(self).store.recs(), sid@) {
                    exists|i: int|
                        is_session_pick(old(self).store.recs(), sid@, i) && r.thread_id@ == old(
                            self,
                        ).store.recs()[i].thread_id
                } else {
                    r.thread_id@.len() == 0
                },
                None => r.thread_id@.len() == 0 || (exists|i: int|
                    is_session_pick(old(self).store.recs(), Seq::empty(), i) && r.thread_id@ == old(
                        self,
                    ).store.recs()[i].thread_id),
            },
            r.started is Some <==> (r.thread_id@.len() > 0 && match permission_presentation(
                request,
            ) {
                Some((id, p)) => !has_tool(old(self).tools.view_seq(), id),
                None => false,
            }),
            r.started is Some <==> r.tool_item is Some,
    {
        let sid = match &request.session_id {
            Some(s) => s.clone(),
            None => String::new(),
        };
        let thread_id = match self.store.by_session_id(sid.as_str()) {
            Some(rec) => rec.thread_id,
            None => String::new(),
        };
        let command = extract_approval_command(&request);
        let mut started: Option<BridgeEvent> = None;
        let mut tool_item: Option<ThreadItem> = None;
        if let Some((call_id, p)) = extract_tool_presentation_from_permission(&request) {
            let (m, existed) = self.tools.merge(call_id.as_str(), p);
            if !existed && thread_id.unicode_len() > 0 {
                let mut item_id = String::from_str("tool-");
                item_id.append(call_id.as_str());
                self.tracker.bump_segment(sid.as_str());
                tool_item = Some(
                    build_tool_thread_item(thread_id.as_str(), item_id.as_str(), &m, "in_progress"),
                );
                started = Some(
                    BridgeEvent::ItemStarted {
                        thread_id: thread_id.clone(),
                        item_id,
                        title: crate::tool::tool_call_display_title(&m),
                        presentation: m,
                    },
                );
            }
        }
        self.approvals.remember(request_id, request.options);
        PermissionEffects { thread_id, command, started, tool_item }
    }
}

/// What a permission request leads to: the thread it concerns (empty when
/// unknown), the command to show, and, for a new tool call, its start event
/// and log item.
#[derive(Clone, Debug)]
pub struct PermissionEffects {
    pub thread_id: String,
    pub command: Vec<String>,
    pub started: Option<BridgeEvent>,
    pub tool_item: Option<ThreadItem>,
}

} // verus!
