use vstd::prelude::*;
use vstd::string::*;

use crate::text::{chars_eq, chars_of, contains, lower_ascii, lower_chars, lower_contains, trim, trim_chars_by};
use crate::titles::{derive_thread_title, thread_title};
use crate::thread_items::{build_agent_thread_item, item_upserted, upsert_thread_item, ThreadItem};
use crate::thread_store::{has_thread, is_first_thread, saturating_inc, LocalThreadStore, RecordView};
use crate::tracker::{is_first_prompt, has_prompt, PromptTracker};

verus! {

/// The `error` member of a protocol response.
#[derive(Clone, Debug)]
pub struct AcpError {
    pub message: Option<String>,
    pub details: Option<String>,
}

pub open spec fn error_text(e: Option<AcpError>) -> Option<Seq<char>> {
    match e {
        None => None,
        Some(err) => {
            let m = match err.message {
                Some(m) => m@,
                None => "ACP error"@,
            };
            match err.details {
                Some(d) => if d@.len() == 0 {
                    Some(m)
                } else {
                    Some(m + ": "@ + d@)
                },
                None => Some(m),
            }
        },
    }
}

/// The human-readable text of a response's error: its message (or a generic
/// one) and, when given, its details after a colon.
pub fn acp_error_message(error: &Option<AcpError>) -> (r: Option<String>)
    ensures
        match r {
            Some(s) => error_text(*error) == Some(s@),
            None => error_text(*error) is None,
        },
{
    match error {
        None => None,
        Some(err) => {
            let mut m = match &err.message {
                Some(m) => m.clone(),
                None => String::from_str("ACP error"),
            };
            match &err.details {
                Some(d) => if d.unicode_len() > 0 {
                    m.append(": ");
                    m.append(d.as_str());
                },
                None => {},
            }
            Some(m)
        },
    }
}

pub open spec fn mentions(message: Seq<char>, phrase: Seq<char>) -> bool {
    contains(lower_ascii(message), phrase)
}

/// The agent no longer knows the session (it is process-local).
pub fn is_session_not_found_error(message: &str) -> (r: bool)
    ensures
        r == mentions(message@, "session not found"@),
{
    lower_contains(message, "session not found")
}

/// The prompt was aborted on the agent's side.
pub fn is_request_aborted_message(message: &str) -> (r: bool)
    ensures
        r == mentions(message@, "request was aborted"@),
{
    lower_contains(message, "request was aborted")
}

/// An interrupt arrived when nothing was being generated.
pub fn is_not_generating_message(message: &str) -> (r: bool)
    ensures
        r == mentions(message@, "not currently generating"@),
{
    lower_contains(message, "not currently generating")
}

/// An operation named a workspace that has no live session.
pub fn is_workspace_not_connected_error(error: &str) -> (r: bool)
    ensures
        r == mentions(error@, "workspace not connected"@),
{
    lower_contains(error, "workspace not connected")
}

/// How the wait for a prompt's response ended.
#[derive(Clone, Debug)]
pub enum PromptReply {
    /// A response came, with the text of its error if it carried one.
    Responded { error: Option<String> },
    /// The bounded wait ran out first.
    TimedOut,
}

/// What a turn comes to once its prompt's wait has ended.
#[derive(Clone, Debug)]
pub enum TurnOutcome {
    /// The response came without error.
    Completed,
    /// No response in time, but the prompt streamed output: done, "end_turn".
    EndTurn,
    /// The agent reported the request aborted: done, "cancelled".
    Cancelled,
    /// The session was lost: create one new session and send the prompt again.
    RetryWithNewSession,
    Failed(String),
}

impl TurnOutcome {
    pub open spec fn succeeded(self) -> bool {
        self is Completed || self is EndTurn || self is Cancelled
    }
}

/// A turn outcome as the contracts see it.
pub enum OutcomeView {
    Completed,
    EndTurn,
    Cancelled,
    RetryWithNewSession,
    Failed(Seq<char>),
}

pub open spec fn outcome_view(o: TurnOutcome) -> OutcomeView {
    match o {
        TurnOutcome::Completed => OutcomeView::Completed,
        TurnOutcome::EndTurn => OutcomeView::EndTurn,
        TurnOutcome::Cancelled => OutcomeView::Cancelled,
        TurnOutcome::RetryWithNewSession => OutcomeView::RetryWithNewSession,
        TurnOutcome::Failed(m) => OutcomeView::Failed(m@),
    }
}

/// The turn's outcome from how the wait ended, whether output streamed, and
/// whether this was already the retry on a new session.
pub open spec fn turn_decision(reply: PromptReply, streamed: bool, retried: bool) -> OutcomeView {
    match reply {
        PromptReply::TimedOut => if streamed {
            OutcomeView::EndTurn
        } else if retried {
            OutcomeView::Failed(
                "turn/start timed out waiting for MiCode response after session recovery"@,
            )
        } else {
            OutcomeView::Failed("turn/start timed out waiting for MiCode response"@)
        },
        PromptReply::Responded { error: None } => OutcomeView::Completed,
        PromptReply::Responded { error: Some(e) } => if !retried && mentions(
            e@,
            "session not found"@,
        ) {
            OutcomeView::RetryWithNewSession
        } else if mentions(e@, "request was aborted"@) {
            OutcomeView::Cancelled
        } else {
            OutcomeView::Failed("turn/start failed: "@ + e@)
        },
    }
}

/// Decides what a turn comes to once the wait for its prompt has ended.
pub fn decide_turn(reply: &PromptReply, streamed: bool, retried: bool) -> (r: TurnOutcome)
    ensures
        outcome_view(r) == turn_decision(*reply, streamed, retried),
{
    match reply {
        PromptReply::TimedOut => if streamed {
            TurnOutcome::EndTurn
        } else if retried {
            TurnOutcome::Failed(
                String::from_str(
                    "turn/start timed out waiting for MiCode response after session recovery",
                ),
            )
        } else {
            TurnOutcome::Failed(String::from_str("turn/start timed out waiting for MiCode response"))
        },
        PromptReply::Responded { error: None } => TurnOutcome::Completed,
        PromptReply::Responded { error: Some(e) } => {
            if !retried && is_session_not_found_error(e.as_str()) {
                TurnOutcome::RetryWithNewSession
            } else if is_request_aborted_message(e.as_str()) {
                TurnOutcome::Cancelled
            } else {
                let mut m = String::from_str("turn/start failed: ");
                m.append(e.as_str());
                TurnOutcome::Failed(m)
            }
        },
    }
}

/// A lost session is retried once: the first "session not found" asks for a
/// new session, the same error on the retry is a failure.
pub proof fn lemma_session_not_found_retried_once(e: Seq<char>, first: PromptReply, second: PromptReply, streamed: bool)
    requires
        mentions(e, "session not found"@),
        first matches PromptReply::Responded { error: Some(m) } && m@ == e,
        second matches PromptReply::Responded { error: Some(m) } && m@ == e,
    ensures
        turn_decision(first, streamed, false) == OutcomeView::RetryWithNewSession,
        turn_decision(second, streamed, true) is Failed || turn_decision(second, streamed, true) is Cancelled,
        !(turn_decision(second, streamed, true) is RetryWithNewSession),
{
}

/// A wait that runs out ends the turn well exactly when output streamed.
pub proof fn lemma_timeout_succeeds_iff_streamed(streamed: bool, retried: bool)
    ensures
        turn_decision(PromptReply::TimedOut, streamed, retried) is EndTurn <==> streamed,
        !streamed ==> turn_decision(PromptReply::TimedOut, streamed, retried) is Failed,
{
}

/// Ends the prompt tracked on `session_id` for the turn `turn_id` of
/// `thread_id`, and decides the turn. When it succeeds, for a thread that is
/// not a background one, the streamed assistant text (if not blank) is
/// written to the thread's log `items` and the thread's message counter
/// advances.
pub fn conclude_turn(
    tracker: &mut PromptTracker,
    store: &mut LocalThreadStore,
    items: &mut Vec<ThreadItem>,
    session_id: &str,
    thread_id: &str,
    turn_id: &str,
    reply: &PromptReply,
    retried: bool,
    background: bool,
    now: i64,
) -> (r: TurnOutcome)
    ensures
        has_prompt(old(tracker).view_seq(), session_id@) ==> exists|i: int|
            is_first_prompt(old(tracker).view_seq(), session_id@, i) && final(tracker).view_seq()
                == old(tracker).view_seq().remove(i) && outcome_view(r) == turn_decision(
                *reply,
                old(tracker).view_seq()[i].streaming,
                retried,
            ) && (r.succeeded() && !background && trim(old(tracker).view_seq()[i].text).len()
                > 0 ==> exists|it: ThreadItem|
                it matches ThreadItem::AgentMessage { id, text } && id@ == "agent-"@ + thread_id@
                    + "-"@ + turn_id@ && text@ == old(tracker).view_seq()[i].text
                    && final(items)@ == #[trigger] item_upserted(old(items)@, it)) && (!(r.succeeded()
                && !background && trim(old(tracker).view_seq()[i].text).len() > 0)
                ==> final(items)@ == old(items)@),
        !has_prompt(old(tracker).view_seq(), session_id@) ==> final(tracker).view_seq()
            == old(tracker).view_seq() && outcome_view(r) == turn_decision(*reply, false, retried)
            && final(items)@ == old(items)@,
        r.succeeded() && !background ==> touched(old(store).recs(), final(store).recs(), thread_id@, now),
        !(r.succeeded() && !background) ==> final(store).recs() == old(store).recs(),
        final(store).root == old(store).root,
{
    let finished = tracker.finish(session_id);
    let (streamed, text) = match finished {
        Some(p) => (p.streaming, p.text),
        None => (false, String::new()),
    };
    let outcome = decide_turn(reply, streamed, retried);
    let ok = match &outcome {
        TurnOutcome::Completed | TurnOutcome::EndTurn | TurnOutcome::Cancelled => true,
        _ => false,
    };
    if ok && !background {
        let t = crate::text::trim_chars_by(&crate::text::chars_of(text.as_str()), None);
        if t.len() > 0 {
            let item = build_agent_thread_item(thread_id, turn_id, text.as_str());
            upsert_thread_item(items, item);
        }
        store.touch_message(thread_id, now);
    }
    outcome
}

/// `after` is `before` with the thread's message counter advanced and its
/// update time set to `now` (no change when the thread is unknown).
pub open spec fn touched(before: Seq<RecordView>, after: Seq<RecordView>, id: Seq<char>, now: i64) -> bool {
    &&& has_thread(before, id) ==> exists|i: int|
        is_first_thread(before, id, i) && after == before.update(
            i,
            RecordView {
                message_index: saturating_inc(before[i].message_index),
                updated_at: now,
                ..before[i]
            },
        )
    &&& !has_thread(before, id) ==> after == before
}

/// What an interrupt comes to.
#[derive(Clone, Debug)]
pub enum InterruptOutcome {
    Interrupted,
    /// Nothing was being generated: the race with natural completion, not an error.
    NotGenerating,
    Failed(String),
}

/// Reads the response to a cancellation request from its error text.
pub fn interrupt_outcome(error: &Option<String>) -> (r: InterruptOutcome)
    ensures
        match *error {
            None => r is Interrupted,
            Some(e) => if mentions(e@, "not currently generating"@) {
                r is NotGenerating
            } else {
                r matches InterruptOutcome::Failed(m) && m@ == "turn/interrupt failed: "@ + e@
            },
        },
{
    match error {
        None => InterruptOutcome::Interrupted,
        Some(e) => if is_not_generating_message(e.as_str()) {
            InterruptOutcome::NotGenerating
        } else {
            let mut m = String::from_str("turn/interrupt failed: ");
            m.append(e.as_str());
            InterruptOutcome::Failed(m)
        },
    }
}

/// The title a thread takes from its first prompt: only a thread still
/// called "new thread" (trimmed, any ASCII case) is renamed, after the
/// prompt's first line.
pub open spec fn auto_title(current_title: Seq<char>, prompt: Seq<char>) -> Option<Seq<char>> {
    if lower_ascii(trim(current_title)) == "new thread"@ {
        thread_title(prompt)
    } else {
        None
    }
}

/// The new title a thread takes from its first prompt, if any.
pub fn turn_title_update(current_title: &str, prompt: &str) -> (r: Option<String>)
    ensures
        match r {
            Some(t) => auto_title(current_title@, prompt@) == Some(t@),
            None => auto_title(current_title@, prompt@) is None,
        },
{
    let t = lower_chars(&trim_chars_by(&chars_of(current_title), None));
    if chars_eq(&t, &chars_of("new thread")) {
        derive_thread_title(prompt)
    } else {
        None
    }
}

} // verus!
