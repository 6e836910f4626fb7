use vstd::prelude::*;
use vstd::string::*;

use crate::prompt::{agent_id, ActivePromptContext};
use crate::text::str_eq;

verus! {

/// What is known of the prompt in flight on one session.
#[derive(Clone, Debug)]
pub struct PromptState {
    pub session_id: String,
    pub context: ActivePromptContext,
    pub streaming: bool,
    pub text: String,
    pub segment: u32,
}

/// A tracked prompt as the contracts see it.
pub struct PromptView {
    pub session_id: Seq<char>,
    pub thread_id: Seq<char>,
    pub turn_id: Seq<char>,
    pub streaming: bool,
    pub text: Seq<char>,
    pub segment: u32,
}

impl View for PromptState {
    type V = PromptView;

    open spec fn view(&self) -> PromptView {
        PromptView {
            session_id: self.session_id@,
            thread_id: self.context.thread_id@,
            turn_id: self.context.turn_id@,
            streaming: self.streaming,
            text: self.text@,
            segment: self.segment,
        }
    }
}

pub open spec fn pviews(ps: Seq<PromptState>) -> Seq<PromptView> {
    ps.map_values(|p: PromptState| p@)
}

pub open spec fn is_first_prompt(ps: Seq<PromptView>, sid: Seq<char>, i: int) -> bool {
    0 <= i < ps.len() && ps[i].session_id == sid && forall|j: int|
        0 <= j < i ==> ps[j].session_id != sid
}

pub open spec fn has_prompt(ps: Seq<PromptView>, sid: Seq<char>) -> bool {
    exists|i: int| 0 <= i < ps.len() && ps[i].session_id == sid
}

/// A prompt that has just been sent: no output seen yet.
pub open spec fn fresh_prompt(sid: Seq<char>, thread: Seq<char>, turn: Seq<char>) -> PromptView {
    PromptView {
        session_id: sid,
        thread_id: thread,
        turn_id: turn,
        streaming: false,
        text: Seq::empty(),
        segment: 0,
    }
}

pub open spec fn sat_inc(x: u32) -> u32 {
    if x == u32::MAX {
        x
    } else {
        (x + 1) as u32
    }
}

/// The state `f` gives to the session's first prompt; the others are kept.
pub open spec fn changed_prompt(
    ps: Seq<PromptView>,
    sid: Seq<char>,
    f: spec_fn(PromptView) -> PromptView,
) -> Seq<PromptView> {
    if has_prompt(ps, sid) {
        let i = choose|i: int| is_first_prompt(ps, sid, i);
        ps.update(i, f(ps[i]))
    } else {
        ps
    }
}

pub open spec fn mark_fn() -> spec_fn(PromptView) -> PromptView {
    |p: PromptView| PromptView { streaming: true, ..p }
}

pub open spec fn append_fn(delta: Seq<char>) -> spec_fn(PromptView) -> PromptView {
    |p: PromptView| PromptView { text: p.text + delta, ..p }
}

pub open spec fn bump_fn() -> spec_fn(PromptView) -> PromptView {
    |p: PromptView| PromptView { segment: sat_inc(p.segment), ..p }
}

proof fn lemma_first_prompt_unique(ps: Seq<PromptView>, sid: Seq<char>, i: int, j: int)
    requires
        is_first_prompt(ps, sid, i),
        is_first_prompt(ps, sid, j),
    ensures
        i == j,
{
    if i < j {
        assert(ps[i].session_id == sid);
    } else if j < i {
        assert(ps[j].session_id == sid);
    }
}

/// The prompts in flight, one per session id.
pub struct PromptTracker {
    pub prompts: Vec<PromptState>,
}

impl PromptTracker {
    pub open spec fn view_seq(&self) -> Seq<PromptView> {
        pviews(self.prompts@)
    }

    pub fn new() -> (r: PromptTracker)
        ensures
            r.view_seq().len() == 0,
    {
        PromptTracker { prompts: Vec::new() }
    }

    fn find(&self, session_id: &str) -> (r: Option<usize>)
        ensures
            match r {
                Some(i) => is_first_prompt(self.view_seq(), session_id@, i as int),
                None => !has_prompt(self.view_seq(), session_id@),
            },
    {
        let mut i: usize = 0;
        while i < self.prompts.len()
            invariant
                i <= self.prompts.len(),
                forall|j: int| 0 <= j < i ==> self.view_seq()[j].session_id != session_id@,
            decreases self.prompts.len() - i,
        {
            if str_eq(self.prompts[i].session_id.as_str(), session_id) {
                return Some(i);
            }
            i = i + 1;
        }
        None
    }

    /// Replaces the session's first prompt by `p` (whose view is `f` of the old one).
    fn replace_at(&mut self, i: usize, p: PromptState, Ghost(sid): Ghost<Seq<char>>, Ghost(f): Ghost<spec_fn(PromptView) -> PromptView>)
        requires
            is_first_prompt(old(self).view_seq(), sid, i as int),
            p@ == f(old(self).view_seq()[i as int]),
        ensures
            final(self).view_seq() == changed_prompt(old(self).view_seq(), sid, f),
    {
        self.prompts.set(i, p);
        proof {
            let ps = old(self).view_seq();
            let c = choose|c: int| is_first_prompt(ps, sid, c);
            lemma_first_prompt_unique(ps, sid, i as int, c);
            assert(self.view_seq() =~= ps.update(i as int, f(ps[i as int])));
        }
    }

    /// Starts tracking a prompt on this session, forgetting any earlier one.
    pub fn begin(&mut self, session_id: &str, thread_id: &str, turn_id: &str)
        ensures
            has_prompt(old(self).view_seq(), session_id@) ==> final(self).view_seq() == changed_prompt(
                old(self).view_seq(),
                session_id@,
                |p: PromptView| fresh_prompt(session_id@, thread_id@, turn_id@),
            ),
            !has_prompt(old(self).view_seq(), session_id@) ==> final(self).view_seq() == old(
                self,
            ).view_seq().push(fresh_prompt(session_id@, thread_id@, turn_id@)),
    {
        let p = PromptState {
            session_id: String::from_str(session_id),
            context: ActivePromptContext::new(String::from_str(thread_id), String::from_str(turn_id)),
            streaming: false,
            text: String::new(),
            segment: 0,
        };
        match self.find(session_id) {
            Some(i) => {
                self.replace_at(
                    i,
                    p,
                    Ghost(session_id@),
                    Ghost(|q: PromptView| fresh_prompt(session_id@, thread_id@, turn_id@)),
                );
            },
            None => {
                self.prompts.push(p);
                assert(self.view_seq() =~= old(self).view_seq().push(
                    fresh_prompt(session_id@, thread_id@, turn_id@),
                ));
            },
        }
    }

    /// Records that the session's prompt has produced output.
    pub fn mark_streaming(&mut self, session_id: &str)
        ensures
            final(self).view_seq() == changed_prompt(
                old(self).view_seq(),
                session_id@,
                mark_fn(),
            ),
    {
        if let Some(i) = self.find(session_id) {
            let p = PromptState {
                session_id: self.prompts[i].session_id.clone(),
                context: self.prompts[i].context.copy_context(),
                streaming: true,
                text: self.prompts[i].text.clone(),
                segment: self.prompts[i].segment,
            };
            self.replace_at(i, p, Ghost(session_id@), Ghost(mark_fn()));
        }
    }

    /// Appends assistant text to the session's prompt.
    pub fn append_agent_delta(&mut self, session_id: &str, delta: &str)
        ensures
            final(self).view_seq() == changed_prompt(
                old(self).view_seq(),
                session_id@,
                append_fn(delta@),
            ),
    {
        if let Some(i) = self.find(session_id) {
            let mut text = self.prompts[i].text.clone();
            text.append(delta);
            let p = PromptState {
                session_id: self.prompts[i].session_id.clone(),
                context: self.prompts[i].context.copy_context(),
                streaming: self.prompts[i].streaming,
                text,
                segment: self.prompts[i].segment,
            };
            self.replace_at(i, p, Ghost(session_id@), Ghost(append_fn(delta@)));
        }
    }

    /// Starts a new assistant segment (text after a tool call becomes a new item).
    pub fn bump_segment(&mut self, session_id: &str)
        ensures
            final(self).view_seq() == changed_prompt(
                old(self).view_seq(),
                session_id@,
                bump_fn(),
            ),
    {
        if let Some(i) = self.find(session_id) {
            let p = PromptState {
                session_id: self.prompts[i].session_id.clone(),
                context: self.prompts[i].context.copy_context(),
                streaming: self.prompts[i].streaming,
                text: self.prompts[i].text.clone(),
                segment: self.prompts[i].segment.saturating_add(1),
            };
            self.replace_at(i, p, Ghost(session_id@), Ghost(bump_fn()));
        }
    }

    /// The thread and turn of the session's prompt.
    pub fn active_prompt(&self, session_id: &str) -> (r: Option<ActivePromptContext>)
        ensures
            match r {
                Some(c) => exists|i: int|
                    is_first_prompt(self.view_seq(), session_id@, i) && c.thread_id@
                        == self.view_seq()[i].thread_id && c.turn_id@ == self.view_seq()[i].turn_id,
                None => !has_prompt(self.view_seq(), session_id@),
            },
    {
        match self.find(session_id) {
            Some(i) => Some(self.prompts[i].context.copy_context()),
            None => None,
        }
    }

    /// The item id the session's assistant text goes to now.
    pub fn current_agent_item_id(&self, session_id: &str) -> (r: Option<String>)
        ensures
            match r {
                Some(s) => exists|i: int|
                    is_first_prompt(self.view_seq(), session_id@, i) && s@ == agent_id(
                        self.view_seq()[i].thread_id,
                        self.view_seq()[i].turn_id,
                        self.view_seq()[i].segment as nat,
                    ),
                None => !has_prompt(self.view_seq(), session_id@),
            },
    {
        match self.find(session_id) {
            Some(i) => Some(self.prompts[i].context.agent_item_id(self.prompts[i].segment)),
            None => None,
        }
    }

    /// Stops tracking the session's prompt, handing back whether it streamed
    /// and the text it accumulated.
    pub fn finish(&mut self, session_id: &str) -> (r: Option<PromptState>)
        ensures
            match r {
                Some(p) => exists|i: int|
                    is_first_prompt(old(self).view_seq(), session_id@, i) && p@ == old(
                        self,
                    ).view_seq()[i] && final(self).view_seq() == old(self).view_seq().remove(i),
                None => !has_prompt(old(self).view_seq(), session_id@) && final(self).view_seq()
                    == old(self).view_seq(),
            },
    {
        match self.find(session_id) {
            Some(i) => {
                let p = self.prompts.remove(i);
                assert(self.view_seq() =~= old(self).view_seq().remove(i as int));
                Some(p)
            },
            None => None,
        }
    }
}

} // verus!
