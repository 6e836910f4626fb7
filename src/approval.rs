use vstd::prelude::*;

use crate::text::str_eq;
use crate::tool::opt_view;

verus! {

/// Whether the caller granted or refused a pending permission request.
#[derive(Clone, Copy, Debug, PartialEq, Eq, Structural)]
pub enum Decision {
    Accept,
    Decline,
}

/// Reads a caller's decision: "accept" grants, anything else refuses.
pub fn parse_decision(raw: Option<&str>) -> (r: Decision)
    ensures
        (r == Decision::Accept) == match raw {
            Some(s) => s@ == "accept"@,
            None => false,
        },
{
    match raw {
        Some(s) => if str_eq(s, "accept") {
            Decision::Accept
        } else {
            Decision::Decline
        },
        None => Decision::Decline,
    }
}

/// One choice offered by a permission request: its semantic kind
/// ("allow_once", "reject_always", ...) and the protocol's option id.
#[derive(Clone, Debug)]
pub struct ApprovalOption {
    pub kind: Option<String>,
    pub option_id: Option<String>,
}

/// The answer sent back for a permission request.
#[derive(Clone, Debug)]
pub enum ApprovalOutcome {
    Selected(String),
    Cancelled,
}

/// The id of the first option of kind `kind` that carries an id.
pub open spec fn first_of_kind(opts: Seq<ApprovalOption>, kind: Seq<char>) -> Option<Seq<char>>
    decreases opts.len(),
{
    if opts.len() == 0 {
        None
    } else if opt_view(opts[0].kind) == Some(kind) && opts[0].option_id is Some {
        opt_view(opts[0].option_id)
    } else {
        first_of_kind(opts.drop_first(), kind)
    }
}

/// The id of the first option that carries one.
pub open spec fn first_with_id(opts: Seq<ApprovalOption>) -> Option<Seq<char>>
    decreases opts.len(),
{
    if opts.len() == 0 {
        None
    } else if opts[0].option_id is Some {
        opt_view(opts[0].option_id)
    } else {
        first_with_id(opts.drop_first())
    }
}

/// The option chosen for a decision: the preferred kinds in order (allow
/// once, then always; or reject once, then always), else any option with an id.
pub open spec fn chosen_option(opts: Seq<ApprovalOption>, d: Decision) -> Option<Seq<char>> {
    let (k1, k2) = if d == Decision::Accept {
        ("allow_once"@, "allow_always"@)
    } else {
        ("reject_once"@, "reject_always"@)
    };
    if first_of_kind(opts, k1) is Some {
        first_of_kind(opts, k1)
    } else if first_of_kind(opts, k2) is Some {
        first_of_kind(opts, k2)
    } else {
        first_with_id(opts)
    }
}

pub open spec fn outcome_view(o: ApprovalOutcome) -> Option<Seq<char>> {
    match o {
        ApprovalOutcome::Selected(s) => Some(s@),
        ApprovalOutcome::Cancelled => None,
    }
}

fn find_kind(options: &Vec<ApprovalOption>, kind: &str) -> (r: Option<String>)
    ensures
        opt_view(r) == first_of_kind(options@, kind@),
{
    let mut i: usize = 0;
    assert(options@.subrange(0, options@.len() as int) =~= options@);
    while i < options.len()
        invariant
            i <= options.len(),
            first_of_kind(options@, kind@) == first_of_kind(
                options@.subrange(i as int, options@.len() as int),
                kind@,
            ),
        decreases options.len() - i,
    {
        proof {
            assert(options@.subrange(i as int, options@.len() as int).drop_first()
                =~= options@.subrange(i + 1, options@.len() as int));
        }
        let opt = &options[i];
        if let (Some(k), Some(id)) = (&opt.kind, &opt.option_id) {
            if str_eq(k.as_str(), kind) {
                return Some(id.clone());
            }
        }
        i = i + 1;
    }
    None
}

fn find_any(options: &Vec<ApprovalOption>) -> (r: Option<String>)
    ensures
        opt_view(r) == first_with_id(options@),
{
    let mut i: usize = 0;
    assert(options@.subrange(0, options@.len() as int) =~= options@);
    while i < options.len()
        invariant
            i <= options.len(),
            first_with_id(options@) == first_with_id(
                options@.subrange(i as int, options@.len() as int),
            ),
        decreases options.len() - i,
    {
        proof {
            assert(options@.subrange(i as int, options@.len() as int).drop_first()
                =~= options@.subrange(i + 1, options@.len() as int));
        }
        if let Some(id) = &options[i].option_id {
            return Some(id.clone());
        }
        i = i + 1;
    }
    None
}

/// Maps a decision onto the request's options; with no option to pick the
/// request is answered as cancelled.
pub fn select_approval_outcome(options: &Vec<ApprovalOption>, decision: Decision) -> (r:
    ApprovalOutcome)
    ensures
        outcome_view(r) == chosen_option(options@, decision),
{
    let (k1, k2) = if decision == Decision::Accept {
        ("allow_once", "allow_always")
    } else {
        ("reject_once", "reject_always")
    };
    let picked = match find_kind(options, k1) {
        Some(id) => Some(id),
        None => match find_kind(options, k2) {
            Some(id) => Some(id),
            None => find_any(options),
        },
    };
    match picked {
        Some(id) => ApprovalOutcome::Selected(id),
        None => ApprovalOutcome::Cancelled,
    }
}

/// With no options at all, every decision is answered as cancelled.
pub proof fn lemma_no_options_cancels(d: Decision)
    ensures
        chosen_option(Seq::<ApprovalOption>::empty(), d) is None,
{
    assert(first_of_kind(Seq::<ApprovalOption>::empty(), "allow_once"@) is None);
    assert(first_with_id(Seq::<ApprovalOption>::empty()) is None);
}

/// A permission request waiting for the caller's decision.
#[derive(Clone, Debug)]
pub struct PendingApproval {
    pub request_id: String,
    pub options: Vec<ApprovalOption>,
}

/// The permission requests the agent has asked and the caller has not yet answered.
pub struct ApprovalBroker {
    pub pending: Vec<PendingApproval>,
}

pub open spec fn pending_index(p: Seq<PendingApproval>, id: Seq<char>, i: int) -> bool {
    0 <= i < p.len() && p[i].request_id@ == id && forall|j: int|
        0 <= j < i ==> p[j].request_id@ != id
}

impl ApprovalBroker {
    pub fn new() -> (r: ApprovalBroker)
        ensures
            r.pending@.len() == 0,
    {
        ApprovalBroker { pending: Vec::new() }
    }

    /// Keeps a request's options until it is answered.
    pub fn remember(&mut self, request_id: String, options: Vec<ApprovalOption>)
        ensures
            final(self).pending@ == old(self).pending@.push(
                PendingApproval { request_id, options },
            ),
    {
        self.pending.push(PendingApproval { request_id, options });
    }

    /// Answers the request with this id, forgetting it: `None` when no such
    /// request is waiting (the caller's result is then sent as it is).
    pub fn resolve(&mut self, request_id: &str, decision: Decision) -> (r: Option<ApprovalOutcome>)
        ensures
            match r {
                None => forall|i: int|
                    0 <= i < old(self).pending@.len() ==> old(self).pending@[i].request_id@
                        != request_id@,
                Some(o) => exists|i: int|
                    pending_index(old(self).pending@, request_id@, i) && outcome_view(o)
                        == chosen_option(old(self).pending@[i].options@, decision)
                        && final(self).pending@ == old(self).pending@.remove(i),
            },
    {
        let mut i: usize = 0;
        while i < self.pending.len()
            invariant
                i <= self.pending.len(),
                self.pending@ == old(self).pending@,
                request_id@ == request_id@,
                forall|j: int| 0 <= j < i ==> self.pending@[j].request_id@ != request_id@,
            decreases self.pending.len() - i,
        {
            if str_eq(self.pending[i].request_id.as_str(), request_id) {
                let p = self.pending.remove(i);
                return Some(select_approval_outcome(&p.options, decision));
            }
            i = i + 1;
        }
        None
    }
}

} // verus!
