use vstd::prelude::*;
use vstd::string::*;

use crate::text::str_eq;
use crate::tool::{display_title, tool_call_display_title, ToolCallPresentation};

verus! {

/// One entry of a thread's conversation log.
#[derive(Clone, Debug)]
pub enum ThreadItem {
    UserMessage { id: String, text: String },
    AgentMessage { id: String, text: String },
    ToolCall {
        id: String,
        thread_id: String,
        presentation: ToolCallPresentation,
        title: String,
        status: String,
    },
}

pub open spec fn item_id(it: ThreadItem) -> Seq<char> {
    match it {
        ThreadItem::UserMessage { id, .. } => id@,
        ThreadItem::AgentMessage { id, .. } => id@,
        ThreadItem::ToolCall { id, .. } => id@,
    }
}

impl ThreadItem {
    /// The item's id, unique within its thread's log.
    pub fn id(&self) -> (r: &String)
        ensures
            r@ == item_id(*self),
    {
        match self {
            ThreadItem::UserMessage { id, .. } => id,
            ThreadItem::AgentMessage { id, .. } => id,
            ThreadItem::ToolCall { id, .. } => id,
        }
    }
}

/// `i` is the first item with id `id`.
pub open spec fn is_first_item(items: Seq<ThreadItem>, id: Seq<char>, i: int) -> bool {
    0 <= i < items.len() && item_id(items[i]) == id && forall|j: int|
        0 <= j < i ==> item_id(items[j]) != id
}

pub open spec fn has_item(items: Seq<ThreadItem>, id: Seq<char>) -> bool {
    exists|i: int| 0 <= i < items.len() && item_id(items[i]) == id
}

/// The log after an upsert: the item replaces the first entry with its id,
/// or is appended.
pub open spec fn item_upserted(items: Seq<ThreadItem>, it: ThreadItem) -> Seq<ThreadItem> {
    if has_item(items, item_id(it)) {
        items.update(choose|i: int| is_first_item(items, item_id(it), i), it)
    } else {
        items.push(it)
    }
}

pub open spec fn item_ids_unique(items: Seq<ThreadItem>) -> bool {
    forall|i: int, j: int|
        0 <= i < items.len() && 0 <= j < items.len() && i != j ==> item_id(items[i]) != item_id(
            items[j],
        )
}

proof fn lemma_first_item_unique(items: Seq<ThreadItem>, id: Seq<char>, i: int, j: int)
    requires
        is_first_item(items, id, i),
        is_first_item(items, id, j),
    ensures
        i == j,
{
    if i < j {
        assert(item_id(items[i]) == id);
    } else if j < i {
        assert(item_id(items[j]) == id);
    }
}

proof fn lemma_first_item_exists(items: Seq<ThreadItem>, id: Seq<char>)
    requires
        has_item(items, id),
    ensures
        exists|i: int| is_first_item(items, id, i),
    decreases items.len(),
{
    if item_id(items[0]) == id {
        assert(is_first_item(items, id, 0));
    } else {
        let rest = items.drop_first();
        let k = choose|k: int| 0 <= k < items.len() && item_id(items[k]) == id;
        assert(item_id(rest[k - 1]) == id);
        lemma_first_item_exists(rest, id);
        let i = choose|i: int| is_first_item(rest, id, i);
        assert forall|j: int| 0 <= j < i + 1 implies item_id(items[j]) != id by {
            if j > 0 {
                assert(items[j] == rest[j - 1]);
            }
        }
        assert(is_first_item(items, id, i + 1));
    }
}

/// Writes `item` into the log in place of the entry with the same id, or
/// appends it.
pub fn upsert_thread_item(items: &mut Vec<ThreadItem>, item: ThreadItem)
    ensures
        final(items)@ == item_upserted(old(items)@, item),
{
    let ghost id = item_id(item);
    let mut i: usize = 0;
    while i < items.len()
        invariant
            i <= items.len(),
            items@ == old(items)@,
            id == item_id(item),
            forall|j: int| 0 <= j < i ==> item_id(items@[j]) != id,
        decreases items.len() - i,
    {
        if str_eq(items[i].id().as_str(), item.id().as_str()) {
            proof {
                let c = choose|c: int| is_first_item(old(items)@, id, c);
                assert(is_first_item(old(items)@, id, i as int));
                lemma_first_item_unique(old(items)@, id, i as int, c);
            }
            items.set(i, item);
            return;
        }
        i = i + 1;
    }
    items.push(item);
}

/// Upserting two items with the same id leaves the log as upserting the
/// second alone would: one entry with that id, holding the later item, and
/// the other entries where they were.
pub proof fn lemma_upsert_twice_keeps_latest(items: Seq<ThreadItem>, a: ThreadItem, b: ThreadItem)
    requires
        item_id(a) == item_id(b),
    ensures
        item_upserted(item_upserted(items, a), b) == item_upserted(items, b),
        item_ids_unique(items) ==> item_ids_unique(item_upserted(items, b)),
        item_ids_unique(items) ==> exists|i: int|
            0 <= i < item_upserted(items, b).len() && item_upserted(items, b)[i] == b && (forall|
                j: int,
            |
                0 <= j < item_upserted(items, b).len() && j != i ==> item_id(
                    item_upserted(items, b)[j],
                ) != item_id(b)) && (forall|j: int|
                0 <= j < items.len() && j != i ==> item_upserted(items, b)[j] == items[j]),
{
    let id = item_id(a);
    let once = item_upserted(items, a);
    if has_item(items, id) {
        lemma_first_item_exists(items, id);
        let i = choose|i: int| is_first_item(items, id, i);
        assert(is_first_item(once, id, i));
        assert(has_item(once, id));
        let k = choose|k: int| is_first_item(once, id, k);
        lemma_first_item_unique(once, id, i, k);
        assert(once.update(i, b) =~= items.update(i, b));
        if item_ids_unique(items) {
            let r = items.update(i, b);
            assert(forall|j: int| 0 <= j < r.len() && j != i ==> r[j] == items[j]);
            assert(r[i] == b);
            assert(forall|j: int| 0 <= j < r.len() && j != i ==> item_id(r[j]) != item_id(b));
            assert(item_upserted(items, b) == r);
        }
    } else {
        assert(is_first_item(once, id, items.len() as int));
        assert(has_item(once, id));
        let k = choose|k: int| is_first_item(once, id, k);
        lemma_first_item_unique(once, id, items.len() as int, k);
        assert(once.update(items.len() as int, b) =~= items.push(b));
        if item_ids_unique(items) {
            let r = items.push(b);
            assert(forall|j: int| 0 <= j < items.len() ==> r[j] == items[j]);
            assert(r[items.len() as int] == b);
            assert(forall|j: int| 0 <= j < r.len() && j != items.len() ==> item_id(r[j]) != item_id(b));
            assert(item_upserted(items, b) == r);
        }
    }
}

/// The log entry of a prompt the user sent.
pub fn build_user_thread_item(thread_id: &str, turn_id: &str, text: &str) -> (r: ThreadItem)
    ensures
        r matches ThreadItem::UserMessage { id, text: t } && id@ == "user-"@ + thread_id@ + "-"@
            + turn_id@ && t@ == text@,
{
    let mut id = String::from_str("user-");
    id.append(thread_id);
    id.append("-");
    id.append(turn_id);
    ThreadItem::UserMessage { id, text: String::from_str(text) }
}

/// The log entry of the assistant's reply to one turn.
pub fn build_agent_thread_item(thread_id: &str, turn_id: &str, text: &str) -> (r: ThreadItem)
    ensures
        r matches ThreadItem::AgentMessage { id, text: t } && id@ == "agent-"@ + thread_id@ + "-"@
            + turn_id@ && t@ == text@,
{
    let mut id = String::from_str("agent-");
    id.append(thread_id);
    id.append("-");
    id.append(turn_id);
    ThreadItem::AgentMessage { id, text: String::from_str(text) }
}

/// The log entry of a tool call in its latest known state.
pub fn build_tool_thread_item(
    thread_id: &str,
    tool_item_id: &str,
    presentation: &ToolCallPresentation,
    status: &str,
) -> (r: ThreadItem)
    ensures
        r matches ThreadItem::ToolCall { id, thread_id: t, presentation: p, title, status: s }
            && id@ == tool_item_id@ && t@ == thread_id@ && p@ == presentation@ && title@
            == display_title(presentation@) && s@ == status@,
{
    ThreadItem::ToolCall {
        id: String::from_str(tool_item_id),
        thread_id: String::from_str(thread_id),
        presentation: presentation.copy_presentation(),
        title: tool_call_display_title(presentation),
        status: String::from_str(status),
    }
}

} // verus!
