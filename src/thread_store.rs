use vstd::prelude::*;

use vstd::string::*;

use crate::ids::new_uuid;
use crate::text::{chars_of, str_eq, string_from_chars};

verus! {

/// A durable thread: its identity, the session currently bound to it (empty
/// for none), title, archival flag, last update and message counter.
#[derive(Clone, Debug)]
pub struct LocalThreadRecord {
    pub thread_id: String,
    pub session_id: String,
    pub title: String,
    pub archived: bool,
    pub updated_at: i64,
    pub message_index: u64,
}

/// A thread record as the contracts see it.
pub struct RecordView {
    pub thread_id: Seq<char>,
    pub session_id: Seq<char>,
    pub title: Seq<char>,
    pub archived: bool,
    pub updated_at: i64,
    pub message_index: u64,
}

impl View for LocalThreadRecord {
    type V = RecordView;

    open spec fn view(&self) -> RecordView {
        RecordView {
            thread_id: self.thread_id@,
            session_id: self.session_id@,
            title: self.title@,
            archived: self.archived,
            updated_at: self.updated_at,
            message_index: self.message_index,
        }
    }
}

impl LocalThreadRecord {
    /// A field-by-field copy.
    pub fn copy_record(&self) -> (r: LocalThreadRecord)
        ensures
            r@ == self@,
    {
        LocalThreadRecord {
            thread_id: self.thread_id.clone(),
            session_id: self.session_id.clone(),
            title: self.title.clone(),
            archived: self.archived,
            updated_at: self.updated_at,
            message_index: self.message_index,
        }
    }
}

/// `a` orders strictly before `b` by (updated-at, message-index).
pub open spec fn key_lt(a: RecordView, b: RecordView) -> bool {
    a.updated_at < b.updated_at || (a.updated_at == b.updated_at && a.message_index
        < b.message_index)
}

pub open spec fn views(v: Seq<LocalThreadRecord>) -> Seq<RecordView> {
    v.map_values(|r: LocalThreadRecord| r@)
}

/// `i` is the first record with this thread id.
pub open spec fn is_first_thread(recs: Seq<RecordView>, id: Seq<char>, i: int) -> bool {
    0 <= i < recs.len() && recs[i].thread_id == id && forall|j: int|
        0 <= j < i ==> recs[j].thread_id != id
}

pub open spec fn has_thread(recs: Seq<RecordView>, id: Seq<char>) -> bool {
    exists|i: int| 0 <= i < recs.len() && recs[i].thread_id == id
}

/// Record `i` keeps session `recs[i].session_id` when repairing collisions:
/// every other holder of that session orders before it, ties going to the
/// earlier record.
pub open spec fn wins_session(recs: Seq<RecordView>, i: int) -> bool {
    forall|j: int|
        0 <= j < recs.len() && j != i && recs[j].session_id == recs[i].session_id ==> key_lt(
            recs[j],
            recs[i],
        ) || (!key_lt(recs[i], recs[j]) && i < j)
}

/// The record set after collision repair.
pub open spec fn repaired(recs: Seq<RecordView>) -> Seq<RecordView> {
    Seq::new(
        recs.len(),
        |i: int|
            if recs[i].session_id.len() > 0 && !wins_session(recs, i) {
                RecordView { session_id: Seq::empty(), ..recs[i] }
            } else {
                recs[i]
            },
    )
}

/// At most one record holds each non-empty session id.
pub open spec fn sessions_unique(recs: Seq<RecordView>) -> bool {
    forall|i: int, j: int|
        0 <= i < recs.len() && 0 <= j < recs.len() && i != j && recs[i].session_id.len() > 0
            ==> recs[i].session_id != recs[j].session_id
}

/// The thread records of one workspace, with the directory they are kept in.
pub struct LocalThreadStore {
    pub root: String,
    pub records: Vec<LocalThreadRecord>,
}

/// Record `i` is the one a lookup by session id returns: it holds the
/// session, no holder orders after it, and every later holder orders before it.
pub open spec fn is_session_pick(recs: Seq<RecordView>, sid: Seq<char>, i: int) -> bool {
    &&& 0 <= i < recs.len()
    &&& recs[i].session_id == sid
    &&& forall|j: int| 0 <= j < recs.len() && recs[j].session_id == sid ==> !key_lt(recs[i], recs[j])
    &&& forall|j: int| i < j < recs.len() && recs[j].session_id == sid ==> key_lt(recs[j], recs[i])
}

pub open spec fn has_session(recs: Seq<RecordView>, sid: Seq<char>) -> bool {
    exists|i: int| 0 <= i < recs.len() && recs[i].session_id == sid
}

pub open spec fn thread_ids_unique(recs: Seq<RecordView>) -> bool {
    forall|i: int, j: int|
        0 <= i < recs.len() && 0 <= j < recs.len() && i != j ==> recs[i].thread_id
            != recs[j].thread_id
}

/// The records after an upsert of `rec`: it replaces the first record with its
/// thread id, or is appended.
pub open spec fn upserted(recs: Seq<RecordView>, rec: RecordView) -> Seq<RecordView> {
    if has_thread(recs, rec.thread_id) {
        let i = choose|i: int| is_first_thread(recs, rec.thread_id, i);
        recs.update(i, rec)
    } else {
        recs.push(rec)
    }
}

/// The records after binding session `sid` to thread `id` at time `now`: other
/// threads give the session up, and the thread's first record takes it.
pub open spec fn rebound(recs: Seq<RecordView>, id: Seq<char>, sid: Seq<char>, now: i64) -> Seq<
    RecordView,
> {
    Seq::new(
        recs.len(),
        |k: int|
            if is_first_thread(recs, id, k) {
                RecordView { session_id: sid, updated_at: now, ..recs[k] }
            } else if sid.len() > 0 && recs[k].thread_id != id && recs[k].session_id == sid {
                RecordView { session_id: Seq::empty(), ..recs[k] }
            } else {
                recs[k]
            },
    )
}

pub open spec fn saturating_inc(x: u64) -> u64 {
    if x == u64::MAX {
        x
    } else {
        (x + 1) as u64
    }
}

pub open spec fn cleared(r: RecordView) -> RecordView {
    RecordView { session_id: Seq::empty(), ..r }
}

/// A record of another thread gives up session `sid`, when it is non-empty.
pub open spec fn released(r: RecordView, id: Seq<char>, sid: Seq<char>) -> RecordView {
    if sid.len() > 0 && r.thread_id != id && r.session_id == sid {
        cleared(r)
    } else {
        r
    }
}

proof fn lemma_first_thread_unique(recs: Seq<RecordView>, id: Seq<char>, i: int, j: int)
    requires
        is_first_thread(recs, id, i),
        is_first_thread(recs, id, j),
    ensures
        i == j,
{
    if i < j {
        assert(recs[i].thread_id == id);
    } else if j < i {
        assert(recs[j].thread_id == id);
    }
}

impl LocalThreadStore {
    pub open spec fn recs(&self) -> Seq<RecordView> {
        views(self.records@)
    }

    /// An empty store kept under `root`.
    pub fn new(root: String) -> (r: LocalThreadStore)
        ensures
            r.recs().len() == 0,
            r.root@ == root@,
    {
        LocalThreadStore { root, records: Vec::new() }
    }

    /// A store built from records read back from disk, with session
    /// collisions repaired; the flag says whether repair changed anything
    /// (and the records should be written back).
    pub fn load(root: String, records: Vec<LocalThreadRecord>) -> (r: (LocalThreadStore, bool))
        ensures
            r.0.root@ == root@,
            r.0.recs() == repaired(views(records@)),
            sessions_unique(r.0.recs()),
            r.1 == (r.0.recs() != views(records@)),
    {
        let mut store = LocalThreadStore { root, records };
        let changed = store.repair_session_collisions();
        proof {
            lemma_repair_leaves_sessions_unique(views(records@));
        }
        (store, changed)
    }

    /// Index of the first record with this thread id.
    fn find_thread(&self, thread_id: &str) -> (r: Option<usize>)
        ensures
            match r {
                Some(i) => is_first_thread(self.recs(), thread_id@, i as int),
                None => !has_thread(self.recs(), thread_id@),
            },
    {
        let mut i: usize = 0;
        while i < self.records.len()
            invariant
                i <= self.records.len(),
                forall|j: int| 0 <= j < i ==> self.recs()[j].thread_id != thread_id@,
            decreases self.records.len() - i,
        {
            if str_eq(self.records[i].thread_id.as_str(), thread_id) {
                return Some(i);
            }
            i = i + 1;
        }
        None
    }

    /// Replaces the first record with the same thread id, or appends.
    pub fn upsert(&mut self, record: LocalThreadRecord)
        ensures
            final(self).recs() == upserted(old(self).recs(), record@),
            final(self).root == old(self).root,
    {
        let ghost rv = record@;
        match self.find_thread(record.thread_id.as_str()) {
            Some(i) => {
                self.records.set(i, record);
                proof {
                    let c = choose|c: int| is_first_thread(old(self).recs(), rv.thread_id, c);
                    lemma_first_thread_unique(old(self).recs(), rv.thread_id, i as int, c);
                    assert(self.recs() =~= old(self).recs().update(i as int, rv));
                }
            },
            None => {
                self.records.push(record);
                assert(self.recs() =~= old(self).recs().push(rv));
            },
        }
    }

    /// The first record of this thread.
    pub fn by_thread_id(&self, thread_id: &str) -> (r: Option<LocalThreadRecord>)
        ensures
            match r {
                Some(rec) => exists|i: int|
                    is_first_thread(self.recs(), thread_id@, i) && rec@ == self.recs()[i],
                None => !has_thread(self.recs(), thread_id@),
            },
    {
        match self.find_thread(thread_id) {
            Some(i) => Some(self.records[i].copy_record()),
            None => None,
        }
    }

    /// The record holding this session; among several, the greatest by
    /// (updated-at, message-index), the last of equal ones.
    pub fn by_session_id(&self, session_id: &str) -> (r: Option<LocalThreadRecord>)
        ensures
            match r {
                Some(rec) => exists|i: int|
                    is_session_pick(self.recs(), session_id@, i) && rec@ == self.recs()[i],
                None => !has_session(self.recs(), session_id@),
            },
    {
        let n = self.records.len();
        let mut best: Option<usize> = None;
        let mut i: usize = 0;
        while i < n
            invariant
                n == self.records.len(),
                i <= n,
                match best {
                    Some(b) => is_session_pick(self.recs().subrange(0, i as int), session_id@, b as int),
                    None => forall|j: int| 0 <= j < i ==> self.recs()[j].session_id != session_id@,
                },
            decreases n - i,
        {
            let ghost pre = self.recs().subrange(0, i as int);
            let ghost post = self.recs().subrange(0, i + 1);
            if str_eq(self.records[i].session_id.as_str(), session_id) {
                let take = match best {
                    None => true,
                    Some(b) => !Self::record_key_lt(&self.records[i], &self.records[b]),
                };
                if take {
                    best = Some(i);
                }
            }
            proof {
                match best {
                    Some(b) => {
                        assert forall|j: int| 0 <= j < post.len() && post[j].session_id == session_id@
                            implies !key_lt(post[b as int], post[j]) by {
                            if j < i {
                                assert(pre[j] == post[j]);
                            }
                        }
                        assert forall|j: int| b < j < post.len() && post[j].session_id == session_id@
                            implies key_lt(post[j], post[b as int]) by {
                            if j < i {
                                assert(pre[j] == post[j]);
                            }
                        }
                    },
                    None => {},
                }
            }
            i = i + 1;
        }
        assert(self.recs().subrange(0, n as int) =~= self.recs());
        match best {
            Some(b) => Some(self.records[b].copy_record()),
            None => None,
        }
    }

    /// The records that are not archived, in order.
    pub fn list_unarchived(&self) -> (r: Vec<LocalThreadRecord>)
        ensures
            views(r@) == self.recs().filter(|x: RecordView| !x.archived),
    {
        let n = self.records.len();
        let mut out: Vec<LocalThreadRecord> = Vec::new();
        let mut i: usize = 0;
        while i < n
            invariant
                n == self.records.len(),
                i <= n,
                views(out@) == self.recs().subrange(0, i as int).filter(|x: RecordView| !x.archived),
            decreases n - i,
        {
            let ghost before = out@;
            if !self.records[i].archived {
                out.push(self.records[i].copy_record());
                assert(views(out@) =~= views(before).push(self.recs()[i as int]));
            }
            proof {
                let s = self.recs().subrange(0, i + 1);
                assert(s.drop_last() =~= self.recs().subrange(0, i as int));
                reveal(Seq::filter);
            }
            i = i + 1;
        }
        assert(self.recs().subrange(0, n as int) =~= self.recs());
        out
    }

    /// Removes every record with this thread id; returns whether one was removed.
    pub fn delete(&mut self, thread_id: &str) -> (changed: bool)
        ensures
            final(self).recs() == old(self).recs().filter(|x: RecordView| x.thread_id != thread_id@),
            final(self).root == old(self).root,
            changed == has_thread(old(self).recs(), thread_id@),
    {
        let ghost id = thread_id@;
        let ghost before = self.recs();
        let n = self.records.len();
        let mut kept: Vec<LocalThreadRecord> = Vec::new();
        let mut changed = false;
        let mut i: usize = 0;
        while i < n
            invariant
                n == self.records.len(),
                self.recs() == before,
                id == thread_id@,
                i <= n,
                views(kept@) == before.subrange(0, i as int).filter(|x: RecordView| x.thread_id != id),
                changed == exists|j: int| 0 <= j < i && before[j].thread_id == id,
            decreases n - i,
        {
            let ghost prev = kept@;
            assert(before[i as int] == self.records@[i as int]@);
            if str_eq(self.records[i].thread_id.as_str(), thread_id) {
                changed = true;
                assert(before[i as int].thread_id == id);
            } else {
                assert(before[i as int].thread_id != id);
                kept.push(self.records[i].copy_record());
                assert(views(kept@) =~= views(prev).push(before[i as int]));
            }
            proof {
                let s = before.subrange(0, i + 1);
                assert(s.drop_last() =~= before.subrange(0, i as int));
                reveal(Seq::filter);
            }
            i = i + 1;
        }
        assert(before.subrange(0, n as int) =~= before);
        self.records = kept;
        changed
    }

    /// Archives the thread: its first record stays, flagged archived and
    /// stamped with `now`, and drops out of the unarchived list. Returns
    /// whether the thread was known.
    pub fn archive(&mut self, thread_id: &str, now: i64) -> (found: bool)
        ensures
            final(self).root == old(self).root,
            found == has_thread(old(self).recs(), thread_id@),
            found ==> exists|i: int|
                is_first_thread(old(self).recs(), thread_id@, i) && final(self).recs() == old(
                    self,
                ).recs().update(
                    i,
                    RecordView { archived: true, updated_at: now, ..old(self).recs()[i] },
                ),
            !found ==> final(self).recs() == old(self).recs(),
    {
        match self.find_thread(thread_id) {
            Some(i) => {
                let mut rec = self.records[i].copy_record();
                rec.archived = true;
                rec.updated_at = now;
                self.records.set(i, rec);
                assert(self.recs() =~= old(self).recs().update(
                    i as int,
                    RecordView { archived: true, updated_at: now, ..old(self).recs()[i as int] },
                ));
                true
            },
            None => false,
        }
    }

    /// Sets the title of the thread's first record and stamps it with `now`.
    pub fn set_title(&mut self, thread_id: &str, title: String, now: i64)
        ensures
            final(self).root == old(self).root,
            has_thread(old(self).recs(), thread_id@) ==> exists|i: int|
                is_first_thread(old(self).recs(), thread_id@, i) && final(self).recs() == old(
                    self,
                ).recs().update(
                    i,
                    RecordView { title: title@, updated_at: now, ..old(self).recs()[i] },
                ),
            !has_thread(old(self).recs(), thread_id@) ==> final(self).recs() == old(self).recs(),
    {
        if let Some(i) = self.find_thread(thread_id) {
            let mut rec = self.records[i].copy_record();
            rec.title = title;
            rec.updated_at = now;
            self.records.set(i, rec);
            assert(self.recs() =~= old(self).recs().update(
                i as int,
                RecordView { title: title@, updated_at: now, ..old(self).recs()[i as int] },
            ));
        }
    }

    /// Adds one to the thread's message counter (saturating) and stamps it with `now`.
    pub fn touch_message(&mut self, thread_id: &str, now: i64)
        ensures
            final(self).root == old(self).root,
            has_thread(old(self).recs(), thread_id@) ==> exists|i: int|
                is_first_thread(old(self).recs(), thread_id@, i) && final(self).recs() == old(
                    self,
                ).recs().update(
                    i,
                    RecordView {
                        message_index: saturating_inc(old(self).recs()[i].message_index),
                        updated_at: now,
                        ..old(self).recs()[i]
                    },
                ),
            !has_thread(old(self).recs(), thread_id@) ==> final(self).recs() == old(self).recs(),
    {
        if let Some(i) = self.find_thread(thread_id) {
            let mut rec = self.records[i].copy_record();
            rec.message_index = rec.message_index.saturating_add(1);
            rec.updated_at = now;
            self.records.set(i, rec);
            assert(self.recs() =~= old(self).recs().update(
                i as int,
                RecordView {
                    message_index: saturating_inc(old(self).recs()[i as int].message_index),
                    updated_at: now,
                    ..old(self).recs()[i as int]
                },
            ));
        }
    }

    /// Empties every session id; returns whether any was set.
    pub fn clear_session_ids(&mut self) -> (changed: bool)
        ensures
            final(self).root == old(self).root,
            final(self).recs() == old(self).recs().map_values(|x: RecordView| cleared(x)),
            changed == exists|i: int|
                0 <= i < old(self).recs().len() && old(self).recs()[i].session_id.len() > 0,
    {
        let ghost before = self.recs();
        let n = self.records.len();
        let mut changed = false;
        let mut i: usize = 0;
        while i < n
            invariant
                n == self.records.len(),
                n == before.len(),
                i <= n,
                self.root == old(self).root,
                forall|j: int| 0 <= j < i ==> self.recs()[j] == cleared(before[j]),
                forall|j: int| i <= j < n ==> self.recs()[j] == before[j],
                changed == exists|j: int| 0 <= j < i && before[j].session_id.len() > 0,
            decreases n - i,
        {
            assert(before[i as int] == self.records@[i as int]@);
            let ghost prior = self.recs();
            assert(forall|j: int| 0 <= j < i ==> prior[j] == cleared(before[j]));
            if self.records[i].session_id.unicode_len() > 0 {
                let mut rec = self.records[i].copy_record();
                rec.session_id = String::new();
                assert(rec@ == cleared(before[i as int]));
                let ghost old_records = self.records@;
                self.records.set(i, rec);
                changed = true;
                assert(self.recs()[i as int] == cleared(before[i as int]));
                assert(before[i as int].session_id.len() > 0);
                assert forall|j: int| 0 <= j < n && j != i implies self.recs()[j] == prior[j] by {
                    assert(self.records@[j] == old_records[j]);
                }
            } else {
                assert(before[i as int].session_id =~= Seq::<char>::empty());
                assert(cleared(before[i as int]) == before[i as int]);
            }
            assert(self.recs()[i as int] == cleared(before[i as int]));
            assert forall|j: int| 0 <= j < i + 1 implies self.recs()[j] == cleared(before[j]) by {
                if j < i {
                    assert(self.recs()[j] == prior[j]);
                }
            }
            i = i + 1;
        }
        assert(self.recs() =~= before.map_values(|x: RecordView| cleared(x)));
        changed
    }

    /// Binds `session_id` to the thread: any other thread holding that
    /// (non-empty) session gives it up, then the thread's first record takes it
    /// and is stamped with `now`. Returns whether anything changed.
    pub fn set_session_id(&mut self, thread_id: &str, session_id: String, now: i64) -> (changed: bool)
        ensures
            final(self).root == old(self).root,
            final(self).recs() == rebound(old(self).recs(), thread_id@, session_id@, now),
            changed == (has_thread(old(self).recs(), thread_id@) || (session_id@.len() > 0
                && exists|k: int|
                0 <= k < old(self).recs().len() && old(self).recs()[k].thread_id != thread_id@
                    && old(self).recs()[k].session_id == session_id@)),
    {
        let ghost before = self.recs();
        let ghost id = thread_id@;
        let ghost sid = session_id@;
        let n = self.records.len();
        let nonempty = session_id.unicode_len() > 0;
        let mut changed = false;
        let mut i: usize = 0;
        while i < n
            invariant
                n == self.records.len(),
                n == before.len(),
                i <= n,
                id == thread_id@,
                sid == session_id@,
                nonempty == (sid.len() > 0),
                self.root == old(self).root,
                forall|j: int| 0 <= j < i ==> self.recs()[j] == released(before[j], id, sid),
                forall|j: int| i <= j < n ==> self.recs()[j] == before[j],
                changed == (sid.len() > 0 && exists|k: int|
                    0 <= k < i && before[k].thread_id != id && before[k].session_id == sid),
            decreases n - i,
        {
            assert(before[i as int] == self.records@[i as int]@);
            let ghost prior = self.recs();
            assert(forall|j: int| 0 <= j < i ==> prior[j] == released(before[j], id, sid));
            if nonempty && !str_eq(self.records[i].thread_id.as_str(), thread_id) && self.records[i].session_id
                == session_id {
                let mut rec = self.records[i].copy_record();
                rec.session_id = String::new();
                assert(rec@ == cleared(before[i as int]));
                let ghost old_records = self.records@;
                self.records.set(i, rec);
                changed = true;
                assert(self.recs()[i as int] == cleared(before[i as int]));
                                assert forall|j: int| 0 <= j < n && j != i implies self.recs()[j] == prior[j] by {
                    assert(self.records@[j] == old_records[j]);
                }
            }
            assert(self.recs()[i as int] == released(before[i as int], id, sid));
            assert forall|j: int| 0 <= j < i + 1 implies self.recs()[j] == released(before[j], id, sid) by {
                if j < i {
                    assert(self.recs()[j] == prior[j]);
                }
            }
            i = i + 1;
        }
        let ghost mid = self.recs();
        if let Some(f) = self.find_thread(thread_id) {
            proof {
                assert(!has_thread(before, id) ==> false) by {
                    assert(mid[f as int].thread_id == before[f as int].thread_id);
                }
            }
            let mut rec = self.records[f].copy_record();
            rec.session_id = session_id;
            rec.updated_at = now;
            self.records.set(f, rec);
            changed = true;
            proof {
                assert forall|k: int| 0 <= k < n implies self.recs()[k] == rebound(before, id, sid, now)[k] by {
                    assert(mid[k].thread_id == before[k].thread_id);
                    assert(is_first_thread(mid, id, k) == is_first_thread(before, id, k)) by {
                        if is_first_thread(mid, id, k) {
                            assert forall|j: int| 0 <= j < k implies before[j].thread_id != id by {
                                assert(mid[j].thread_id == before[j].thread_id);
                            }
                        }
                        if is_first_thread(before, id, k) {
                            assert forall|j: int| 0 <= j < k implies mid[j].thread_id != id by {
                                assert(mid[j].thread_id == before[j].thread_id);
                            }
                        }
                    }
                    if k != f {
                        if is_first_thread(before, id, k) {
                            lemma_first_thread_unique(mid, id, k, f as int);
                        }
                    }
                }
                assert(self.recs() =~= rebound(before, id, sid, now));
            }
        } else {
            proof {
                assert forall|k: int| 0 <= k < n implies !is_first_thread(before, id, k) by {
                    assert(mid[k].thread_id == before[k].thread_id);
                }
                assert(self.recs() =~= rebound(before, id, sid, now));
                assert(!has_thread(before, id)) by {
                    if has_thread(before, id) {
                        let k = choose|k: int| 0 <= k < n && before[k].thread_id == id;
                        assert(mid[k].thread_id == before[k].thread_id);
                    }
                }
            }
        }
        changed
    }

    /// Key comparison of two records, strictly less.
    fn record_key_lt(a: &LocalThreadRecord, b: &LocalThreadRecord) -> (r: bool)
        ensures
            r == key_lt(a@, b@),
    {
        a.updated_at < b.updated_at || (a.updated_at == b.updated_at && a.message_index
            < b.message_index)
    }

    fn wins_session_exec(&self, i: usize) -> (r: bool)
        requires
            i < self.records.len(),
        ensures
            r == wins_session(self.recs(), i as int),
    {
        let n = self.records.len();
        let mut j: usize = 0;
        while j < n
            invariant
                n == self.records.len(),
                i < n,
                forall|k: int|
                    0 <= k < j && k != i && self.recs()[k].session_id == self.recs()[i as int].session_id
                        ==> key_lt(self.recs()[k], self.recs()[i as int]) || (!key_lt(
                        self.recs()[i as int],
                        self.recs()[k],
                    ) && i < k),
            decreases n - j,
        {
            if j != i && self.records[j].session_id == self.records[i].session_id {
                let a = &self.records[j];
                let b = &self.records[i];
                if !(Self::record_key_lt(a, b) || (!Self::record_key_lt(b, a) && i < j)) {
                    assert(self.recs()[j as int] == a@ && self.recs()[i as int] == b@);
                    return false;
                }
            }
            j = j + 1;
        }
        true
    }

    /// The file holding a thread's item log, beside the store's index.
    pub fn thread_items_path(&self, thread_id: &str) -> (r: String)
        ensures
            r@ == crate::config::path_join(
                crate::config::path_join(self.root@, "thread-items"@),
                safe_file_id(thread_id@) + ".json"@,
            ),
    {
        let v = chars_of(thread_id);
        let mut safe: Vec<char> = Vec::new();
        let mut i: usize = 0;
        while i < v.len()
            invariant
                i <= v.len(),
                safe@ =~= safe_file_id(v@.subrange(0, i as int)),
            decreases v.len() - i,
        {
            safe.push(if v[i] == '/' { '_' } else { v[i] });
            i = i + 1;
        }
        assert(v@.subrange(0, v.len() as int) =~= v@);
        let mut name = string_from_chars(safe.as_slice());
        name.append(".json");
        let dir = crate::config::join_path(self.root.as_str(), "thread-items");
        crate::config::join_path(dir.as_str(), name.as_str())
    }

    /// Creates a thread bound to `session_id` under a fresh random id, titled
    /// "New Thread", and records it.
    pub fn create_local_thread(&mut self, session_id: String, now: i64) -> (r: LocalThreadRecord)
        ensures
            r.session_id@ == session_id@,
            r.title@ == "New Thread"@,
            !r.archived,
            r.updated_at == now,
            r.message_index == 0,
            final(self).root == old(self).root,
            final(self).recs() == rebound(upserted(old(self).recs(), r@), r.thread_id@, session_id@, now),
    {
        let thread = LocalThreadRecord {
            thread_id: new_uuid(),
            session_id,
            title: String::from_str("New Thread"),
            archived: false,
            updated_at: now,
            message_index: 0,
        };
        self.upsert(thread.copy_record());
        let sid = thread.session_id.clone();
        self.set_session_id(thread.thread_id.as_str(), sid, now);
        thread
    }

    /// Clears the session id of every record that shares a non-empty session
    /// id with a record that orders after it; returns whether anything changed.
    pub fn repair_session_collisions(&mut self) -> (changed: bool)
        ensures
            final(self).recs() == repaired(old(self).recs()),
            final(self).root == old(self).root,
            changed == (final(self).recs() != old(self).recs()),
    {
        let n = self.records.len();
        let ghost before = self.recs();
        let mut winners: Vec<bool> = Vec::new();
        let mut i: usize = 0;
        while i < n
            invariant
                n == self.records.len(),
                self.recs() == before,
                i <= n,
                winners@.len() == i,
                forall|k: int| 0 <= k < i ==> winners@[k] == wins_session(before, k),
            decreases n - i,
        {
            let w = self.wins_session_exec(i);
            winners.push(w);
            i = i + 1;
        }
        let mut changed = false;
        let mut k: usize = 0;
        while k < n
            invariant
                n == self.records.len(),
                n == before.len(),
                k <= n,
                winners@.len() == n,
                forall|m: int| 0 <= m < n ==> winners@[m] == wins_session(before, m),
                forall|m: int| 0 <= m < k ==> self.recs()[m] == repaired(before)[m],
                forall|m: int| k <= m < n ==> self.recs()[m] == before[m],
                self.root == old(self).root,
                changed == exists|m: int| 0 <= m < k && repaired(before)[m] != before[m],
            decreases n - k,
        {
            if self.records[k].session_id.unicode_len() > 0 && !winners[k] {
                let mut rec = self.records[k].copy_record();
                rec.session_id = String::new();
                self.records.set(k, rec);
                changed = true;
                assert(repaired(before)[k as int] != before[k as int]) by {
                    assert(repaired(before)[k as int].session_id.len() == 0);
                }
            }
            proof {
                assert(self.recs()[k as int] == repaired(before)[k as int]);
            }
            k = k + 1;
        }
        proof {
            assert(self.recs() =~= repaired(before));
            if !changed {
                assert(repaired(before) =~= before);
            } else {
                let m = choose|m: int| 0 <= m < k && repaired(before)[m] != before[m];
                assert(self.recs()[m] != before[m]);
            }
        }
        changed
    }
}

/// A thread id made safe as a file name: '/' becomes '_'.
pub open spec fn safe_file_id(id: Seq<char>) -> Seq<char> {
    id.map_values(|c: char| if c == '/' { '_' } else { c })
}

/// After repair, no two records hold the same non-empty session id, and a
/// record keeps its session id exactly when it orders after every other
/// holder of that id (ties going to the earlier record).
pub proof fn lemma_repair_leaves_sessions_unique(recs: Seq<RecordView>)
    ensures
        sessions_unique(repaired(recs)),
        repaired(recs).len() == recs.len(),
        forall|i: int|
            0 <= i < recs.len() && recs[i].session_id.len() > 0 ==> (repaired(recs)[i].session_id
                == recs[i].session_id <==> wins_session(recs, i)),
{
    let r = repaired(recs);
    assert forall|i: int, j: int|
        0 <= i < r.len() && 0 <= j < r.len() && i != j && r[i].session_id.len() > 0 implies r[i].session_id
        != r[j].session_id by {
        if r[i].session_id == r[j].session_id {
            assert(wins_session(recs, i));
            assert(wins_session(recs, j));
        }
    }
}

/// Binding a session to a thread keeps each non-empty session id held by at
/// most one record, when thread ids are unique.
pub proof fn lemma_rebind_keeps_sessions_unique(
    recs: Seq<RecordView>,
    id: Seq<char>,
    sid: Seq<char>,
    now: i64,
)
    requires
        sessions_unique(recs),
        thread_ids_unique(recs),
    ensures
        sessions_unique(rebound(recs, id, sid, now)),
{
    let r = rebound(recs, id, sid, now);
    assert forall|i: int, j: int|
        0 <= i < r.len() && 0 <= j < r.len() && i != j && r[i].session_id.len() > 0 implies r[i].session_id
        != r[j].session_id by {
        if r[i].session_id == r[j].session_id {
            if is_first_thread(recs, id, i) {
                assert(recs[j].thread_id != id);
            } else if is_first_thread(recs, id, j) {
                assert(recs[i].thread_id != id);
            }
        }
    }
}

} // verus!
