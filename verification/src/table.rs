//! The table of live sessions: a finite map from session identifiers to the
//! records of the sessions registered under them.

use vstd::prelude::*;

verus! {

/// A finite map from session identifiers to session records.
///
/// The table owns its records: a record that leaves the table, because its
/// session is closed or because another one takes its identifier, is dropped
/// together with whatever handles it holds.
///
/// The view of a table is the `Map` from each identifier's characters to the
/// record registered under it.
pub struct SessionTable<S> {
    /// The identifier of each row; no two rows share one.
    ids: Vec<String>,
    /// The record of each row, in the order of `ids`.
    sessions: Vec<S>,
}

/// The characters of the identifiers, in row order.
spec fn row_keys(ids: Seq<String>) -> Seq<Seq<char>> {
    Seq::new(ids.len(), |i: int| ids[i]@)
}

/// The map that rows with distinct identifiers stand for.
spec fn row_map<S>(ids: Seq<String>, sessions: Seq<S>) -> Map<Seq<char>, S> {
    Map::new(
        |key: Seq<char>| row_keys(ids).contains(key),
        |key: Seq<char>| sessions[row_keys(ids).index_of(key)],
    )
}

/// Whether two lists can be the rows of a table.
spec fn rows_wf<S>(ids: Seq<String>, sessions: Seq<S>) -> bool {
    &&& ids.len() == sessions.len()
    &&& row_keys(ids).no_duplicates()
}

/// Row `i` is found under its own identifier, and nowhere else.
proof fn lemma_row_lookup<S>(ids: Seq<String>, sessions: Seq<S>, i: int)
    requires
        rows_wf(ids, sessions),
        0 <= i < ids.len(),
    ensures
        row_keys(ids).contains(ids[i]@),
        row_keys(ids).index_of(ids[i]@) == i,
        row_map(ids, sessions).contains_key(ids[i]@),
        row_map(ids, sessions)[ids[i]@] == sessions[i],
{
    let keys = row_keys(ids);
    assert(keys[i] == ids[i]@);
    let j = keys.index_of(ids[i]@);
    assert(0 <= j < keys.len() && keys[j] == ids[i]@);
}

/// A table has as many records as rows.
proof fn lemma_row_count<S>(ids: Seq<String>, sessions: Seq<S>)
    requires
        rows_wf(ids, sessions),
    ensures
        row_map(ids, sessions).dom().finite(),
        row_map(ids, sessions).len() == ids.len(),
{
    let keys = row_keys(ids);
    assert(row_map(ids, sessions).dom() =~= keys.to_set());
    vstd::seq_lib::seq_to_set_is_finite(keys);
    keys.unique_seq_to_set();
}

/// A row with a fresh identifier, put last, adds that identifier to the map.
proof fn lemma_row_push<S>(ids: Seq<String>, sessions: Seq<S>, id: String, session: S)
    requires
        rows_wf(ids, sessions),
        !row_map(ids, sessions).contains_key(id@),
    ensures
        rows_wf(ids.push(id), sessions.push(session)),
        row_map(ids.push(id), sessions.push(session)) == row_map(ids, sessions).insert(
            id@,
            session,
        ),
{
    let keys = row_keys(ids);
    let more = row_keys(ids.push(id));
    assert(more =~= keys.push(id@));
    assert(more.no_duplicates()) by {
        assert forall|i: int, j: int| 0 <= i < more.len() && 0 <= j < more.len() && i != j implies more[i]
            != more[j] by {
            if i < keys.len() && j < keys.len() {
                assert(keys[i] != keys[j]);
            } else if i < keys.len() {
                assert(keys.contains(keys[i]));
            } else {
                assert(keys.contains(keys[j]));
            }
        }
    }
    assert forall|key: Seq<char>| more.contains(key) <==> (keys.contains(key) || key == id@) by {
        if keys.contains(key) {
            let i = keys.index_of(key);
            assert(more[i] == key);
        }
        if key == id@ {
            assert(more[keys.len() as int] == key);
        }
    }
    assert forall|key: Seq<char>| keys.contains(key) implies sessions.push(session)[more.index_of(
        key,
    )] == sessions[keys.index_of(key)] by {
        let i = keys.index_of(key);
        let j = more.index_of(key);
        assert(more[i] == key);
        assert(more[j] == key);
    }
    let last = more.index_of(id@);
    assert(more[keys.len() as int] == id@);
    assert(last == keys.len());
    assert(row_map(ids.push(id), sessions.push(session)) =~= row_map(ids, sessions).insert(
        id@,
        session,
    ));
}

/// Taking row `i` out takes its identifier, and no other, out of the map.
proof fn lemma_row_remove<S>(ids: Seq<String>, sessions: Seq<S>, i: int)
    requires
        rows_wf(ids, sessions),
        0 <= i < ids.len(),
    ensures
        rows_wf(ids.remove(i), sessions.remove(i)),
        row_map(ids.remove(i), sessions.remove(i)) == row_map(ids, sessions).remove(ids[i]@),
        row_map(ids, sessions).contains_key(ids[i]@),
        row_map(ids, sessions)[ids[i]@] == sessions[i],
{
    lemma_row_lookup(ids, sessions, i);
    let keys = row_keys(ids);
    let fewer = row_keys(ids.remove(i));
    assert(fewer =~= keys.remove(i));
    assert(fewer.no_duplicates()) by {
        assert forall|a: int, b: int| 0 <= a < fewer.len() && 0 <= b < fewer.len() && a != b implies fewer[a]
            != fewer[b] by {
            let a0 = if a < i { a } else { a + 1 };
            let b0 = if b < i { b } else { b + 1 };
            assert(fewer[a] == keys[a0]);
            assert(fewer[b] == keys[b0]);
        }
    }
    assert forall|key: Seq<char>| fewer.contains(key) <==> (keys.contains(key) && key != ids[i]@) by {
        if fewer.contains(key) {
            let a = fewer.index_of(key);
            let a0 = if a < i { a } else { a + 1 };
            assert(keys[a0] == key);
        }
        if keys.contains(key) && key != ids[i]@ {
            let b0 = keys.index_of(key);
            let b = if b0 < i { b0 } else { b0 - 1 };
            assert(fewer[b] == key);
        }
    }
    assert forall|key: Seq<char>| fewer.contains(key) implies sessions.remove(i)[fewer.index_of(key)]
        == sessions[keys.index_of(key)] by {
        let a = fewer.index_of(key);
        let a0 = if a < i { a } else { a + 1 };
        assert(keys[a0] == key);
        assert(keys[keys.index_of(key)] == key);
    }
    assert(row_map(ids.remove(i), sessions.remove(i)) =~= row_map(ids, sessions).remove(ids[i]@));
}

/// Puts a row with a fresh identifier last.
fn push_row<S>(ids: &mut Vec<String>, sessions: &mut Vec<S>, id: String, session: S)
    requires
        rows_wf(old(ids)@, old(sessions)@),
        !row_map(old(ids)@, old(sessions)@).contains_key(id@),
    ensures
        rows_wf(final(ids)@, final(sessions)@),
        row_map(final(ids)@, final(sessions)@) == row_map(old(ids)@, old(sessions)@).insert(
            id@,
            session,
        ),
{
    proof {
        lemma_row_push(ids@, sessions@, id, session);
    }
    ids.push(id);
    sessions.push(session);
}

/// Takes row `i` out and hands back its record.
fn take_row<S>(ids: &mut Vec<String>, sessions: &mut Vec<S>, i: usize) -> (record: S)
    requires
        rows_wf(old(ids)@, old(sessions)@),
        i < old(ids)@.len(),
    ensures
        rows_wf(final(ids)@, final(sessions)@),
        row_map(final(ids)@, final(sessions)@) == row_map(old(ids)@, old(sessions)@).remove(
            old(ids)@[i as int]@,
        ),
        row_map(old(ids)@, old(sessions)@).contains_key(old(ids)@[i as int]@),
        record == row_map(old(ids)@, old(sessions)@)[old(ids)@[i as int]@],
{
    proof {
        lemma_row_remove(ids@, sessions@, i as int);
    }
    ids.remove(i);
    sessions.remove(i)
}

impl<S> View for SessionTable<S> {
    type V = Map<Seq<char>, S>;

    closed spec fn view(&self) -> Map<Seq<char>, S> {
        row_map(self.ids@, self.sessions@)
    }
}

impl<S> SessionTable<S> {
    /// One record per row, and no identifier in two rows.
    #[verifier::type_invariant]
    spec fn wf(self) -> bool {
        rows_wf(self.ids@, self.sessions@)
    }

    /// An empty table.
    pub fn new() -> (table: Self)
        ensures
            table@ == Map::<Seq<char>, S>::empty(),
    {
        let ids: Vec<String> = Vec::new();
        let sessions: Vec<S> = Vec::new();
        assert(row_keys(ids@) =~= Seq::<Seq<char>>::empty());
        assert(row_map(ids@, sessions@) =~= Map::<Seq<char>, S>::empty());
        SessionTable { ids, sessions }
    }

    /// Moves the rows out of the table, which is left empty, so that
    /// they can be changed one list after the other.
    fn take_rows(&mut self) -> (rows: (Vec<String>, Vec<S>))
        ensures
            rows.0 == old(self).ids,
            rows.1 == old(self).sessions,
            rows_wf(rows.0@, rows.1@),
    {
        proof {
            use_type_invariant(&*self);
        }
        let mut rows = SessionTable::new();
        core::mem::swap(self, &mut rows);
        let SessionTable { ids, sessions } = rows;
        (ids, sessions)
    }

    /// The row that holds `id`, if any.
    fn position(&self, id: &String) -> (found: Option<usize>)
        ensures
            match found {
                Some(i) => i < self.ids.len() && self.ids[i as int]@ == id@,
                None => !self@.contains_key(id@),
            },
    {
        let mut i: usize = 0;
        while i < self.ids.len()
            invariant
                i <= self.ids.len(),
                forall|j: int| 0 <= j < i ==> self.ids[j]@ != id@,
            decreases self.ids.len() - i,
        {
            if self.ids[i] == *id {
                return Some(i);
            }
            i += 1;
        }
        assert(!row_keys(self.ids@).contains(id@)) by {
            if row_keys(self.ids@).contains(id@) {
                let j = choose|j: int|
                    0 <= j < row_keys(self.ids@).len() && row_keys(self.ids@)[j] == id@;
                assert(self.ids[j]@ == id@);
            }
        }
        None
    }

    /// Whether a record is registered under `id`.
    pub fn contains_key(&self, id: &str) -> (present: bool)
        ensures
            present == self@.contains_key(id@),
    {
        proof {
            use_type_invariant(self);
        }
        let key = id.to_owned();
        match self.position(&key) {
            Some(i) => {
                proof {
                    lemma_row_lookup(self.ids@, self.sessions@, i as int);
                }
                true
            },
            None => false,
        }
    }

    /// The number of records in the table.
    pub fn len(&self) -> (count: usize)
        ensures
            self@.dom().finite(),
            count == self@.len(),
    {
        proof {
            use_type_invariant(self);
            lemma_row_count(self.ids@, self.sessions@);
        }
        self.ids.len()
    }

    /// Registers `session` under `id` and hands back the record that was
    /// registered there before, if there was one.
    pub fn insert(&mut self, id: String, session: S) -> (displaced: Option<S>)
        ensures
            final(self)@ == old(self)@.insert(id@, session),
            displaced == (if old(self)@.contains_key(id@) {
                Some(old(self)@[id@])
            } else {
                None
            }),
    {
        proof {
            use_type_invariant(&*self);
        }
        match self.position(&id) {
            Some(i) => {
                proof {
                    lemma_row_lookup(self.ids@, self.sessions@, i as int);
                }
                let ghost before = self.sessions@;
                let mut record = session;
                core::mem::swap(&mut self.sessions[i], &mut record);
                proof {
                    assert(row_map(self.ids@, self.sessions@) =~= row_map(self.ids@, before).insert(
                        id@,
                        session,
                    )) by {
                        lemma_row_lookup(self.ids@, self.sessions@, i as int);
                    }
                }
                Some(record)
            },
            None => {
                let (mut ids, mut sessions) = self.take_rows();
                push_row(&mut ids, &mut sessions, id, session);
                *self = SessionTable { ids, sessions };
                None
            },
        }
    }

    /// Takes the record registered under `id` out of the table, if there is
    /// one; a table without such a record is left as it is.
    pub fn remove(&mut self, id: &str) -> (removed: Option<S>)
        ensures
            final(self)@ == old(self)@.remove(id@),
            removed == (if old(self)@.contains_key(id@) {
                Some(old(self)@[id@])
            } else {
                None
            }),
    {
        proof {
            use_type_invariant(&*self);
        }
        let key = id.to_owned();
        match self.position(&key) {
            Some(i) => {
                let (mut ids, mut sessions) = self.take_rows();
                let record = take_row(&mut ids, &mut sessions, i);
                *self = SessionTable { ids, sessions };
                Some(record)
            },
            None => {
                assert(self@.remove(id@) =~= self@);
                None
            },
        }
    }

    /// The record registered under `id`, for the caller to use and change.
    pub fn get_mut(&mut self, id: &str) -> (found: Option<&mut S>)
        ensures
            match found {
                Some(session) => old(self)@.contains_key(id@) && *session == old(self)@[id@]
                    && final(self)@ == old(self)@.insert(id@, *final(session)),
                None => !old(self)@.contains_key(id@) && final(self)@ == old(self)@,
            },
    {
        proof {
            use_type_invariant(&*self);
        }
        let key = id.to_owned();
        match self.position(&key) {
            Some(i) => {
                proof {
                    lemma_row_lookup(self.ids@, self.sessions@, i as int);
                }
                let ghost ids = self.ids@;
                let ghost before = self.sessions@;
                let session = &mut self.sessions[i];
                proof {
                    let after = before.update(i as int, *final(session));
                    assert(row_map(ids, after) =~= row_map(ids, before).insert(id@, *final(session))) by {
                        lemma_row_lookup(ids, after, i as int);
                    }
                }
                Some(session)
            },
            None => None,
        }
    }
}

} // verus!
