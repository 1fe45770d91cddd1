//! A store that keeps its tasks in memory.

use crate::model::task::Task;
use crate::repo::store::{stored, written, StoreError, Stored, TaskRepository};
use vstd::prelude::*;

verus! {

/// An in-memory store. It holds at most one task per identifier, and can be
/// told to refuse writes, as a store behind a network would at times.
pub struct MemoryRepository {
    entries: Vec<Task>,
    fault: Option<StoreError>,
    asked: Ghost<nat>,
}

/// Some entry of `entries` is filed under `global_id`.
spec fn holds(entries: Seq<Task>, global_id: Seq<char>) -> bool {
    exists|i: int| 0 <= i < entries.len() && #[trigger] entries[i]@.global_id == global_id
}

/// The position of an entry filed under `global_id`.
spec fn position(entries: Seq<Task>, global_id: Seq<char>) -> int {
    choose|i: int| 0 <= i < entries.len() && #[trigger] entries[i]@.global_id == global_id
}

/// No two entries share an identifier.
spec fn distinct(entries: Seq<Task>) -> bool {
    forall|i: int, j: int|
        0 <= i < j < entries.len() ==> #[trigger] entries[i]@.global_id
            != #[trigger] entries[j]@.global_id
}

/// The contents that `entries` stand for.
spec fn contents(entries: Seq<Task>) -> Stored {
    Map::new(
        |global_id: Seq<char>| holds(entries, global_id),
        |global_id: Seq<char>| entries[position(entries, global_id)]@,
    )
}

/// With distinct identifiers, each entry is what the contents hold under the
/// entry's identifier.
proof fn lemma_entry_is_stored(entries: Seq<Task>, i: int)
    requires
        distinct(entries),
        0 <= i < entries.len(),
    ensures
        stored(contents(entries), entries[i]@.global_id) == Some(entries[i]@),
{
    let global_id = entries[i]@.global_id;
    assert(holds(entries, global_id));
    let at = position(entries, global_id);
    assert(at == i);
}

/// Replacing the entry at `i` by a task with the same identifier is a write.
proof fn lemma_update_is_write(entries: Seq<Task>, i: int, task: Task)
    requires
        distinct(entries),
        0 <= i < entries.len(),
        entries[i]@.global_id == task@.global_id,
    ensures
        distinct(entries.update(i, task)),
        contents(entries.update(i, task)) == written(contents(entries), task@),
{
    let after = entries.update(i, task);
    assert(distinct(after)) by {
        assert forall|a: int, b: int| 0 <= a < b < after.len() implies #[trigger] after[a]@.global_id
            != #[trigger] after[b]@.global_id by {
            assert(after[a]@.global_id == entries[a]@.global_id);
            assert(after[b]@.global_id == entries[b]@.global_id);
        }
    }
    assert forall|global_id: Seq<char>| holds(after, global_id) <==> holds(entries, global_id) by {
        if holds(after, global_id) {
            let at = position(after, global_id);
            assert(entries[at]@.global_id == global_id);
        }
        if holds(entries, global_id) {
            let at = position(entries, global_id);
            assert(after[at]@.global_id == global_id);
        }
    }
    assert forall|global_id: Seq<char>| #[trigger]
        contents(after).contains_key(global_id) implies contents(after)[global_id] == written(
        contents(entries),
        task@,
    )[global_id] by {
        let at = position(after, global_id);
        lemma_entry_is_stored(after, at);
        if at != i {
            assert(after[at] == entries[at]);
            lemma_entry_is_stored(entries, at);
        }
    }
    assert(holds(entries, task@.global_id));
    assert(contents(after) =~= written(contents(entries), task@));
}

/// Adding a task whose identifier is not held yet is a write.
proof fn lemma_push_is_write(entries: Seq<Task>, task: Task)
    requires
        distinct(entries),
        !holds(entries, task@.global_id),
    ensures
        distinct(entries.push(task)),
        contents(entries.push(task)) == written(contents(entries), task@),
{
    let after = entries.push(task);
    assert(distinct(after)) by {
        assert forall|a: int, b: int| 0 <= a < b < after.len() implies #[trigger] after[a]@.global_id
            != #[trigger] after[b]@.global_id by {
            if b == entries.len() {
                assert(entries[a]@.global_id != task@.global_id);
            } else {
                assert(after[a] == entries[a]);
                assert(after[b] == entries[b]);
            }
        }
    }
    assert(after[entries.len() as int]@.global_id == task@.global_id);
    assert forall|global_id: Seq<char>|
        holds(after, global_id) <==> (holds(entries, global_id) || global_id
            == task@.global_id) by {
        if holds(after, global_id) {
            let at = position(after, global_id);
            if at < entries.len() {
                assert(entries[at]@.global_id == global_id);
            }
        }
        if holds(entries, global_id) {
            let at = position(entries, global_id);
            assert(after[at]@.global_id == global_id);
        }
    }
    assert forall|global_id: Seq<char>| #[trigger]
        contents(after).contains_key(global_id) implies contents(after)[global_id] == written(
        contents(entries),
        task@,
    )[global_id] by {
        let at = position(after, global_id);
        lemma_entry_is_stored(after, at);
        if at < entries.len() {
            assert(after[at] == entries[at]);
            lemma_entry_is_stored(entries, at);
        }
    }
    assert(contents(after) =~= written(contents(entries), task@));
}

/// With distinct identifiers, the contents hold as many tasks as there are
/// entries.
proof fn lemma_contents_size(entries: Seq<Task>)
    requires
        distinct(entries),
    ensures
        contents(entries).dom().finite(),
        contents(entries).dom().len() == entries.len(),
    decreases entries.len(),
{
    if entries.len() == 0 {
        assert(contents(entries).dom() =~= Set::<Seq<char>>::empty());
    } else {
        let rest = entries.drop_last();
        let last = entries.last();
        assert(distinct(rest)) by {
            assert forall|a: int, b: int| 0 <= a < b < rest.len() implies #[trigger] rest[a]@.global_id
                != #[trigger] rest[b]@.global_id by {
                assert(rest[a] == entries[a]);
                assert(rest[b] == entries[b]);
            }
        }
        assert(!holds(rest, last@.global_id)) by {
            if holds(rest, last@.global_id) {
                let at = position(rest, last@.global_id);
                assert(rest[at] == entries[at]);
                assert(entries[at]@.global_id != entries[entries.len() - 1]@.global_id);
            }
        }
        lemma_contents_size(rest);
        lemma_push_is_write(rest, last);
        assert(entries =~= rest.push(last));
        assert(contents(entries).dom() =~= contents(rest).dom().insert(last@.global_id));
    }
}

impl MemoryRepository {
    #[verifier::type_invariant]
    spec fn sound(&self) -> bool {
        distinct(self.entries@)
    }

    /// The fault that the store raises on every write, if it is set to raise
    /// one.
    pub closed spec fn fault(&self) -> Option<StoreError> {
        self.fault
    }

    /// An empty store that takes every write.
    pub fn new() -> (repo: MemoryRepository)
        ensures
            repo.tasks() == Stored::empty(),
            repo.fault() is None,
            repo.writes() == 0,
    {
        let repo = MemoryRepository { entries: Vec::new(), fault: None, asked: Ghost(0) };
        assert(repo.tasks() =~= Stored::empty());
        repo
    }

    /// Makes every later write fail with `fault`, or succeed again with
    /// `None`. The contents stay as they are.
    pub fn fail_with(&mut self, fault: Option<StoreError>)
        ensures
            final(self).fault() == fault,
            final(self).tasks() == old(self).tasks(),
            final(self).writes() == old(self).writes(),
    {
        proof {
            use_type_invariant(&*self);
        }
        self.fault = fault;
    }

    /// How many tasks the store holds.
    pub fn len(&self) -> (count: usize)
        ensures
            count == self.tasks().dom().len(),
    {
        proof {
            use_type_invariant(self);
            lemma_contents_size(self.entries@);
        }
        self.entries.len()
    }

    /// The position of the entry filed under `global_id`, if there is one.
    fn find(&self, global_id: &String) -> (at: Option<usize>)
        ensures
            at matches Some(i) ==> i < self.entries.len() && self.entries[i as int]@.global_id
                == global_id@,
            at is None ==> !holds(self.entries@, global_id@),
    {
        let mut i: usize = 0;
        while i < self.entries.len()
            invariant
                i <= self.entries.len(),
                forall|j: int| 0 <= j < i ==> self.entries[j]@.global_id != global_id@,
            decreases self.entries.len() - i,
        {
            if *self.entries[i].global_id() == *global_id {
                return Some(i);
            }
            i += 1;
        }
        None
    }
}

impl TaskRepository for MemoryRepository {
    closed spec fn tasks(&self) -> Stored {
        contents(self.entries@)
    }

    open spec fn accepting(&self) -> bool {
        self.fault() is None
    }

    closed spec fn writes(&self) -> nat {
        self.asked@
    }

    fn get(&self, global_id: &String) -> (found: Option<Task>) {
        proof {
            use_type_invariant(self);
        }
        match self.find(global_id) {
            Some(i) => {
                proof {
                    lemma_entry_is_stored(self.entries@, i as int);
                }
                Some(self.entries[i].clone())
            },
            None => None,
        }
    }

    fn put(&mut self, task: Task) -> (outcome: Result<(), StoreError>)
        ensures
            outcome == match old(self).fault() {
                Some(fault) => Err::<(), StoreError>(fault),
                None => Ok(()),
            },
            outcome is Err ==> final(self).tasks() == old(self).tasks(),
            final(self).fault() == old(self).fault(),
    {
        proof {
            use_type_invariant(&*self);
        }
        self.asked = Ghost((self.asked@ + 1) as nat);
        match self.fault {
            Some(fault) => Err(fault),
            None => {
                let at = self.find(task.global_id());
                let mut entries = Vec::new();
                std::mem::swap(&mut entries, &mut self.entries);
                match at {
                    Some(i) => {
                        proof {
                            lemma_update_is_write(entries@, i as int, task);
                        }
                        entries[i] = task;
                    },
                    None => {
                        proof {
                            lemma_push_is_write(entries@, task);
                        }
                        entries.push(task);
                    },
                }
                self.entries = entries;
                Ok(())
            },
        }
    }
}

} // verus!
