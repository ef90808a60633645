//! Tasks and the store that holds them.
//!
//! A task is an integer identifier, a text description and a completion
//! flag; the identifier uniquely determines a row. `TaskList` models the
//! stored table: rows stand in insertion order and every insertion
//! assigns a fresh identifier, so identifiers increase along the list.

use vstd::prelude::*;

verus! {

/// A single stored to-do item.
pub struct Task {
    /// The row's identifier; no two rows share one.
    pub id: i32,
    /// What there is to do.
    pub description: String,
    /// Whether it has been done.
    pub completed: bool,
}

/// A form submission asking for a new task.
pub struct Todo {
    /// The description the new task should carry.
    pub description: String,
}

/// `t` with its completion flag flipped.
pub open spec fn toggled(t: Task) -> Task {
    Task { completed: !t.completed, ..t }
}

/// Some row of `s` carries the identifier `id`.
pub open spec fn contains_id(s: Seq<Task>, id: i32) -> bool {
    exists|i: int| 0 <= i < s.len() && (#[trigger] s[i]).id == id
}

/// No two distinct rows of `s` carry the same identifier.
pub open spec fn ids_unique(s: Seq<Task>) -> bool {
    forall|i: int, j: int|
        0 <= i < s.len() && 0 <= j < s.len() && i != j ==> (#[trigger] s[i]).id != (
        #[trigger] s[j]).id
}

/// `after` is `before` plus one new row: same rows in the same order,
/// then one more whose description is `description`, not yet completed,
/// under an identifier no earlier row carries.
pub open spec fn inserted_one(before: Seq<Task>, after: Seq<Task>, description: Seq<char>) -> bool {
    &&& after.len() == before.len() + 1
    &&& after.drop_last() == before
    &&& after.last().description@ == description
    &&& !after.last().completed
    &&& forall|i: int| 0 <= i < before.len() ==> after.last().id != (#[trigger] before[i]).id
}

/// `after` is `before` with exactly the row carrying `id` flipped.
pub open spec fn toggled_one(before: Seq<Task>, after: Seq<Task>, id: i32) -> bool {
    exists|i: int|
        0 <= i < before.len() && (#[trigger] before[i]).id == id && after == before.update(
            i,
            toggled(before[i]),
        )
}

/// `after` is `before` with exactly the row carrying `id` removed.
pub open spec fn deleted_one(before: Seq<Task>, after: Seq<Task>, id: i32) -> bool {
    exists|i: int|
        0 <= i < before.len() && (#[trigger] before[i]).id == id && after == before.remove(i)
}

/// Toggling is an involution: as long as identifiers are unique, two
/// toggles of the same identifier in a row leave every row as it was.
pub proof fn lemma_toggle_twice_restores(before: Seq<Task>, mid: Seq<Task>, after: Seq<Task>, id: i32)
    requires
        ids_unique(before),
        toggled_one(before, mid, id),
        toggled_one(mid, after, id),
    ensures
        after == before,
{
    let i = choose|i: int|
        0 <= i < before.len() && (#[trigger] before[i]).id == id && mid == before.update(
            i,
            toggled(before[i]),
        );
    let j = choose|j: int|
        0 <= j < mid.len() && (#[trigger] mid[j]).id == id && after == mid.update(
            j,
            toggled(mid[j]),
        );
    if i != j {
        assert(mid[j] == before[j]);
        assert(before[i].id != before[j].id);
        assert(false);
    }
    assert(after =~= before);
}

/// The stored table of tasks.
pub struct TaskList {
    tasks: Vec<Task>,
    next_id: i32,
}

impl View for TaskList {
    type V = Seq<Task>;

    closed spec fn view(&self) -> Seq<Task> {
        self.tasks@
    }
}

impl TaskList {
    /// Identifiers increase along the list and stay below the next one
    /// to be assigned, so every row's identifier is unique.
    pub closed spec fn wf(&self) -> bool {
        &&& 1 <= self.next_id
        &&& forall|i: int, j: int|
            0 <= i < j < self.tasks@.len() ==> (#[trigger] self.tasks@[i]).id < (
            #[trigger] self.tasks@[j]).id
        &&& forall|i: int|
            0 <= i < self.tasks@.len() ==> (#[trigger] self.tasks@[i]).id < self.next_id
    }

    /// A fresh identifier is still available.
    pub closed spec fn can_insert(&self) -> bool {
        self.next_id < i32::MAX
    }

    /// The identifier uniquely determines a row: a well-formed store
    /// never holds two rows under the same identifier.
    pub proof fn lemma_ids_unique(&self)
        requires
            self.wf(),
        ensures
            ids_unique(self@),
    {
    }

    /// An empty store, as a fresh database leaves it.
    pub fn new() -> (t: TaskList)
        ensures
            t.wf(),
            t.can_insert(),
            t@ == Seq::<Task>::empty(),
    {
        TaskList { tasks: Vec::new(), next_id: 1 }
    }

    /// All stored rows, in order.
    pub fn all(&self) -> (v: Vec<Task>)
        ensures
            v@ == self@,
    {
        let mut v: Vec<Task> = Vec::new();
        let mut i: usize = 0;
        while i < self.tasks.len()
            invariant
                i <= self.tasks.len(),
                v@ == self.tasks@.subrange(0, i as int),
            decreases self.tasks.len() - i,
        {
            let t = &self.tasks[i];
            let copy = Task { id: t.id, description: t.description.clone(), completed: t.completed };
            proof {
                assert(copy == self.tasks@[i as int]);
                assert(self.tasks@.subrange(0, i as int + 1) =~= self.tasks@.subrange(
                    0,
                    i as int,
                ).push(self.tasks@[i as int]));
            }
            v.push(copy);
            i += 1;
        }
        proof {
            assert(self.tasks@.subrange(0, self.tasks@.len() as int) =~= self.tasks@);
        }
        v
    }

    /// Stores a new, not yet completed row with the given description
    /// under a fresh identifier. Returns whether the row was stored;
    /// it is stored exactly when a fresh identifier is available.
    pub fn insert(&mut self, todo: Todo) -> (r: bool)
        requires
            old(self).wf(),
        ensures
            final(self).wf(),
            r == old(self).can_insert(),
            r ==> inserted_one(old(self)@, final(self)@, todo.description@),
            !r ==> *final(self) == *old(self),
    {
        if self.next_id < i32::MAX {
            let id = self.next_id;
            self.tasks.push(Task { id, description: todo.description, completed: false });
            self.next_id = self.next_id + 1;
            proof {
                assert(self.tasks@.drop_last() =~= old(self).tasks@);
            }
            true
        } else {
            false
        }
    }

    /// Flips the completion flag of the row carrying `id`, leaving every
    /// other row as it was. Returns whether such a row exists.
    pub fn toggle_with_id(&mut self, id: i32) -> (r: bool)
        requires
            old(self).wf(),
        ensures
            final(self).wf(),
            final(self).can_insert() == old(self).can_insert(),
            r == contains_id(old(self)@, id),
            r ==> toggled_one(old(self)@, final(self)@, id),
            !r ==> *final(self) == *old(self),
    {
        let mut i: usize = 0;
        while i < self.tasks.len()
            invariant
                old(self).wf(),
                *self == *old(self),
                i <= self.tasks.len(),
                forall|k: int| 0 <= k < i ==> (#[trigger] self.tasks@[k]).id != id,
            decreases self.tasks.len() - i,
        {
            if self.tasks[i].id == id {
                let description = self.tasks[i].description.clone();
                let completed = self.tasks[i].completed;
                self.tasks[i] = Task { id, description, completed: !completed };
                proof {
                    let before = old(self).tasks@;
                    assert(self.tasks@ == before.update(i as int, toggled(before[i as int])));
                    assert forall|a: int, b: int|
                        0 <= a < b < self.tasks@.len() implies (#[trigger] self.tasks@[a]).id < (
                    #[trigger] self.tasks@[b]).id by {
                        assert(self.tasks@[a].id == before[a].id);
                        assert(self.tasks@[b].id == before[b].id);
                    }
                    assert forall|a: int|
                        0 <= a < self.tasks@.len() implies (#[trigger] self.tasks@[a]).id
                        < self.next_id by {
                        assert(self.tasks@[a].id == before[a].id);
                    }
                }
                return true;
            }
            i += 1;
        }
        false
    }

    /// Removes the row carrying `id`, leaving every other row in place.
    /// Returns whether such a row existed.
    pub fn delete_with_id(&mut self, id: i32) -> (r: bool)
        requires
            old(self).wf(),
        ensures
            final(self).wf(),
            final(self).can_insert() == old(self).can_insert(),
            r == contains_id(old(self)@, id),
            r ==> deleted_one(old(self)@, final(self)@, id),
            !r ==> *final(self) == *old(self),
    {
        let mut i: usize = 0;
        while i < self.tasks.len()
            invariant
                old(self).wf(),
                *self == *old(self),
                i <= self.tasks.len(),
                forall|k: int| 0 <= k < i ==> (#[trigger] self.tasks@[k]).id != id,
            decreases self.tasks.len() - i,
        {
            if self.tasks[i].id == id {
                self.tasks.remove(i);
                proof {
                    let before = old(self).tasks@;
                    assert(self.tasks@ == before.remove(i as int));
                    assert forall|a: int, b: int|
                        0 <= a < b < self.tasks@.len() implies (#[trigger] self.tasks@[a]).id < (
                    #[trigger] self.tasks@[b]).id by {
                        if b < i as int {
                            assert(self.tasks@[a] == before[a]);
                            assert(self.tasks@[b] == before[b]);
                        } else if a < i as int {
                            assert(self.tasks@[a] == before[a]);
                            assert(self.tasks@[b] == before[b + 1]);
                        } else {
                            assert(self.tasks@[a] == before[a + 1]);
                            assert(self.tasks@[b] == before[b + 1]);
                        }
                    }
                    assert forall|a: int|
                        0 <= a < self.tasks@.len() implies (#[trigger] self.tasks@[a]).id
                        < self.next_id by {
                        if a < i as int {
                            assert(self.tasks@[a] == before[a]);
                        } else {
                            assert(self.tasks@[a] == before[a + 1]);
                        }
                    }
                }
                return true;
            }
            i += 1;
        }
        false
    }
}

} // verus!
