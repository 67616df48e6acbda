//! The relational store holding the `todos` table, modelled as a
//! sequence of rows plus the auto-increment counter that assigns ids.

use vstd::prelude::*;

use crate::errors::StoreError;
use vstd::string::StringExecFns;
use crate::task::models_of;
use crate::task::Todo;
use crate::task::TodoModel;

verus! {

/// The mathematical value of the store: the rows of the `todos`
/// table in store order, and the id the next insertion will receive.
pub ghost struct StoreModel {
    pub tasks: Seq<TodoModel>,
    pub next_id: u16,
}

/// No two rows share an id.
pub open spec fn ids_unique(s: Seq<TodoModel>) -> bool {
    forall|i: int, j: int| 0 <= i < j < s.len() ==> s[i].id != s[j].id
}

/// Every row's id lies below `bound`.
pub open spec fn ids_below(s: Seq<TodoModel>, bound: u16) -> bool {
    forall|i: int| 0 <= i < s.len() ==> s[i].id < bound
}

/// Well-formedness of the store: ids are unique, and all lie below
/// the auto-increment counter, so the counter is always fresh.
pub open spec fn store_wf(m: StoreModel) -> bool {
    &&& ids_unique(m.tasks)
    &&& ids_below(m.tasks, m.next_id)
}

/// The row an insertion of `title` creates when the counter stands at
/// `next_id`: the fresh id, the given title, and `completed` hardcoded
/// to `false`.
pub open spec fn inserted_task(next_id: u16, title: Seq<char>) -> TodoModel {
    TodoModel { id: next_id, title, completed: false }
}

/// What a successful insertion does to the store: appends the new row
/// and advances the counter.
pub open spec fn spec_insert(m: StoreModel, title: Seq<char>) -> StoreModel
    recommends
        m.next_id < u16::MAX,
{
    StoreModel {
        tasks: m.tasks.push(inserted_task(m.next_id, title)),
        next_id: (m.next_id + 1) as u16,
    }
}

/// The rows left after deleting every row whose id is `id`, the
/// others keeping their order.
pub open spec fn remove_id(s: Seq<TodoModel>, id: u16) -> Seq<TodoModel>
    decreases s.len(),
{
    if s.len() == 0 {
        s
    } else {
        let rest = remove_id(s.drop_last(), id);
        if s.last().id == id {
            rest
        } else {
            rest.push(s.last())
        }
    }
}

/// What a deletion keyed on `id` does to the store: drops the rows
/// carrying that id and leaves the counter alone.
pub open spec fn spec_delete(m: StoreModel, id: u16) -> StoreModel {
    StoreModel { tasks: remove_id(m.tasks, id), next_id: m.next_id }
}

/// Basic facts about `remove_id`: it never grows the sequence, it
/// keeps no row carrying the deleted id, every row it keeps was
/// already present, and it preserves uniqueness of ids.
pub proof fn lemma_remove_id_props(s: Seq<TodoModel>, id: u16)
    ensures
        remove_id(s, id).len() <= s.len(),
        forall|k: int|
            0 <= k < remove_id(s, id).len() ==> (#[trigger] remove_id(s, id)[k]).id != id,
        forall|k: int| 0 <= k < remove_id(s, id).len() ==> s.contains(#[trigger] remove_id(s, id)[k]),
        ids_unique(s) ==> ids_unique(remove_id(s, id)),
    decreases s.len(),
{
    if s.len() == 0 {
    } else {
        let d = s.drop_last();
        let rest = remove_id(d, id);
        lemma_remove_id_props(d, id);
        assert forall|k: int| 0 <= k < rest.len() implies s.contains(rest[k]) by {
            assert(d.contains(rest[k]));
            let j: int = choose|j: int| 0 <= j < d.len() && d[j] == rest[k];
            assert(s[j] == rest[k]);
        }
        if s.last().id == id {
        } else {
            let out = rest.push(s.last());
            assert(s.contains(s.last())) by {
                assert(s[s.len() - 1] == s.last());
            }
            if ids_unique(s) {
                assert(ids_unique(d)) by {
                    assert(forall|i: int, j: int|
                        0 <= i < j < d.len() ==> s[i].id != s[j].id);
                }
                assert forall|i: int, j: int|
                    0 <= i < j < out.len() implies out[i].id != out[j].id by {
                    if j < out.len() - 1 {
                        assert(out[i] == rest[i] && out[j] == rest[j]);
                    } else {
                        assert(out[j] == s.last());
                        assert(d.contains(rest[i]));
                        let w: int = choose|w: int| 0 <= w < d.len() && d[w] == rest[i];
                        assert(s[w] == rest[i]);
                        assert(s[w].id != s[s.len() - 1].id);
                    }
                }
            }
        }
    }
}

/// The store itself: the rows of the single `todos` table, and the
/// counter that assigns the next id.  Each row's id is stable and
/// unique for the lifetime of the row.
pub struct TodoStore {
    tasks: Vec<Todo>,
    next_id: u16,
}

impl View for TodoStore {
    type V = StoreModel;

    closed spec fn view(&self) -> StoreModel {
        StoreModel { tasks: models_of(self.tasks@), next_id: self.next_id }
    }
}

impl TodoStore {
    /// Well-formedness of the store.
    pub open spec fn wf(&self) -> bool {
        store_wf(self@)
    }

    /// An empty store; the auto-increment counter starts at 1.
    pub fn new() -> (s: TodoStore)
        ensures
            s.wf(),
            s@.tasks == Seq::<TodoModel>::empty(),
            s@.next_id == 1,
    {
        let s = TodoStore { tasks: Vec::new(), next_id: 1 };
        proof {
            assert(models_of(s.tasks@) =~= Seq::<TodoModel>::empty());
        }
        s
    }

    /// The select-all statement: every row of the table, in store
    /// order.
    pub fn select_all(&self) -> (r: Vec<Todo>)
        ensures
            models_of(r@) == self@.tasks,
    {
        let mut out: Vec<Todo> = Vec::new();
        let n: usize = self.tasks.len();
        let mut i: usize = 0;
        while i < n
            invariant
                n == self.tasks.len(),
                i <= n,
                out@ =~= self.tasks@.take(i as int),
            decreases n - i,
        {
            out.push(self.tasks[i].clone());
            proof {
                assert(out@ =~= self.tasks@.take(i + 1));
            }
            i = i + 1;
        }
        proof {
            assert(self.tasks@.take(n as int) =~= self.tasks@);
            assert(models_of(out@) =~= self@.tasks);
        }
        out
    }

    /// The insert statement: appends a row `{ next_id, title, false }`
    /// and advances the counter, returning the assigned id.  Fails,
    /// leaving the store unchanged, exactly when the id space is
    /// exhausted.
    pub fn insert(&mut self, title: String) -> (r: Result<u16, StoreError>)
        requires
            old(self).wf(),
        ensures
            final(self).wf(),
            old(self)@.next_id < u16::MAX ==> {
                &&& r matches Ok(id) && id == old(self)@.next_id
                &&& final(self)@ == spec_insert(old(self)@, title@)
            },
            old(self)@.next_id == u16::MAX ==> {
                &&& r matches Err(e) && e is StatementError
                &&& final(self)@ == old(self)@
            },
    {
        if self.next_id == u16::MAX {
            return Err(StoreError::StatementError(String::from_str("todo id space exhausted")));
        }
        let id: u16 = self.next_id;
        let ghost pre = self@;
        self.tasks.push(Todo::new(id, title, false));
        self.next_id = id + 1;
        proof {
            assert(self@.tasks =~= pre.tasks.push(inserted_task(pre.next_id, title@)));
            assert(self@ == spec_insert(pre, title@));
            assert forall|i: int, j: int|
                0 <= i < j < self@.tasks.len() implies self@.tasks[i].id != self@.tasks[j].id by {
                if j < self@.tasks.len() - 1 {
                    assert(self@.tasks[i] == pre.tasks[i] && self@.tasks[j] == pre.tasks[j]);
                } else {
                    assert(self@.tasks[i] == pre.tasks[i]);
                    assert(pre.tasks[i].id < pre.next_id);
                }
            }
        }
        Ok(id)
    }

    /// The delete statement keyed on `id`: removes the rows carrying
    /// that id, touching nothing else.  There is no existence check —
    /// deleting an absent id succeeds with zero rows affected.
    pub fn delete_by_id(&mut self, id: u16)
        requires
            old(self).wf(),
        ensures
            final(self).wf(),
            final(self)@ == spec_delete(old(self)@, id),
    {
        let ghost pre = self@;
        let mut out: Vec<Todo> = Vec::new();
        let n: usize = self.tasks.len();
        let mut i: usize = 0;
        while i < n
            invariant
                n == self.tasks.len(),
                i <= n,
                pre == self@,
                models_of(out@) =~= remove_id(pre.tasks.take(i as int), id),
            decreases n - i,
        {
            proof {
                assert(pre.tasks.take(i + 1).drop_last() =~= pre.tasks.take(i as int));
                assert(pre.tasks.take(i + 1).last() == pre.tasks[i as int]);
                assert(pre.tasks[i as int] == self.tasks@[i as int]@);
            }
            let t = &self.tasks[i];
            if t.id() != id {
                out.push(t.clone());
            }
            proof {
                assert(models_of(out@) =~= remove_id(pre.tasks.take(i + 1), id));
            }
            i = i + 1;
        }
        self.tasks = out;
        proof {
            assert(pre.tasks.take(n as int) =~= pre.tasks);
            lemma_remove_id_props(pre.tasks, id);
            assert forall|k: int|
                0 <= k < self@.tasks.len() implies (#[trigger] self@.tasks[k]).id
                < pre.next_id by {
                assert(pre.tasks.contains(self@.tasks[k]));
                let j: int = choose|j: int| 0 <= j < pre.tasks.len() && pre.tasks[j] == self@.tasks[k];
                assert(pre.tasks[j].id < pre.next_id);
            }
        }
    }
}

} // verus!
