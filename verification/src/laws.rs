//! The laws of the task list, stated over the store and view models
//! and proved once and for all.

use vstd::prelude::*;

use crate::errors::ServerFnError;
use crate::store::ids_unique;
use crate::store::lemma_remove_id_props;
use crate::store::remove_id;
use crate::store::spec_insert;
use crate::store::store_wf;
use crate::store::StoreModel;
use crate::task::models_of;
use crate::task::Todo;
use crate::task::TodoModel;
use crate::ui::spec_on_fetch;
use crate::ui::spec_render;
use crate::ui::RenderKind;
use crate::ui::UiState;

verus! {

/// Each successful add grows the list by exactly one row, assigns it
/// an id no existing row carries, and keeps the store well-formed.
pub proof fn lemma_add_fresh_unique(m: StoreModel, title: Seq<char>)
    requires
        store_wf(m),
        m.next_id < u16::MAX,
    ensures
        spec_insert(m, title).tasks.len() == m.tasks.len() + 1,
        spec_insert(m, title).tasks.last().id == m.next_id,
        forall|i: int| 0 <= i < m.tasks.len() ==> (#[trigger] m.tasks[i]).id != m.next_id,
        store_wf(spec_insert(m, title)),
{
    let out = spec_insert(m, title).tasks;
    assert forall|i: int, j: int| 0 <= i < j < out.len() implies out[i].id != out[j].id by {
        if j < out.len() - 1 {
            assert(out[i] == m.tasks[i] && out[j] == m.tasks[j]);
        } else {
            assert(out[i] == m.tasks[i]);
            assert(m.tasks[i].id < m.next_id);
        }
    }
}

/// Deleting an id that some row carries shrinks the list by exactly
/// one row, and no remaining row carries that id.
pub proof fn lemma_delete_present(s: Seq<TodoModel>, id: u16)
    requires
        ids_unique(s),
        exists|i: int| 0 <= i < s.len() && (#[trigger] s[i]).id == id,
    ensures
        remove_id(s, id).len() == s.len() - 1,
        forall|k: int|
            0 <= k < remove_id(s, id).len() ==> (#[trigger] remove_id(s, id)[k]).id != id,
    decreases s.len(),
{
    lemma_remove_id_props(s, id);
    let i: int = choose|i: int| 0 <= i < s.len() && (#[trigger] s[i]).id == id;
    let d = s.drop_last();
    if s.last().id == id {
        assert forall|j: int| 0 <= j < d.len() implies (#[trigger] d[j]).id != id by {
            assert(s[j].id != s[s.len() - 1].id);
        }
        lemma_delete_absent(d, id);
    } else {
        assert(i < s.len() - 1);
        assert(ids_unique(d)) by {
            assert(forall|x: int, y: int| 0 <= x < y < d.len() ==> s[x].id != s[y].id);
        }
        assert(d[i].id == id);
        lemma_delete_present(d, id);
    }
}

/// Deleting an id that no row carries leaves the list exactly as it
/// was.
pub proof fn lemma_delete_absent(s: Seq<TodoModel>, id: u16)
    requires
        forall|i: int| 0 <= i < s.len() ==> (#[trigger] s[i]).id != id,
    ensures
        remove_id(s, id) == s,
    decreases s.len(),
{
    if s.len() == 0 {
    } else {
        let d = s.drop_last();
        assert(forall|i: int| 0 <= i < d.len() ==> (#[trigger] d[i]).id != id) by {
            assert(forall|i: int| 0 <= i < s.len() - 1 ==> s[i].id != id);
        }
        lemma_delete_absent(d, id);
        assert(s.last().id != id) by {
            assert(s[s.len() - 1].id != id);
        }
        assert(remove_id(s, id) =~= s);
    }
}

/// The round trip of an add: immediately afterwards the list holds,
/// in its last position, a row with exactly the added title and a
/// completion flag initialised to `false`.
pub proof fn lemma_add_then_list(m: StoreModel, title: Seq<char>)
    requires
        store_wf(m),
        m.next_id < u16::MAX,
    ensures
        spec_insert(m, title).tasks.len() == m.tasks.len() + 1,
        spec_insert(m, title).tasks.last() == (TodoModel {
            id: m.next_id,
            title,
            completed: false,
        }),
        spec_insert(m, title).tasks.take(m.tasks.len() as int) == m.tasks,
{
    assert(spec_insert(m, title).tasks.take(m.tasks.len() as int) =~= m.tasks);
}

/// Listing an empty store yields the empty sequence, and the page
/// then renders the distinct "no tasks" placeholder rather than an
/// empty table.
pub proof fn lemma_empty_list_renders_placeholder(ts: Vec<Todo>, m: StoreModel)
    requires
        m.tasks.len() == 0,
        models_of(ts@) == m.tasks,
    ensures
        ts@.len() == 0,
        spec_render(spec_on_fetch(Ok(ts))) == RenderKind::NoTasksPlaceholder,
{
    assert(models_of(ts@).len() == ts@.len());
}

/// A failed fetch — a store-connection failure surfacing through the
/// `list` operation included — puts the page into the errored state
/// and renders the plain-text error display: never a crash, never a
/// stale table.
pub proof fn lemma_fetch_failure_renders_error(r: Result<Vec<Todo>, ServerFnError>)
    requires
        r is Err,
    ensures
        spec_on_fetch(r) is Errored,
        spec_render(spec_on_fetch(r)) == RenderKind::ErrorText,
{
}

} // verus!
