//! The view/state layer of the task-list page.
//!
//! One instance of the page holds a fetch state and two version
//! counters, one per mutating operation.  Whenever a mutation
//! completes — successfully or not — its counter is bumped and the
//! list is fetched again; the fetch outcome decides between the
//! loaded and the errored state.  Rendering distinguishes loading,
//! an empty list (a "no tasks" placeholder rather than an empty
//! table), a populated table, and a plain-text error.

use vstd::prelude::*;

use crate::errors::server_error_message;
use crate::errors::ServerFnError;
use crate::task::Todo;

verus! {

/// The fetch state of the page: the initial loading state, a loaded
/// task list, or a surfaced error message.
#[derive(Debug)]
pub enum UiState {
    /// A fetch is in flight and nothing is loaded yet.
    Loading,
    /// The last fetch succeeded with these tasks.
    Loaded(Vec<Todo>),
    /// The last fetch failed with this message.
    Errored(String),
}

/// What the page shows for a given state.
#[derive(Clone, Copy, Debug, PartialEq, Eq, Structural)]
pub enum RenderKind {
    /// The loading indicator.
    LoadingIndicator,
    /// The distinct "no tasks" placeholder for an empty list.
    NoTasksPlaceholder,
    /// The table of tasks, one row each.
    TaskTable,
    /// The plain-text error display.
    ErrorText,
}

/// The two monotonically incrementing version counters that signal
/// "this data may be stale, fetch again".
#[derive(Clone, Copy, Debug, PartialEq, Eq, Structural)]
pub struct ActionVersions {
    /// Bumped whenever an `add` completes.
    pub add_version: u64,
    /// Bumped whenever a `delete` completes.
    pub delete_version: u64,
}

impl ActionVersions {
    /// Both counters start at zero.
    pub fn new() -> (v: ActionVersions)
        ensures
            v.add_version == 0,
            v.delete_version == 0,
    {
        ActionVersions { add_version: 0, delete_version: 0 }
    }

    /// Whether the counters differ from a previously observed pair —
    /// the signal that the list must be fetched again.
    pub fn differs(&self, seen: &ActionVersions) -> (r: bool)
        ensures
            r == (*self != *seen),
    {
        self.add_version != seen.add_version || self.delete_version != seen.delete_version
    }
}

/// The state a completed fetch puts the page in: success loads the
/// tasks, failure surfaces the error message.
pub open spec fn spec_on_fetch(r: Result<Vec<Todo>, ServerFnError>) -> UiState {
    match r {
        Ok(ts) => UiState::Loaded(ts),
        Err(ServerFnError::ServerError(m)) => UiState::Errored(m),
    }
}

/// Applies a completed fetch to the page state.
pub fn on_fetch(r: Result<Vec<Todo>, ServerFnError>) -> (s: UiState)
    ensures
        s == spec_on_fetch(r),
{
    match r {
        Ok(ts) => UiState::Loaded(ts),
        Err(ServerFnError::ServerError(m)) => UiState::Errored(m),
    }
}

/// What the page renders in each state: the loading indicator while
/// a fetch is in flight, the "no tasks" placeholder for an empty
/// list, the table otherwise, and the plain-text error on failure.
pub open spec fn spec_render(s: UiState) -> RenderKind {
    match s {
        UiState::Loading => RenderKind::LoadingIndicator,
        UiState::Loaded(ts) => if ts@.len() == 0 {
            RenderKind::NoTasksPlaceholder
        } else {
            RenderKind::TaskTable
        },
        UiState::Errored(_) => RenderKind::ErrorText,
    }
}

/// Decides what the page shows for the given state.
pub fn render(s: &UiState) -> (k: RenderKind)
    ensures
        k == spec_render(*s),
{
    match s {
        UiState::Loading => RenderKind::LoadingIndicator,
        UiState::Loaded(ts) => if ts.len() == 0 {
            RenderKind::NoTasksPlaceholder
        } else {
            RenderKind::TaskTable
        },
        UiState::Errored(_) => RenderKind::ErrorText,
    }
}

/// An event the page reacts to.
pub enum UiEvent {
    /// The in-flight `list` call returned.
    FetchReturned(Result<Vec<Todo>, ServerFnError>),
    /// An `add` submission completed, successfully or not.
    AddCompleted,
    /// A `delete` submission completed, successfully or not.
    DeleteCompleted,
}

/// What the page asks its surroundings to do next.
#[derive(Clone, Copy, Debug, PartialEq, Eq, Structural)]
pub enum UiAction {
    /// Issue a `list` call and hand its outcome back.
    Refetch,
    /// Nothing to do until the next user action.
    Idle,
}

/// One task-list page: its fetch state and the version counters of
/// the two mutating actions.  The page has no terminal state; it
/// cycles between loading, loaded and errored for the whole session.
pub struct TodosPage {
    /// The current fetch state.
    pub state: UiState,
    /// The versions of the add and delete actions.
    pub versions: ActionVersions,
}

impl TodosPage {
    /// Mounting the page: it starts loading and immediately asks for
    /// the first fetch.
    pub fn mount() -> (r: (TodosPage, UiAction))
        ensures
            (r.0.state is Loading),
            r.0.versions == (ActionVersions { add_version: 0u64, delete_version: 0u64 }),
            (r.1 is Refetch),
    {
        (TodosPage { state: UiState::Loading, versions: ActionVersions::new() }, UiAction::Refetch)
    }

    /// Reacts to one event.  A returned fetch settles the state and
    /// asks for nothing; a completed mutation — successful or not —
    /// bumps its version counter, puts the page back into the loading
    /// state, and asks for a fresh fetch.
    pub fn step(&mut self, ev: UiEvent) -> (a: UiAction)
        requires
            ev is AddCompleted ==> old(self).versions.add_version < u64::MAX,
            ev is DeleteCompleted ==> old(self).versions.delete_version < u64::MAX,
        ensures
            match ev {
                UiEvent::FetchReturned(r) => {
                    &&& final(self).state == spec_on_fetch(r)
                    &&& final(self).versions == old(self).versions
                    &&& a is Idle
                },
                UiEvent::AddCompleted => {
                    &&& final(self).state is Loading
                    &&& final(self).versions.add_version == old(self).versions.add_version + 1
                    &&& final(self).versions.delete_version == old(self).versions.delete_version
                    &&& a is Refetch
                },
                UiEvent::DeleteCompleted => {
                    &&& final(self).state is Loading
                    &&& final(self).versions.add_version == old(self).versions.add_version
                    &&& final(self).versions.delete_version == old(self).versions.delete_version
                        + 1
                    &&& a is Refetch
                },
            },
    {
        match ev {
            UiEvent::FetchReturned(r) => {
                self.state = on_fetch(r);
                UiAction::Idle
            },
            UiEvent::AddCompleted => {
                self.versions.add_version = self.versions.add_version + 1;
                self.state = UiState::Loading;
                UiAction::Refetch
            },
            UiEvent::DeleteCompleted => {
                self.versions.delete_version = self.versions.delete_version + 1;
                self.state = UiState::Loading;
                UiAction::Refetch
            },
        }
    }

    /// Decides what the page currently shows.
    pub fn render(&self) -> (k: RenderKind)
        ensures
            k == spec_render(self.state),
    {
        render(&self.state)
    }
}

} // verus!
