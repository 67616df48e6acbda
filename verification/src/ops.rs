//! The remote operation layer: the three operations a client can
//! invoke across the request/response boundary.
//!
//! Each real invocation first acquires its own connection to the
//! store; that attempt is outside work, so its outcome arrives here
//! as a plain value.  Once connected, the operation runs its single
//! statement against the store and wraps any failure into the uniform
//! remote-call error.

use vstd::prelude::*;

use crate::errors::server_error_message;
use crate::errors::wrap_store_error;
use crate::errors::ServerFnError;
use crate::errors::StoreError;
use crate::store::spec_delete;
use crate::store::spec_insert;
use crate::store::TodoStore;
use crate::task::models_of;
use crate::task::Todo;

verus! {

/// The outcome of opening a connection to the store: either the
/// store is reachable, or the attempt failed with a message.
pub enum ConnAttempt {
    /// The connection was acquired.
    Connected,
    /// The store was unreachable or its location invalid.
    Failed(String),
}

/// The message a failed connection attempt carries.
pub open spec fn conn_failure_message(c: ConnAttempt) -> Seq<char>
    recommends
        c is Failed,
{
    match c {
        ConnAttempt::Connected => Seq::empty(),
        ConnAttempt::Failed(m) => m@,
    }
}

/// The `list` operation: returns every task of the store, in store
/// order.  Succeeds exactly when the connection was acquired; a
/// connection failure is wrapped into the uniform error, message
/// kept.
pub fn get_todos(store: &TodoStore, conn: ConnAttempt) -> (r: Result<Vec<Todo>, ServerFnError>)
    ensures
        conn is Connected ==> {
            &&& r matches Ok(ts) && models_of(ts@) == store@.tasks
        },
        conn is Failed ==> {
            &&& r matches Err(e) && server_error_message(e) == conn_failure_message(conn)
        },
{
    match conn {
        ConnAttempt::Connected => Ok(store.select_all()),
        ConnAttempt::Failed(m) => Err(wrap_store_error(StoreError::ConnectionError(m))),
    }
}

/// The `add` operation: inserts a task with the given title and
/// `completed` hardcoded to `false`.  Succeeds exactly when the
/// connection was acquired and the id space is not exhausted; every
/// failure is wrapped into the uniform error and leaves the store
/// unchanged.
pub fn add_todo(store: &mut TodoStore, conn: ConnAttempt, title: String) -> (r: Result<
    (),
    ServerFnError,
>)
    requires
        old(store).wf(),
    ensures
        final(store).wf(),
        conn is Connected && old(store)@.next_id < u16::MAX ==> {
            &&& r is Ok
            &&& final(store)@ == spec_insert(old(store)@, title@)
        },
        conn is Connected && old(store)@.next_id == u16::MAX ==> {
            &&& r is Err
            &&& final(store)@ == old(store)@
        },
        conn is Failed ==> {
            &&& r matches Err(e) && server_error_message(e) == conn_failure_message(conn)
            &&& final(store)@ == old(store)@
        },
{
    match conn {
        ConnAttempt::Connected => match store.insert(title) {
            Ok(_) => Ok(()),
            Err(e) => Err(wrap_store_error(e)),
        },
        ConnAttempt::Failed(m) => Err(wrap_store_error(StoreError::ConnectionError(m))),
    }
}

/// The `delete` operation: deletes the task keyed on `id`.  There is
/// no existence check — deleting an absent id succeeds with zero
/// rows affected, indistinguishable from a real deletion.  Succeeds
/// exactly when the connection was acquired; a connection failure is
/// wrapped into the uniform error and leaves the store unchanged.
pub fn delete_todo(store: &mut TodoStore, conn: ConnAttempt, id: u16) -> (r: Result<
    (),
    ServerFnError,
>)
    requires
        old(store).wf(),
    ensures
        final(store).wf(),
        conn is Connected ==> {
            &&& r is Ok
            &&& final(store)@ == spec_delete(old(store)@, id)
        },
        conn is Failed ==> {
            &&& r matches Err(e) && server_error_message(e) == conn_failure_message(conn)
            &&& final(store)@ == old(store)@
        },
{
    match conn {
        ConnAttempt::Connected => {
            store.delete_by_id(id);
            Ok(())
        },
        ConnAttempt::Failed(m) => Err(wrap_store_error(StoreError::ConnectionError(m))),
    }
}

} // verus!
