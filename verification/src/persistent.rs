//! The verified half of the persistent backend. The store client itself
//! (connection pool, query execution) lives outside the library; it hands
//! back what a lookup came to as plain values, and the functions here make
//! the repository-level decision about them.

use vstd::prelude::*;
use crate::users::{User, UserView};
use crate::items::{Item, ItemView};

verus! {

/// What a persistent single-row lookup came back with: the first row's
/// columns, no row, or an execution failure (store unreachable, query
/// error). The serving layer converts its client's result into this, and
/// is expected to log a failure distinctly before handing it over, since
/// the collapse below forgets the distinction.
pub enum FetchOutcome {
    Row(u32, String),
    NoRow,
    Failure,
}

/// The repository contract is binary: found or absent. A failed execution
/// is deliberately collapsed into absence here, so the wire contract stays
/// 404; operators tell a missing row from a broken store by the backend's
/// log, not by the response.
pub fn collapse_user_fetch(outcome: FetchOutcome) -> (r: Option<User>)
    ensures
        match outcome {
            FetchOutcome::Row(id, name) => r matches Some(u) && u@ == (UserView {
                id,
                name: name@,
            }),
            FetchOutcome::NoRow => r is None,
            FetchOutcome::Failure => r is None,
        },
{
    match outcome {
        FetchOutcome::Row(id, name) => Some(User::new(id, name)),
        FetchOutcome::NoRow => None,
        FetchOutcome::Failure => None,
    }
}

/// The same collapse for item lookups.
pub fn collapse_item_fetch(outcome: FetchOutcome) -> (r: Option<Item>)
    ensures
        match outcome {
            FetchOutcome::Row(id, name) => r matches Some(it) && it@ == (ItemView {
                id,
                name: name@,
            }),
            FetchOutcome::NoRow => r is None,
            FetchOutcome::Failure => r is None,
        },
{
    match outcome {
        FetchOutcome::Row(id, name) => Some(Item::new(id, name)),
        FetchOutcome::NoRow => None,
        FetchOutcome::Failure => None,
    }
}

} // verus!
