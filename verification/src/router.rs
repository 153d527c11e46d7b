//! Router composition and the shared application state: one backend bound
//! per entity kind at startup, resolved per request, with the user routes
//! mounted under `/user/{id}` and the item routes under `/item/{id}`.

use vstd::prelude::*;
use vstd::string::*;
use crate::http::HttpResponse;
use crate::http::ResponseModel;
use crate::users::{UserRepository, UserView, user_response, handle_user};
use crate::items::{ItemRepository, ItemView, item_response, handle_item};

verus! {

/// The process-wide state: exactly one backend instance bound per entity
/// kind, chosen at startup and read-only afterwards. Handlers resolve the
/// capability they need from it and never learn the concrete backend.
pub struct AppState<U: UserRepository, I: ItemRepository> {
    pub users: U,
    pub items: I,
}

impl<U: UserRepository, I: ItemRepository> AppState<U, I> {
    /// Binds one backend per entity kind, fixed for the process lifetime.
    pub fn new(users: U, items: I) -> (state: Self)
        ensures
            state.users == users,
            state.items == items,
    {
        AppState { users, items }
    }

    /// Resolves the user lookup capability from the shared state.
    pub fn user_repository(&self) -> (r: &U)
        ensures
            *r == self.users,
    {
        &self.users
    }

    /// Resolves the item lookup capability from the shared state.
    pub fn item_repository(&self) -> (r: &I)
        ensures
            *r == self.items,
    {
        &self.items
    }
}

/// A path matches a route group when it is the group's prefix followed by
/// a single non-empty path segment — the raw id.
pub open spec fn is_route(path: Seq<char>, prefix: Seq<char>) -> bool {
    path.len() > prefix.len() && path.take(prefix.len() as int) == prefix && !path.skip(
        prefix.len() as int,
    ).contains('/')
}

/// Where a path routes and what it is owed: the user group under
/// `/user/{id}`, the item group under `/item/{id}`, nothing elsewhere.
pub open spec fn routed_response(
    users: Map<u32, UserView>,
    items: Map<u32, ItemView>,
    path: Seq<char>,
) -> Option<ResponseModel> {
    if is_route(path, "/user/"@) {
        Some(user_response(users, path.skip("/user/"@.len() as int)))
    } else if is_route(path, "/item/"@) {
        Some(item_response(items, path.skip("/item/"@.len() as int)))
    } else {
        None
    }
}

/// Matches a path against one route group: on a match, hands back the raw
/// id segment after the prefix.
fn route_remainder<'a>(path: &'a str, prefix: &str) -> (r: Option<&'a str>)
    ensures
        match r {
            Some(rest) => is_route(path@, prefix@) && rest@ == path@.skip(prefix@.len() as int),
            None => !is_route(path@, prefix@),
        },
{
    let plen = prefix.unicode_len();
    let n = path.unicode_len();
    if n <= plen {
        return None;
    }
    let mut i: usize = 0;
    while i < plen
        invariant
            i <= plen,
            plen == prefix@.len() < n == path@.len(),
            forall|j: int| 0 <= j < i ==> path@[j] == prefix@[j],
        decreases plen - i,
    {
        if path.get_char(i) != prefix.get_char(i) {
            proof {
                assert(path@.take(plen as int)[i as int] != prefix@[i as int]);
            }
            return None;
        }
        i = i + 1;
    }
    proof {
        assert(path@.take(plen as int) =~= prefix@);
    }
    let mut j: usize = plen;
    while j < n
        invariant
            plen <= j <= n,
            plen == prefix@.len() < n == path@.len(),
            path@.take(plen as int) == prefix@,
            forall|k: int| plen <= k < j ==> path@[k] != '/',
        decreases n - j,
    {
        if path.get_char(j) == '/' {
            proof {
                assert(path@.skip(plen as int)[j - plen] == '/');
            }
            return None;
        }
        j = j + 1;
    }
    let rest = path.substring_char(plen, n);
    proof {
        assert(rest@ =~= path@.skip(plen as int));
        assert forall|k: int| 0 <= k < rest@.len() implies rest@[k] != '/' by {
            assert(rest@[k] == path@[k + plen]);
        }
        assert(!path@.skip(plen as int).contains('/'));
    }
    Some(rest)
}

/// Dispatches a request path: mounts the user group under `/user` and the
/// item group under `/item`, resolves the matched group's backend from the
/// shared state, and hands the id segment to the group's handler. `None`
/// means no route matched; the serving layer answers those with a plain
/// 404. Whether a route matches does not depend on the backends at all,
/// and with complete backends the response is exactly `routed_response` of
/// their contents.
pub fn dispatch<U: UserRepository, I: ItemRepository>(state: &AppState<U, I>, path: &str) -> (r:
    Option<HttpResponse>)
    ensures
        r is Some <==> routed_response(
            state.users.stored_users(),
            state.items.stored_items(),
            path@,
        ) is Some,
        state.users.users_complete() && state.items.items_complete() ==> match r {
            Some(resp) => Some(resp@) == routed_response(
                state.users.stored_users(),
                state.items.stored_items(),
                path@,
            ),
            None => true,
        },
{
    match route_remainder(path, "/user/") {
        Some(rest) => Some(handle_user(state.user_repository(), rest)),
        None => match route_remainder(path, "/item/") {
            Some(rest) => Some(handle_item(state.item_repository(), rest)),
            None => None,
        },
    }
}

} // verus!
