//! The user entity, its lookup capability, and the user route handler.

use vstd::prelude::*;
use crate::http::{HttpResponse, ResponseModel, bad_request_model, not_found_model,
    bad_request_response, not_found_response};
use crate::json::{json_record, json_record_string};
use crate::parse::{parse_u32, parse_id};

verus! {

/// A user record: id and name. Records handed out by a store are
/// independent copies; a caller cannot mutate the store through one.
pub struct User {
    pub id: u32,
    pub name: String,
}

/// Model of a user record.
pub ghost struct UserView {
    pub id: u32,
    pub name: Seq<char>,
}

impl View for User {
    type V = UserView;

    open spec fn view(&self) -> UserView {
        UserView { id: self.id, name: self.name@ }
    }
}

impl User {
    /// Creates a record with the given id and name.
    pub fn new(id: u32, name: String) -> (u: Self)
        ensures
            u@ == (UserView { id, name: name@ }),
    {
        User { id, name }
    }

    /// The record's JSON representation on the wire.
    pub fn to_json(&self) -> (r: String)
        ensures
            r@ == json_record(self.id as int, self.name@),
    {
        json_record_string(self.id, self.name.as_str())
    }
}

impl Clone for User {
    fn clone(&self) -> (r: Self)
        ensures
            r@ == self@,
    {
        User { id: self.id, name: self.name.clone() }
    }
}

/// The lookup capability for users: given an id, produce the stored record
/// or indicate absence. `stored_users()` is the backend's (ghost)
/// contents; `users_complete()` says whether absence is authoritative — a
/// backend that can fail collapses failures into `None` and is not
/// complete.
pub trait UserRepository {
    spec fn stored_users(&self) -> Map<u32, UserView>;

    spec fn users_complete(&self) -> bool;

    /// Fetch by id. Any record handed out is exactly the stored one; for a
    /// complete backend, `None` means the id is truly absent.
    fn user(&self, id: u32) -> (r: Option<User>)
        ensures
            (r matches Some(u) ==> self.stored_users().contains_key(id) && u@
                == self.stored_users()[id]),
            (r is None && self.users_complete() ==> !self.stored_users().contains_key(id)),
    ;
}

/// The response a user request gets, as a function of the stored records
/// and the raw path parameter alone: malformed id means 400, an absent id
/// 404, a present id 200 with the record's JSON.
pub open spec fn user_response(stored: Map<u32, UserView>, raw_id: Seq<char>) -> ResponseModel {
    match parse_u32(raw_id) {
        Some(id) => if stored.contains_key(id) {
            ResponseModel { status: 200, body: json_record(stored[id].id as int, stored[id].name) }
        } else {
            not_found_model()
        },
        None => bad_request_model(),
    }
}

/// Maps a lookup outcome to the response: the record's JSON under 200, or
/// an empty 404.
pub fn user_lookup_response(found: Option<User>) -> (resp: HttpResponse)
    ensures
        match found {
            Some(u) => resp@ == (ResponseModel {
                status: 200,
                body: json_record(u.id as int, u.name@),
            }),
            None => resp@ == not_found_model(),
        },
{
    match found {
        Some(u) => {
            let body = u.to_json();
            HttpResponse { status: 200, body }
        },
        None => not_found_response(),
    }
}

/// Handles `GET /user/{id}`: parses the raw path parameter, looks the id
/// up in whichever backend is bound, and maps the outcome to a response.
/// For a complete backend the response is exactly `user_response` of the
/// backend's contents and the raw parameter — it depends on nothing else,
/// in particular not on which backend holds those contents.
pub fn handle_user<R: UserRepository>(repository: &R, raw_id: &str) -> (resp: HttpResponse)
    ensures
        repository.users_complete() ==> resp@ == user_response(
            repository.stored_users(),
            raw_id@,
        ),
        resp@.status == 400 <==> parse_u32(raw_id@) is None,
        parse_u32(raw_id@) is None ==> resp@ == bad_request_model(),
        resp@.status == 200 ==> (parse_u32(raw_id@) matches Some(id)
            && repository.stored_users().contains_key(id) && resp@.body == json_record(
            repository.stored_users()[id].id as int,
            repository.stored_users()[id].name,
        )),
        resp@.status == 404 ==> resp@ == not_found_model(),
        resp@.status == 200 || resp@.status == 400 || resp@.status == 404,
{
    match parse_id(raw_id) {
        None => bad_request_response(),
        Some(id) => user_lookup_response(repository.user(id)),
    }
}

/// Backend independence: two complete backends holding the same user
/// records owe every request the same response. Together with
/// `handle_user`'s contract, swapping the bound backend for another with
/// the same contents cannot change what goes on the wire.
pub proof fn lemma_user_backend_independent<R1: UserRepository, R2: UserRepository>(
    r1: &R1,
    r2: &R2,
    raw_id: Seq<char>,
)
    requires
        r1.users_complete(),
        r2.users_complete(),
        r1.stored_users() == r2.stored_users(),
    ensures
        user_response(r1.stored_users(), raw_id) == user_response(r2.stored_users(), raw_id),
{
}

} // verus!
