//! The item entity, its lookup capability, and the item route handler.

use vstd::prelude::*;
use crate::http::{HttpResponse, ResponseModel, bad_request_model, not_found_model,
    bad_request_response, not_found_response};
use crate::json::{json_record, json_record_string};
use crate::parse::{parse_u32, parse_id};

verus! {

/// An item record: id and name. Records handed out by a store are
/// independent copies; a caller cannot mutate the store through one.
pub struct Item {
    pub id: u32,
    pub name: String,
}

/// Model of an item record.
pub ghost struct ItemView {
    pub id: u32,
    pub name: Seq<char>,
}

impl View for Item {
    type V = ItemView;

    open spec fn view(&self) -> ItemView {
        ItemView { id: self.id, name: self.name@ }
    }
}

impl Item {
    /// Creates a record with the given id and name.
    pub fn new(id: u32, name: String) -> (it: Self)
        ensures
            it@ == (ItemView { id, name: name@ }),
    {
        Item { id, name }
    }

    /// The record's JSON representation on the wire.
    pub fn to_json(&self) -> (r: String)
        ensures
            r@ == json_record(self.id as int, self.name@),
    {
        json_record_string(self.id, self.name.as_str())
    }
}

impl Clone for Item {
    fn clone(&self) -> (r: Self)
        ensures
            r@ == self@,
    {
        Item { id: self.id, name: self.name.clone() }
    }
}

/// The lookup capability for items: given an id, produce the stored record
/// or indicate absence. `stored_items()` is the backend's (ghost)
/// contents; `items_complete()` says whether absence is authoritative — a
/// backend that can fail collapses failures into `None` and is not
/// complete.
pub trait ItemRepository {
    spec fn stored_items(&self) -> Map<u32, ItemView>;

    spec fn items_complete(&self) -> bool;

    /// Fetch by id. Any record handed out is exactly the stored one; for a
    /// complete backend, `None` means the id is truly absent.
    fn item(&self, id: u32) -> (r: Option<Item>)
        ensures
            (r matches Some(it) ==> self.stored_items().contains_key(id) && it@
                == self.stored_items()[id]),
            (r is None && self.items_complete() ==> !self.stored_items().contains_key(id)),
    ;
}

/// The response an item request gets, as a function of the stored records
/// and the raw path parameter alone: malformed id means 400, an absent id
/// 404, a present id 200 with the record's JSON.
pub open spec fn item_response(stored: Map<u32, ItemView>, raw_id: Seq<char>) -> ResponseModel {
    match parse_u32(raw_id) {
        Some(id) => if stored.contains_key(id) {
            ResponseModel { status: 200, body: json_record(stored[id].id as int, stored[id].name) }
        } else {
            not_found_model()
        },
        None => bad_request_model(),
    }
}

/// Maps a lookup outcome to the response: the record's JSON under 200, or
/// an empty 404.
pub fn item_lookup_response(found: Option<Item>) -> (resp: HttpResponse)
    ensures
        match found {
            Some(it) => resp@ == (ResponseModel {
                status: 200,
                body: json_record(it.id as int, it.name@),
            }),
            None => resp@ == not_found_model(),
        },
{
    match found {
        Some(it) => {
            let body = it.to_json();
            HttpResponse { status: 200, body }
        },
        None => not_found_response(),
    }
}

/// Handles `GET /item/{id}`: parses the raw path parameter, looks the id
/// up in whichever backend is bound, and maps the outcome to a response.
/// For a complete backend the response is exactly `item_response` of the
/// backend's contents and the raw parameter — it depends on nothing else,
/// in particular not on which backend holds those contents.
pub fn handle_item<R: ItemRepository>(repository: &R, raw_id: &str) -> (resp: HttpResponse)
    ensures
        repository.items_complete() ==> resp@ == item_response(
            repository.stored_items(),
            raw_id@,
        ),
        resp@.status == 400 <==> parse_u32(raw_id@) is None,
        parse_u32(raw_id@) is None ==> resp@ == bad_request_model(),
        resp@.status == 200 ==> (parse_u32(raw_id@) matches Some(id)
            && repository.stored_items().contains_key(id) && resp@.body == json_record(
            repository.stored_items()[id].id as int,
            repository.stored_items()[id].name,
        )),
        resp@.status == 404 ==> resp@ == not_found_model(),
        resp@.status == 200 || resp@.status == 400 || resp@.status == 404,
{
    match parse_id(raw_id) {
        None => bad_request_response(),
        Some(id) => item_lookup_response(repository.item(id)),
    }
}

/// Backend independence: two complete backends holding the same item
/// records owe every request the same response. Together with
/// `handle_item`'s contract, swapping the bound backend for another with
/// the same contents cannot change what goes on the wire.
pub proof fn lemma_item_backend_independent<R1: ItemRepository, R2: ItemRepository>(
    r1: &R1,
    r2: &R2,
    raw_id: Seq<char>,
)
    requires
        r1.items_complete(),
        r2.items_complete(),
        r1.stored_items() == r2.stored_items(),
    ensures
        item_response(r1.stored_items(), raw_id) == item_response(r2.stored_items(), raw_id),
{
}

} // verus!
