//! The in-memory backend: an immutable keyed fixture set built once at
//! startup, satisfying both lookup capabilities. Thread-safe by
//! construction: nothing mutates it after `new`.

use vstd::prelude::*;
use std::collections::HashMap;
use crate::users::{User, UserView, UserRepository};
use crate::items::{Item, ItemView, ItemRepository};

verus! {

broadcast use vstd::std_specs::hash::group_hash_axioms;

/// The user records the store is initialized with.
pub open spec fn fixture_users() -> Map<u32, UserView> {
    map![1u32 => UserView { id: 1u32, name: "foo"@ }, 2u32 => UserView { id: 2u32, name: "bar"@ }]
}

/// The item records the store is initialized with.
pub open spec fn fixture_items() -> Map<u32, ItemView> {
    map![
        1u32 => ItemView { id: 1u32, name: "item1"@ },
        2u32 => ItemView { id: 2u32, name: "item2"@ },
    ]
}

/// The in-memory store: one immutable mapping per entity kind.
pub struct MemoryDb {
    pub users: HashMap<u32, User>,
    pub items: HashMap<u32, Item>,
}

impl MemoryDb {
    /// Builds the store holding exactly the fixture records.
    pub fn new() -> (db: Self)
        ensures
            db.stored_users() == fixture_users(),
            db.stored_items() == fixture_items(),
            db.users_complete(),
            db.items_complete(),
    {
        let mut users: HashMap<u32, User> = HashMap::new();
        users.insert(1, User::new(1, String::from_str("foo")));
        users.insert(2, User::new(2, String::from_str("bar")));

        let mut items: HashMap<u32, Item> = HashMap::new();
        items.insert(1, Item::new(1, String::from_str("item1")));
        items.insert(2, Item::new(2, String::from_str("item2")));

        let db = MemoryDb { users, items };
        proof {
            assert(db.stored_users() =~= fixture_users());
            assert(db.stored_items() =~= fixture_items());
        }
        db
    }
}

impl UserRepository for MemoryDb {
    open spec fn stored_users(&self) -> Map<u32, UserView> {
        self.users@.map_values(|u: User| u@)
    }

    open spec fn users_complete(&self) -> bool {
        true
    }

    /// An O(1) keyed read against the immutable mapping; hands out a copy.
    fn user(&self, id: u32) -> (r: Option<User>) {
        match self.users.get(&id) {
            Some(u) => Some(u.clone()),
            None => None,
        }
    }
}

impl ItemRepository for MemoryDb {
    open spec fn stored_items(&self) -> Map<u32, ItemView> {
        self.items@.map_values(|it: Item| it@)
    }

    open spec fn items_complete(&self) -> bool {
        true
    }

    /// An O(1) keyed read against the immutable mapping; hands out a copy.
    fn item(&self, id: u32) -> (r: Option<Item>) {
        match self.items.get(&id) {
            Some(it) => Some(it.clone()),
            None => None,
        }
    }
}

} // verus!
