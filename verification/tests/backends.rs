//! Backend swapping and concurrent lookups. The persistent side is driven
//! the same way the serving layer drives it: a parameterized single-row
//! query whose outcome crosses into the library as plain values.

use std::sync::Arc;

use read_api::http::{bad_request_response, HttpResponse};
use read_api::items::{handle_item, item_lookup_response};
use read_api::memory_db::MemoryDb;
use read_api::parse::parse_id;
use read_api::persistent::{collapse_item_fetch, collapse_user_fetch, FetchOutcome};
use read_api::users::{handle_user, user_lookup_response};

fn seeded_pool(rt: &tokio::runtime::Runtime) -> sqlx::SqlitePool {
    rt.block_on(async {
        let pool = sqlx::sqlite::SqlitePoolOptions::new()
            .max_connections(1)
            .connect("sqlite::memory:")
            .await
            .expect("an in-memory database");
        sqlx::query("CREATE TABLE Users (id INTEGER PRIMARY KEY, name TEXT NOT NULL)")
            .execute(&pool)
            .await
            .expect("schema");
        sqlx::query("CREATE TABLE Items (id INTEGER PRIMARY KEY, name TEXT NOT NULL)")
            .execute(&pool)
            .await
            .expect("schema");
        sqlx::query("INSERT INTO Users (id, name) VALUES (1, 'foo'), (2, 'bar')")
            .execute(&pool)
            .await
            .expect("seed");
        sqlx::query("INSERT INTO Items (id, name) VALUES (1, 'item1'), (2, 'item2')")
            .execute(&pool)
            .await
            .expect("seed");
        pool
    })
}

fn fetch_row(
    rt: &tokio::runtime::Runtime,
    pool: &sqlx::SqlitePool,
    query: &str,
    id: u32,
) -> FetchOutcome {
    let row: Result<Option<(u32, String)>, sqlx::Error> =
        rt.block_on(sqlx::query_as(query).bind(id).fetch_optional(pool));
    match row {
        Ok(Some((id, name))) => FetchOutcome::Row(id, name),
        Ok(None) => FetchOutcome::NoRow,
        Err(_) => FetchOutcome::Failure,
    }
}

fn persistent_user_response(
    rt: &tokio::runtime::Runtime,
    pool: &sqlx::SqlitePool,
    raw_id: &str,
) -> HttpResponse {
    match parse_id(raw_id) {
        None => bad_request_response(),
        Some(id) => user_lookup_response(collapse_user_fetch(fetch_row(
            rt,
            pool,
            "SELECT id, name FROM Users WHERE id = ?",
            id,
        ))),
    }
}

fn persistent_item_response(
    rt: &tokio::runtime::Runtime,
    pool: &sqlx::SqlitePool,
    raw_id: &str,
) -> HttpResponse {
    match parse_id(raw_id) {
        None => bad_request_response(),
        Some(id) => item_lookup_response(collapse_item_fetch(fetch_row(
            rt,
            pool,
            "SELECT id, name FROM Items WHERE id = ?",
            id,
        ))),
    }
}

#[test]
fn backend_swap_preserves_user_responses() {
    let rt = tokio::runtime::Runtime::new().expect("a runtime");
    let pool = seeded_pool(&rt);
    let mem = MemoryDb::new();
    for raw_id in ["1", "2", "999", "0", "abc", "", "4294967296"] {
        let from_memory = handle_user(&mem, raw_id);
        let from_store = persistent_user_response(&rt, &pool, raw_id);
        assert_eq!(from_memory.status, from_store.status, "id {raw_id:?}");
        assert_eq!(from_memory.body, from_store.body, "id {raw_id:?}");
    }
}

#[test]
fn backend_swap_preserves_item_responses() {
    let rt = tokio::runtime::Runtime::new().expect("a runtime");
    let pool = seeded_pool(&rt);
    let mem = MemoryDb::new();
    for raw_id in ["1", "2", "999", "abc", ""] {
        let from_memory = handle_item(&mem, raw_id);
        let from_store = persistent_item_response(&rt, &pool, raw_id);
        assert_eq!(from_memory.status, from_store.status, "id {raw_id:?}");
        assert_eq!(from_memory.body, from_store.body, "id {raw_id:?}");
    }
}

#[test]
fn concurrent_lookups_are_independent() {
    let rt = tokio::runtime::Runtime::new().expect("a runtime");
    let db = Arc::new(MemoryDb::new());
    rt.block_on(async {
        let mut handles = Vec::new();
        for i in 0..32u32 {
            let db = db.clone();
            handles.push(tokio::spawn(async move {
                let raw_id = format!("{}", i % 4);
                (i % 4, handle_user(&*db, &raw_id))
            }));
        }
        for handle in handles {
            let (id, resp) = handle.await.expect("a completed task");
            match id {
                1 => {
                    assert_eq!(resp.status, 200);
                    assert_eq!(resp.body, "{\"id\":1,\"name\":\"foo\"}");
                }
                2 => {
                    assert_eq!(resp.status, 200);
                    assert_eq!(resp.body, "{\"id\":2,\"name\":\"bar\"}");
                }
                _ => {
                    assert_eq!(resp.status, 404);
                    assert_eq!(resp.body, "");
                }
            }
        }
    });
}
