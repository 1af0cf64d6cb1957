use items_service::handlers::{
    create_item, create_item_with_id, delete_item, get_item, get_items, handle, plan, respond,
    update_item, Body, Request, Response,
};
use items_service::item::{Item, ItemCreateRequest, ItemUpdateRequest};
use items_service::store::{MemoryStore, Statement, StoreReply};

fn create_req(name: &str, description: &str) -> ItemCreateRequest {
    ItemCreateRequest { name: name.to_string(), description: description.to_string() }
}

fn update_req(name: &str, description: &str) -> ItemUpdateRequest {
    ItemUpdateRequest { name: name.to_string(), description: description.to_string() }
}

fn item_of(r: &Response) -> &Item {
    match &r.body {
        Body::Item(it) => it,
        other => panic!("expected an item body, got {:?}", other),
    }
}

fn text_of(r: &Response) -> &str {
    match &r.body {
        Body::Text(t) => t.as_str(),
        other => panic!("expected a text body, got {:?}", other),
    }
}

#[test]
fn create_returns_201_and_get_returns_same_fields() {
    let mut store = MemoryStore::new();
    let r = create_item(&mut store, create_req("a", "b"));
    assert_eq!(r.status, 201);
    let created = item_of(&r);
    assert_eq!(created.name, "a");
    assert_eq!(created.description, "b");
    let id = created.id;
    let g = get_item(&store, id);
    assert_eq!(g.status, 200);
    let fetched = item_of(&g);
    assert_eq!(fetched.id, id);
    assert_eq!(fetched.name, "a");
    assert_eq!(fetched.description, "b");
}

#[test]
fn created_ids_are_random_version_four() {
    let mut store = MemoryStore::new();
    let r1 = create_item(&mut store, create_req("a", "b"));
    let r2 = create_item(&mut store, create_req("a", "b"));
    let id1 = item_of(&r1).id;
    let id2 = item_of(&r2).id;
    assert_ne!(id1, id2);
    assert_eq!((id1 >> 76) & 0xf, 4);
    assert_eq!((id2 >> 76) & 0xf, 4);
    assert_eq!((id1 >> 62) & 0x3, 2);
    assert_eq!((id2 >> 62) & 0x3, 2);
    assert_eq!(store.len(), 2);
}

#[test]
fn list_after_creates_holds_all() {
    let mut store = MemoryStore::new();
    let mut ids = Vec::new();
    for (n, d) in [("x", "1"), ("y", "2"), ("z", "3")] {
        let r = create_item(&mut store, create_req(n, d));
        assert_eq!(r.status, 201);
        ids.push(item_of(&r).id);
    }
    let r = get_items(&store);
    assert_eq!(r.status, 200);
    let items = match &r.body {
        Body::Items(v) => v,
        other => panic!("expected a list, got {:?}", other),
    };
    assert_eq!(items.len(), 3);
    for (id, (n, d)) in ids.iter().zip([("x", "1"), ("y", "2"), ("z", "3")]) {
        let found = items.iter().find(|it| it.id == *id).expect("created item is listed");
        assert_eq!(found.name, n);
        assert_eq!(found.description, d);
    }
}

#[test]
fn list_of_empty_store_is_empty() {
    let store = MemoryStore::new();
    let r = get_items(&store);
    assert_eq!(r.status, 200);
    assert!(matches!(&r.body, Body::Items(v) if v.is_empty()));
}

#[test]
fn get_missing_is_404() {
    let store = MemoryStore::new();
    let r = get_item(&store, 42);
    assert_eq!(r.status, 404);
    assert_eq!(text_of(&r), "Item not found");
}

#[test]
fn update_existing_then_get_reflects_it() {
    let mut store = MemoryStore::new();
    assert_eq!(create_item_with_id(&mut store, 7, create_req("a", "b")).status, 201);
    let r = update_item(&mut store, 7, update_req("c", "d"));
    assert_eq!(r.status, 200);
    let it = item_of(&r);
    assert_eq!((it.id, it.name.as_str(), it.description.as_str()), (7, "c", "d"));
    let g = get_item(&store, 7);
    assert_eq!(g.status, 200);
    let it = item_of(&g);
    assert_eq!((it.id, it.name.as_str(), it.description.as_str()), (7, "c", "d"));
}

#[test]
fn update_missing_still_200() {
    let mut store = MemoryStore::new();
    let r = update_item(&mut store, 9, update_req("c", "d"));
    assert_eq!(r.status, 200);
    let it = item_of(&r);
    assert_eq!((it.id, it.name.as_str(), it.description.as_str()), (9, "c", "d"));
    assert_eq!(get_item(&store, 9).status, 404);
    assert_eq!(store.len(), 0);
}

#[test]
fn delete_existing_then_get_is_404() {
    let mut store = MemoryStore::new();
    create_item_with_id(&mut store, 5, create_req("a", "b"));
    create_item_with_id(&mut store, 6, create_req("c", "d"));
    let r = delete_item(&mut store, 5);
    assert_eq!(r.status, 200);
    assert_eq!(text_of(&r), "Item deleted");
    let g = get_item(&store, 5);
    assert_eq!(g.status, 404);
    assert_eq!(text_of(&g), "Item not found");
    assert_eq!(get_item(&store, 6).status, 200);
    assert_eq!(store.len(), 1);
}

#[test]
fn delete_missing_still_200() {
    let mut store = MemoryStore::new();
    let r = delete_item(&mut store, 123);
    assert_eq!(r.status, 200);
    assert_eq!(text_of(&r), "Item deleted");
}

#[test]
fn create_with_taken_id_is_500() {
    let mut store = MemoryStore::new();
    assert_eq!(create_item_with_id(&mut store, 1, create_req("a", "b")).status, 201);
    let r = create_item_with_id(&mut store, 1, create_req("c", "d"));
    assert_eq!(r.status, 500);
    assert!(matches!(r.body, Body::Empty));
    let g = get_item(&store, 1);
    assert_eq!(item_of(&g).name, "a");
}

#[test]
fn malformed_body_is_400_and_store_untouched() {
    let mut store = MemoryStore::new();
    create_item_with_id(&mut store, 1, create_req("a", "b"));
    let r = handle(&mut store, Request::Malformed, 2);
    assert_eq!(r.status, 400);
    assert!(matches!(r.body, Body::Empty));
    assert_eq!(store.len(), 1);
    assert_eq!(get_item(&store, 2).status, 404);
}

#[test]
fn handle_dispatches_each_route() {
    let mut store = MemoryStore::new();
    let r = handle(&mut store, Request::Create(create_req("a", "b")), 11);
    assert_eq!(r.status, 201);
    assert_eq!(item_of(&r).id, 11);
    assert_eq!(handle(&mut store, Request::Get(11), 0).status, 200);
    assert_eq!(handle(&mut store, Request::List, 0).status, 200);
    let r = handle(&mut store, Request::Update(11, update_req("e", "f")), 0);
    assert_eq!(item_of(&r).name, "e");
    assert_eq!(handle(&mut store, Request::Delete(11), 0).status, 200);
    assert_eq!(handle(&mut store, Request::Get(11), 0).status, 404);
}

#[test]
fn plan_builds_statements() {
    match plan(Request::Create(create_req("a", "b")), 3) {
        Some(Statement::Insert(it)) => {
            assert_eq!((it.id, it.name.as_str(), it.description.as_str()), (3, "a", "b"))
        },
        other => panic!("unexpected plan {:?}", other),
    }
    assert!(matches!(plan(Request::List, 3), Some(Statement::SelectAll)));
    assert!(matches!(plan(Request::Get(4), 3), Some(Statement::SelectOne(4))));
    assert!(matches!(plan(Request::Delete(4), 3), Some(Statement::Delete(4))));
    match plan(Request::Update(4, update_req("c", "d")), 3) {
        Some(Statement::Update(it)) => {
            assert_eq!((it.id, it.name.as_str(), it.description.as_str()), (4, "c", "d"))
        },
        other => panic!("unexpected plan {:?}", other),
    }
    assert!(plan(Request::Malformed, 3).is_none());
}

#[test]
fn store_failures_map_to_500_or_404() {
    let ins = Statement::Insert(Item::new(1, "a".to_string(), "b".to_string()));
    assert_eq!(respond(&ins, StoreReply::Failed).status, 500);
    let upd = Statement::Update(Item::new(1, "a".to_string(), "b".to_string()));
    assert_eq!(respond(&upd, StoreReply::Failed).status, 500);
    assert_eq!(respond(&Statement::Delete(1), StoreReply::Failed).status, 500);
    assert_eq!(respond(&Statement::SelectAll, StoreReply::Failed).status, 500);
    let r = respond(&Statement::SelectOne(1), StoreReply::Failed);
    assert_eq!(r.status, 404);
    assert_eq!(text_of(&r), "Item not found");
}

#[test]
fn store_execute_follows_table_semantics() {
    let mut store = MemoryStore::new();
    let ins = Statement::Insert(Item::new(1, "a".to_string(), "b".to_string()));
    assert!(matches!(store.execute(&ins), StoreReply::Affected(1)));
    assert!(matches!(store.execute(&ins), StoreReply::Failed));
    assert!(matches!(store.execute(&Statement::Delete(2)), StoreReply::Affected(0)));
    let upd = Statement::Update(Item::new(1, "c".to_string(), "d".to_string()));
    assert!(matches!(store.execute(&upd), StoreReply::Affected(1)));
    match store.execute(&Statement::SelectOne(1)) {
        StoreReply::Rows(v) => {
            assert_eq!(v.len(), 1);
            assert_eq!(v[0].name, "c");
        },
        other => panic!("unexpected reply {:?}", other),
    }
    assert!(matches!(store.execute(&Statement::Delete(1)), StoreReply::Affected(1)));
    assert!(matches!(store.execute(&Statement::SelectOne(1)), StoreReply::Rows(v) if v.is_empty()));
}
