use vstd::prelude::*;

use crate::item::{id_variant, id_version, new_id, Item, ItemCreateRequest, ItemUpdateRequest, Row};
use crate::store::{
    deleted, inserted, lists, updated, MemoryStore, Statement, StoreReply, Table,
};

verus! {

/// The body of a response.
#[derive(Debug)]
pub enum Body {
    /// No body.
    Empty,
    /// A plain-text body.
    Text(String),
    /// One item, sent as JSON.
    Item(Item),
    /// A list of items, sent as a JSON array.
    Items(Vec<Item>),
}

/// An HTTP response: status code and body.
#[derive(Debug)]
pub struct Response {
    pub status: u16,
    pub body: Body,
}

/// A request, once the HTTP layer has matched its route and read its body.
#[derive(Debug)]
pub enum Request {
    /// `POST /items`.
    Create(ItemCreateRequest),
    /// `GET /items`.
    List,
    /// `GET /items/{id}`.
    Get(u128),
    /// `PUT /items/{id}`.
    Update(u128, ItemUpdateRequest),
    /// `DELETE /items/{id}`.
    Delete(u128),
    /// A create or update whose body did not parse as an item request.
    Malformed,
}

/// The text sent when a single-item fetch finds nothing.
pub open spec fn not_found_text() -> Seq<char> {
    "Item not found"@
}

/// The text sent after a delete.
pub open spec fn deleted_text() -> Seq<char> {
    "Item deleted"@
}

/// `r` is an empty response with status `status`.
pub open spec fn bare(r: Response, status: u16) -> bool {
    r.status == status && r.body is Empty
}

/// `r` has status `status` and carries one item with this identifier and row.
pub open spec fn with_item(r: Response, status: u16, id: u128, row: Row) -> bool {
    r.status == status && (r.body matches Body::Item(b) && b.id == id && b.row() == row)
}

/// `r` has status `status` and the plain text `text`.
pub open spec fn with_text(r: Response, status: u16, text: Seq<char>) -> bool {
    r.status == status && (r.body matches Body::Text(t) && t@ == text)
}

/// The response owed for statement `s` once the store has answered `reply`.
pub open spec fn response_for(s: Statement, reply: StoreReply, r: Response) -> bool {
    match s {
        Statement::Insert(it) => if reply is Affected {
            with_item(r, 201, it.id, it.row())
        } else {
            bare(r, 500)
        },
        Statement::Update(it) => if reply is Affected {
            with_item(r, 200, it.id, it.row())
        } else {
            bare(r, 500)
        },
        Statement::Delete(_) => if reply is Affected {
            with_text(r, 200, deleted_text())
        } else {
            bare(r, 500)
        },
        Statement::SelectAll => if reply is Rows {
            r.status == 200 && (r.body matches Body::Items(b) && b@ == reply->Rows_0@)
        } else {
            bare(r, 500)
        },
        Statement::SelectOne(_) => if reply is Rows && reply->Rows_0@.len() > 0 {
            with_item(r, 200, reply->Rows_0@[0].id, reply->Rows_0@[0].row())
        } else {
            with_text(r, 404, not_found_text())
        },
    }
}

/// Turns the store's answer to `s` into the HTTP response.
pub fn respond(s: &Statement, reply: StoreReply) -> (r: Response)
    ensures
        response_for(*s, reply, r),
{
    match s {
        Statement::Insert(it) => match reply {
            StoreReply::Affected(_) => Response { status: 201, body: Body::Item(it.duplicate()) },
            _ => Response { status: 500, body: Body::Empty },
        },
        Statement::Update(it) => match reply {
            StoreReply::Affected(_) => Response { status: 200, body: Body::Item(it.duplicate()) },
            _ => Response { status: 500, body: Body::Empty },
        },
        Statement::Delete(_) => match reply {
            StoreReply::Affected(_) => Response {
                status: 200,
                body: Body::Text("Item deleted".to_owned()),
            },
            _ => Response { status: 500, body: Body::Empty },
        },
        Statement::SelectAll => match reply {
            StoreReply::Rows(v) => Response { status: 200, body: Body::Items(v) },
            _ => Response { status: 500, body: Body::Empty },
        },
        Statement::SelectOne(_) => match reply {
            StoreReply::Rows(v) if v.len() > 0 => Response {
                status: 200,
                body: Body::Item(v[0].duplicate()),
            },
            _ => Response { status: 404, body: Body::Text("Item not found".to_owned()) },
        },
    }
}

/// `r` and `t2` are the response to `req` and the table after it, served on
/// table `t`, with `fresh` as the identifier a create would take.
pub open spec fn served(t: Table, req: Request, fresh: u128, t2: Table, r: Response) -> bool {
    match req {
        Request::Create(it) => t2 == inserted(t, fresh, it.row()) && if t.contains_key(fresh) {
            bare(r, 500)
        } else {
            with_item(r, 201, fresh, it.row())
        },
        Request::List => t2 == t && r.status == 200 && (r.body matches Body::Items(b) && lists(
            b@,
            t,
        )),
        Request::Get(id) => t2 == t && if t.contains_key(id) {
            with_item(r, 200, id, t[id])
        } else {
            with_text(r, 404, not_found_text())
        },
        Request::Update(id, it) => t2 == updated(t, id, it.row()) && with_item(r, 200, id, it.row()),
        Request::Delete(id) => t2 == deleted(t, id) && with_text(r, 200, deleted_text()),
        Request::Malformed => t2 == t && bare(r, 400),
    }
}

/// The statement a request runs, `fresh` being the identifier for a new
/// item; none for a request whose body did not parse.
pub fn plan(req: Request, fresh: u128) -> (r: Option<Statement>)
    ensures
        match req {
            Request::Create(it) => r matches Some(Statement::Insert(x)) && x.id == fresh && x.row()
                == it.row(),
            Request::List => r matches Some(Statement::SelectAll),
            Request::Get(id) => r matches Some(Statement::SelectOne(x)) && x == id,
            Request::Update(id, it) => r matches Some(Statement::Update(x)) && x.id == id && x.row()
                == it.row(),
            Request::Delete(id) => r matches Some(Statement::Delete(x)) && x == id,
            Request::Malformed => r is None,
        },
{
    match req {
        Request::Create(it) => Some(Statement::Insert(Item::new(fresh, it.name, it.description))),
        Request::List => Some(Statement::SelectAll),
        Request::Get(id) => Some(Statement::SelectOne(id)),
        Request::Update(id, it) => Some(Statement::Update(Item::new(id, it.name, it.description))),
        Request::Delete(id) => Some(Statement::Delete(id)),
        Request::Malformed => None,
    }
}

/// Creates an item under identifier `id`: 201 with the new item, or 500
/// when the identifier is taken.
pub fn create_item_with_id(store: &mut MemoryStore, id: u128, item: ItemCreateRequest) -> (r:
    Response)
    requires
        old(store).wf(),
    ensures
        final(store).wf(),
        final(store)@ == inserted(old(store)@, id, item.row()),
        if old(store)@.contains_key(id) {
            bare(r, 500)
        } else {
            with_item(r, 201, id, item.row())
        },
{
    let s = Statement::Insert(Item::new(id, item.name, item.description));
    let reply = store.execute(&s);
    respond(&s, reply)
}

/// Creates an item under a fresh random identifier.
pub fn create_item(store: &mut MemoryStore, item: ItemCreateRequest) -> (r: Response)
    requires
        old(store).wf(),
    ensures
        final(store).wf(),
        r.status == 201 || r.status == 500,
        r.status == 500 ==> bare(r, 500) && final(store)@ == old(store)@,
        r.status == 500 ==> exists|g: u128|
            id_version(g) == 4 && id_variant(g) == 2 && #[trigger] old(store)@.contains_key(g),
        r.status == 201 ==> (r.body matches Body::Item(b) && b.row() == item.row()
            && id_version(b.id) == 4 && id_variant(b.id) == 2 && !old(store)@.contains_key(b.id) && final(store)@
            == old(store)@.insert(b.id, item.row())),
{
    let id = new_id();
    let r = create_item_with_id(store, id, item);
    proof {
        if r.status == 500 {
            assert(old(store)@.contains_key(id));
        }
    }
    r
}

/// Lists every item: 200 with all of them, in no particular order.
pub fn get_items(store: &MemoryStore) -> (r: Response)
    requires
        store.wf(),
    ensures
        r.status == 200 && (r.body matches Body::Items(b) && lists(b@, store@)),
{
    respond(&Statement::SelectAll, StoreReply::Rows(store.select_all()))
}

/// Fetches one item: 200 with it, or 404 "Item not found".
pub fn get_item(store: &MemoryStore, id: u128) -> (r: Response)
    requires
        store.wf(),
    ensures
        if store@.contains_key(id) {
            with_item(r, 200, id, store@[id])
        } else {
            with_text(r, 404, not_found_text())
        },
{
    let reply = match store.select_one(id) {
        Some(it) => StoreReply::Rows(vec![it]),
        None => StoreReply::Rows(Vec::new()),
    };
    respond(&Statement::SelectOne(id), reply)
}

/// Sets name and description of the item `id`: 200 with the values sent,
/// whether or not such an item exists.
pub fn update_item(store: &mut MemoryStore, id: u128, item: ItemUpdateRequest) -> (r: Response)
    requires
        old(store).wf(),
    ensures
        final(store).wf(),
        final(store)@ == updated(old(store)@, id, item.row()),
        with_item(r, 200, id, item.row()),
{
    let s = Statement::Update(Item::new(id, item.name, item.description));
    let reply = store.execute(&s);
    respond(&s, reply)
}

/// Removes the item `id`: 200 "Item deleted", whether or not it existed.
pub fn delete_item(store: &mut MemoryStore, id: u128) -> (r: Response)
    requires
        old(store).wf(),
    ensures
        final(store).wf(),
        final(store)@ == deleted(old(store)@, id),
        with_text(r, 200, deleted_text()),
{
    let s = Statement::Delete(id);
    let reply = store.execute(&s);
    respond(&s, reply)
}

/// Serves one request; a body that did not parse is answered 400 and never
/// reaches the store.
pub fn handle(store: &mut MemoryStore, req: Request, fresh: u128) -> (r: Response)
    requires
        old(store).wf(),
    ensures
        final(store).wf(),
        served(old(store)@, req, fresh, final(store)@, r),
{
    match req {
        Request::Create(it) => create_item_with_id(store, fresh, it),
        Request::List => get_items(store),
        Request::Get(id) => get_item(store, id),
        Request::Update(id, it) => update_item(store, id, it),
        Request::Delete(id) => delete_item(store, id),
        Request::Malformed => Response { status: 400, body: Body::Empty },
    }
}

} // verus!
