use vstd::prelude::*;

use crate::handlers::{bare, deleted_text, not_found_text, served, with_item, with_text, Request, Response};
use crate::item::ItemCreateRequest;
use crate::item::ItemUpdateRequest;
use crate::item::Item;
use crate::store::{listed, lists, Table};

verus! {

/// Creating an item under an unused identifier answers 201 with that
/// identifier and the fields sent; a later fetch of the identifier answers
/// 200 with the same fields.
pub proof fn create_then_get(
    t: Table,
    item: ItemCreateRequest,
    fresh: u128,
    t1: Table,
    r1: Response,
    next: u128,
    t2: Table,
    r2: Response,
)
    requires
        !t.contains_key(fresh),
        served(t, Request::Create(item), fresh, t1, r1),
        served(t1, Request::Get(fresh), next, t2, r2),
    ensures
        with_item(r1, 201, fresh, item.row()),
        with_item(r2, 200, fresh, item.row()),
{
}

/// Updating an existing item answers 200 with the new values; a later fetch
/// answers 200 with them too.
pub proof fn update_then_get(
    t: Table,
    id: u128,
    item: ItemUpdateRequest,
    fresh: u128,
    t1: Table,
    r1: Response,
    next: u128,
    t2: Table,
    r2: Response,
)
    requires
        t.contains_key(id),
        served(t, Request::Update(id, item), fresh, t1, r1),
        served(t1, Request::Get(id), next, t2, r2),
    ensures
        with_item(r1, 200, id, item.row()),
        with_item(r2, 200, id, item.row()),
{
}

/// Deleting an existing item answers 200 "Item deleted"; a later fetch of it
/// answers 404 "Item not found".
pub proof fn delete_then_get(
    t: Table,
    id: u128,
    fresh: u128,
    t1: Table,
    r1: Response,
    next: u128,
    t2: Table,
    r2: Response,
)
    requires
        t.contains_key(id),
        served(t, Request::Delete(id), fresh, t1, r1),
        served(t1, Request::Get(id), next, t2, r2),
    ensures
        with_text(r1, 200, deleted_text()),
        with_text(r2, 404, not_found_text()),
{
}

/// Updating an identifier that no item has still answers 200 with the
/// identifier and the values sent, and leaves the table as it was.
pub proof fn update_missing_still_ok(
    t: Table,
    id: u128,
    item: ItemUpdateRequest,
    fresh: u128,
    t1: Table,
    r1: Response,
)
    requires
        !t.contains_key(id),
        served(t, Request::Update(id, item), fresh, t1, r1),
    ensures
        with_item(r1, 200, id, item.row()),
        t1 == t,
{
}

/// Deleting an identifier that no item has still answers 200 "Item deleted",
/// and leaves the table as it was.
pub proof fn delete_missing_still_ok(t: Table, id: u128, fresh: u128, t1: Table, r1: Response)
    requires
        !t.contains_key(id),
        served(t, Request::Delete(id), fresh, t1, r1),
    ensures
        with_text(r1, 200, deleted_text()),
        t1 == t,
{
    assert(t.remove(id) =~= t);
}

/// A request whose body did not parse is answered 400 and leaves the table as
/// it was.
pub proof fn malformed_never_reaches_store(
    t: Table,
    fresh: u128,
    t1: Table,
    r1: Response,
)
    requires
        served(t, Request::Malformed, fresh, t1, r1),
    ensures
        bare(r1, 400),
        t1 == t,
{
}

/// After a run of creates under distinct unused identifiers, tables[k] holds
/// the first k items and none of the rest.
proof fn lemma_creates_prefix(
    items: Seq<ItemCreateRequest>,
    ids: Seq<u128>,
    tables: Seq<Table>,
    responses: Seq<Response>,
    k: int,
)
    requires
        ids.len() == items.len(),
        tables.len() == items.len() + 1,
        responses.len() == items.len(),
        ids.no_duplicates(),
        forall|i: int| 0 <= i < ids.len() ==> !tables[0].contains_key(#[trigger] ids[i]),
        forall|i: int|
            0 <= i < items.len() ==> served(
                tables[i],
                Request::Create(#[trigger] items[i]),
                ids[i],
                tables[i + 1],
                responses[i],
            ),
        0 <= k <= items.len(),
    ensures
        forall|i: int|
            0 <= i < k ==> tables[k].contains_key(#[trigger] ids[i]) && tables[k][ids[i]]
                == items[i].row(),
        forall|i: int| k <= i < ids.len() ==> !tables[k].contains_key(#[trigger] ids[i]),
    decreases k,
{
    if k > 0 {
        lemma_creates_prefix(items, ids, tables, responses, k - 1);
        assert(served(
            tables[k - 1],
            Request::Create(items[k - 1]),
            ids[k - 1],
            tables[k],
            responses[k - 1],
        ));
        assert(tables[k] == tables[k - 1].insert(ids[k - 1], items[k - 1].row()));
        assert forall|i: int| k <= i < ids.len() implies !tables[k].contains_key(
            #[trigger] ids[i],
        ) by {
            assert(ids[i] != ids[k - 1]);
        }
        assert forall|i: int| 0 <= i < k implies tables[k].contains_key(#[trigger] ids[i])
            && tables[k][ids[i]] == items[i].row() by {
            if i < k - 1 {
                assert(ids[i] != ids[k - 1]);
            }
        }
    }
}

/// After creating items under distinct unused identifiers, every create
/// answers 201, and a listing lists a table that holds each of the items
/// with its fields.
pub proof fn list_after_creates(
    items: Seq<ItemCreateRequest>,
    ids: Seq<u128>,
    tables: Seq<Table>,
    responses: Seq<Response>,
    next: u128,
    t_end: Table,
    r: Response,
)
    requires
        ids.len() == items.len(),
        tables.len() == items.len() + 1,
        responses.len() == items.len(),
        ids.no_duplicates(),
        forall|i: int| 0 <= i < ids.len() ==> !tables[0].contains_key(#[trigger] ids[i]),
        forall|i: int|
            0 <= i < items.len() ==> served(
                tables[i],
                Request::Create(#[trigger] items[i]),
                ids[i],
                tables[i + 1],
                responses[i],
            ),
        served(tables[items.len() as int], Request::List, next, t_end, r),
    ensures
        forall|i: int| 0 <= i < items.len() ==> (#[trigger] responses[i]).status == 201,
        r.status == 200,
        r.body is Items,
        lists(r.body->Items_0@, t_end),
        forall|i: int|
            0 <= i < items.len() ==> t_end.contains_key(#[trigger] ids[i]) && t_end[ids[i]]
                == items[i].row(),
        forall|i: int|
            0 <= i < items.len() ==> listed(r.body->Items_0@, #[trigger] ids[i], items[i].row()),
{
    let n = items.len() as int;
    lemma_creates_prefix(items, ids, tables, responses, n);
    assert forall|i: int| 0 <= i < items.len() implies listed(
        r.body->Items_0@,
        #[trigger] ids[i],
        items[i].row(),
    ) by {
        lemma_listed(r.body->Items_0@, t_end, ids[i]);
    }
    assert forall|i: int| 0 <= i < items.len() implies (#[trigger] responses[i]).status == 201 by {
        lemma_creates_prefix(items, ids, tables, responses, i);
        assert(served(tables[i], Request::Create(items[i]), ids[i], tables[i + 1], responses[i]));
    }
}

/// A list that lists a table holds each of its rows.
proof fn lemma_listed(items: Seq<Item>, t: Table, id: u128)
    requires
        lists(items, t),
        t.contains_key(id),
    ensures
        listed(items, id, t[id]),
{
    let j = choose|j: int| 0 <= j < items.len() && #[trigger] items[j].id == id;
    assert(items[j].row() == t[id]);
}

/// The item carried by a response with one item.
pub open spec fn body_item(r: Response) -> Item {
    r.body->Item_0
}

/// `responses[i]` is a 201 that created a new row in `tables[i]`, giving
/// `tables[i + 1]`, as every 201 of `create_item` is.
pub open spec fn creates_chain(tables: Seq<Table>, responses: Seq<Response>) -> bool {
    &&& tables.len() == responses.len() + 1
    &&& forall|i: int|
        0 <= i < responses.len() ==> {
            &&& (#[trigger] responses[i]).status == 201
            &&& responses[i].body is Item
            &&& !tables[i].contains_key(body_item(responses[i]).id)
            &&& tables[i + 1] == tables[i].insert(
                body_item(responses[i]).id,
                body_item(responses[i]).row(),
            )
        }
}

/// Along a chain of creates, tables[k] holds every item created before step k.
proof fn lemma_chain_prefix(tables: Seq<Table>, responses: Seq<Response>, k: int)
    requires
        creates_chain(tables, responses),
        0 <= k <= responses.len(),
    ensures
        forall|i: int|
            #![trigger responses[i]]
            0 <= i < k ==> tables[k].contains_key(body_item(responses[i]).id)
                && tables[k][body_item(responses[i]).id] == body_item(responses[i]).row(),
    decreases k,
{
    if k > 0 {
        lemma_chain_prefix(tables, responses, k - 1);
        let new_id = body_item(responses[k - 1]).id;
        assert(responses[k - 1].status == 201);
        assert forall|i: int| #![trigger responses[i]] 0 <= i < k implies tables[k].contains_key(
            body_item(responses[i]).id,
        ) && tables[k][body_item(responses[i]).id] == body_item(responses[i]).row() by {
            if i < k - 1 {
                assert(tables[k - 1].contains_key(body_item(responses[i]).id));
                assert(body_item(responses[i]).id != new_id);
            }
        }
    }
}

/// After any number of creates that each answered 201 (each one adds its
/// item under an identifier the table did not hold), a listing of the
/// resulting table holds every created item with its identifier, name and
/// description, in some order.
pub proof fn list_after_random_creates(
    tables: Seq<Table>,
    responses: Seq<Response>,
    listing: Seq<Item>,
)
    requires
        creates_chain(tables, responses),
        lists(listing, tables.last()),
    ensures
        forall|i: int|
            0 <= i < responses.len() ==> listed(
                listing,
                body_item(#[trigger] responses[i]).id,
                body_item(responses[i]).row(),
            ),
{
    let n = responses.len() as int;
    lemma_chain_prefix(tables, responses, n);
    assert forall|i: int| 0 <= i < responses.len() implies listed(
        listing,
        body_item(#[trigger] responses[i]).id,
        body_item(responses[i]).row(),
    ) by {
        assert(tables[n].contains_key(body_item(responses[i]).id));
        lemma_listed(listing, tables[n], body_item(responses[i]).id);
    }
}

} // verus!
