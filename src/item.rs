use vstd::prelude::*;

verus! {

/// What the table holds for one identifier: its name and its description.
pub type Row = (Seq<char>, Seq<char>);

/// One stored item.
#[derive(Debug)]
pub struct Item {
    pub id: u128,
    pub name: String,
    pub description: String,
}

impl Item {
    /// The name and description of the item, as the table holds them.
    pub open spec fn row(&self) -> Row {
        (self.name@, self.description@)
    }

    pub fn new(id: u128, name: String, description: String) -> (r: Item)
        ensures
            r.id == id,
            r.name@ == name@,
            r.description@ == description@,
    {
        Item { id, name, description }
    }

    /// A copy of the item with the same identifier, name and description.
    pub fn duplicate(&self) -> (r: Item)
        ensures
            r.id == self.id,
            r.row() == self.row(),
    {
        Item { id: self.id, name: self.name.clone(), description: self.description.clone() }
    }
}

/// The body of a create request: the fields a client supplies.
#[derive(Debug)]
pub struct ItemCreateRequest {
    pub name: String,
    pub description: String,
}

/// The body of an update request: the new values of the editable fields.
#[derive(Debug)]
pub struct ItemUpdateRequest {
    pub name: String,
    pub description: String,
}

impl ItemCreateRequest {
    pub open spec fn row(&self) -> Row {
        (self.name@, self.description@)
    }
}

impl ItemUpdateRequest {
    pub open spec fn row(&self) -> Row {
        (self.name@, self.description@)
    }
}

/// The version field of a 128-bit identifier (bits 76 to 79, counting from
/// the least significant bit).
pub open spec fn id_version(id: u128) -> u128 {
    (id >> 76u128) & 0xfu128
}

/// The variant field of a 128-bit identifier (bits 62 and 63).
pub open spec fn id_variant(id: u128) -> u128 {
    (id >> 62u128) & 0x3u128
}

/// Relies on uuid::Uuid::new_v4 and Uuid::as_u128: a random identifier whose
/// version field is 4 and whose variant field is 0b10.
#[verifier::external_body]
pub(crate) fn new_id() -> (r: u128)
    ensures
        id_version(r) == 4,
        id_variant(r) == 2,
{
    uuid::Uuid::new_v4().as_u128()
}

} // verus!
