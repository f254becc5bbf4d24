//! Members, the product catalogue, and the offers that tie a member to a
//! product they produce.
//!
//! Saving a product or an offer is refused when its gateway is negative;
//! the sign test itself is made by the caller on the floating-point gateway.

use vstd::prelude::*;
use crate::notice::Notice;

verus! {

/// A reference to the offer of `product_id` by member `user_id`.
pub struct UserProduct {
    pub user_id: i64,
    pub product_id: i64,
}

/// The row of a newly registered member: they start with no NBR and the
/// password `0`.
pub struct NewUser {
    pub name: String,
    pub nbr: i64,
    pub password: String,
}

/// Registers a member under `name`, to be answered with `reply`.
pub struct UserRegistration {
    pub row: NewUser,
    pub reply: Notice,
}

/// Plans the registration of a member called `name`.
pub fn register_user(name: String) -> (reg: UserRegistration)
    ensures
        reg.row.name@ == name@,
        reg.row.nbr == 0,
        reg.row.password@ == "0"@,
        reg.reply == Notice::UserAdded,
{
    UserRegistration {
        row: NewUser { name, nbr: 0, password: "0".to_owned() },
        reply: Notice::UserAdded,
    }
}

/// How a product of the catalogue is written.
#[derive(Clone, Copy, Debug, PartialEq, Eq, Structural)]
pub enum ProductWrite {
    /// Add it as a new product.
    Insert,
    /// Overwrite the product with this id.
    Update { id: i64 },
}

/// The outcome of saving a product of the catalogue.
#[derive(Clone, Copy, Debug, PartialEq, Eq, Structural)]
pub struct CatalogSave {
    /// What is written, if anything.
    pub write: Option<ProductWrite>,
    pub reply: Notice,
}

/// The outcome of saving a catalogue product: a negative gateway is
/// refused; id 0 means a new product; any other id names the product to
/// overwrite.
pub open spec fn catalog_save(id: i64, gateway_negative: bool) -> CatalogSave {
    if gateway_negative {
        CatalogSave { write: None, reply: Notice::GatewayNegative }
    } else if id == 0 {
        CatalogSave { write: Some(ProductWrite::Insert), reply: Notice::ProductAdded }
    } else {
        CatalogSave { write: Some(ProductWrite::Update { id }), reply: Notice::ProductModified }
    }
}

/// Plans the saving of the catalogue product `id`.
pub fn plan_catalog_save(id: i64, gateway_negative: bool) -> (save: CatalogSave)
    ensures
        save == catalog_save(id, gateway_negative),
        gateway_negative ==> save.write is None && save.reply == Notice::GatewayNegative,
        !gateway_negative ==> (id == 0 <==> save.write == Some(ProductWrite::Insert)),
        !gateway_negative && id == 0 ==> save.reply == Notice::ProductAdded,
        !gateway_negative && id != 0 ==> save.write == Some(ProductWrite::Update { id })
            && save.reply == Notice::ProductModified,
{
    if gateway_negative {
        CatalogSave { write: None, reply: Notice::GatewayNegative }
    } else if id == 0 {
        CatalogSave { write: Some(ProductWrite::Insert), reply: Notice::ProductAdded }
    } else {
        CatalogSave { write: Some(ProductWrite::Update { id }), reply: Notice::ProductModified }
    }
}

/// What the caller does next while a member's offer is saved.
#[derive(Clone, Copy, Debug, PartialEq, Eq, Structural)]
pub enum OfferStep {
    /// Overwrite the member's existing offer of the product, and report how
    /// many rows changed (or that the update failed).
    TryUpdate,
    /// Insert the offer as a new row, then answer with `reply`.
    Insert { reply: Notice },
    /// Write nothing more and answer with this notice.
    Reply(Notice),
}

/// The first decision on saving an offer.
pub open spec fn offer_save_start(gateway_negative: bool) -> OfferStep {
    if gateway_negative {
        OfferStep::Reply(Notice::GatewayNegative)
    } else {
        OfferStep::TryUpdate
    }
}

/// The second decision on saving an offer, given how many rows the update changed.
pub open spec fn offer_step_after_update(updated_rows: Option<usize>) -> OfferStep {
    if updated_rows == Some(1usize) {
        OfferStep::Reply(Notice::ProductModified)
    } else {
        OfferStep::Insert { reply: Notice::ProductAdded }
    }
}

/// The first decision on saving an offer: a negative gateway is refused;
/// otherwise an existing offer is overwritten first.
pub fn plan_offer_save(gateway_negative: bool) -> (step: OfferStep)
    ensures
        step == offer_save_start(gateway_negative),
        gateway_negative ==> step == OfferStep::Reply(Notice::GatewayNegative),
        !gateway_negative ==> step == OfferStep::TryUpdate,
{
    if gateway_negative {
        OfferStep::Reply(Notice::GatewayNegative)
    } else {
        OfferStep::TryUpdate
    }
}

/// The second decision, given how many rows the update changed (`None` when
/// it failed): exactly one changed row means the offer existed and is now
/// modified; otherwise the offer is inserted as new.
pub fn after_offer_update(updated_rows: Option<usize>) -> (step: OfferStep)
    ensures
        step == offer_step_after_update(updated_rows),
        updated_rows == Some(1usize) ==> step == OfferStep::Reply(Notice::ProductModified),
        updated_rows != Some(1usize) ==> step == (OfferStep::Insert { reply: Notice::ProductAdded }),
{
    match updated_rows {
        Some(n) => {
            if n == 1 {
                OfferStep::Reply(Notice::ProductModified)
            } else {
                OfferStep::Insert { reply: Notice::ProductAdded }
            }
        },
        None => OfferStep::Insert { reply: Notice::ProductAdded },
    }
}

/// Saving a catalogue product with a valid gateway adds a new product
/// exactly when its id is 0, and otherwise overwrites exactly the product
/// with that id; the reply says which of the two happened. A product with an
/// id other than 0 is never added again.
pub proof fn lemma_catalog_save_targets(id: i64, gateway_negative: bool)
    ensures
        !gateway_negative ==> (id == 0 <==> catalog_save(id, gateway_negative).write == Some(
            ProductWrite::Insert,
        )),
        !gateway_negative && id == 0 ==> catalog_save(id, gateway_negative).reply
            == Notice::ProductAdded,
        !gateway_negative && id != 0 ==> catalog_save(id, gateway_negative).write == Some(
            ProductWrite::Update { id },
        ) && catalog_save(id, gateway_negative).reply == Notice::ProductModified,
        forall|other: i64|
            catalog_save(id, gateway_negative).write == Some(ProductWrite::Update { id: other })
                ==> other == id && id != 0,
{
}

/// Saving a catalogue product writes something exactly when its gateway is
/// not negative; a refused save is answered with the gateway notice.
pub proof fn lemma_negative_gateway_writes_nothing(id: i64, gateway_negative: bool)
    ensures
        (catalog_save(id, gateway_negative).write is None) <==> gateway_negative,
        gateway_negative ==> catalog_save(id, gateway_negative).reply == Notice::GatewayNegative,
{
}

// A model of the offers table, to state what saving an offer does to it.
// The table holds at most one offer per (product, member) key, as its
// primary key demands; `V` stands for the offer's values.

/// How many rows the update of the offer `key` changes: one when the offer
/// exists, none otherwise.
pub open spec fn rows_updated<V>(table: Map<(i64, i64), V>, key: (i64, i64)) -> Option<usize> {
    if table.contains_key(key) {
        Some(1usize)
    } else {
        Some(0usize)
    }
}

/// The offers table and the reply after saving `value` as the offer `key`,
/// following the decisions of `plan_offer_save` and `after_offer_update`.
pub open spec fn save_offer<V>(
    table: Map<(i64, i64), V>,
    key: (i64, i64),
    value: V,
    gateway_negative: bool,
) -> (Map<(i64, i64), V>, Notice) {
    match offer_save_start(gateway_negative) {
        OfferStep::Reply(n) => (table, n),
        _ => {
            let updated = if table.contains_key(key) {
                table.insert(key, value)
            } else {
                table
            };
            match offer_step_after_update(rows_updated(table, key)) {
                OfferStep::Reply(n) => (updated, n),
                OfferStep::Insert { reply } => (updated.insert(key, value), reply),
                OfferStep::TryUpdate => (updated, Notice::ProductModified),
            }
        },
    }
}

/// Saving a valid offer records it, whether or not the member offered the
/// product before, and answers "modified" exactly when it existed.
pub proof fn lemma_save_offer_records<V>(table: Map<(i64, i64), V>, key: (i64, i64), value: V)
    ensures
        save_offer(table, key, value, false).0 == table.insert(key, value),
        save_offer(table, key, value, false).1 == (if table.contains_key(key) {
            Notice::ProductModified
        } else {
            Notice::ProductAdded
        }),
{
    if table.contains_key(key) {
        assert(save_offer(table, key, value, false).0 =~= table.insert(key, value));
    }
}

/// Saving an offer is idempotent: saving the same valid offer again leaves
/// the table as the first save left it, and answers "modified".
pub proof fn lemma_save_offer_idempotent<V>(table: Map<(i64, i64), V>, key: (i64, i64), value: V)
    ensures
        ({
            let first = save_offer(table, key, value, false).0;
            save_offer(first, key, value, false) == (first, Notice::ProductModified)
        }),
{
    lemma_save_offer_records(table, key, value);
    let first = table.insert(key, value);
    lemma_save_offer_records(first, key, value);
    assert(first.insert(key, value) =~= first);
}

/// A save with a negative gateway leaves the offers table as it was.
pub proof fn lemma_negative_offer_writes_nothing<V>(
    table: Map<(i64, i64), V>,
    key: (i64, i64),
    value: V,
)
    ensures
        save_offer(table, key, value, true) == (table, Notice::GatewayNegative),
{
}

} // verus!
