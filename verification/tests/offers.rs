use copiosis::notice::Notice;
use copiosis::offers::{
    after_offer_update, plan_catalog_save, plan_offer_save, register_user, CatalogSave,
    OfferStep, ProductWrite, UserProduct,
};

#[test]
fn new_member_starts_empty() {
    let reg = register_user("Alice".to_string());
    assert_eq!(reg.row.name, "Alice");
    assert_eq!(reg.row.nbr, 0);
    assert_eq!(reg.row.password, "0");
    assert_eq!(reg.reply, Notice::UserAdded);
}

#[test]
fn catalog_negative_gateway_is_refused() {
    assert_eq!(
        plan_catalog_save(0, true),
        CatalogSave { write: None, reply: Notice::GatewayNegative }
    );
    assert_eq!(
        plan_catalog_save(12, true),
        CatalogSave { write: None, reply: Notice::GatewayNegative }
    );
}

#[test]
fn catalog_id_zero_inserts() {
    assert_eq!(
        plan_catalog_save(0, false),
        CatalogSave { write: Some(ProductWrite::Insert), reply: Notice::ProductAdded }
    );
}

#[test]
fn catalog_other_id_updates() {
    assert_eq!(
        plan_catalog_save(12, false),
        CatalogSave { write: Some(ProductWrite::Update { id: 12 }), reply: Notice::ProductModified }
    );
    assert_eq!(
        plan_catalog_save(-3, false),
        CatalogSave { write: Some(ProductWrite::Update { id: -3 }), reply: Notice::ProductModified }
    );
}

#[test]
fn offer_save_steps() {
    assert_eq!(plan_offer_save(true), OfferStep::Reply(Notice::GatewayNegative));
    assert_eq!(plan_offer_save(false), OfferStep::TryUpdate);
    assert_eq!(after_offer_update(Some(1)), OfferStep::Reply(Notice::ProductModified));
    assert_eq!(after_offer_update(Some(0)), OfferStep::Insert { reply: Notice::ProductAdded });
    assert_eq!(after_offer_update(Some(2)), OfferStep::Insert { reply: Notice::ProductAdded });
    assert_eq!(after_offer_update(None), OfferStep::Insert { reply: Notice::ProductAdded });
}

#[test]
fn offer_reference_holds_both_ids() {
    let up = UserProduct { user_id: 3, product_id: 7 };
    assert_eq!((up.user_id, up.product_id), (3, 7));
}

fn save(table: &mut std::collections::HashMap<(i64, i64), f64>, key: (i64, i64), value: f64) -> Notice {
    match plan_offer_save(value < 0.0) {
        OfferStep::Reply(n) => return n,
        _ => {}
    }
    let rows = if let Some(v) = table.get_mut(&key) {
        *v = value;
        1usize
    } else {
        0usize
    };
    match after_offer_update(Some(rows)) {
        OfferStep::Reply(n) => n,
        OfferStep::Insert { reply } => {
            table.insert(key, value);
            reply
        }
        OfferStep::TryUpdate => panic!("updated once only"),
    }
}

#[test]
fn saving_an_offer_twice_is_idempotent() {
    let mut table = std::collections::HashMap::new();
    assert_eq!(save(&mut table, (7, 3), 2.5), Notice::ProductAdded);
    let first = table.clone();
    assert_eq!(save(&mut table, (7, 3), 2.5), Notice::ProductModified);
    assert_eq!(table, first);
    assert_eq!(save(&mut table, (7, 3), -1.0), Notice::GatewayNegative);
    assert_eq!(table, first);
}
