use copiosis::notice::{index_message, Notice, TemplateDir};

#[test]
fn english_notices() {
    let en = TemplateDir(false);
    assert_eq!(Notice::UserAdded.text(&en), "User added.");
    assert_eq!(Notice::GatewayNegative.text(&en), "Error: Gateway must never be negative!");
    assert_eq!(Notice::ProductAdded.text(&en), "Product added.");
    assert_eq!(Notice::ProductModified.text(&en), "Product modified.");
    assert_eq!(Notice::ProductNotAssigned.text(&en), "Product must be assigned to the user first.");
    assert_eq!(Notice::InsufficientNbr.text(&en), "Consumer has insufficient NBR.");
    assert_eq!(Notice::SameParty.text(&en), "Consumer and producer must not be the same.");
    assert_eq!(Notice::TransferComplete.text(&en), "Transfer complete.");
    assert_eq!(Notice::TransferDeleted.text(&en), "Transfer deleted.");
}

#[test]
fn czech_notices() {
    let cs = TemplateDir(true);
    assert_eq!(Notice::UserAdded.text(&cs), "Uživatel přidán.");
    assert_eq!(Notice::GatewayNegative.text(&cs), "Error: Brána nesmí být nikdy záporná!");
    assert_eq!(Notice::ProductAdded.text(&cs), "Produkt přidán.");
    assert_eq!(Notice::ProductModified.text(&cs), "Produkt upraven.");
    assert_eq!(Notice::ProductNotAssigned.text(&cs), "Produkt musí být nejprve uživateli přiřazen.");
    assert_eq!(Notice::InsufficientNbr.text(&cs), "Konzument nemá dostatek NBR.");
    assert_eq!(Notice::SameParty.text(&cs), "Konzument a producent nesmí být stejná osoba.");
    assert_eq!(Notice::TransferComplete.text(&cs), "Transfer proveden.");
    assert_eq!(Notice::TransferDeleted.text(&cs), "Transfer smazán.");
}

#[test]
fn language_from_config() {
    assert!(!TemplateDir::from_config(None).0);
    assert!(!TemplateDir::from_config(Some(vec![])).0);
    assert!(TemplateDir::from_config(Some(vec!["templates-cs".to_string()])).0);
    assert!(TemplateDir::from_config(Some(vec![String::new(), String::new()])).0);
}

#[test]
fn front_page_message() {
    assert_eq!(index_message(Some("Transfer complete.")), "Transfer complete.");
    assert_eq!(index_message(Some("")), "");
    assert_eq!(index_message(None), "");
}
