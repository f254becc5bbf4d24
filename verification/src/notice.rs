//! The flash notices that answer each request, in English or Czech.

use vstd::prelude::*;

verus! {

/// The language switch: when the configuration names a template directory,
/// the Czech templates and notices are used, otherwise the English ones.
pub struct TemplateDir(pub bool);

impl TemplateDir {
    /// Builds the switch from the `template_dir` setting, if it could be read.
    /// Czech is chosen exactly when the setting was read and is not empty.
    pub fn from_config(conf: Option<Vec<String>>) -> (dir: TemplateDir)
        ensures
            dir.0 == (conf is Some && conf.unwrap().len() > 0),
    {
        match conf {
            Some(dirs) => TemplateDir(dirs.len() > 0),
            None => TemplateDir(false),
        }
    }
}

/// Every notice that a request can be answered with.
#[derive(Clone, Copy, Debug, PartialEq, Eq, Structural)]
pub enum Notice {
    UserAdded,
    GatewayNegative,
    ProductAdded,
    ProductModified,
    ProductNotAssigned,
    InsufficientNbr,
    SameParty,
    TransferComplete,
    TransferDeleted,
}

/// The English wording of a notice.
pub open spec fn english_text(n: Notice) -> Seq<char> {
    match n {
        Notice::UserAdded => "User added."@,
        Notice::GatewayNegative => "Error: Gateway must never be negative!"@,
        Notice::ProductAdded => "Product added."@,
        Notice::ProductModified => "Product modified."@,
        Notice::ProductNotAssigned => "Product must be assigned to the user first."@,
        Notice::InsufficientNbr => "Consumer has insufficient NBR."@,
        Notice::SameParty => "Consumer and producer must not be the same."@,
        Notice::TransferComplete => "Transfer complete."@,
        Notice::TransferDeleted => "Transfer deleted."@,
    }
}

/// The Czech wording of a notice.
pub open spec fn czech_text(n: Notice) -> Seq<char> {
    match n {
        Notice::UserAdded => "Uživatel přidán."@,
        Notice::GatewayNegative => "Error: Brána nesmí být nikdy záporná!"@,
        Notice::ProductAdded => "Produkt přidán."@,
        Notice::ProductModified => "Produkt upraven."@,
        Notice::ProductNotAssigned => "Produkt musí být nejprve uživateli přiřazen."@,
        Notice::InsufficientNbr => "Konzument nemá dostatek NBR."@,
        Notice::SameParty => "Konzument a producent nesmí být stejná osoba."@,
        Notice::TransferComplete => "Transfer proveden."@,
        Notice::TransferDeleted => "Transfer smazán."@,
    }
}

/// The wording of a notice in the language that the switch selects.
pub open spec fn notice_text(n: Notice, dir: TemplateDir) -> Seq<char> {
    if dir.0 {
        czech_text(n)
    } else {
        english_text(n)
    }
}

impl Notice {
    /// The text of this notice in the selected language.
    pub fn text(self, dir: &TemplateDir) -> (s: &'static str)
        ensures
            s@ == notice_text(self, *dir),
    {
        if dir.0 {
            match self {
                Notice::UserAdded => "Uživatel přidán.",
                Notice::GatewayNegative => "Error: Brána nesmí být nikdy záporná!",
                Notice::ProductAdded => "Produkt přidán.",
                Notice::ProductModified => "Produkt upraven.",
                Notice::ProductNotAssigned => "Produkt musí být nejprve uživateli přiřazen.",
                Notice::InsufficientNbr => "Konzument nemá dostatek NBR.",
                Notice::SameParty => "Konzument a producent nesmí být stejná osoba.",
                Notice::TransferComplete => "Transfer proveden.",
                Notice::TransferDeleted => "Transfer smazán.",
            }
        } else {
            match self {
                Notice::UserAdded => "User added.",
                Notice::GatewayNegative => "Error: Gateway must never be negative!",
                Notice::ProductAdded => "Product added.",
                Notice::ProductModified => "Product modified.",
                Notice::ProductNotAssigned => "Product must be assigned to the user first.",
                Notice::InsufficientNbr => "Consumer has insufficient NBR.",
                Notice::SameParty => "Consumer and producer must not be the same.",
                Notice::TransferComplete => "Transfer complete.",
                Notice::TransferDeleted => "Transfer deleted.",
            }
        }
    }
}

/// What the front page shows: the pending flash message, or nothing.
pub fn index_message<'a>(flash: Option<&'a str>) -> (msg: &'a str)
    ensures
        msg@ == (match flash {
            Some(m) => m@,
            None => ""@,
        }),
{
    match flash {
        Some(m) => m,
        None => "",
    }
}

} // verus!
