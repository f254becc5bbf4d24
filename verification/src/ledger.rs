//! Transfers of products between members, and the NBR balances they move.
//!
//! A transfer hands `amount` units of a product from a producer to a
//! consumer. The producer is credited the transfer's NBR (the product's
//! benefit times the amount); the consumer is debited the transfer's GNBR
//! (the product's gateway times the amount). User 0 is the placeholder
//! consumer `-`: it is never debited, and a transfer to it records a GNBR
//! of zero. Deleting a transfer takes back both balance changes.
//!
//! The amounts themselves are floating-point numbers that the caller
//! computes; this module decides which rows and balances are written, and
//! in which direction.

use vstd::prelude::*;
use crate::notice::Notice;

verus! {

/// The placeholder consumer `-`, which pays nothing.
pub const PLACEHOLDER_USER: i64 = 0;

/// The parts of a requested transfer that decide its fate; the amount stays
/// with the caller.
pub struct TransferRequest {
    pub producer: i64,
    pub consumer: i64,
    pub product: i64,
    pub comment: String,
}

/// Whether a balance goes up or down.
#[derive(Clone, Copy, Debug, PartialEq, Eq, Structural)]
pub enum Flow {
    Credit,
    Debit,
}

/// Which of a transfer's two values a balance update moves.
#[derive(Clone, Copy, Debug, PartialEq, Eq, Structural)]
pub enum Quantity {
    /// The transfer's NBR: the product's benefit times the amount.
    Nbr,
    /// The transfer's GNBR: the product's gateway times the amount.
    Gnbr,
}

/// A change of one member's NBR balance.
#[derive(Clone, Copy, Debug, PartialEq, Eq, Structural)]
pub struct BalanceUpdate {
    pub user: i64,
    pub flow: Flow,
    pub quantity: Quantity,
}

/// The row that records a transfer.
pub struct TransferRecord {
    pub producer: i64,
    pub consumer: i64,
    pub product: i64,
    /// Whether the row's GNBR is the gateway times the amount; otherwise it is zero.
    pub charges_consumer: bool,
    /// The comment, or `None` (stored as NULL) when it was left empty.
    pub comment: Option<String>,
}

/// Everything a committed transfer writes: its row, then the balance updates in order.
pub struct TransferWrites {
    pub record: TransferRecord,
    pub updates: Vec<BalanceUpdate>,
}

/// What the caller does next while a transfer request is handled.
pub enum TransferStep {
    /// Read the consumer's NBR and report whether it falls short of the GNBR.
    LookUpBalance { consumer: i64 },
    /// Write the transfer, then answer with `reply`.
    Commit { writes: TransferWrites, reply: Notice },
    /// Write nothing and answer with this notice.
    Reply(Notice),
}

/// The deletion of a recorded transfer.
pub struct TransferDeletion {
    pub transfer_id: i64,
    pub updates: Vec<BalanceUpdate>,
    pub reply: Notice,
}

/// The balance updates of a committed transfer: the producer is credited the
/// NBR, and the consumer, unless it is the placeholder, is debited the GNBR.
pub open spec fn commit_updates(producer: i64, consumer: i64) -> Seq<BalanceUpdate> {
    let credit = BalanceUpdate { user: producer, flow: Flow::Credit, quantity: Quantity::Nbr };
    if consumer != PLACEHOLDER_USER {
        seq![credit, BalanceUpdate { user: consumer, flow: Flow::Debit, quantity: Quantity::Gnbr }]
    } else {
        seq![credit]
    }
}

/// The balance updates of a deleted transfer: the producer gives back the
/// recorded NBR and the consumer gets back the recorded GNBR.
pub open spec fn deletion_updates(producer: i64, consumer: i64) -> Seq<BalanceUpdate> {
    seq![
        BalanceUpdate { user: producer, flow: Flow::Debit, quantity: Quantity::Nbr },
        BalanceUpdate { user: consumer, flow: Flow::Credit, quantity: Quantity::Gnbr },
    ]
}

/// How a comment is stored: an empty comment is stored as NULL.
pub open spec fn stored_comment_view(comment: Seq<char>) -> Option<Seq<char>> {
    if comment.len() == 0 {
        None
    } else {
        Some(comment)
    }
}

/// The view of an optional string.
pub open spec fn opt_view(s: Option<String>) -> Option<Seq<char>> {
    match s {
        Some(t) => Some(t@),
        None => None,
    }
}

/// `writes` are exactly what committing `req` writes.
pub open spec fn writes_of(writes: TransferWrites, req: TransferRequest) -> bool {
    &&& writes.record.producer == req.producer
    &&& writes.record.consumer == req.consumer
    &&& writes.record.product == req.product
    &&& writes.record.charges_consumer == (req.consumer != PLACEHOLDER_USER)
    &&& opt_view(writes.record.comment) == stored_comment_view(req.comment@)
    &&& writes.updates@ == commit_updates(req.producer, req.consumer)
}

/// The comment as it is stored.
pub fn stored_comment(comment: &String) -> (stored: Option<String>)
    ensures
        opt_view(stored) == stored_comment_view(comment@),
        stored is None <==> comment@.len() == 0,
        stored matches Some(s) ==> s@ == comment@,
{
    if comment.as_str().is_empty() {
        None
    } else {
        Some(comment.clone())
    }
}

/// The comment as it is listed: a NULL comment is listed as empty.
pub fn listed_comment(stored: Option<String>) -> (listed: String)
    ensures
        listed@ == (match opt_view(stored) {
            Some(c) => c,
            None => Seq::<char>::empty(),
        }),
{
    match stored {
        Some(c) => c,
        None => String::new(),
    }
}

/// The writes of a transfer that passed every check.
fn transfer_writes(req: &TransferRequest) -> (writes: TransferWrites)
    ensures
        writes_of(writes, *req),
{
    let record = TransferRecord {
        producer: req.producer,
        consumer: req.consumer,
        product: req.product,
        charges_consumer: req.consumer != PLACEHOLDER_USER,
        comment: stored_comment(&req.comment),
    };
    let mut updates: Vec<BalanceUpdate> = Vec::new();
    updates.push(BalanceUpdate { user: req.producer, flow: Flow::Credit, quantity: Quantity::Nbr });
    if req.consumer != PLACEHOLDER_USER {
        updates.push(BalanceUpdate { user: req.consumer, flow: Flow::Debit, quantity: Quantity::Gnbr });
    }
    assert(updates@ =~= commit_updates(req.producer, req.consumer));
    TransferWrites { record, updates }
}

/// The first decision on a transfer request, once it is known whether the
/// producer offers the product: without the offer the transfer is refused,
/// otherwise the consumer's balance is read next.
pub fn after_product_lookup(req: &TransferRequest, offered: bool) -> (step: TransferStep)
    ensures
        offered ==> step == (TransferStep::LookUpBalance { consumer: req.consumer }),
        !offered ==> step == TransferStep::Reply(Notice::ProductNotAssigned),
{
    if offered {
        TransferStep::LookUpBalance { consumer: req.consumer }
    } else {
        TransferStep::Reply(Notice::ProductNotAssigned)
    }
}

/// The second decision, once it is known whether the consumer's NBR would
/// fall below zero by paying the GNBR (`short`, as `short_of` states it). A short consumer other than
/// the placeholder is refused; then a transfer to oneself is refused;
/// otherwise the transfer is committed.
pub fn after_balance_lookup(req: &TransferRequest, short: bool) -> (step: TransferStep)
    ensures
        short && req.consumer != PLACEHOLDER_USER ==> step == TransferStep::Reply(
            Notice::InsufficientNbr,
        ),
        !(short && req.consumer != PLACEHOLDER_USER) && req.producer == req.consumer ==> step
            == TransferStep::Reply(Notice::SameParty),
        !(short && req.consumer != PLACEHOLDER_USER) && req.producer != req.consumer ==> (
        step matches TransferStep::Commit { writes, reply } && writes_of(writes, *req) && reply
            == Notice::TransferComplete),
        (step is Commit) <==> (!(short && req.consumer != PLACEHOLDER_USER) && req.producer
            != req.consumer),
{
    if short && req.consumer != PLACEHOLDER_USER {
        TransferStep::Reply(Notice::InsufficientNbr)
    } else if req.producer == req.consumer {
        TransferStep::Reply(Notice::SameParty)
    } else {
        TransferStep::Commit { writes: transfer_writes(req), reply: Notice::TransferComplete }
    }
}

/// Plans the deletion of the transfer `transfer_id`, whose row names
/// `producer` and `consumer`.
pub fn deletion_plan(transfer_id: i64, producer: i64, consumer: i64) -> (plan: TransferDeletion)
    ensures
        plan.transfer_id == transfer_id,
        plan.updates@ == deletion_updates(producer, consumer),
        plan.reply == Notice::TransferDeleted,
{
    let mut updates: Vec<BalanceUpdate> = Vec::new();
    updates.push(BalanceUpdate { user: producer, flow: Flow::Debit, quantity: Quantity::Nbr });
    updates.push(BalanceUpdate { user: consumer, flow: Flow::Credit, quantity: Quantity::Gnbr });
    assert(updates@ =~= deletion_updates(producer, consumer));
    TransferDeletion { transfer_id, updates, reply: Notice::TransferDeleted }
}

// A model of the balances, to state what the updates do. Amounts are taken
// as exact numbers here; members missing from `bal` are left out, as an
// update of a missing member changes nothing.

/// The value that an update moves, given the transfer's NBR and GNBR.
pub open spec fn moved(u: BalanceUpdate, nbr: int, gnbr: int) -> int {
    match u.quantity {
        Quantity::Nbr => nbr,
        Quantity::Gnbr => gnbr,
    }
}

/// The balances after one update.
pub open spec fn apply_update(bal: Map<i64, int>, u: BalanceUpdate, nbr: int, gnbr: int) -> Map<
    i64,
    int,
> {
    if bal.contains_key(u.user) {
        let v = moved(u, nbr, gnbr);
        bal.insert(
            u.user,
            match u.flow {
                Flow::Credit => bal[u.user] + v,
                Flow::Debit => bal[u.user] - v,
            },
        )
    } else {
        bal
    }
}

/// The balances after a sequence of updates, applied in order.
pub open spec fn apply_updates(bal: Map<i64, int>, us: Seq<BalanceUpdate>, nbr: int, gnbr: int) -> Map<
    i64,
    int,
>
    decreases us.len(),
{
    if us.len() == 0 {
        bal
    } else {
        apply_update(apply_updates(bal, us.drop_last(), nbr, gnbr), us.last(), nbr, gnbr)
    }
}

/// The GNBR recorded in a transfer's row.
pub open spec fn recorded_gnbr(charges_consumer: bool, gnbr: int) -> int {
    if charges_consumer {
        gnbr
    } else {
        0
    }
}

/// Deleting a transfer undoes it: applying the deletion's updates, with the
/// values recorded in the row, to the balances left by the transfer gives
/// back the balances from before the transfer.
pub proof fn lemma_deletion_undoes_transfer(
    bal: Map<i64, int>,
    producer: i64,
    consumer: i64,
    nbr: int,
    gnbr: int,
)
    ensures
        ({
            let charges = consumer != PLACEHOLDER_USER;
            let after = apply_updates(bal, commit_updates(producer, consumer), nbr, gnbr);
            apply_updates(after, deletion_updates(producer, consumer), nbr, recorded_gnbr(charges, gnbr))
                == bal
        }),
{
    let c = commit_updates(producer, consumer);
    let d = deletion_updates(producer, consumer);
    let charges = consumer != PLACEHOLDER_USER;
    let rg = recorded_gnbr(charges, gnbr);
    reveal_with_fuel(apply_updates, 3);
    let after = apply_updates(bal, c, nbr, gnbr);
    assert(d.drop_last().drop_last() =~= Seq::<BalanceUpdate>::empty());
    if charges {
        assert(c.drop_last().drop_last() =~= Seq::<BalanceUpdate>::empty());
    } else {
        assert(c.drop_last() =~= Seq::<BalanceUpdate>::empty());
    }
    let back = apply_updates(after, d, nbr, rg);
    assert(back =~= bal);
}

/// A committed transfer changes exactly two balances by exactly its values:
/// the producer gains the NBR and the consumer, unless it is the
/// placeholder, loses the GNBR; every other balance stays.
pub proof fn lemma_commit_effect(bal: Map<i64, int>, producer: i64, consumer: i64, nbr: int, gnbr: int)
    requires
        producer != consumer,
        bal.contains_key(producer),
        bal.contains_key(consumer),
    ensures
        ({
            let after = apply_updates(bal, commit_updates(producer, consumer), nbr, gnbr);
            &&& after.dom() == bal.dom()
            &&& after[producer] == bal[producer] + nbr
            &&& after[consumer] == bal[consumer] - recorded_gnbr(consumer != PLACEHOLDER_USER, gnbr)
            &&& forall|u: i64| bal.contains_key(u) && u != producer && u != consumer ==> after[u] == bal[u]
        }),
{
    reveal_with_fuel(apply_updates, 3);
    let c = commit_updates(producer, consumer);
    if consumer != PLACEHOLDER_USER {
        assert(c.drop_last().drop_last() =~= Seq::<BalanceUpdate>::empty());
    } else {
        assert(c.drop_last() =~= Seq::<BalanceUpdate>::empty());
    }
    let after = apply_updates(bal, c, nbr, gnbr);
    assert(after.dom() =~= bal.dom());
}

/// The writes of a committed transfer touch only its two parties, and never
/// debit the placeholder consumer.
pub proof fn lemma_commit_touches_only_parties(req: TransferRequest, writes: TransferWrites)
    requires
        writes_of(writes, req),
    ensures
        forall|i: int|
            0 <= i < writes.updates@.len() && writes.updates@[i].flow == Flow::Debit
                ==> writes.updates@[i].user != PLACEHOLDER_USER,
        forall|i: int|
            0 <= i < writes.updates@.len() ==> writes.updates@[i].user == req.producer
                || writes.updates@[i].user == req.consumer,
{
}

/// Whether the consumer's balance would fall below zero by paying `gnbr`:
/// the test that decides `short` in `after_balance_lookup`.
pub open spec fn short_of(bal: Map<i64, int>, consumer: i64, gnbr: int) -> bool {
    bal[consumer] - gnbr < 0
}

/// A committed transfer never drives a member other than the placeholder
/// below zero NBR: when every such balance is non-negative, the transfer's
/// NBR is non-negative, and the transfer passed the checks of
/// `after_balance_lookup` with `short` decided by `short_of`, every such
/// balance stays non-negative.
pub proof fn lemma_commit_keeps_balances_non_negative(
    bal: Map<i64, int>,
    req: TransferRequest,
    writes: TransferWrites,
    nbr: int,
    gnbr: int,
)
    requires
        forall|u: i64| bal.contains_key(u) && u != PLACEHOLDER_USER ==> bal[u] >= 0,
        nbr >= 0,
        !(short_of(bal, req.consumer, gnbr) && req.consumer != PLACEHOLDER_USER),
        req.producer != req.consumer,
        writes_of(writes, req),
    ensures
        ({
            let after = apply_updates(bal, writes.updates@, nbr, gnbr);
            forall|u: i64| after.contains_key(u) && u != PLACEHOLDER_USER ==> after[u] >= 0
        }),
{
    reveal_with_fuel(apply_updates, 3);
    let c = commit_updates(req.producer, req.consumer);
    if req.consumer != PLACEHOLDER_USER {
        assert(c.drop_last().drop_last() =~= Seq::<BalanceUpdate>::empty());
    } else {
        assert(c.drop_last() =~= Seq::<BalanceUpdate>::empty());
    }
    let after = apply_updates(bal, c, nbr, gnbr);
    assert(after.dom() =~= bal.dom());
}

/// Storing a comment and listing it gives back the comment.
pub proof fn lemma_comment_round_trip(comment: Seq<char>)
    ensures
        (match stored_comment_view(comment) {
            Some(c) => c,
            None => Seq::<char>::empty(),
        }) == comment,
{
}

} // verus!
