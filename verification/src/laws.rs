//! What holds of every ledger and every record.

use crate::amount::Amount;
use crate::ledger::Ledger;
use crate::record::{Operation, Rejection, Row};
use vstd::prelude::*;

verus! {

/// Whether two streams hold the same records in the same order.
pub open spec fn same_stream(first: Seq<Row>, second: Seq<Row>) -> bool {
    &&& first.len() == second.len()
    &&& forall|i: int| 0 <= i < first.len() ==> (#[trigger] first[i]).same_fields(second[i])
}

/// A record keeps the ledger well formed.
pub proof fn step_preserves_wf(ledger: Ledger, row: Row)
    requires
        ledger.wf(),
    ensures
        ledger.step(row).wf(),
{
}

/// A stream of records keeps the ledger well formed.
pub proof fn replay_preserves_wf(ledger: Ledger, rows: Seq<Row>)
    requires
        ledger.wf(),
    ensures
        ledger.replay(rows).wf(),
    decreases rows.len(),
{
    if rows.len() > 0 {
        replay_preserves_wf(ledger, rows.drop_last());
        step_preserves_wf(ledger.replay(rows.drop_last()), rows.last());
    }
}

/// No record removes an account, and no record unlocks one: a client that
/// has an account has one after the record, and a locked account is locked
/// after it.
pub proof fn step_keeps_accounts_and_locks(ledger: Ledger, row: Row, client: u16)
    requires
        ledger.wf(),
        ledger.clients.contains_key(client),
    ensures
        ledger.step(row).clients.contains_key(client),
        ledger.is_locked(client) ==> ledger.step(row).is_locked(client),
{
}

/// Locks are monotonic over a whole stream: an account that is locked stays
/// locked whatever records follow.
pub proof fn replay_keeps_accounts_and_locks(ledger: Ledger, rows: Seq<Row>, client: u16)
    requires
        ledger.wf(),
        ledger.clients.contains_key(client),
    ensures
        ledger.replay(rows).clients.contains_key(client),
        ledger.is_locked(client) ==> ledger.replay(rows).is_locked(client),
    decreases rows.len(),
{
    if rows.len() > 0 {
        let before = ledger.replay(rows.drop_last());
        replay_keeps_accounts_and_locks(ledger, rows.drop_last(), client);
        replay_preserves_wf(ledger, rows.drop_last());
        step_keeps_accounts_and_locks(before, rows.last(), client);
    }
}

/// An account is locked by nothing but a chargeback that is applied to it.
pub proof fn only_a_chargeback_locks(ledger: Ledger, row: Row, client: u16)
    requires
        ledger.wf(),
        !ledger.is_locked(client),
        ledger.step(row).is_locked(client),
    ensures
        Operation::named(row.op@) == Some(Operation::Chargeback),
        row.client == client,
        ledger.verdict(row) is Ok,
{
}

/// A deposit or a withdrawal that addresses a locked account is dropped and
/// changes nothing.
pub proof fn locked_account_refuses_funds(ledger: Ledger, row: Row)
    requires
        Operation::named(row.op@) matches Some(op) && op.creates_transaction(),
        ledger.is_locked(row.client),
    ensures
        ledger.verdict(row) is Err,
        ledger.step(row) == ledger,
{
}

/// Once an account is locked, no deposit and no withdrawal reaches it any
/// more: whatever records are handled in between, such a record is dropped
/// and changes nothing.
pub proof fn locked_account_refuses_funds_later(ledger: Ledger, rows: Seq<Row>, row: Row)
    requires
        ledger.wf(),
        Operation::named(row.op@) matches Some(op) && op.creates_transaction(),
        ledger.is_locked(row.client),
    ensures
        ledger.replay(rows).verdict(row) is Err,
        ledger.replay(rows).step(row) == ledger.replay(rows),
{
    replay_keeps_accounts_and_locks(ledger, rows, row.client);
    locked_account_refuses_funds(ledger.replay(rows), row);
}

/// Only the dispute, the resolve and the chargeback of a transaction touch
/// the held funds: a deposit or a withdrawal leaves the held funds of every
/// account as they were, and opens an account with nothing held.
pub proof fn funding_keeps_held(ledger: Ledger, row: Row, client: u16)
    requires
        Operation::named(row.op@) matches Some(op) && op.creates_transaction(),
        ledger.step(row).clients.contains_key(client),
    ensures
        ledger.step(row).clients[client].held == if ledger.clients.contains_key(client) {
            ledger.clients[client].held
        } else {
            Amount::zero()
        },
        ledger.step(row).disputed == ledger.disputed,
{
}

/// A record changes no account but that of the client it addresses.
pub proof fn step_touches_one_account(ledger: Ledger, row: Row, other: u16)
    requires
        other != row.client,
    ensures
        ledger.step(row).clients.contains_key(other) == ledger.clients.contains_key(other),
        ledger.step(row).clients[other] == ledger.clients[other],
{
}

/// A logged transaction is never changed and never removed.
pub proof fn step_keeps_log(ledger: Ledger, row: Row, tx: u32)
    requires
        ledger.transactions.contains_key(tx),
    ensures
        ledger.step(row).transactions.contains_key(tx),
        ledger.step(row).transactions[tx] == ledger.transactions[tx],
{
}

/// A record that was dropped is dropped again when it is handled a second
/// time right away, and the second time changes nothing.
///
/// The reason is the same both times, with one exception. A dispute, resolve
/// or chargeback that was dropped for its client or for the funds has already
/// opened or closed the dispute, so the second time it is dropped because the
/// transaction is already, or no longer, under dispute.
pub proof fn dropped_record_is_dropped_again(ledger: Ledger, row: Row)
    requires
        ledger.wf(),
        ledger.verdict(row) is Err,
    ensures
        ledger.step(row).verdict(row) is Err,
        ledger.step(row).step(row) == ledger.step(row),
        ledger.verdict(row) != Err::<(), Rejection>(Rejection::ClientMismatch) && ledger.verdict(
            row,
        ) != Err::<(), Rejection>(Rejection::AmountExceedsFunds) ==> ledger.step(row) == ledger
            && ledger.step(row).verdict(row) == ledger.verdict(row),
        ledger.verdict(row) == Err::<(), Rejection>(Rejection::ClientMismatch) || ledger.verdict(
            row,
        ) == Err::<(), Rejection>(Rejection::AmountExceedsFunds) ==> ledger.step(row).verdict(row)
            == if Operation::named(row.op@) == Some(Operation::Dispute) {
            Err::<(), Rejection>(Rejection::AlreadyDisputed)
        } else {
            Err::<(), Rejection>(Rejection::NotDisputed)
        },
{
    let after = ledger.step(row);
    if after != ledger {
        let op = Operation::named(row.op@).unwrap();
        if op is Dispute {
            assert(after.disputed.contains(row.tx));
            assert(after.dispute(row.tx, row.client) == after);
        } else {
            assert(!after.disputed.contains(row.tx));
        }
    }
}

/// Records with the same fields have the same effect on a ledger.
pub proof fn step_reads_fields_only(ledger: Ledger, first: Row, second: Row)
    requires
        first.same_fields(second),
    ensures
        ledger.step(first) == ledger.step(second),
        ledger.verdict(first) == ledger.verdict(second),
{
}

/// Replay is deterministic: two streams that hold the same records in the
/// same order take a ledger to the same ledger, so to the same available
/// funds, held funds and lock of every client.
pub proof fn replay_is_deterministic(ledger: Ledger, first: Seq<Row>, second: Seq<Row>)
    requires
        same_stream(first, second),
    ensures
        ledger.replay(first) == ledger.replay(second),
    decreases first.len(),
{
    if first.len() > 0 {
        replay_is_deterministic(ledger, first.drop_last(), second.drop_last());
        step_reads_fields_only(ledger.replay(first.drop_last()), first.last(), second.last());
    }
}

/// Replaying a stream in two parts is replaying it whole.
pub proof fn replay_in_parts(ledger: Ledger, head: Seq<Row>, tail: Seq<Row>)
    ensures
        ledger.replay(head + tail) == ledger.replay(head).replay(tail),
    decreases tail.len(),
{
    if tail.len() == 0 {
        assert(head + tail =~= head);
    } else {
        assert((head + tail).drop_last() =~= head + tail.drop_last());
        assert((head + tail).last() == tail.last());
        replay_in_parts(ledger, head, tail.drop_last());
    }
}

} // verus!
