//! The ledger as a mathematical state machine.
//!
//! A [`Ledger`] is the state between two records: the accounts, the log of
//! accepted deposits and withdrawals, and the set of open disputes. Each
//! operation is a function from one ledger to the next, together with the
//! verdict on the record. The engine's contracts are stated over these
//! functions.

use crate::account::{ClientInfo, Transaction};
use crate::amount::Amount;
use crate::decimal::{decimal_difference, decimal_sum};
use crate::record::{Operation, Rejection, Row};
use vstd::prelude::*;

verus! {

/// The state of the engine between two records.
#[verifier::ext_equal]
pub struct Ledger {
    /// The account of each client that ever received a deposit.
    pub clients: Map<u16, ClientInfo>,
    /// The accepted deposits and withdrawals, by transaction id.
    pub transactions: Map<u32, Transaction>,
    /// The transactions under an open dispute.
    pub disputed: Set<u32>,
}

impl Ledger {
    /// The ledger before the first record: no account, no transaction, no
    /// dispute.
    pub open spec fn empty() -> Ledger {
        Ledger { clients: Map::empty(), transactions: Map::empty(), disputed: Set::empty() }
    }

    /// Every logged transaction belongs to a client that has an account.
    pub open spec fn wf(self) -> bool {
        forall|tx: u32| #[trigger]
            self.transactions.contains_key(tx) ==> self.clients.contains_key(
                self.transactions[tx].client,
            )
    }

    /// Whether `client` has an account and it is locked.
    pub open spec fn is_locked(self, client: u16) -> bool {
        self.clients.contains_key(client) && self.clients[client].locked
    }

    /// The rules that decide, before anything is changed, whether a record
    /// may be applied.
    ///
    /// A deposit or withdrawal must bring a new transaction id, an amount
    /// that is not negative, and must not address a locked account; the rules
    /// are tried in this order. A dispute, resolve or chargeback must refer to
    /// a logged transaction; its amount is not looked at, and a locked account
    /// does not stop it.
    pub open spec fn validity(self, op: Operation, tx: u32, client: u16, amount: Amount) -> Result<
        (),
        Rejection,
    > {
        if op.creates_transaction() {
            if self.transactions.contains_key(tx) {
                Err(Rejection::DuplicateTransaction)
            } else if amount.is_negative() {
                Err(Rejection::NegativeAmount)
            } else if self.is_locked(client) {
                Err(Rejection::AccountLocked)
            } else {
                Ok(())
            }
        } else if !self.transactions.contains_key(tx) {
            Err(Rejection::UnknownTransaction)
        } else {
            Ok(())
        }
    }

    /// The account of `client` after a deposit of `amount`.
    pub open spec fn credited(self, client: u16, amount: Amount) -> ClientInfo {
        if self.clients.contains_key(client) {
            let info = self.clients[client];
            ClientInfo { available: decimal_sum(info.available, amount).unwrap(), ..info }
        } else {
            ClientInfo::opened(amount)
        }
    }

    /// Whether a decimal can hold the balance that a deposit leaves.
    pub open spec fn deposit_fits(self, client: u16, amount: Amount) -> bool {
        self.clients.contains_key(client) ==> decimal_sum(
            self.clients[client].available,
            amount,
        ) is Some
    }

    /// The ledger after a deposit: the transaction is logged with its amount
    /// and the amount is added to the available funds of the client, whose
    /// account is opened if there was none.
    pub open spec fn deposit(self, tx: u32, client: u16, amount: Amount) -> Ledger {
        Ledger {
            clients: self.clients.insert(client, self.credited(client, amount)),
            transactions: self.transactions.insert(tx, Transaction { client, amount }),
            disputed: self.disputed,
        }
    }

    /// Whether a decimal can hold the balance that a withdrawal would leave.
    pub open spec fn withdraw_fits(self, client: u16, amount: Amount) -> bool {
        self.clients.contains_key(client) ==> decimal_sum(
            self.clients[client].available,
            amount.negated(),
        ) is Some
    }

    /// The verdict on a valid withdrawal: the client must have
    /// an account, and the available funds less the amount must not fall
    /// below zero.
    pub open spec fn withdraw_verdict(self, client: u16, amount: Amount) -> Result<(), Rejection> {
        if !self.clients.contains_key(client) {
            Err(Rejection::UnknownClient)
        } else if decimal_sum(
            self.clients[client].available,
            amount.negated(),
        ).unwrap().is_negative() {
            Err(Rejection::InsufficientFunds)
        } else {
            Ok(())
        }
    }

    /// The ledger after a withdrawal. Where the verdict is `Ok`, the
    /// transaction is logged with the negated amount, which is added to the
    /// available funds. Otherwise nothing changes: the transaction id stays
    /// free.
    pub open spec fn withdraw(self, tx: u32, client: u16, amount: Amount) -> Ledger {
        if self.withdraw_verdict(client, amount) is Ok {
            let info = self.clients[client];
            Ledger {
                clients: self.clients.insert(
                    client,
                    ClientInfo {
                        available: decimal_sum(info.available, amount.negated()).unwrap(),
                        ..info
                    },
                ),
                transactions: self.transactions.insert(
                    tx,
                    Transaction { client, amount: amount.negated() },
                ),
                disputed: self.disputed,
            }
        } else {
            self
        }
    }

    /// The verdict on a dispute of a logged transaction: it must not be under
    /// dispute already, `client` must own it, and its logged amount must not
    /// exceed the available funds. A logged withdrawal has a negative amount,
    /// which the last rule stops only where the available funds are lower
    /// still.
    pub open spec fn dispute_verdict(self, tx: u32, client: u16) -> Result<(), Rejection> {
        if self.disputed.contains(tx) {
            Err(Rejection::AlreadyDisputed)
        } else if self.transactions[tx].client != client {
            Err(Rejection::ClientMismatch)
        } else if self.transactions[tx].amount.exceeds(self.clients[client].available) {
            Err(Rejection::AmountExceedsFunds)
        } else {
            Ok(())
        }
    }

    /// Whether decimals can hold the balances that a dispute would leave.
    pub open spec fn dispute_fits(self, tx: u32, client: u16) -> bool {
        self.dispute_verdict(tx, client) is Ok ==> {
            let info = self.clients[client];
            let amount = self.transactions[tx].amount;
            &&& decimal_difference(info.available, amount) is Some
            &&& decimal_sum(info.held, amount) is Some
        }
    }

    /// The ledger after a dispute. A transaction that was not under dispute
    /// is marked as disputed before the other rules are tried, so it stays
    /// marked when one of them rejects the record. Where the verdict is `Ok`,
    /// the logged amount moves from the available to the held funds.
    pub open spec fn dispute(self, tx: u32, client: u16) -> Ledger {
        match self.dispute_verdict(tx, client) {
            Err(Rejection::AlreadyDisputed) => self,
            Err(_) => Ledger { disputed: self.disputed.insert(tx), ..self },
            Ok(()) => {
                let info = self.clients[client];
                let amount = self.transactions[tx].amount;
                Ledger {
                    clients: self.clients.insert(
                        client,
                        ClientInfo {
                            available: decimal_difference(info.available, amount).unwrap(),
                            held: decimal_sum(info.held, amount).unwrap(),
                            locked: info.locked,
                        },
                    ),
                    transactions: self.transactions,
                    disputed: self.disputed.insert(tx),
                }
            },
        }
    }

    /// The verdict on a resolve or a chargeback of a logged transaction: it
    /// must be under dispute, `client` must own it, and its logged amount must
    /// not exceed the held funds.
    pub open spec fn settle_verdict(self, tx: u32, client: u16) -> Result<(), Rejection> {
        if !self.disputed.contains(tx) {
            Err(Rejection::NotDisputed)
        } else if self.transactions[tx].client != client {
            Err(Rejection::ClientMismatch)
        } else if self.transactions[tx].amount.exceeds(self.clients[client].held) {
            Err(Rejection::AmountExceedsFunds)
        } else {
            Ok(())
        }
    }

    /// Whether decimals can hold the balances that a resolve would leave.
    pub open spec fn resolve_fits(self, tx: u32, client: u16) -> bool {
        self.settle_verdict(tx, client) is Ok ==> {
            let info = self.clients[client];
            let amount = self.transactions[tx].amount;
            &&& decimal_sum(info.available, amount) is Some
            &&& decimal_difference(info.held, amount) is Some
        }
    }

    /// The ledger after a resolve. A transaction that was under dispute is
    /// no longer, whatever the verdict. Where the verdict is `Ok`, the logged
    /// amount moves back from the held to the available funds.
    pub open spec fn resolve(self, tx: u32, client: u16) -> Ledger {
        match self.settle_verdict(tx, client) {
            Err(Rejection::NotDisputed) => self,
            Err(_) => Ledger { disputed: self.disputed.remove(tx), ..self },
            Ok(()) => {
                let info = self.clients[client];
                let amount = self.transactions[tx].amount;
                Ledger {
                    clients: self.clients.insert(
                        client,
                        ClientInfo {
                            available: decimal_sum(info.available, amount).unwrap(),
                            held: decimal_difference(info.held, amount).unwrap(),
                            locked: info.locked,
                        },
                    ),
                    transactions: self.transactions,
                    disputed: self.disputed.remove(tx),
                }
            },
        }
    }

    /// Whether a decimal can hold the balance that a chargeback would leave.
    pub open spec fn chargeback_fits(self, tx: u32, client: u16) -> bool {
        self.settle_verdict(tx, client) is Ok ==> decimal_difference(
            self.clients[client].held,
            self.transactions[tx].amount,
        ) is Some
    }

    /// The ledger after a chargeback. A transaction that was under dispute is
    /// no longer, whatever the verdict. Where the verdict is `Ok`, the logged
    /// amount leaves the held funds and the account is locked.
    pub open spec fn chargeback(self, tx: u32, client: u16) -> Ledger {
        match self.settle_verdict(tx, client) {
            Err(Rejection::NotDisputed) => self,
            Err(_) => Ledger { disputed: self.disputed.remove(tx), ..self },
            Ok(()) => {
                let info = self.clients[client];
                let amount = self.transactions[tx].amount;
                Ledger {
                    clients: self.clients.insert(
                        client,
                        ClientInfo {
                            available: info.available,
                            held: decimal_difference(info.held, amount).unwrap(),
                            locked: true,
                        },
                    ),
                    transactions: self.transactions,
                    disputed: self.disputed.remove(tx),
                }
            },
        }
    }

    /// Whether decimals can hold every balance that the operation would
    /// leave.
    pub open spec fn fits(self, op: Operation, tx: u32, client: u16, amount: Amount) -> bool {
        match op {
            Operation::Deposit => self.deposit_fits(client, amount),
            Operation::Withdrawal => self.withdraw_fits(client, amount),
            Operation::Dispute => self.dispute_fits(tx, client),
            Operation::Resolve => self.resolve_fits(tx, client),
            Operation::Chargeback => self.chargeback_fits(tx, client),
        }
    }

    /// The verdict of the operation itself, on a valid record.
    pub open spec fn apply_verdict(self, op: Operation, tx: u32, client: u16, amount: Amount) -> Result<
        (),
        Rejection,
    > {
        match op {
            Operation::Deposit => Ok(()),
            Operation::Withdrawal => self.withdraw_verdict(client, amount),
            Operation::Dispute => self.dispute_verdict(tx, client),
            Operation::Resolve => self.settle_verdict(tx, client),
            Operation::Chargeback => self.settle_verdict(tx, client),
        }
    }

    /// The ledger after the operation, on a valid record.
    pub open spec fn apply(self, op: Operation, tx: u32, client: u16, amount: Amount) -> Ledger {
        match op {
            Operation::Deposit => self.deposit(tx, client, amount),
            Operation::Withdrawal => self.withdraw(tx, client, amount),
            Operation::Dispute => self.dispute(tx, client),
            Operation::Resolve => self.resolve(tx, client),
            Operation::Chargeback => self.chargeback(tx, client),
        }
    }

    /// The verdict on one record: `Ok` where it was applied, else the reason
    /// for which it was dropped. The `type` field is read first, then the
    /// record is validated, then the range of the resulting balances is
    /// checked, and last the operation gives its own verdict.
    pub open spec fn verdict(self, row: Row) -> Result<(), Rejection> {
        match Operation::named(row.op@) {
            None => Err(Rejection::UnknownOperation),
            Some(op) => {
                let amount = row.amount_or_zero();
                if self.validity(op, row.tx, row.client, amount) is Err {
                    self.validity(op, row.tx, row.client, amount)
                } else if !self.fits(op, row.tx, row.client, amount) {
                    Err(Rejection::Overflow)
                } else {
                    self.apply_verdict(op, row.tx, row.client, amount)
                }
            },
        }
    }

    /// The ledger after one record. A record that is invalid, that fails the
    /// range check, or whose `type` names no operation, changes nothing.
    pub open spec fn step(self, row: Row) -> Ledger {
        match Operation::named(row.op@) {
            None => self,
            Some(op) => {
                let amount = row.amount_or_zero();
                if self.validity(op, row.tx, row.client, amount) is Ok && self.fits(
                    op,
                    row.tx,
                    row.client,
                    amount,
                ) {
                    self.apply(op, row.tx, row.client, amount)
                } else {
                    self
                }
            },
        }
    }

    /// The ledger after the records of `rows`, applied in order.
    pub open spec fn replay(self, rows: Seq<Row>) -> Ledger
        decreases rows.len(),
    {
        if rows.len() == 0 {
            self
        } else {
            self.replay(rows.drop_last()).step(rows.last())
        }
    }

    /// The verdict on the record at `index` when `rows` is applied in order.
    pub open spec fn verdict_at(self, rows: Seq<Row>, index: int) -> Result<(), Rejection> {
        self.replay(rows.take(index)).verdict(rows[index])
    }
}

} // verus!
