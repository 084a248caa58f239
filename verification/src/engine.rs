//! The engine: the ledger in hash maps, and the operations that change it.

use crate::account::{Balance, ClientInfo, Transaction};
use crate::amount::Amount;
use crate::decimal::{checked_add, checked_sub, greater_than};
use crate::ledger::Ledger;
use crate::record::{Operation, Rejection, Row};
use std::collections::{HashMap, HashSet};
use vstd::prelude::*;
use vstd::std_specs::hash::group_hash_axioms;

verus! {

broadcast use group_hash_axioms;

/// A transaction engine that serves deposits, withdrawals, disputes,
/// resolves and chargebacks.
pub struct TransactionEngine {
    clients: HashMap<u16, ClientInfo>,
    transactions: HashMap<u32, Transaction>,
    disputed: HashSet<u32>,
}

impl View for TransactionEngine {
    type V = Ledger;

    closed spec fn view(&self) -> Ledger {
        Ledger {
            clients: self.clients@,
            transactions: self.transactions@,
            disputed: self.disputed@,
        }
    }
}

impl Default for TransactionEngine {
    fn default() -> (engine: Self)
        ensures
            engine@ == Ledger::empty(),
            engine.wf(),
    {
        TransactionEngine::new()
    }
}

impl TransactionEngine {
    /// The engine's invariant: that of its ledger.
    pub open spec fn wf(&self) -> bool {
        self@.wf()
    }

    /// An engine with an empty ledger.
    pub fn new() -> (engine: Self)
        ensures
            engine@ == Ledger::empty(),
            engine.wf(),
    {
        TransactionEngine {
            clients: HashMap::new(),
            transactions: HashMap::new(),
            disputed: HashSet::new(),
        }
    }

    /// Decides whether a record may be applied. Nothing is changed.
    pub fn valid(&self, op: Operation, tx: u32, client: u16, amount: Amount) -> (r: Result<
        (),
        Rejection,
    >)
        ensures
            r == self@.validity(op, tx, client, amount),
    {
        let logged = self.transactions.contains_key(&tx);
        if op.creates_transaction() {
            if logged {
                return Err(Rejection::DuplicateTransaction);
            }
            if amount.is_negative() {
                return Err(Rejection::NegativeAmount);
            }
            if let Some(info) = self.clients.get(&client) {
                if info.locked {
                    return Err(Rejection::AccountLocked);
                }
            }
            Ok(())
        } else if !logged {
            Err(Rejection::UnknownTransaction)
        } else {
            Ok(())
        }
    }

    /// Deposits funds. The record must be valid, and the new balance must
    /// be in the range of a decimal.
    pub fn deposit(&mut self, tx: u32, client: u16, amount: Amount)
        requires
            old(self).wf(),
            old(self)@.validity(Operation::Deposit, tx, client, amount) is Ok,
            old(self)@.deposit_fits(client, amount),
        ensures
            final(self).wf(),
            final(self)@ == old(self)@.deposit(tx, client, amount),
    {
        self.transactions.insert(tx, Transaction { client, amount });
        let info = match self.clients.get(&client) {
            Some(info) => ClientInfo {
                available: checked_add(info.available, amount).unwrap(),
                held: info.held,
                locked: info.locked,
            },
            None => ClientInfo::new(amount),
        };
        self.clients.insert(client, info);
    }

    /// Withdraws funds if the client has an account with enough available;
    /// otherwise the record is dropped and its transaction id stays free. The
    /// record must be valid, and the new balance must be in the range of a
    /// decimal.
    pub fn withdraw(&mut self, tx: u32, client: u16, amount: Amount) -> (r: Result<(), Rejection>)
        requires
            old(self).wf(),
            old(self)@.validity(Operation::Withdrawal, tx, client, amount) is Ok,
            old(self)@.withdraw_fits(client, amount),
        ensures
            final(self).wf(),
            r == old(self)@.withdraw_verdict(client, amount),
            final(self)@ == old(self)@.withdraw(tx, client, amount),
    {
        let amount = amount.negated();
        self.transactions.insert(tx, Transaction { client, amount });
        let account = match self.clients.get(&client) {
            Some(info) => Some(*info),
            None => None,
        };
        match account {
            Some(info) => {
                let left = checked_add(info.available, amount).unwrap();
                if !left.is_negative() {
                    self.clients.insert(
                        client,
                        ClientInfo { available: left, held: info.held, locked: info.locked },
                    );
                    Ok(())
                } else {
                    self.transactions.remove(&tx);
                    assert(self.transactions@ =~= old(self).transactions@);
                    Err(Rejection::InsufficientFunds)
                }
            },
            None => {
                self.transactions.remove(&tx);
                assert(self.transactions@ =~= old(self).transactions@);
                Err(Rejection::UnknownClient)
            },
        }
    }

    /// Handles a dispute, moving the logged amount from the available to the
    /// held funds. The transaction is marked as disputed before its owner and
    /// the funds are checked, and stays marked when the record is dropped for
    /// one of them. The transaction must be logged, and the new balances
    /// must be in the range of a decimal.
    pub fn dispute(&mut self, tx: u32, client: u16) -> (r: Result<(), Rejection>)
        requires
            old(self).wf(),
            old(self)@.transactions.contains_key(tx),
            old(self)@.dispute_fits(tx, client),
        ensures
            final(self).wf(),
            r == old(self)@.dispute_verdict(tx, client),
            final(self)@ == old(self)@.dispute(tx, client),
    {
        if self.disputed.contains(&tx) {
            return Err(Rejection::AlreadyDisputed);
        }
        self.disputed.insert(tx);
        let entry = *self.transactions.get(&tx).unwrap();
        if entry.client != client {
            return Err(Rejection::ClientMismatch);
        }
        let info = *self.clients.get(&client).unwrap();
        if greater_than(entry.amount, info.available) {
            return Err(Rejection::AmountExceedsFunds);
        }
        let available = checked_sub(info.available, entry.amount).unwrap();
        let held = checked_add(info.held, entry.amount).unwrap();
        self.clients.insert(client, ClientInfo { available, held, locked: info.locked });
        Ok(())
    }

    /// Resolves a dispute, moving the logged amount from the held funds back
    /// to the available funds. The dispute is closed before the owner and the
    /// funds are checked. The transaction must be logged, and the new
    /// balances must be in the range of a decimal.
    pub fn resolve(&mut self, tx: u32, client: u16) -> (r: Result<(), Rejection>)
        requires
            old(self).wf(),
            old(self)@.transactions.contains_key(tx),
            old(self)@.resolve_fits(tx, client),
        ensures
            final(self).wf(),
            r == old(self)@.settle_verdict(tx, client),
            final(self)@ == old(self)@.resolve(tx, client),
    {
        if !self.disputed.contains(&tx) {
            return Err(Rejection::NotDisputed);
        }
        self.disputed.remove(&tx);
        let entry = *self.transactions.get(&tx).unwrap();
        if entry.client != client {
            return Err(Rejection::ClientMismatch);
        }
        let info = *self.clients.get(&client).unwrap();
        if greater_than(entry.amount, info.held) {
            return Err(Rejection::AmountExceedsFunds);
        }
        let available = checked_add(info.available, entry.amount).unwrap();
        let held = checked_sub(info.held, entry.amount).unwrap();
        self.clients.insert(client, ClientInfo { available, held, locked: info.locked });
        Ok(())
    }

    /// Charges back a dispute, removing the logged amount from the held funds
    /// and locking the account. The dispute is closed before the owner and
    /// the funds are checked. The transaction must be logged, and the new
    /// balance must be in the range of a decimal.
    pub fn chargeback(&mut self, tx: u32, client: u16) -> (r: Result<(), Rejection>)
        requires
            old(self).wf(),
            old(self)@.transactions.contains_key(tx),
            old(self)@.chargeback_fits(tx, client),
        ensures
            final(self).wf(),
            r == old(self)@.settle_verdict(tx, client),
            final(self)@ == old(self)@.chargeback(tx, client),
    {
        if !self.disputed.contains(&tx) {
            return Err(Rejection::NotDisputed);
        }
        self.disputed.remove(&tx);
        let entry = *self.transactions.get(&tx).unwrap();
        if entry.client != client {
            return Err(Rejection::ClientMismatch);
        }
        let info = *self.clients.get(&client).unwrap();
        if greater_than(entry.amount, info.held) {
            return Err(Rejection::AmountExceedsFunds);
        }
        let held = checked_sub(info.held, entry.amount).unwrap();
        self.clients.insert(client, ClientInfo { available: info.available, held, locked: true });
        Ok(())
    }

    /// Whether decimals can hold every balance that the operation would
    /// leave. The record must be valid. Nothing is changed.
    pub fn fits(&self, op: Operation, tx: u32, client: u16, amount: Amount) -> (b: bool)
        requires
            self.wf(),
            self@.validity(op, tx, client, amount) is Ok,
        ensures
            b == self@.fits(op, tx, client, amount),
    {
        match op {
            Operation::Deposit => match self.clients.get(&client) {
                Some(info) => checked_add(info.available, amount).is_some(),
                None => true,
            },
            Operation::Withdrawal => match self.clients.get(&client) {
                Some(info) => checked_add(info.available, amount.negated()).is_some(),
                None => true,
            },
            Operation::Dispute => {
                if self.disputed.contains(&tx) {
                    return true;
                }
                let entry = *self.transactions.get(&tx).unwrap();
                if entry.client != client {
                    return true;
                }
                let info = *self.clients.get(&client).unwrap();
                if greater_than(entry.amount, info.available) {
                    return true;
                }
                checked_sub(info.available, entry.amount).is_some() && checked_add(
                    info.held,
                    entry.amount,
                ).is_some()
            },
            Operation::Resolve => {
                match self.disputed_amount(tx, client) {
                    Some((info, amount)) => checked_add(info.available, amount).is_some()
                        && checked_sub(info.held, amount).is_some(),
                    None => true,
                }
            },
            Operation::Chargeback => {
                match self.disputed_amount(tx, client) {
                    Some((info, amount)) => checked_sub(info.held, amount).is_some(),
                    None => true,
                }
            },
        }
    }

    /// The account and the logged amount that a resolve or a chargeback would
    /// work on, where its verdict is `Ok`.
    fn disputed_amount(&self, tx: u32, client: u16) -> (r: Option<(ClientInfo, Amount)>)
        requires
            self.wf(),
            self@.transactions.contains_key(tx),
        ensures
            r is Some <==> self@.settle_verdict(tx, client) is Ok,
            r matches Some((info, amount)) ==> info == self@.clients[client] && amount
                == self@.transactions[tx].amount,
    {
        if !self.disputed.contains(&tx) {
            return None;
        }
        let entry = *self.transactions.get(&tx).unwrap();
        if entry.client != client {
            return None;
        }
        let info = *self.clients.get(&client).unwrap();
        if greater_than(entry.amount, info.held) {
            return None;
        }
        Some((info, entry.amount))
    }

    /// Handles one record: reads its `type`, validates it, checks the range
    /// of the balances, and applies the operation. Returns `Ok` where the
    /// record was applied and the reason where it was dropped. A record that
    /// is dropped with [`Rejection::Overflow`], or as invalid, or for its
    /// `type`, leaves the ledger as it was.
    pub fn process(&mut self, row: &Row) -> (r: Result<(), Rejection>)
        requires
            old(self).wf(),
        ensures
            final(self).wf(),
            r == old(self)@.verdict(*row),
            final(self)@ == old(self)@.step(*row),
    {
        let op = match Operation::parse(row.op.as_str()) {
            Some(op) => op,
            None => {
                return Err(Rejection::UnknownOperation);
            },
        };
        let amount = row.amount_or_zero();
        if let Err(reason) = self.valid(op, row.tx, row.client, amount) {
            return Err(reason);
        }
        if !self.fits(op, row.tx, row.client, amount) {
            return Err(Rejection::Overflow);
        }
        match op {
            Operation::Deposit => {
                self.deposit(row.tx, row.client, amount);
                Ok(())
            },
            Operation::Withdrawal => self.withdraw(row.tx, row.client, amount),
            Operation::Dispute => self.dispute(row.tx, row.client),
            Operation::Resolve => self.resolve(row.tx, row.client),
            Operation::Chargeback => self.chargeback(row.tx, row.client),
        }
    }

    /// Handles the records of `rows` in order and returns the verdict on
    /// each.
    pub fn replay(&mut self, rows: &Vec<Row>) -> (verdicts: Vec<Result<(), Rejection>>)
        requires
            old(self).wf(),
        ensures
            final(self).wf(),
            final(self)@ == old(self)@.replay(rows@),
            verdicts@.len() == rows@.len(),
            forall|i: int|
                0 <= i < rows@.len() ==> verdicts@[i] == #[trigger] old(self)@.verdict_at(
                    rows@,
                    i,
                ),
    {
        let mut verdicts: Vec<Result<(), Rejection>> = Vec::new();
        let mut index: usize = 0;
        assert(rows@.take(0) =~= Seq::<Row>::empty());
        while index < rows.len()
            invariant
                index <= rows@.len(),
                self.wf(),
                self@ == old(self)@.replay(rows@.take(index as int)),
                verdicts@.len() == index,
                forall|i: int|
                    0 <= i < index ==> verdicts@[i] == #[trigger] old(self)@.verdict_at(rows@, i),
            decreases rows@.len() - index,
        {
            let verdict = self.process(&rows[index]);
            verdicts.push(verdict);
            proof {
                let done = rows@.take(index as int + 1);
                assert(done.drop_last() =~= rows@.take(index as int));
                assert(done.last() == rows@[index as int]);
            }
            index += 1;
        }
        assert(rows@.take(index as int) =~= rows@);
        verdicts
    }

    /// The accounts, by client id.
    pub fn clients(&self) -> (accounts: &HashMap<u16, ClientInfo>)
        ensures
            accounts@ == self@.clients,
    {
        &self.clients
    }

    /// The account of `client`, if it has one.
    pub fn client(&self, client: u16) -> (account: Option<ClientInfo>)
        ensures
            account is Some <==> self@.clients.contains_key(client),
            account matches Some(info) ==> info == self@.clients[client],
    {
        match self.clients.get(&client) {
            Some(info) => Some(*info),
            None => None,
        }
    }

    /// The logged transaction with id `tx`, if there is one.
    pub fn transaction(&self, tx: u32) -> (entry: Option<Transaction>)
        ensures
            entry is Some <==> self@.transactions.contains_key(tx),
            entry matches Some(logged) ==> logged == self@.transactions[tx],
    {
        match self.transactions.get(&tx) {
            Some(logged) => Some(*logged),
            None => None,
        }
    }

    /// Whether the transaction with id `tx` is under an open dispute.
    pub fn is_disputed(&self, tx: u32) -> (open: bool)
        ensures
            open == self@.disputed.contains(tx),
    {
        self.disputed.contains(&tx)
    }

    /// The final snapshot: one line for each client that has an account, in
    /// ascending order of the client ids.
    pub fn snapshot(&self) -> (lines: Vec<Balance>)
        ensures
            forall|i: int|
                0 <= i < lines@.len() ==> self@.clients.contains_key(#[trigger] lines@[i].client)
                    && lines@[i].shows(lines@[i].client, self@.clients[lines@[i].client]),
            forall|i: int, j: int|
                0 <= i < j < lines@.len() ==> lines@[i].client < lines@[j].client,
            forall|client: u16| #[trigger]
                self@.clients.contains_key(client) ==> exists|i: int|
                    0 <= i < lines@.len() && lines@[i].client == client,
    {
        let mut lines: Vec<Balance> = Vec::new();
        let mut next: u32 = 0;
        while next <= 0xffff
            invariant
                next <= 0x1_0000,
                forall|i: int|
                    0 <= i < lines@.len() ==> self@.clients.contains_key(
                        #[trigger] lines@[i].client,
                    ) && lines@[i].shows(lines@[i].client, self@.clients[lines@[i].client])
                        && lines@[i].client < next,
                forall|i: int, j: int|
                    0 <= i < j < lines@.len() ==> lines@[i].client < lines@[j].client,
                forall|client: u16| #[trigger]
                    self@.clients.contains_key(client) && client < next ==> exists|i: int|
                        0 <= i < lines@.len() && lines@[i].client == client,
            decreases 0x1_0000 - next,
        {
            let client = next as u16;
            let ghost before = lines@;
            if let Some(info) = self.clients.get(&client) {
                lines.push(Balance::of(client, info));
            }
            proof {
                assert forall|other: u16| #[trigger]
                    self@.clients.contains_key(other) && other < next + 1 implies exists|i: int|
                    0 <= i < lines@.len() && lines@[i].client == other by {
                    if other == client {
                        assert(lines@[lines@.len() - 1].client == client);
                    } else {
                        let i = choose|i: int| 0 <= i < before.len() && before[i].client == other;
                        assert(lines@[i].client == other);
                    }
                }
            }
            next += 1;
        }
        lines
    }
}

} // verus!
