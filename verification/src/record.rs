//! The records of the input stream and the reasons for which one is dropped.

use crate::amount::Amount;
use vstd::prelude::*;

verus! {

/// The five kinds of record.
#[derive(Clone, Copy, Debug, PartialEq, Eq, Structural)]
pub enum Operation {
    Deposit,
    Withdrawal,
    Dispute,
    Resolve,
    Chargeback,
}

impl Operation {
    /// The operation that a record's `type` field names. The match is exact
    /// and case-sensitive; any other text names no operation.
    pub open spec fn named(name: Seq<char>) -> Option<Operation> {
        if name == "deposit"@ {
            Some(Operation::Deposit)
        } else if name == "withdrawal"@ {
            Some(Operation::Withdrawal)
        } else if name == "dispute"@ {
            Some(Operation::Dispute)
        } else if name == "resolve"@ {
            Some(Operation::Resolve)
        } else if name == "chargeback"@ {
            Some(Operation::Chargeback)
        } else {
            None
        }
    }

    /// Reads the `type` field of a record.
    pub fn parse(name: &str) -> (r: Option<Operation>)
        ensures
            r == Self::named(name@),
    {
        let name = name.to_owned();
        if name == "deposit".to_owned() {
            Some(Operation::Deposit)
        } else if name == "withdrawal".to_owned() {
            Some(Operation::Withdrawal)
        } else if name == "dispute".to_owned() {
            Some(Operation::Dispute)
        } else if name == "resolve".to_owned() {
            Some(Operation::Resolve)
        } else if name == "chargeback".to_owned() {
            Some(Operation::Chargeback)
        } else {
            None
        }
    }

    /// Whether the operation creates a transaction (deposit, withdrawal)
    /// rather than referring to one (dispute, resolve, chargeback).
    pub open spec fn spec_creates_transaction(&self) -> bool {
        *self is Deposit || *self is Withdrawal
    }

    #[verifier::when_used_as_spec(spec_creates_transaction)]
    pub fn creates_transaction(&self) -> (b: bool)
        ensures
            b == self.creates_transaction(),
    {
        match self {
            Operation::Deposit | Operation::Withdrawal => true,
            _ => false,
        }
    }
}

/// Why a record was dropped. A dropped record never stops the stream.
#[derive(Clone, Copy, Debug, PartialEq, Eq, Structural)]
pub enum Rejection {
    /// The `type` field names none of the five operations.
    UnknownOperation,
    /// A deposit or withdrawal reuses the id of a logged transaction.
    DuplicateTransaction,
    /// A dispute, resolve or chargeback refers to an id that is not logged.
    UnknownTransaction,
    /// A deposit or withdrawal carries an amount below zero.
    NegativeAmount,
    /// A deposit or withdrawal addresses a locked account.
    AccountLocked,
    /// A withdrawal addresses a client that has no account.
    UnknownClient,
    /// A withdrawal exceeds the available funds.
    InsufficientFunds,
    /// A dispute refers to a transaction that is already under dispute.
    AlreadyDisputed,
    /// A resolve or chargeback refers to a transaction that is not under dispute.
    NotDisputed,
    /// A dispute, resolve or chargeback names a client that does not own the
    /// transaction.
    ClientMismatch,
    /// A dispute exceeds the available funds, or a resolve or chargeback the
    /// held funds.
    AmountExceedsFunds,
    /// Applying the record would take a balance out of the range of a decimal.
    Overflow,
}

/// One record of the input stream.
#[derive(Clone, Debug)]
pub struct Row {
    /// The `type` field, as it was read.
    pub op: String,
    pub client: u16,
    pub tx: u32,
    /// Present for deposits and withdrawals; an absent amount counts as zero.
    pub amount: Option<Amount>,
}

impl Row {
    /// The amount of the record, zero where it carries none.
    pub open spec fn spec_amount_or_zero(&self) -> Amount {
        match self.amount {
            Some(a) => a,
            None => Amount::zero(),
        }
    }

    /// Whether two records carry the same fields: the same text as `type`,
    /// the same client, transaction id and amount.
    pub open spec fn same_fields(self, other: Row) -> bool {
        &&& self.op@ == other.op@
        &&& self.client == other.client
        &&& self.tx == other.tx
        &&& self.amount == other.amount
    }

    #[verifier::when_used_as_spec(spec_amount_or_zero)]
    pub fn amount_or_zero(&self) -> (a: Amount)
        ensures
            a == self.amount_or_zero(),
    {
        match self.amount {
            Some(a) => a,
            None => Amount::zero(),
        }
    }
}

} // verus!
