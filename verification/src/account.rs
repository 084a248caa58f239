//! Per-client balances and logged transactions.

use crate::amount::Amount;
use crate::decimal::{checked_add, decimal_sum};
use vstd::prelude::*;

verus! {

/// The balances of one client. The total is never stored: it is the sum of
/// the available and the held funds.
#[derive(Clone, Copy, Debug)]
pub struct ClientInfo {
    /// Funds that can be withdrawn.
    pub available: Amount,
    /// Funds frozen by open disputes. Negative while a withdrawal is disputed.
    pub held: Amount,
    /// Set by a chargeback, never cleared.
    pub locked: bool,
}

impl ClientInfo {
    /// The account that a first deposit of `amount` opens.
    pub open spec fn opened(amount: Amount) -> ClientInfo {
        ClientInfo { available: amount, held: Amount::zero(), locked: false }
    }

    /// Opens an account with `amount` available, nothing held, not locked.
    pub fn new(amount: Amount) -> (r: ClientInfo)
        ensures
            r == Self::opened(amount),
    {
        ClientInfo { available: amount, held: Amount::zero(), locked: false }
    }

    /// The decimal sum of the available and the held funds, where a decimal
    /// can hold it.
    pub open spec fn spec_checked_total(&self) -> Option<Amount> {
        decimal_sum(self.available, self.held)
    }

    /// The total funds: available plus held.
    pub fn total(&self) -> (t: Amount)
        requires
            self.checked_total() is Some,
        ensures
            Some(t) == decimal_sum(self.available, self.held),
    {
        checked_add(self.available, self.held).unwrap()
    }

    /// The total funds, or `None` where the sum is out of a decimal's range.
    #[verifier::when_used_as_spec(spec_checked_total)]
    pub fn checked_total(&self) -> (t: Option<Amount>)
        ensures
            t == decimal_sum(self.available, self.held),
    {
        match checked_add(self.available, self.held) {
            Some(_) => Some(self.total()),
            None => None,
        }
    }
}

/// A logged deposit or withdrawal. The sign of the amount tells which: a
/// deposit is logged as it came, a withdrawal negated.
#[derive(Clone, Copy, Debug)]
pub struct Transaction {
    pub client: u16,
    pub amount: Amount,
}

/// One line of the final snapshot: a client and its balances.
#[derive(Clone, Copy, Debug)]
pub struct Balance {
    pub client: u16,
    pub available: Amount,
    pub held: Amount,
    /// Available plus held; `None` where the sum is out of a decimal's range.
    pub total: Option<Amount>,
    pub locked: bool,
}

impl Balance {
    /// Whether this line shows the account `info` of `client`.
    pub open spec fn shows(self, client: u16, info: ClientInfo) -> bool {
        &&& self.client == client
        &&& self.available == info.available
        &&& self.held == info.held
        &&& self.total == decimal_sum(info.available, info.held)
        &&& self.locked == info.locked
    }

    /// The line for the account `info` of `client`.
    pub fn of(client: u16, info: &ClientInfo) -> (line: Balance)
        ensures
            line.shows(client, *info),
    {
        Balance {
            client,
            available: info.available,
            held: info.held,
            total: info.checked_total(),
            locked: info.locked,
        }
    }
}

} // verus!
