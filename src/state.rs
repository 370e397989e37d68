use vstd::prelude::*;

verus! {

/// Where an escrow stands in its lifecycle.
#[derive(Clone, Copy, Debug, PartialEq, Eq, Structural)]
pub enum Status {
    PendingCapital,
    CapitalCommitted,
    CapitalCalled,
    Cancelled,
}

impl Status {
    /// No action moves an escrow out of this status.
    pub open spec fn is_terminal(self) -> bool {
        self == Status::CapitalCalled || self == Status::Cancelled
    }
}

/// The directed edges along which the status of an escrow may move.
pub open spec fn is_status_edge(from: Status, to: Status) -> bool {
    ||| from == Status::PendingCapital && to == Status::CapitalCommitted
    ||| from == Status::CapitalCommitted && to == Status::CapitalCalled
    ||| from == Status::CapitalCommitted && to == Status::PendingCapital
    ||| from == Status::PendingCapital && to == Status::Cancelled
    ||| from == Status::CapitalCommitted && to == Status::Cancelled
}

/// An amount of one denomination.
#[derive(Clone, Debug, PartialEq, Eq)]
pub struct Asset {
    pub denom: String,
    pub amount: u128,
}

/// Same denomination and same amount.
pub open spec fn same_asset(a: Asset, b: Asset) -> bool {
    a.denom@ == b.denom@ && a.amount == b.amount
}

impl Asset {
    pub fn new(amount: u128, denom: &str) -> (r: Asset)
        ensures
            r.amount == amount,
            r.denom@ == denom@,
    {
        Asset { denom: denom.to_owned(), amount }
    }

    pub fn duplicate(&self) -> (r: Asset)
        ensures
            r == *self,
    {
        Asset { denom: self.denom.clone(), amount: self.amount }
    }

    /// Exact match in denomination and amount.
    pub fn matches(&self, other: &Asset) -> (r: bool)
        ensures
            r == same_asset(*self, *other),
    {
        self.amount == other.amount && self.denom == other.denom
    }
}

/// How a second asset changes hands when capital is called.
#[derive(Clone, Debug, PartialEq, Eq)]
pub enum Settlement {
    /// Only the capital moves.
    CapitalOnly,
    /// New supply of this asset is minted and withdrawn from its holding
    /// account to the capital provider.
    Minted(Asset),
    /// The capital user deposits exactly this asset when closing, and it goes
    /// to the provider's side.
    Deposited(Asset),
}

/// Where called capital goes, and the tag attached to that transfer.
#[derive(Clone, Debug, PartialEq, Eq)]
pub struct Distribution {
    pub target: String,
    pub memo: String,
}

/// The one persisted record of an escrow instance.
#[derive(Clone, Debug, PartialEq, Eq)]
pub struct State {
    pub status: Status,
    /// The party that deposits the capital.
    pub capital_provider: String,
    /// The party entitled to call the capital.
    pub capital_user: String,
    /// A party allowed to recall, call or cancel beside the primary one.
    pub admin: Option<String>,
    /// What the provider must deposit, exactly.
    pub capital: Asset,
    pub settlement: Settlement,
    pub distribution: Option<Distribution>,
    /// The instance whose terms configured this one; refunds go there.
    pub linked_instance: Option<String>,
    /// Seconds since the Unix epoch after which commit and recall are refused.
    pub due_date: Option<u64>,
}

impl State {
    /// The same record with only its status replaced.
    pub open spec fn with_status(self, status: Status) -> State {
        State { status, ..self }
    }

    /// Where refunds of capital and the provider's side of a settlement go.
    pub open spec fn refund_target(self) -> String {
        match self.linked_instance {
            Some(l) => l,
            None => self.capital_provider,
        }
    }

    /// Where called capital goes.
    pub open spec fn payout_target(self) -> String {
        match self.distribution {
            Some(d) => d.target,
            None => self.capital_user,
        }
    }

    /// The tag attached to the transfer of called capital.
    pub open spec fn payout_memo(self) -> Option<String> {
        match self.distribution {
            Some(d) => Some(d.memo),
            None => None,
        }
    }

    /// The caller is the admin, where one is configured.
    pub open spec fn is_admin(self, caller: Seq<char>) -> bool {
        match self.admin {
            Some(a) => a@ == caller,
            None => false,
        }
    }

    /// Now is after the due date, where one is set.
    pub open spec fn is_past_due(self, now: u64) -> bool {
        match self.due_date {
            Some(d) => now > d,
            None => false,
        }
    }

    pub fn refund_target_exec(&self) -> (r: String)
        ensures
            r == self.refund_target(),
    {
        match &self.linked_instance {
            Some(l) => l.clone(),
            None => self.capital_provider.clone(),
        }
    }

    pub fn payout_target_exec(&self) -> (r: String)
        ensures
            r == self.payout_target(),
    {
        match &self.distribution {
            Some(d) => d.target.clone(),
            None => self.capital_user.clone(),
        }
    }

    pub fn payout_memo_exec(&self) -> (r: Option<String>)
        ensures
            r == self.payout_memo(),
    {
        match &self.distribution {
            Some(d) => Some(d.memo.clone()),
            None => None,
        }
    }

    pub fn caller_is_admin(&self, caller: &String) -> (r: bool)
        ensures
            r == self.is_admin(caller@),
    {
        match &self.admin {
            Some(a) => *a == *caller,
            None => false,
        }
    }

    pub fn past_due(&self, now: u64) -> (r: bool)
        ensures
            r == self.is_past_due(now),
    {
        match self.due_date {
            Some(d) => now > d,
            None => false,
        }
    }
}

} // verus!
