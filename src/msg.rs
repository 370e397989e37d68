use vstd::prelude::*;

use crate::state::{Asset, Distribution, Settlement, Status};

verus! {

/// What an escrow is created from.
#[derive(Clone, Debug, PartialEq, Eq)]
pub struct InstantiateMsg {
    pub admin: Option<String>,
    pub capital_provider: String,
    pub capital_user: String,
    pub capital: Asset,
    pub settlement: Settlement,
    pub distribution: Option<Distribution>,
    /// An RFC 3339 timestamp.
    pub due_date: Option<String>,
    pub linked_instance: Option<String>,
}

/// The actions that drive an escrow.
#[derive(Clone, Copy, Debug, PartialEq, Eq, Structural)]
pub enum HandleMsg {
    CommitCapital,
    RecallCapital,
    CallCapital,
    Close,
    Cancel,
}

#[derive(Clone, Copy, Debug, PartialEq, Eq, Structural)]
pub enum QueryMsg {
    GetStatus,
    GetTerms,
}

/// The terms an escrow reports, to a query or to an instance linked to it.
#[derive(Clone, Debug, PartialEq, Eq)]
pub struct Terms {
    pub capital_provider: String,
    pub capital_user: String,
    pub capital: Asset,
    pub asset: Option<Asset>,
}

#[derive(Clone, Debug, PartialEq, Eq)]
pub enum QueryResponse {
    Status(Status),
    Terms(Terms),
}

/// Who invokes an action, and what it attaches.
#[derive(Clone, Debug, PartialEq, Eq)]
pub struct Invocation {
    pub sender: String,
    pub funds: Vec<Asset>,
}

/// A settlement step for the host to carry out. The escrow only describes it.
#[derive(Clone, Debug, PartialEq, Eq)]
pub enum Instruction {
    /// Send an asset to an address, with an optional memo attribute.
    Transfer { to: String, asset: Asset, memo: Option<String> },
    /// Raise the circulating supply of an asset into its holding account.
    Mint { asset: Asset },
    /// Move an asset out of its holding account to a recipient.
    Withdraw { asset: Asset, recipient: String },
}

} // verus!
