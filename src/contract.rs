use vstd::prelude::*;

use crate::error::ContractError;
use crate::msg::{HandleMsg, InstantiateMsg, Instruction, Invocation, QueryMsg, QueryResponse, Terms};
use crate::state::{same_asset, Asset, Settlement, State, Status};
use crate::timestamp::{parse_timestamp, timestamp_seconds};
use vstd::utf8::encode_utf8;

verus! {

/// The due date of a new escrow, or why it is refused: the text must name an
/// instant strictly after `now`.
pub open spec fn due_date_spec(due: Option<String>, now: u64) -> Result<Option<u64>, ContractError> {
    match due {
        None => Ok(None),
        Some(text) => match timestamp_seconds(encode_utf8(text@)) {
            None => Err(ContractError::InvalidDueDate),
            Some(t) => if t <= now {
                Err(ContractError::DueDateNotInFuture)
            } else {
                Ok(Some(t as u64))
            },
        },
    }
}

/// A new escrow, pending capital. Where a linked instance is configured its
/// reported terms supply the capital provider and the capital; `linked` is
/// what querying that instance returned, `None` where the query failed or its
/// answer could not be read.
pub open spec fn instantiate_spec(msg: InstantiateMsg, now: u64, linked: Option<Terms>) -> Result<
    State,
    ContractError,
> {
    if msg.linked_instance is Some && linked is None {
        Err(ContractError::LinkedTermsUnavailable)
    } else {
        match due_date_spec(msg.due_date, now) {
            Err(e) => Err(e),
            Ok(due_date) => {
                let (capital_provider, capital) = match msg.linked_instance {
                    Some(_) => (linked->Some_0.capital_provider, linked->Some_0.capital),
                    None => (msg.capital_provider, msg.capital),
                };
                Ok(
                    State {
                        status: Status::PendingCapital,
                        capital_provider,
                        capital_user: msg.capital_user,
                        admin: msg.admin,
                        capital,
                        settlement: msg.settlement,
                        distribution: msg.distribution,
                        linked_instance: msg.linked_instance,
                        due_date,
                    },
                )
            },
        }
    }
}

/// What a successful action leaves behind: the next record and the
/// instructions for the host, in order.
pub type Transition = Result<(State, Seq<Instruction>), ContractError>;

/// The attached funds are exactly one deposit equal to `required`.
pub open spec fn deposit_is(funds: Seq<Asset>, required: Asset) -> bool {
    funds.len() == 1 && same_asset(funds[0], required)
}

/// Why the attached funds fail to pay `required`, if they do.
pub open spec fn deposit_error(funds: Seq<Asset>, required: Asset) -> Option<ContractError> {
    if funds.len() == 0 {
        Some(ContractError::MissingDeposit)
    } else if !deposit_is(funds, required) {
        Some(ContractError::DepositMismatch)
    } else {
        None
    }
}

/// A transfer with no memo.
pub open spec fn transfer(to: String, asset: Asset) -> Instruction {
    Instruction::Transfer { to, asset, memo: None }
}

/// The transfer of called capital to where it is distributed.
pub open spec fn payout(s: State) -> Instruction {
    Instruction::Transfer { to: s.payout_target(), asset: s.capital, memo: s.payout_memo() }
}

/// The provider deposits the capital.
pub open spec fn commit_spec(s: State, caller: Seq<char>, funds: Seq<Asset>, now: u64) -> Transition {
    if caller != s.capital_provider@ {
        Err(ContractError::Unauthorized)
    } else if s.status != Status::PendingCapital {
        Err(ContractError::NotPendingCapital)
    } else if s.is_past_due(now) {
        Err(ContractError::PastDue)
    } else if deposit_error(funds, s.capital) is Some {
        Err(deposit_error(funds, s.capital)->Some_0)
    } else {
        Ok((s.with_status(Status::CapitalCommitted), seq![]))
    }
}

/// The provider, or the admin, takes committed capital back.
pub open spec fn recall_spec(s: State, caller: Seq<char>, now: u64) -> Transition {
    if caller != s.capital_provider@ && !s.is_admin(caller) {
        Err(ContractError::Unauthorized)
    } else if s.status != Status::CapitalCommitted {
        Err(ContractError::CapitalNotCommitted)
    } else if s.is_past_due(now) {
        Err(ContractError::PastDue)
    } else {
        Ok((s.with_status(Status::PendingCapital), seq![transfer(s.capital_provider, s.capital)]))
    }
}

/// The capital user, or the admin, calls committed capital and settles.
pub open spec fn close_spec(s: State, caller: Seq<char>, funds: Seq<Asset>) -> Transition {
    if caller != s.capital_user@ && !s.is_admin(caller) {
        Err(ContractError::Unauthorized)
    } else if s.status != Status::CapitalCommitted {
        Err(ContractError::CapitalNotCommitted)
    } else {
        let called = s.with_status(Status::CapitalCalled);
        match s.settlement {
            Settlement::CapitalOnly => Ok((called, seq![payout(s)])),
            Settlement::Minted(a) => Ok(
                (
                    called,
                    seq![
                        Instruction::Mint { asset: a },
                        Instruction::Withdraw { asset: a, recipient: s.capital_provider },
                        payout(s),
                    ],
                ),
            ),
            Settlement::Deposited(a) => if deposit_error(funds, a) is Some {
                Err(deposit_error(funds, a)->Some_0)
            } else {
                Ok((called, seq![transfer(s.refund_target(), a), payout(s)]))
            },
        }
    }
}

/// The capital user, or the admin, cancels; capital held goes back.
pub open spec fn cancel_spec(s: State, caller: Seq<char>) -> Transition {
    if caller != s.capital_user@ && !s.is_admin(caller) {
        Err(ContractError::Unauthorized)
    } else if s.status == Status::CapitalCalled {
        Err(ContractError::AlreadyCalled)
    } else if s.status == Status::Cancelled {
        Err(ContractError::AlreadyCancelled)
    } else if s.status == Status::CapitalCommitted {
        Ok((s.with_status(Status::Cancelled), seq![transfer(s.refund_target(), s.capital)]))
    } else {
        Ok((s.with_status(Status::Cancelled), seq![]))
    }
}

/// One invocation of an action.
pub open spec fn execute_spec(s: State, caller: Seq<char>, funds: Seq<Asset>, now: u64, msg: HandleMsg) -> Transition {
    match msg {
        HandleMsg::CommitCapital => commit_spec(s, caller, funds, now),
        HandleMsg::RecallCapital => recall_spec(s, caller, now),
        HandleMsg::CallCapital | HandleMsg::Close => close_spec(s, caller, funds),
        HandleMsg::Cancel => cancel_spec(s, caller),
    }
}

/// `r`, with the record going from `before` to `after`, is the outcome `t`
/// describes; a refusal leaves the record as it was.
pub open spec fn realizes(
    r: Result<Vec<Instruction>, ContractError>,
    before: State,
    after: State,
    t: Transition,
) -> bool {
    match t {
        Ok((next, out)) => match r {
            Ok(v) => v@ == out && after == next,
            Err(_) => false,
        },
        Err(e) => r == Err::<Vec<Instruction>, ContractError>(e) && after == before,
    }
}

fn due_date_of(due: &Option<String>, now: u64) -> (r: Result<Option<u64>, ContractError>)
    ensures
        r == due_date_spec(*due, now),
{
    match due {
        None => Ok(None),
        Some(text) => match parse_timestamp(text.as_str()) {
            None => Err(ContractError::InvalidDueDate),
            Some(t) => if t <= now {
                Err(ContractError::DueDateNotInFuture)
            } else {
                Ok(Some(t))
            },
        },
    }
}

/// Creates the record of a new escrow from `msg` at time `now` (seconds since
/// the Unix epoch).
pub fn instantiate(msg: InstantiateMsg, now: u64, linked: Option<Terms>) -> (r: Result<
    State,
    ContractError,
>)
    ensures
        r == instantiate_spec(msg, now, linked),
{
    let ghost m = msg;
    if msg.linked_instance.is_some() && linked.is_none() {
        return Err(ContractError::LinkedTermsUnavailable);
    }
    let due_date = match due_date_of(&msg.due_date, now) {
        Ok(d) => d,
        Err(e) => {
            return Err(e);
        },
    };
    let InstantiateMsg {
        admin,
        capital_provider,
        capital_user,
        capital,
        settlement,
        distribution,
        due_date: _,
        linked_instance,
    } = msg;
    let (capital_provider, capital) = match (&linked_instance, linked) {
        (Some(_), Some(t)) => (t.capital_provider, t.capital),
        _ => (capital_provider, capital),
    };
    let state = State {
        status: Status::PendingCapital,
        capital_provider,
        capital_user,
        admin,
        capital,
        settlement,
        distribution,
        linked_instance,
        due_date,
    };
    Ok(state)
}

fn check_deposit(funds: &Vec<Asset>, required: &Asset) -> (r: Option<ContractError>)
    ensures
        r == deposit_error(funds@, *required),
{
    if funds.len() == 0 {
        Some(ContractError::MissingDeposit)
    } else if funds.len() != 1 || !funds[0].matches(required) {
        Some(ContractError::DepositMismatch)
    } else {
        None
    }
}

fn may_act_as(state: &State, party: &String, caller: &String) -> (r: bool)
    ensures
        r == (caller@ == party@ || state.is_admin(caller@)),
{
    *caller == *party || state.caller_is_admin(caller)
}

pub fn try_close_call(state: &mut State, info: &Invocation) -> (r: Result<Vec<Instruction>, ContractError>)
    ensures
        realizes(r, *old(state), *final(state), close_spec(*old(state), info.sender@, info.funds@)),
{
    if !may_act_as(state, &state.capital_user, &info.sender) {
        return Err(ContractError::Unauthorized);
    }
    if state.status != Status::CapitalCommitted {
        return Err(ContractError::CapitalNotCommitted);
    }
    let mut out: Vec<Instruction> = Vec::new();
    match &state.settlement {
        Settlement::CapitalOnly => {},
        Settlement::Minted(a) => {
            out.push(Instruction::Mint { asset: a.duplicate() });
            out.push(
                Instruction::Withdraw {
                    asset: a.duplicate(),
                    recipient: state.capital_provider.clone(),
                },
            );
        },
        Settlement::Deposited(a) => {
            match check_deposit(&info.funds, a) {
                Some(e) => {
                    return Err(e);
                },
                None => {},
            }
            out.push(
                Instruction::Transfer {
                    to: state.refund_target_exec(),
                    asset: a.duplicate(),
                    memo: None,
                },
            );
        },
    }
    out.push(
        Instruction::Transfer {
            to: state.payout_target_exec(),
            asset: state.capital.duplicate(),
            memo: state.payout_memo_exec(),
        },
    );
    state.status = Status::CapitalCalled;
    proof {
        let t = close_spec(*old(state), info.sender@, info.funds@);
        assert(out@ =~= t->Ok_0.1);
    }
    Ok(out)
}

pub fn try_cancel(state: &mut State, info: &Invocation) -> (r: Result<Vec<Instruction>, ContractError>)
    ensures
        realizes(r, *old(state), *final(state), cancel_spec(*old(state), info.sender@)),
{
    if !may_act_as(state, &state.capital_user, &info.sender) {
        return Err(ContractError::Unauthorized);
    }
    if state.status == Status::CapitalCalled {
        return Err(ContractError::AlreadyCalled);
    }
    if state.status == Status::Cancelled {
        return Err(ContractError::AlreadyCancelled);
    }
    let mut out: Vec<Instruction> = Vec::new();
    if state.status == Status::CapitalCommitted {
        out.push(
            Instruction::Transfer {
                to: state.refund_target_exec(),
                asset: state.capital.duplicate(),
                memo: None,
            },
        );
    }
    state.status = Status::Cancelled;
    proof {
        let t = cancel_spec(*old(state), info.sender@);
        assert(out@ =~= t->Ok_0.1);
    }
    Ok(out)
}

pub fn try_commit_capital(state: &mut State, info: &Invocation, now: u64) -> (r: Result<
    Vec<Instruction>,
    ContractError,
>)
    ensures
        realizes(r, *old(state), *final(state), commit_spec(*old(state), info.sender@, info.funds@, now)),
        r is Ok ==> {
            &&& old(state).status == Status::PendingCapital
            &&& final(state).status == Status::CapitalCommitted
            &&& deposit_is(info.funds@, old(state).capital)
        },
{
    if info.sender != state.capital_provider {
        return Err(ContractError::Unauthorized);
    }
    if state.status != Status::PendingCapital {
        return Err(ContractError::NotPendingCapital);
    }
    if state.past_due(now) {
        return Err(ContractError::PastDue);
    }
    match check_deposit(&info.funds, &state.capital) {
        Some(e) => {
            return Err(e);
        },
        None => {},
    }
    state.status = Status::CapitalCommitted;
    let out: Vec<Instruction> = Vec::new();
    proof {
        assert(out@ =~= seq![]);
    }
    Ok(out)
}

pub fn try_recall_capital(state: &mut State, info: &Invocation, now: u64) -> (r: Result<
    Vec<Instruction>,
    ContractError,
>)
    ensures
        realizes(r, *old(state), *final(state), recall_spec(*old(state), info.sender@, now)),
{
    if !may_act_as(state, &state.capital_provider, &info.sender) {
        return Err(ContractError::Unauthorized);
    }
    if state.status != Status::CapitalCommitted {
        return Err(ContractError::CapitalNotCommitted);
    }
    if state.past_due(now) {
        return Err(ContractError::PastDue);
    }
    let mut out: Vec<Instruction> = Vec::new();
    out.push(
        Instruction::Transfer {
            to: state.capital_provider.clone(),
            asset: state.capital.duplicate(),
            memo: None,
        },
    );
    state.status = Status::PendingCapital;
    proof {
        assert(out@ =~= seq![transfer(old(state).capital_provider, old(state).capital)]);
    }
    Ok(out)
}

/// Performs one action on the record. On success the record has moved to its
/// next status and the result lists the host's instructions in order; on a
/// refusal the record is exactly as it was.
pub fn execute(state: &mut State, info: &Invocation, now: u64, msg: HandleMsg) -> (r: Result<
    Vec<Instruction>,
    ContractError,
>)
    ensures
        realizes(r, *old(state), *final(state), execute_spec(*old(state), info.sender@, info.funds@, now, msg)),
        r is Err ==> *final(state) == *old(state),
{
    match msg {
        HandleMsg::CommitCapital => try_commit_capital(state, info, now),
        HandleMsg::RecallCapital => try_recall_capital(state, info, now),
        HandleMsg::CallCapital | HandleMsg::Close => try_close_call(state, info),
        HandleMsg::Cancel => try_cancel(state, info),
    }
}

/// The second asset of the terms, if the settlement has one.
pub open spec fn settlement_asset(s: Settlement) -> Option<Asset> {
    match s {
        Settlement::CapitalOnly => None,
        Settlement::Minted(a) => Some(a),
        Settlement::Deposited(a) => Some(a),
    }
}

/// The terms an escrow reports.
pub open spec fn terms_of(s: State) -> Terms {
    Terms {
        capital_provider: s.capital_provider,
        capital_user: s.capital_user,
        capital: s.capital,
        asset: settlement_asset(s.settlement),
    }
}

pub open spec fn query_spec(s: State, msg: QueryMsg) -> QueryResponse {
    match msg {
        QueryMsg::GetStatus => QueryResponse::Status(s.status),
        QueryMsg::GetTerms => QueryResponse::Terms(terms_of(s)),
    }
}

/// Answers a query from the record.
pub fn query(state: &State, msg: QueryMsg) -> (r: QueryResponse)
    ensures
        r == query_spec(*state, msg),
{
    match msg {
        QueryMsg::GetStatus => QueryResponse::Status(state.status),
        QueryMsg::GetTerms => {
            let asset = match &state.settlement {
                Settlement::CapitalOnly => None,
                Settlement::Minted(a) => Some(a.duplicate()),
                Settlement::Deposited(a) => Some(a.duplicate()),
            };
            QueryResponse::Terms(
                Terms {
                    capital_provider: state.capital_provider.clone(),
                    capital_user: state.capital_user.clone(),
                    capital: state.capital.duplicate(),
                    asset,
                },
            )
        },
    }
}

} // verus!
