use vstd::prelude::*;

use crate::contract::{deposit_is, execute_spec, transfer, Transition};
use crate::error::{ContractError, ErrorKind};
use crate::msg::{HandleMsg, Instruction};
use crate::state::{is_status_edge, Asset, State, Status};

verus! {

/// The record an action leads to, where it succeeds.
pub open spec fn next_state(t: Transition) -> State {
    t->Ok_0.0
}

/// The instructions an action emits, where it succeeds.
pub open spec fn emitted(t: Transition) -> Seq<Instruction> {
    t->Ok_0.1
}

/// A successful commit starts from pending capital, ends in committed
/// capital, and took exactly one deposit equal to the required capital.
pub proof fn lemma_commit_takes_exact_capital(s: State, caller: Seq<char>, funds: Seq<Asset>, now: u64)
    ensures
        execute_spec(s, caller, funds, now, HandleMsg::CommitCapital) is Ok ==> {
            let t = execute_spec(s, caller, funds, now, HandleMsg::CommitCapital);
            &&& s.status == Status::PendingCapital
            &&& next_state(t).status == Status::CapitalCommitted
            &&& deposit_is(funds, s.capital)
            &&& emitted(t).len() == 0
        },
{
}

/// Calling or closing succeeds only from committed capital, and always ends
/// in called capital.
pub proof fn lemma_call_only_from_committed(
    s: State,
    caller: Seq<char>,
    funds: Seq<Asset>,
    now: u64,
    msg: HandleMsg,
)
    requires
        msg == HandleMsg::CallCapital || msg == HandleMsg::Close,
    ensures
        execute_spec(s, caller, funds, now, msg) is Ok ==> {
            &&& s.status == Status::CapitalCommitted
            &&& next_state(execute_spec(s, caller, funds, now, msg)).status == Status::CapitalCalled
        },
{
}

/// No action succeeds once capital has been called, or once the escrow has
/// been cancelled.
pub proof fn lemma_terminal_status_is_final(
    s: State,
    caller: Seq<char>,
    funds: Seq<Asset>,
    now: u64,
    msg: HandleMsg,
)
    requires
        s.status.is_terminal(),
    ensures
        execute_spec(s, caller, funds, now, msg) is Err,
{
}

/// Cancelling is refused once capital has been called or the escrow has been
/// cancelled; to a caller who may cancel, with a state error.
pub proof fn lemma_cancel_refused_when_terminal(s: State, caller: Seq<char>, funds: Seq<Asset>, now: u64)
    requires
        s.status == Status::CapitalCalled || s.status == Status::Cancelled,
    ensures
        execute_spec(s, caller, funds, now, HandleMsg::Cancel) is Err,
        caller == s.capital_user@ || s.is_admin(caller) ==> execute_spec(
            s,
            caller,
            funds,
            now,
            HandleMsg::Cancel,
        )->Err_0.spec_kind() == ErrorKind::State,
{
}

/// Cancelling by the capital user or the admin succeeds from pending or
/// committed capital, and refunds the capital exactly when it was held.
pub proof fn lemma_cancel_succeeds_when_open(s: State, caller: Seq<char>, funds: Seq<Asset>, now: u64)
    requires
        s.status == Status::PendingCapital || s.status == Status::CapitalCommitted,
        caller == s.capital_user@ || s.is_admin(caller),
    ensures
        execute_spec(s, caller, funds, now, HandleMsg::Cancel) is Ok,
        next_state(execute_spec(s, caller, funds, now, HandleMsg::Cancel)).status == Status::Cancelled,
        s.status == Status::CapitalCommitted ==> emitted(
            execute_spec(s, caller, funds, now, HandleMsg::Cancel),
        ) == seq![transfer(s.refund_target(), s.capital)],
        s.status == Status::PendingCapital ==> emitted(
            execute_spec(s, caller, funds, now, HandleMsg::Cancel),
        ).len() == 0,
{
}

/// A recall succeeds only while capital is held, and then emits exactly the
/// refund of the capital to the provider; from pending capital it is refused,
/// to a caller who may recall, with a state error.
pub proof fn lemma_recall_refunds_only_held_capital(
    s: State,
    caller: Seq<char>,
    funds: Seq<Asset>,
    now: u64,
)
    ensures
        execute_spec(s, caller, funds, now, HandleMsg::RecallCapital) is Ok ==> {
            let t = execute_spec(s, caller, funds, now, HandleMsg::RecallCapital);
            &&& s.status == Status::CapitalCommitted
            &&& next_state(t).status == Status::PendingCapital
            &&& emitted(t) == seq![transfer(s.capital_provider, s.capital)]
        },
        s.status == Status::PendingCapital && (caller == s.capital_provider@ || s.is_admin(caller))
            ==> execute_spec(s, caller, funds, now, HandleMsg::RecallCapital) == Err::<
            (State, Seq<Instruction>),
            ContractError,
        >(ContractError::CapitalNotCommitted),
{
}

/// Every successful action moves the status along one edge of the lifecycle
/// and leaves every other field of the record as it was.
pub proof fn lemma_actions_follow_lifecycle(
    s: State,
    caller: Seq<char>,
    funds: Seq<Asset>,
    now: u64,
    msg: HandleMsg,
)
    ensures
        execute_spec(s, caller, funds, now, msg) is Ok ==> {
            let next = next_state(execute_spec(s, caller, funds, now, msg));
            &&& is_status_edge(s.status, next.status)
            &&& next == s.with_status(next.status)
        },
{
}

/// A caller who is neither the party an action names nor, where the action
/// allows one, the admin, is refused with an authorization error, whatever
/// else is wrong.
pub proof fn lemma_unauthorized_first(
    s: State,
    caller: Seq<char>,
    funds: Seq<Asset>,
    now: u64,
    msg: HandleMsg,
)
    requires
        caller != s.capital_provider@,
        caller != s.capital_user@,
        !s.is_admin(caller),
    ensures
        execute_spec(s, caller, funds, now, msg) == Err::<(State, Seq<Instruction>), ContractError>(
            ContractError::Unauthorized,
        ),
{
}

} // verus!
