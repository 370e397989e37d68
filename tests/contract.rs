use capital_escrow::contract::{execute, instantiate, query, try_cancel, try_close_call, try_commit_capital};
use capital_escrow::error::{ContractError, ErrorKind};
use capital_escrow::msg::{
    HandleMsg, InstantiateMsg, Instruction, Invocation, QueryMsg, QueryResponse, Terms,
};
use capital_escrow::state::{Asset, Distribution, Settlement, State, Status};

const NOW: u64 = 1_700_000_000;

fn coin(amount: u128, denom: &str) -> Asset {
    Asset::new(amount, denom)
}

fn invocation(sender: &str, funds: Vec<Asset>) -> Invocation {
    Invocation { sender: sender.to_string(), funds }
}

fn inst_msg() -> InstantiateMsg {
    InstantiateMsg {
        admin: Some("admin".to_string()),
        capital_provider: "sub_1".to_string(),
        capital_user: "raise".to_string(),
        capital: coin(1_000_000, "stable_coin"),
        settlement: Settlement::Deposited(coin(10, "fund_coin")),
        distribution: None,
        due_date: None,
        linked_instance: None,
    }
}

fn saved_state(status: Status, asset: Asset) -> State {
    State {
        status,
        capital_provider: "sub".to_string(),
        capital_user: "raise".to_string(),
        admin: Some("admin".to_string()),
        capital: coin(10_000, "stable_coin"),
        settlement: Settlement::Deposited(asset),
        distribution: None,
        linked_instance: None,
        due_date: None,
    }
}

fn status_of(state: &State) -> Status {
    match query(state, QueryMsg::GetStatus) {
        QueryResponse::Status(s) => s,
        QueryResponse::Terms(_) => panic!("expected a status"),
    }
}

fn is_send(instruction: &Instruction, to: &str, amount: u128, denom: &str) -> bool {
    match instruction {
        Instruction::Transfer { to: t, asset, .. } => {
            t == to && asset.amount == amount && asset.denom == denom
        }
        _ => false,
    }
}

/// Scenario state: 1,000,000 "cfigure" of capital, shares minted on call,
/// distribution with a memo, due in fourteen days.
fn figure_msg() -> InstantiateMsg {
    InstantiateMsg {
        admin: None,
        capital_provider: "lp".to_string(),
        capital_user: "gp".to_string(),
        capital: coin(1_000_000, "cfigure"),
        settlement: Settlement::Minted(coin(100, "fund.shares")),
        distribution: Some(Distribution {
            target: "distribution".to_string(),
            memo: "series a".to_string(),
        }),
        due_date: Some("2023-11-28T22:13:20Z".to_string()),
        linked_instance: None,
    }
}

fn committed_figure() -> State {
    let mut state = instantiate(figure_msg(), NOW, None).unwrap();
    execute(
        &mut state,
        &invocation("lp", vec![coin(1_000_000, "cfigure")]),
        NOW + 60,
        HandleMsg::CommitCapital,
    )
    .unwrap();
    state
}

#[test]
fn initialization() {
    let state = instantiate(inst_msg(), NOW, None).unwrap();
    assert_eq!(Status::PendingCapital, status_of(&state));
}

#[test]
fn commit_capital() {
    let mut state = saved_state(Status::PendingCapital, coin(0, "fund_coin"));

    // only the capital provider may commit
    let info = invocation("lp", vec![coin(10_000, "stable_coin")]);
    assert_eq!(Err(ContractError::Unauthorized), execute(&mut state, &info, NOW, HandleMsg::CommitCapital));
    assert_eq!(Status::PendingCapital, status_of(&state));

    let info = invocation("sub", vec![coin(10_000, "stable_coin")]);
    let res = execute(&mut state, &info, NOW, HandleMsg::CommitCapital).unwrap();
    assert!(res.is_empty());
    assert_eq!(Status::CapitalCommitted, status_of(&state));
}

#[test]
fn cancel() {
    let mut state = saved_state(Status::CapitalCommitted, coin(0, "fund_coin"));

    let info = invocation("raise", vec![]);
    let res = execute(&mut state, &info, NOW, HandleMsg::Cancel).unwrap();
    assert_eq!(Status::Cancelled, status_of(&state));

    let (to_address, amount) = res
        .iter()
        .find_map(|i| match i {
            Instruction::Transfer { to, asset, .. } => Some((to.clone(), asset.clone())),
            _ => None,
        })
        .unwrap();
    assert_eq!("sub", to_address);
    assert_eq!(10_000, amount.amount);
    assert_eq!("stable_coin", amount.denom);
}

#[test]
fn close() {
    let mut state = saved_state(Status::CapitalCommitted, coin(10_000, "fund_coin"));

    let info = invocation("raise", vec![coin(10_000, "fund_coin")]);
    let res = execute(&mut state, &info, NOW, HandleMsg::Close).unwrap();

    assert!(res.iter().any(|i| is_send(i, "raise", 10_000, "stable_coin")));
    assert!(res.iter().any(|i| is_send(i, "sub", 10_000, "fund_coin")));
    assert_eq!(Status::CapitalCalled, status_of(&state));
}

#[test]
fn scenario_commit_exact_capital() {
    let state = committed_figure();
    assert_eq!(Status::CapitalCommitted, state.status);
    assert_eq!(Some(1_701_209_600), state.due_date);
}

#[test]
fn scenario_recall_refunds_provider() {
    let mut state = committed_figure();
    let res = execute(&mut state, &invocation("lp", vec![]), NOW + 120, HandleMsg::RecallCapital).unwrap();
    assert_eq!(Status::PendingCapital, state.status);
    assert_eq!(
        vec![Instruction::Transfer { to: "lp".to_string(), asset: coin(1_000_000, "cfigure"), memo: None }],
        res
    );
}

#[test]
fn scenario_call_capital_mints_and_distributes() {
    let mut state = committed_figure();
    let res = execute(&mut state, &invocation("gp", vec![]), NOW + 120, HandleMsg::CallCapital).unwrap();
    assert_eq!(Status::CapitalCalled, state.status);
    assert_eq!(
        vec![
            Instruction::Mint { asset: coin(100, "fund.shares") },
            Instruction::Withdraw { asset: coin(100, "fund.shares"), recipient: "lp".to_string() },
            Instruction::Transfer {
                to: "distribution".to_string(),
                asset: coin(1_000_000, "cfigure"),
                memo: Some("series a".to_string()),
            },
        ],
        res
    );
}

#[test]
fn scenario_cancel_refunds_committed_capital() {
    let mut state = committed_figure();
    let res = execute(&mut state, &invocation("gp", vec![]), NOW + 120, HandleMsg::Cancel).unwrap();
    assert_eq!(Status::Cancelled, state.status);
    assert_eq!(
        vec![Instruction::Transfer { to: "lp".to_string(), asset: coin(1_000_000, "cfigure"), memo: None }],
        res
    );
}

#[test]
fn scenario_cancel_refunds_linked_instance() {
    let mut msg = figure_msg();
    msg.linked_instance = Some("subscription".to_string());
    let linked = Terms {
        capital_provider: "lp2".to_string(),
        capital_user: "gp".to_string(),
        capital: coin(500, "cfigure"),
        asset: None,
    };
    let mut state = instantiate(msg, NOW, Some(linked)).unwrap();
    assert_eq!("lp2", state.capital_provider);
    assert_eq!(coin(500, "cfigure"), state.capital);
    execute(&mut state, &invocation("lp2", vec![coin(500, "cfigure")]), NOW, HandleMsg::CommitCapital).unwrap();
    let res = execute(&mut state, &invocation("gp", vec![]), NOW, HandleMsg::Cancel).unwrap();
    assert_eq!(
        vec![Instruction::Transfer { to: "subscription".to_string(), asset: coin(500, "cfigure"), memo: None }],
        res
    );
}

#[test]
fn scenario_short_deposit_is_refused() {
    let mut state = instantiate(figure_msg(), NOW, None).unwrap();
    let before = state.clone();
    let r = execute(&mut state, &invocation("lp", vec![coin(999_999, "cfigure")]), NOW, HandleMsg::CommitCapital);
    assert_eq!(Err(ContractError::DepositMismatch), r);
    assert_eq!(ErrorKind::Validation, r.unwrap_err().kind());
    assert_eq!(before, state);
}

#[test]
fn commit_refusals() {
    let mut state = instantiate(figure_msg(), NOW, None).unwrap();
    let before = state.clone();
    let lp = |funds: Vec<Asset>| invocation("lp", funds);
    assert_eq!(Err(ContractError::MissingDeposit), try_commit_capital(&mut state, &lp(vec![]), NOW));
    assert_eq!(
        Err(ContractError::DepositMismatch),
        try_commit_capital(&mut state, &lp(vec![coin(1_000_000, "uhash")]), NOW)
    );
    assert_eq!(
        Err(ContractError::DepositMismatch),
        try_commit_capital(&mut state, &lp(vec![coin(1_000_001, "cfigure")]), NOW)
    );
    assert_eq!(
        Err(ContractError::DepositMismatch),
        try_commit_capital(
            &mut state,
            &lp(vec![coin(1_000_000, "cfigure"), coin(1, "cfigure")]),
            NOW
        )
    );
    assert_eq!(
        Err(ContractError::PastDue),
        try_commit_capital(&mut state, &lp(vec![coin(1_000_000, "cfigure")]), 1_701_209_601)
    );
    assert_eq!(before, state);
    // the due date itself is still in time
    assert!(try_commit_capital(&mut state, &lp(vec![coin(1_000_000, "cfigure")]), 1_701_209_600).is_ok());
    assert_eq!(
        Err(ContractError::NotPendingCapital),
        try_commit_capital(&mut state, &lp(vec![coin(1_000_000, "cfigure")]), NOW)
    );
}

#[test]
fn authorization_comes_first() {
    let mut state = instantiate(figure_msg(), NOW, None).unwrap();
    let stranger = invocation("mallory", vec![]);
    for msg in [
        HandleMsg::CommitCapital,
        HandleMsg::RecallCapital,
        HandleMsg::CallCapital,
        HandleMsg::Close,
        HandleMsg::Cancel,
    ] {
        let r = execute(&mut state, &stranger, u64::MAX, msg);
        assert_eq!(Err(ContractError::Unauthorized), r);
        assert_eq!(ErrorKind::Authorization, r.unwrap_err().kind());
    }
    // the user may not commit, the provider may not call
    assert_eq!(
        Err(ContractError::Unauthorized),
        execute(&mut state, &invocation("gp", vec![coin(1_000_000, "cfigure")]), NOW, HandleMsg::CommitCapital)
    );
    let mut state = committed_figure();
    assert_eq!(
        Err(ContractError::Unauthorized),
        execute(&mut state, &invocation("lp", vec![]), NOW, HandleMsg::CallCapital)
    );
    assert_eq!(Status::CapitalCommitted, state.status);
}

#[test]
fn admin_may_recall_call_and_cancel() {
    let mut msg = figure_msg();
    msg.admin = Some("admin".to_string());
    let admin = invocation("admin", vec![]);
    let commit = invocation("lp", vec![coin(1_000_000, "cfigure")]);

    let mut state = instantiate(msg.clone(), NOW, None).unwrap();
    execute(&mut state, &commit, NOW, HandleMsg::CommitCapital).unwrap();
    assert!(execute(&mut state, &admin, NOW, HandleMsg::RecallCapital).is_ok());
    assert_eq!(Status::PendingCapital, state.status);
    execute(&mut state, &commit, NOW, HandleMsg::CommitCapital).unwrap();
    assert!(execute(&mut state, &admin, NOW, HandleMsg::CallCapital).is_ok());
    assert_eq!(Status::CapitalCalled, state.status);

    let mut state = instantiate(msg, NOW, None).unwrap();
    let res = execute(&mut state, &admin, NOW, HandleMsg::Cancel).unwrap();
    assert!(res.is_empty());
    assert_eq!(Status::Cancelled, state.status);
    // the admin may not commit
    let mut state = instantiate(figure_msg(), NOW, None).unwrap();
    assert_eq!(
        Err(ContractError::Unauthorized),
        execute(&mut state, &invocation("admin", vec![coin(1_000_000, "cfigure")]), NOW, HandleMsg::CommitCapital)
    );
}

#[test]
fn recall_refusals() {
    let mut state = instantiate(figure_msg(), NOW, None).unwrap();
    let r = execute(&mut state, &invocation("lp", vec![]), NOW, HandleMsg::RecallCapital);
    assert_eq!(Err(ContractError::CapitalNotCommitted), r);
    assert_eq!(ErrorKind::State, r.unwrap_err().kind());

    let mut state = committed_figure();
    let before = state.clone();
    assert_eq!(
        Err(ContractError::PastDue),
        execute(&mut state, &invocation("lp", vec![]), 1_701_209_601, HandleMsg::RecallCapital)
    );
    assert_eq!(before, state);
}

#[test]
fn call_only_from_committed() {
    let mut state = instantiate(figure_msg(), NOW, None).unwrap();
    assert_eq!(
        Err(ContractError::CapitalNotCommitted),
        execute(&mut state, &invocation("gp", vec![]), NOW, HandleMsg::CallCapital)
    );
    let mut state = committed_figure();
    execute(&mut state, &invocation("gp", vec![]), NOW, HandleMsg::CallCapital).unwrap();
    let before = state.clone();
    for msg in [HandleMsg::CallCapital, HandleMsg::Close, HandleMsg::Cancel, HandleMsg::RecallCapital] {
        assert!(execute(&mut state, &invocation("gp", vec![]), NOW, msg).is_err());
        assert!(execute(&mut state, &invocation("lp", vec![coin(1_000_000, "cfigure")]), NOW, msg).is_err());
    }
    assert!(execute(
        &mut state,
        &invocation("lp", vec![coin(1_000_000, "cfigure")]),
        NOW,
        HandleMsg::CommitCapital
    )
    .is_err());
    assert_eq!(before, state);
}

#[test]
fn cancel_refused_when_terminal() {
    let mut state = saved_state(Status::CapitalCalled, coin(0, "fund_coin"));
    let r = try_cancel(&mut state, &invocation("raise", vec![]));
    assert_eq!(Err(ContractError::AlreadyCalled), r);
    assert_eq!(ErrorKind::State, r.unwrap_err().kind());

    let mut state = saved_state(Status::PendingCapital, coin(0, "fund_coin"));
    assert_eq!(Ok(vec![]), try_cancel(&mut state, &invocation("raise", vec![])));
    assert_eq!(Err(ContractError::AlreadyCancelled), try_cancel(&mut state, &invocation("raise", vec![])));
    assert_eq!(Status::Cancelled, state.status);
}

#[test]
fn close_needs_the_settlement_deposit() {
    let mut state = saved_state(Status::CapitalCommitted, coin(10_000, "fund_coin"));
    let before = state.clone();
    assert_eq!(Err(ContractError::MissingDeposit), try_close_call(&mut state, &invocation("raise", vec![])));
    assert_eq!(
        Err(ContractError::DepositMismatch),
        try_close_call(&mut state, &invocation("raise", vec![coin(9_999, "fund_coin")]))
    );
    assert_eq!(before, state);
}

#[test]
fn call_without_settlement_pays_the_user() {
    let mut state = saved_state(Status::CapitalCommitted, coin(0, "fund_coin"));
    state.settlement = Settlement::CapitalOnly;
    let res = try_close_call(&mut state, &invocation("raise", vec![])).unwrap();
    assert_eq!(
        vec![Instruction::Transfer { to: "raise".to_string(), asset: coin(10_000, "stable_coin"), memo: None }],
        res
    );
}

#[test]
fn instantiate_refusals() {
    let mut msg = figure_msg();
    msg.due_date = Some("2023-11-14T22:13:20Z".to_string());
    let r = instantiate(msg.clone(), NOW, None);
    assert_eq!(Err(ContractError::DueDateNotInFuture), r);
    assert_eq!(ErrorKind::Validation, r.unwrap_err().kind());
    msg.due_date = Some("next tuesday".to_string());
    assert_eq!(Err(ContractError::InvalidDueDate), instantiate(msg.clone(), NOW, None));
    msg.due_date = Some("2023-11-14T22:13:21Z".to_string());
    assert_eq!(Some(NOW + 1), instantiate(msg.clone(), NOW, None).unwrap().due_date);

    let mut msg = figure_msg();
    msg.linked_instance = Some("subscription".to_string());
    let r = instantiate(msg, NOW, None);
    assert_eq!(Err(ContractError::LinkedTermsUnavailable), r);
    assert_eq!(ErrorKind::ExternalCall, r.unwrap_err().kind());
}

#[test]
fn terms_query() {
    let state = instantiate(figure_msg(), NOW, None).unwrap();
    assert_eq!(
        QueryResponse::Terms(Terms {
            capital_provider: "lp".to_string(),
            capital_user: "gp".to_string(),
            capital: coin(1_000_000, "cfigure"),
            asset: Some(coin(100, "fund.shares")),
        }),
        query(&state, QueryMsg::GetTerms)
    );
}

#[test]
fn error_reasons() {
    assert_eq!("past due", ContractError::PastDue.reason());
    assert_eq!("capital already called", ContractError::AlreadyCalled.reason());
}
