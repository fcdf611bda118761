use newdapp::error::CustomError;
use newdapp::gov::Governance;
use newdapp::pda::{derive_address, derive_at, AccountId, DerivationPath};
use newdapp::state::DaoAddresses;

fn acct(n: u64) -> AccountId {
    AccountId { w0: n, w1: 0, w2: 0, w3: 0 }
}

fn authority() -> AccountId {
    acct(1)
}

fn setup_dao() -> (Governance, DaoAddresses) {
    let mut g = Governance::new(acct(1000), false);
    let addrs = g
        .initialize(authority(), 7, "builders".to_string(), 1_000_000)
        .unwrap();
    (g, addrs)
}

fn fund_voter(g: &mut Governance, addrs: &DaoAddresses, voter: AccountId, weight: u64) {
    g.add_member(addrs.dao, authority(), voter).unwrap();
    let holding = g.create_token_account(addrs.token_mint, voter).unwrap();
    g.mint_to(addrs.token_mint, holding, weight, addrs.mint_authority)
        .unwrap();
}

#[test]
fn derivation_is_deterministic_and_keyless() {
    let program = acct(1000);
    let path = DerivationPath::DaoAuthority { dao: acct(42) };
    let first = derive_address(&path, &program).unwrap();
    let second = derive_address(&path, &program).unwrap();
    assert_eq!(first, second);
    // The derived identity is a new identity, not any of the inputs.
    assert_ne!(first.0, acct(42));
    assert_ne!(first.0, program);
    // Replaying the persisted salt reproduces the identity.
    let replayed = derive_at(&path, first.1, &program).unwrap();
    assert_eq!(replayed, first.0);
    // Another parent derives another identity.
    let other = derive_address(&DerivationPath::DaoAuthority { dao: acct(43) }, &program).unwrap();
    assert_ne!(other.0, first.0);
}

#[test]
fn initialize_mints_supply_into_treasury() {
    let (g, addrs) = setup_dao();
    assert_eq!(g.balance_of(addrs.treasury), Some(1_000_000));
    let dao = g.get_dao(addrs.dao).unwrap();
    assert_eq!(dao.proposal_count, 0);
    assert_eq!(dao.total_supply, 1_000_000);
    assert_eq!(dao.authority, authority());
    let mint = g.get_mint(addrs.token_mint).unwrap();
    assert_eq!(mint.supply, 1_000_000);
    assert_eq!(mint.mint_authority, addrs.mint_authority);
}

#[test]
fn initialize_twice_already_exists() {
    let (mut g, _addrs) = setup_dao();
    let r = g.initialize(authority(), 7, "builders".to_string(), 1_000_000);
    assert_eq!(r, Err(CustomError::AlreadyExists));
}

#[test]
fn initialize_long_name_invalid_argument() {
    let mut g = Governance::new(acct(1000), false);
    let name: String = "x".repeat(101);
    let r = g.initialize(authority(), 7, name, 1_000_000);
    assert_eq!(r, Err(CustomError::InvalidArgument));
}

#[test]
fn scenario_approved_proposal_executes() {
    let (mut g, addrs) = setup_dao();
    for (voter, weight) in [(acct(2), 600), (acct(3), 300), (acct(4), 50)] {
        fund_voter(&mut g, &addrs, voter, weight);
    }
    let recipient = acct(5);
    g.create_token_account(addrs.token_mint, recipient).unwrap();
    let pk = g
        .create_proposal(
            addrs.dao,
            authority(),
            "fund the builders".to_string(),
            "pay 500 units".to_string(),
            500,
            recipient,
            None,
        )
        .unwrap();
    g.vote(pk, acct(2), true, 0).unwrap();
    g.vote(pk, acct(3), true, 0).unwrap();
    g.vote(pk, acct(4), false, 0).unwrap();
    let p = g.get_proposal(pk).unwrap();
    assert_eq!(p.votes_for, 900);
    assert_eq!(p.votes_against, 50);
    assert!(!p.executed);
    let treasury_before = g.balance_of(addrs.treasury).unwrap();
    g.execute_proposal(pk).unwrap();
    assert_eq!(g.balance_of(addrs.treasury).unwrap(), treasury_before - 500);
    assert_eq!(g.balance_of(addrs.treasury), Some(999_500));
    let recipient_holding =
        derive_address(&DerivationPath::TokenHolding { mint: addrs.token_mint, owner: recipient }, &acct(1000))
            .unwrap()
            .0;
    assert_eq!(g.balance_of(recipient_holding), Some(500));
    assert!(g.get_proposal(pk).unwrap().executed);
}

#[test]
fn scenario_second_execution_already_executed() {
    let (mut g, addrs) = setup_dao();
    fund_voter(&mut g, &addrs, acct(2), 600);
    let recipient = acct(5);
    g.create_token_account(addrs.token_mint, recipient).unwrap();
    let pk = g
        .create_proposal(
            addrs.dao,
            authority(),
            "t".to_string(),
            "d".to_string(),
            500,
            recipient,
            None,
        )
        .unwrap();
    g.vote(pk, acct(2), true, 0).unwrap();
    g.execute_proposal(pk).unwrap();
    let treasury_after = g.balance_of(addrs.treasury).unwrap();
    let r = g.execute_proposal(pk);
    assert_eq!(r, Err(CustomError::AlreadyExecuted));
    assert_eq!(g.balance_of(addrs.treasury).unwrap(), treasury_after);
}

#[test]
fn scenario_rejected_proposal_not_approved() {
    let (mut g, addrs) = setup_dao();
    fund_voter(&mut g, &addrs, acct(2), 300);
    fund_voter(&mut g, &addrs, acct(3), 700);
    let recipient = acct(5);
    g.create_token_account(addrs.token_mint, recipient).unwrap();
    let pk = g
        .create_proposal(
            addrs.dao,
            authority(),
            "t".to_string(),
            "d".to_string(),
            500,
            recipient,
            None,
        )
        .unwrap();
    g.vote(pk, acct(2), true, 0).unwrap();
    g.vote(pk, acct(3), false, 0).unwrap();
    let r = g.execute_proposal(pk);
    assert_eq!(r, Err(CustomError::NotApproved));
    assert!(!g.get_proposal(pk).unwrap().executed);
    assert_eq!(g.balance_of(addrs.treasury), Some(1_000_000));
}

#[test]
fn scenario_double_vote_already_voted() {
    let (mut g, addrs) = setup_dao();
    fund_voter(&mut g, &addrs, acct(2), 600);
    let pk = g
        .create_proposal(
            addrs.dao,
            authority(),
            "t".to_string(),
            "d".to_string(),
            500,
            acct(5),
            None,
        )
        .unwrap();
    g.vote(pk, acct(2), true, 0).unwrap();
    let before = g.get_proposal(pk).unwrap();
    let (votes_for, votes_against) = (before.votes_for, before.votes_against);
    let r = g.vote(pk, acct(2), false, 0);
    assert_eq!(r, Err(CustomError::AlreadyVoted));
    let after = g.get_proposal(pk).unwrap();
    assert_eq!(after.votes_for, votes_for);
    assert_eq!(after.votes_against, votes_against);
}

#[test]
fn scenario_long_title_invalid_argument() {
    let (mut g, addrs) = setup_dao();
    let title: String = "x".repeat(101);
    let r = g.create_proposal(
        addrs.dao,
        authority(),
        title,
        "d".to_string(),
        500,
        acct(5),
        None,
    );
    assert_eq!(r, Err(CustomError::InvalidArgument));
    // No proposal was created and the counter is unchanged.
    assert_eq!(g.get_dao(addrs.dao).unwrap().proposal_count, 0);
    let next = g
        .create_proposal(
            addrs.dao,
            authority(),
            "x".repeat(100),
            "d".to_string(),
            500,
            acct(5),
            None,
        )
        .unwrap();
    assert_eq!(g.get_proposal(next).unwrap().proposal_id, 1);
}

#[test]
fn long_description_invalid_argument() {
    let (mut g, addrs) = setup_dao();
    let r = g.create_proposal(
        addrs.dao,
        authority(),
        "t".to_string(),
        "y".repeat(501),
        500,
        acct(5),
        None,
    );
    assert_eq!(r, Err(CustomError::InvalidArgument));
}

#[test]
fn proposal_ids_count_up_from_one() {
    let (mut g, addrs) = setup_dao();
    let mut seen = Vec::new();
    for i in 1..=4u64 {
        let pk = g
            .create_proposal(
                addrs.dao,
                authority(),
                format!("proposal {}", i),
                "d".to_string(),
                10,
                acct(5),
                None,
            )
            .unwrap();
        let p = g.get_proposal(pk).unwrap();
        assert_eq!(p.proposal_id, i);
        assert!(!seen.contains(&pk));
        seen.push(pk);
    }
    assert_eq!(g.get_dao(addrs.dao).unwrap().proposal_count, 4);
}

#[test]
fn vote_on_missing_proposal_not_found() {
    let (mut g, _addrs) = setup_dao();
    let r = g.vote(acct(99), acct(2), true, 0);
    assert_eq!(r, Err(CustomError::NotFound));
}

#[test]
fn non_member_vote_not_found() {
    let (mut g, addrs) = setup_dao();
    let pk = g
        .create_proposal(
            addrs.dao,
            authority(),
            "t".to_string(),
            "d".to_string(),
            500,
            acct(5),
            None,
        )
        .unwrap();
    let r = g.vote(pk, acct(2), true, 0);
    assert_eq!(r, Err(CustomError::NotFound));
}

#[test]
fn vote_after_deadline_voting_expired() {
    let (mut g, addrs) = setup_dao();
    fund_voter(&mut g, &addrs, acct(2), 600);
    let pk = g
        .create_proposal(
            addrs.dao,
            authority(),
            "t".to_string(),
            "d".to_string(),
            500,
            acct(5),
            Some(100),
        )
        .unwrap();
    let r = g.vote(pk, acct(2), true, 101);
    assert_eq!(r, Err(CustomError::VotingExpired));
    g.vote(pk, acct(2), true, 100).unwrap();
}

#[test]
fn add_member_requires_authority() {
    let (mut g, addrs) = setup_dao();
    let r = g.add_member(addrs.dao, acct(9), acct(2));
    assert_eq!(r, Err(CustomError::Unauthorized));
    let r2 = g.add_member(addrs.dao, authority(), acct(2));
    assert!(r2.is_ok());
    let r3 = g.add_member(addrs.dao, authority(), acct(2));
    assert_eq!(r3, Err(CustomError::AlreadyExists));
}

#[test]
fn create_proposal_requires_authority_when_closed() {
    let (mut g, addrs) = setup_dao();
    let r = g.create_proposal(
        addrs.dao,
        acct(9),
        "t".to_string(),
        "d".to_string(),
        500,
        acct(5),
        None,
    );
    assert_eq!(r, Err(CustomError::Unauthorized));
}

#[test]
fn open_policy_lets_any_wallet_propose() {
    let mut g = Governance::new(acct(1000), true);
    let addrs = g
        .initialize(authority(), 7, "builders".to_string(), 1_000_000)
        .unwrap();
    let pk = g
        .create_proposal(
            addrs.dao,
            acct(9),
            "t".to_string(),
            "d".to_string(),
            500,
            acct(5),
            None,
        )
        .unwrap();
    assert_eq!(g.get_proposal(pk).unwrap().creator, acct(9));
}

#[test]
fn transfer_requires_owning_authority() {
    let (mut g, addrs) = setup_dao();
    fund_voter(&mut g, &addrs, acct(2), 600);
    let holding = derive_address(
        &DerivationPath::TokenHolding { mint: addrs.token_mint, owner: acct(2) },
        &acct(1000),
    )
    .unwrap()
    .0;
    // The treasury's authority is a derived, keyless identity: a human
    // wallet cannot move treasury funds.
    let r = g.transfer(addrs.treasury, holding, 1, authority());
    assert_eq!(r, Err(CustomError::Unauthorized));
    // A wallet can move its own holdings.
    g.transfer(holding, addrs.treasury, 100, acct(2)).unwrap();
    assert_eq!(g.balance_of(holding), Some(500));
    assert_eq!(g.balance_of(addrs.treasury), Some(1_000_100));
}

#[test]
fn mint_requires_mint_authority_and_checks_overflow() {
    let (mut g, addrs) = setup_dao();
    let holding = g.create_token_account(addrs.token_mint, acct(2)).unwrap();
    let r = g.mint_to(addrs.token_mint, holding, 10, authority());
    assert_eq!(r, Err(CustomError::Unauthorized));
    g.mint_to(addrs.token_mint, holding, 10, addrs.mint_authority)
        .unwrap();
    assert_eq!(g.balance_of(holding), Some(10));
    assert_eq!(g.get_mint(addrs.token_mint).unwrap().supply, 1_000_010);
    let r2 = g.mint_to(addrs.token_mint, holding, u64::MAX, addrs.mint_authority);
    assert_eq!(r2, Err(CustomError::MathOverflow));
    assert_eq!(g.balance_of(holding), Some(10));
}

#[test]
fn vote_tally_overflow_math_overflow() {
    let mut g = Governance::new(acct(1000), false);
    let addrs = g.initialize(authority(), 7, "builders".to_string(), 0).unwrap();
    fund_voter(&mut g, &addrs, acct(2), u64::MAX);
    g.add_member(addrs.dao, authority(), acct(3)).unwrap();
    let holding2 = g.create_token_account(addrs.token_mint, acct(3)).unwrap();
    let pk = g
        .create_proposal(
            addrs.dao,
            authority(),
            "t".to_string(),
            "d".to_string(),
            1,
            acct(5),
            None,
        )
        .unwrap();
    g.vote(pk, acct(2), true, 0).unwrap();
    let holding1 = derive_address(
        &DerivationPath::TokenHolding { mint: addrs.token_mint, owner: acct(2) },
        &acct(1000),
    )
    .unwrap()
    .0;
    g.transfer(holding1, holding2, 1, acct(2)).unwrap();
    let r = g.vote(pk, acct(3), true, 0);
    assert_eq!(r, Err(CustomError::MathOverflow));
    assert_eq!(g.get_proposal(pk).unwrap().votes_for, u64::MAX);
    // The failed ballot left no receipt, so the rejecting side still works.
    g.vote(pk, acct(3), false, 0).unwrap();
    assert_eq!(g.get_proposal(pk).unwrap().votes_against, 1);
}

#[test]
fn delete_dao_denied_while_proposals_open() {
    let (mut g, addrs) = setup_dao();
    fund_voter(&mut g, &addrs, acct(2), 600);
    let recipient = acct(5);
    g.create_token_account(addrs.token_mint, recipient).unwrap();
    let pk = g
        .create_proposal(
            addrs.dao,
            authority(),
            "t".to_string(),
            "d".to_string(),
            500,
            recipient,
            None,
        )
        .unwrap();
    let r = g.delete_dao(addrs.dao, authority());
    assert_eq!(r, Err(CustomError::InvalidArgument));
    g.vote(pk, acct(2), true, 0).unwrap();
    g.execute_proposal(pk).unwrap();
    let r2 = g.delete_dao(addrs.dao, acct(9));
    assert_eq!(r2, Err(CustomError::Unauthorized));
    g.delete_dao(addrs.dao, authority()).unwrap();
    assert!(g.get_dao(addrs.dao).is_none());
    let r3 = g.delete_dao(addrs.dao, authority());
    assert_eq!(r3, Err(CustomError::NotFound));
}

#[test]
fn execute_missing_recipient_account_not_found() {
    let (mut g, addrs) = setup_dao();
    fund_voter(&mut g, &addrs, acct(2), 600);
    let pk = g
        .create_proposal(
            addrs.dao,
            authority(),
            "t".to_string(),
            "d".to_string(),
            500,
            acct(5),
            None,
        )
        .unwrap();
    g.vote(pk, acct(2), true, 0).unwrap();
    let r = g.execute_proposal(pk);
    assert_eq!(r, Err(CustomError::NotFound));
    // The transfer failed, so the proposal stays executable.
    assert!(!g.get_proposal(pk).unwrap().executed);
    g.create_token_account(addrs.token_mint, acct(5)).unwrap();
    g.execute_proposal(pk).unwrap();
    assert!(g.get_proposal(pk).unwrap().executed);
}

#[test]
fn execute_underfunded_treasury_fails_and_stays_open() {
    let mut g = Governance::new(acct(1000), false);
    let addrs = g.initialize(authority(), 7, "builders".to_string(), 100).unwrap();
    fund_voter(&mut g, &addrs, acct(2), 600);
    g.create_token_account(addrs.token_mint, acct(5)).unwrap();
    let pk = g
        .create_proposal(
            addrs.dao,
            authority(),
            "t".to_string(),
            "d".to_string(),
            500,
            acct(5),
            None,
        )
        .unwrap();
    g.vote(pk, acct(2), true, 0).unwrap();
    let r = g.execute_proposal(pk);
    assert_eq!(r, Err(CustomError::InvalidArgument));
    assert!(!g.get_proposal(pk).unwrap().executed);
    assert_eq!(g.balance_of(addrs.treasury), Some(100));
}
