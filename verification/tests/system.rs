use bonk_vote::AccountId;
use bonk_vote::ErrorCode;
use bonk_vote::Mint;
use bonk_vote::TokenAccount;
use bonk_vote::VotingSystem;

fn mint(supply: u64) -> Mint {
    Mint {
        id: AccountId(300),
        supply,
    }
}

fn voter_account(balance: u64) -> TokenAccount {
    TokenAccount {
        id: AccountId(101),
        owner: AccountId(1),
        mint: AccountId(300),
        amount: balance,
    }
}

fn developer_account(balance: u64) -> TokenAccount {
    TokenAccount {
        id: AccountId(102),
        owner: AccountId(2),
        mint: AccountId(300),
        amount: balance,
    }
}

fn ready_system() -> VotingSystem {
    let mut sys = VotingSystem::new();
    let r = sys.create_global_state(
        1000,
        70,
        30,
        &developer_account(0),
        AccountId(2),
        &mint(0),
    );
    assert_eq!(r, Ok(()));
    let r = sys.create_pair(
        String::from("cats"),
        String::from("https://cats.example"),
        String::from("dogs"),
        String::from("https://dogs.example"),
        AccountId(2),
    );
    assert_eq!(r, Ok(()));
    sys
}

#[test]
fn global_state_is_created_once() {
    let mut sys = VotingSystem::new();
    let r = sys.create_global_state(
        1000,
        60,
        40,
        &developer_account(0),
        AccountId(2),
        &mint(0),
    );
    assert_eq!(r, Ok(()));
    let r = sys.create_global_state(
        500,
        50,
        50,
        &developer_account(0),
        AccountId(2),
        &mint(0),
    );
    assert_eq!(r, Err(ErrorCode::AlreadyExists));
    assert_eq!(sys.global_state.unwrap().bonk_per_vote, 1000);
}

#[test]
fn imbalanced_global_state_writes_nothing() {
    let mut sys = VotingSystem::new();
    let r = sys.create_global_state(
        1000,
        60,
        50,
        &developer_account(0),
        AccountId(2),
        &mint(0),
    );
    assert_eq!(r, Err(ErrorCode::ImbalancedDistribution));
    assert!(sys.global_state.is_none());
}

#[test]
fn foreign_beneficiary_account_is_unauthorized() {
    let mut sys = VotingSystem::new();
    let mut stray = developer_account(0);
    stray.owner = AccountId(77);
    let r = sys.create_global_state(1000, 60, 40, &stray, AccountId(2), &mint(0));
    assert_eq!(r, Err(ErrorCode::Unauthorized));
    assert!(sys.global_state.is_none());
}

#[test]
fn duplicate_pair_is_rejected() {
    let mut sys = ready_system();
    let r = sys.create_pair(
        String::from("cats"),
        String::from("https://cats.example"),
        String::from("dogs"),
        String::from("https://dogs.example"),
        AccountId(2),
    );
    assert_eq!(r, Err(ErrorCode::AlreadyExists));
}

#[test]
fn same_names_different_links_still_collide() {
    let mut sys = ready_system();
    let r = sys.create_pair(
        String::from("cats"),
        String::from("https://elsewhere.example"),
        String::from("dogs"),
        String::from("https://other.example"),
        AccountId(2),
    );
    assert_eq!(r, Err(ErrorCode::AlreadyExists));
    let r = sys.create_pair(
        String::from("dogs"),
        String::from("https://dogs.example"),
        String::from("cats"),
        String::from("https://cats.example"),
        AccountId(2),
    );
    assert_eq!(r, Ok(()));
}

#[test]
fn vote_routes_by_names() {
    let mut sys = ready_system();
    let mut voter = voter_account(10_000);
    let mut dev = developer_account(0);
    let mut m = mint(1_000_000);
    let r = sys.cast_vote(
        &String::from("cats"),
        &String::from("birds"),
        true,
        AccountId(1),
        &mut voter,
        &mut dev,
        &mut m,
    );
    assert_eq!(r, Err(ErrorCode::NotFound));
    let r = sys.cast_vote(
        &String::from("cats"),
        &String::from("dogs"),
        true,
        AccountId(1),
        &mut voter,
        &mut dev,
        &mut m,
    );
    assert_eq!(r, Ok(()));
    assert_eq!(
        sys.tallies(&String::from("cats"), &String::from("dogs")),
        Some((1, 0))
    );
}

#[test]
fn vote_without_configuration_is_not_found() {
    let mut sys = VotingSystem::new();
    let r = sys.create_pair(
        String::from("cats"),
        String::from("x"),
        String::from("dogs"),
        String::from("y"),
        AccountId(2),
    );
    assert_eq!(r, Ok(()));
    let mut voter = voter_account(10_000);
    let mut dev = developer_account(0);
    let mut m = mint(1_000_000);
    let r = sys.cast_vote(
        &String::from("cats"),
        &String::from("dogs"),
        true,
        AccountId(1),
        &mut voter,
        &mut dev,
        &mut m,
    );
    assert_eq!(r, Err(ErrorCode::NotFound));
    assert_eq!(voter.amount, 10_000);
}

#[test]
fn tallies_count_each_side_over_a_sequence() {
    let mut sys = ready_system();
    let mut voter = voter_account(100_000);
    let mut dev = developer_account(0);
    let mut m = mint(1_000_000);
    let a = String::from("cats");
    let b = String::from("dogs");
    let selectors = [true, true, false, true, false];
    for s in selectors {
        let r = sys.cast_vote(&a, &b, s, AccountId(1), &mut voter, &mut dev, &mut m);
        assert_eq!(r, Ok(()));
    }
    // Three selectors chose side A, two chose side B; five costs of 1000.
    assert_eq!(sys.tallies(&a, &b), Some((3, 2)));
    assert_eq!(voter.amount, 100_000 - 5 * 1000);
    assert_eq!(dev.amount, 5 * 300);
    assert_eq!(m.supply, 1_000_000 - 5 * 700);
}

#[test]
fn failed_transfer_rolls_back_the_tally() {
    let mut sys = ready_system();
    let a = String::from("cats");
    let b = String::from("dogs");
    let mut voter = voter_account(2_500);
    let mut dev = developer_account(0);
    let mut m = mint(1_000_000);
    assert_eq!(
        sys.cast_vote(&a, &b, true, AccountId(1), &mut voter, &mut dev, &mut m),
        Ok(())
    );
    assert_eq!(
        sys.cast_vote(&a, &b, true, AccountId(1), &mut voter, &mut dev, &mut m),
        Ok(())
    );
    // The third vote finds only 500 tokens left: it fails as a whole, and
    // the tally still shows the two successful votes.
    assert_eq!(
        sys.cast_vote(&a, &b, true, AccountId(1), &mut voter, &mut dev, &mut m),
        Err(ErrorCode::InsufficientFunds)
    );
    assert_eq!(sys.tallies(&a, &b), Some((2, 0)));
    assert_eq!(voter.amount, 500);
    assert_eq!(dev.amount, 600);
    assert_eq!(m.supply, 1_000_000 - 1400);
}

#[test]
fn has_pair_sees_only_created_pairs() {
    let sys = ready_system();
    assert!(sys.has_pair(&String::from("cats"), &String::from("dogs")));
    assert!(!sys.has_pair(&String::from("dogs"), &String::from("cats")));
}

#[test]
fn vote_with_foreign_token_account_is_unauthorized() {
    let mut sys = ready_system();
    let mut voter = voter_account(10_000);
    voter.owner = AccountId(42);
    let mut dev = developer_account(0);
    let mut m = mint(1_000_000);
    let r = sys.cast_vote(
        &String::from("cats"),
        &String::from("dogs"),
        false,
        AccountId(1),
        &mut voter,
        &mut dev,
        &mut m,
    );
    assert_eq!(r, Err(ErrorCode::Unauthorized));
    assert_eq!(
        sys.tallies(&String::from("cats"), &String::from("dogs")),
        Some((0, 0))
    );
    assert_eq!(voter.amount, 10_000);
}
