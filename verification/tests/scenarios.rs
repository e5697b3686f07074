use electron_token::account::AccountId;
use electron_token::errors::TokenError;
use electron_token::ledger::Ledger;
use electron_token::metadata::Metadata;
use electron_token::token::{ElectronTestToken, Ownable};

fn id(s: &str) -> AccountId {
    AccountId::from_bytes(s.as_bytes().to_vec())
}

fn metadata_t() -> Metadata {
    Metadata::new(b"T".to_vec(), b"T".to_vec(), 18, None)
}

fn initialized_token() -> ElectronTestToken {
    ElectronTestToken::new(id("token.test"), id("alice"), metadata_t(), 1000).unwrap()
}

#[test]
fn premine_credits_owner() {
    let t = initialized_token();
    assert_eq!(t.balance_of(&id("alice")), 1000);
    assert_eq!(t.total_supply(), 1000);
}

#[test]
fn mint_to_unregistered_account_fails() {
    let mut t = initialized_token();
    // bob was never registered: the deposit is rejected and no entry appears
    assert_eq!(
        t.mint(&id("alice"), &id("bob"), 500),
        Err(TokenError::AccountNotRegistered)
    );
    assert_eq!(t.balance_of(&id("bob")), 0);
    assert_eq!(t.total_supply(), 1000);
}

#[test]
fn burn_beyond_balance_leaves_state_unchanged() {
    let mut t = initialized_token();
    assert_eq!(t.register_account(&id("alice"), id("bob")), Ok(()));
    assert_eq!(t.mint(&id("alice"), &id("bob"), 500), Ok(()));
    assert_eq!(
        t.burn(&id("alice"), 1, &id("bob"), 600),
        Err(TokenError::InsufficientBalance)
    );
    assert_eq!(t.balance_of(&id("bob")), 500);
    assert_eq!(t.total_supply(), 1500);
}

#[test]
fn ownership_transfer_moves_the_privilege() {
    let mut t = initialized_token();
    assert_eq!(t.set_owner(&id("alice"), id("carol")), Ok(()));
    assert_eq!(
        t.mint(&id("alice"), &id("alice"), 10),
        Err(TokenError::Unauthorized)
    );
    assert_eq!(t.mint(&id("carol"), &id("alice"), 10), Ok(()));
    assert_eq!(t.balance_of(&id("alice")), 1010);
    assert_eq!(t.total_supply(), 1010);
}

#[test]
fn deposit_past_maximum_fails_and_preserves_state() {
    let mut l = Ledger::new();
    l.register(&id("alice"));
    assert_eq!(l.deposit(&id("alice"), u128::MAX), Ok(()));
    assert_eq!(l.deposit(&id("alice"), 1), Err(TokenError::Overflow));
    assert_eq!(l.balance_of(&id("alice")), u128::MAX);
    assert_eq!(l.total_supply(), u128::MAX);
}
