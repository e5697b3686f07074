use electron_token::account::AccountId;
use electron_token::errors::TokenError;
use electron_token::metadata::Metadata;
use electron_token::token::{ElectronTestToken, Ownable};

fn id(s: &str) -> AccountId {
    AccountId::from_bytes(s.as_bytes().to_vec())
}

fn simple_metadata() -> Metadata {
    Metadata::new(b"Electron".to_vec(), b"ELT".to_vec(), 24, None)
}

fn fresh_token() -> ElectronTestToken {
    ElectronTestToken::new(id("token.test"), id("alice"), simple_metadata(), 1000).unwrap()
}

#[test]
fn new_rejects_empty_name() {
    let m = Metadata::new(Vec::new(), b"ELT".to_vec(), 24, None);
    let r = ElectronTestToken::new(id("token.test"), id("alice"), m, 0);
    assert!(matches!(r, Err(TokenError::InvalidMetadata)));
}

#[test]
fn new_rejects_empty_symbol() {
    let m = Metadata::new(b"Electron".to_vec(), Vec::new(), 24, None);
    let r = ElectronTestToken::new(id("token.test"), id("alice"), m, 0);
    assert!(matches!(r, Err(TokenError::InvalidMetadata)));
}

#[test]
fn new_registers_contract_and_owner() {
    let t = fresh_token();
    assert_eq!(t.balance_of(&id("alice")), 1000);
    assert_eq!(t.balance_of(&id("token.test")), 0);
    assert_eq!(t.total_supply(), 1000);
    assert!(t.get_owner().eq_id(&id("alice")));
}

#[test]
fn register_account_requires_owner() {
    let mut t = fresh_token();
    assert_eq!(
        t.register_account(&id("mallory"), id("bob")),
        Err(TokenError::Unauthorized)
    );
    assert_eq!(t.register_account(&id("alice"), id("bob")), Ok(()));
    assert_eq!(t.balance_of(&id("bob")), 0);
}

#[test]
fn register_account_twice_keeps_balance() {
    let mut t = fresh_token();
    assert_eq!(t.register_account(&id("alice"), id("bob")), Ok(()));
    assert_eq!(t.mint(&id("alice"), &id("bob"), 40), Ok(()));
    assert_eq!(t.register_account(&id("alice"), id("bob")), Ok(()));
    assert_eq!(t.balance_of(&id("bob")), 40);
    assert_eq!(t.total_supply(), 1040);
}

#[test]
fn mint_requires_owner() {
    let mut t = fresh_token();
    assert_eq!(
        t.mint(&id("mallory"), &id("alice"), 5),
        Err(TokenError::Unauthorized)
    );
    assert_eq!(t.balance_of(&id("alice")), 1000);
    assert_eq!(t.total_supply(), 1000);
}

#[test]
fn burn_requires_one_attached_unit() {
    let mut t = fresh_token();
    assert_eq!(
        t.burn(&id("alice"), 0, &id("alice"), 5),
        Err(TokenError::PaymentPrecisionRequired)
    );
    assert_eq!(
        t.burn(&id("alice"), 2, &id("alice"), 5),
        Err(TokenError::PaymentPrecisionRequired)
    );
    // the payment guard comes before the authorization check
    assert_eq!(
        t.burn(&id("mallory"), 0, &id("alice"), 5),
        Err(TokenError::PaymentPrecisionRequired)
    );
    assert_eq!(t.balance_of(&id("alice")), 1000);
}

#[test]
fn burn_requires_owner() {
    let mut t = fresh_token();
    assert_eq!(
        t.burn(&id("mallory"), 1, &id("alice"), 5),
        Err(TokenError::Unauthorized)
    );
    assert_eq!(t.balance_of(&id("alice")), 1000);
    assert_eq!(t.total_supply(), 1000);
}

#[test]
fn burn_reduces_balance_and_supply() {
    let mut t = fresh_token();
    assert_eq!(t.burn(&id("alice"), 1, &id("alice"), 300), Ok(()));
    assert_eq!(t.balance_of(&id("alice")), 700);
    assert_eq!(t.total_supply(), 700);
}

#[test]
fn set_icon_is_self_only() {
    let mut t = fresh_token();
    // even the owner may not set the icon remotely
    assert_eq!(
        t.set_icon(&id("alice"), b"data:icon".to_vec()),
        Err(TokenError::Unauthorized)
    );
    assert_eq!(t.ft_metadata().icon(), &None);
    assert_eq!(t.set_icon(&id("token.test"), b"data:icon".to_vec()), Ok(()));
    let m = t.ft_metadata();
    assert_eq!(m.icon(), &Some(b"data:icon".to_vec()));
    assert_eq!(m.name(), b"Electron");
    assert_eq!(m.symbol(), b"ELT");
    assert_eq!(m.decimals(), 24);
}

#[test]
fn set_owner_requires_owner() {
    let mut t = fresh_token();
    assert_eq!(
        t.set_owner(&id("mallory"), id("mallory")),
        Err(TokenError::Unauthorized)
    );
    assert!(t.get_owner().eq_id(&id("alice")));
}

#[test]
fn assert_owner_matches_current_owner() {
    let t = fresh_token();
    assert_eq!(t.assert_owner(&id("alice")), Ok(()));
    assert_eq!(t.assert_owner(&id("mallory")), Err(TokenError::Unauthorized));
}

#[test]
fn new_owner_may_be_unregistered_and_unchanged() {
    let mut t = fresh_token();
    // permissive by design: the new owner need not be registered, and the
    // current owner may re-assign ownership to itself
    assert_eq!(t.set_owner(&id("alice"), id("alice")), Ok(()));
    assert_eq!(t.set_owner(&id("alice"), id("nobody")), Ok(()));
    assert!(t.get_owner().eq_id(&id("nobody")));
}
