use electron_token::account::AccountId;
use electron_token::errors::TokenError;
use electron_token::lifecycle::ContractCell;
use electron_token::metadata::Metadata;

fn id(s: &str) -> AccountId {
    AccountId::from_bytes(s.as_bytes().to_vec())
}

fn simple_metadata() -> Metadata {
    Metadata::new(b"Electron".to_vec(), b"ELT".to_vec(), 24, None)
}

fn initialized_cell() -> ContractCell {
    let mut cell = ContractCell::uninitialized();
    cell.initialize(id("token.test"), id("alice"), simple_metadata(), 1000)
        .unwrap();
    cell
}

#[test]
fn operations_before_initialize_fail() {
    let mut cell = ContractCell::uninitialized();
    assert_eq!(
        cell.register_account(&id("alice"), id("bob")),
        Err(TokenError::NotInitialized)
    );
    assert_eq!(
        cell.mint(&id("alice"), &id("bob"), 1),
        Err(TokenError::NotInitialized)
    );
    assert_eq!(
        cell.burn(&id("alice"), 1, &id("bob"), 1),
        Err(TokenError::NotInitialized)
    );
    assert_eq!(
        cell.set_icon(&id("token.test"), b"i".to_vec()),
        Err(TokenError::NotInitialized)
    );
    assert_eq!(
        cell.set_owner(&id("alice"), id("carol")),
        Err(TokenError::NotInitialized)
    );
    assert!(matches!(cell.get_owner(), Err(TokenError::NotInitialized)));
    assert_eq!(cell.balance_of(&id("alice")), Err(TokenError::NotInitialized));
    assert_eq!(cell.total_supply(), Err(TokenError::NotInitialized));
    assert!(cell.ft_metadata().is_err());
}

#[test]
fn initialize_happens_once() {
    let mut cell = initialized_cell();
    assert_eq!(
        cell.initialize(id("token.test"), id("carol"), simple_metadata(), 5),
        Err(TokenError::AlreadyInitialized)
    );
    let owner = cell.get_owner().unwrap();
    assert!(owner.eq_id(&id("alice")));
    assert_eq!(cell.total_supply(), Ok(1000));
}

#[test]
fn invalid_metadata_leaves_cell_uninitialized() {
    let mut cell = ContractCell::uninitialized();
    let bad = Metadata::new(Vec::new(), b"ELT".to_vec(), 24, None);
    assert_eq!(
        cell.initialize(id("token.test"), id("alice"), bad, 0),
        Err(TokenError::InvalidMetadata)
    );
    assert_eq!(cell.total_supply(), Err(TokenError::NotInitialized));
    // a later, well-formed initialization still goes through
    assert_eq!(
        cell.initialize(id("token.test"), id("alice"), simple_metadata(), 7),
        Ok(())
    );
    assert_eq!(cell.total_supply(), Ok(7));
}

#[test]
fn cell_forwards_to_the_gateway() {
    let mut cell = initialized_cell();
    assert_eq!(cell.register_account(&id("alice"), id("bob")), Ok(()));
    assert_eq!(cell.mint(&id("alice"), &id("bob"), 250), Ok(()));
    assert_eq!(cell.burn(&id("alice"), 1, &id("bob"), 50), Ok(()));
    assert_eq!(cell.balance_of(&id("bob")), Ok(200));
    assert_eq!(cell.total_supply(), Ok(1200));
    assert_eq!(cell.set_icon(&id("token.test"), b"icon".to_vec()), Ok(()));
    assert_eq!(
        cell.ft_metadata().unwrap().icon(),
        &Some(b"icon".to_vec())
    );
    assert_eq!(cell.set_owner(&id("alice"), id("carol")), Ok(()));
    assert!(cell.get_owner().unwrap().eq_id(&id("carol")));
    assert_eq!(
        cell.mint(&id("alice"), &id("bob"), 1),
        Err(TokenError::Unauthorized)
    );
}
