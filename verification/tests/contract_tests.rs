use stablecoin::contract::MyStablecoin;
use stablecoin::types::{Address, StablecoinError, StablecoinEvent};

fn setup() -> (MyStablecoin, Address, Address, Address, Address) {
    let mut contract = MyStablecoin::new();
    let admin = Address::new("admin");
    let minter = Address::new("minter");
    let pauser = Address::new("pauser");
    let upgrader = Address::new("upgrader");
    contract.initialize(&admin, &pauser, &upgrader, &minter).unwrap();
    (contract, admin, minter, pauser, upgrader)
}

#[test]
fn test_basic_functionality() {
    let (mut contract, _admin, minter, pauser, upgrader) = setup();
    let user1 = Address::new("user1");
    let user2 = Address::new("user2");

    contract.mint(&minter, &user1, 1000).unwrap();
    assert_eq!(contract.balance(&user1), 1000);

    assert_eq!(contract.name(), "Costa Rica Colon".to_string());
    assert_eq!(contract.symbol(), "CRCX".to_string());
    assert_eq!(contract.decimals(), 2);
    assert_eq!(contract.total_supply(), 1000);
    assert_eq!(contract.is_paused(), false);

    contract.transfer(&user1, &user2, 500).unwrap();
    assert_eq!(contract.balance(&user1), 500);
    assert_eq!(contract.balance(&user2), 500);

    contract.burn(&user1, 100).unwrap();
    assert_eq!(contract.balance(&user1), 400);
    assert_eq!(contract.total_supply(), 900);

    assert!(contract.has_role_minter(&minter));
    assert!(contract.has_role_pauser(&pauser));
    assert!(contract.has_role_upgrader(&upgrader));

    let random_user = Address::new("random_user");
    assert!(!contract.has_role_minter(&random_user));
    assert!(!contract.has_role_pauser(&random_user));
    assert!(!contract.has_role_upgrader(&random_user));
}

#[test]
fn test_batch_mint() {
    let (mut contract, _admin, minter, _pauser, _upgrader) = setup();
    let user1 = Address::new("user1");
    let user2 = Address::new("user2");
    let user3 = Address::new("user3");

    let recipients = vec![(user1.clone(), 100), (user2.clone(), 200), (user3.clone(), 300)];
    contract.batch_mint(&minter, &recipients).unwrap();

    assert_eq!(contract.balance(&user1), 100);
    assert_eq!(contract.balance(&user2), 200);
    assert_eq!(contract.balance(&user3), 300);
    assert_eq!(contract.total_supply(), 600);
}

#[test]
fn test_burn_functionality() {
    let (mut contract, _admin, minter, _pauser, _upgrader) = setup();
    let owner = Address::new("owner");

    contract.mint(&minter, &owner, 1000).unwrap();
    assert_eq!(contract.balance(&owner), 1000);
    assert_eq!(contract.total_supply(), 1000);

    contract.burn(&owner, 300).unwrap();
    assert_eq!(contract.balance(&owner), 700);
    assert_eq!(contract.total_supply(), 700);

    contract.burn(&owner, 700).unwrap();
    assert_eq!(contract.balance(&owner), 0);
    assert_eq!(contract.total_supply(), 0);
}

#[test]
fn test_pausable_functionality() {
    let (mut contract, _admin, minter, pauser, _upgrader) = setup();
    let user = Address::new("user");

    assert_eq!(contract.is_paused(), false);

    contract.mint(&minter, &user, 1000).unwrap();
    assert_eq!(contract.balance(&user), 1000);

    contract.pause(&pauser).unwrap();
    assert_eq!(contract.is_paused(), true);

    contract.unpause(&pauser).unwrap();
    assert_eq!(contract.is_paused(), false);

    contract.mint(&minter, &user, 500).unwrap();
    assert_eq!(contract.balance(&user), 1500);
}

#[test]
fn test_allowance_and_transfer_from() {
    let (mut contract, _admin, minter, _pauser, _upgrader) = setup();
    let owner = Address::new("owner");
    let spender = Address::new("spender");
    let recipient = Address::new("recipient");

    contract.mint(&minter, &owner, 1000).unwrap();
    assert_eq!(contract.balance(&owner), 1000);

    contract.approve(&owner, &spender, 500, 1000).unwrap();
    assert_eq!(contract.allowance(&owner, &spender), 500);

    contract.transfer_from(&spender, &owner, &recipient, 200).unwrap();
    assert_eq!(contract.balance(&owner), 800);
    assert_eq!(contract.balance(&recipient), 200);
    assert_eq!(contract.allowance(&owner, &spender), 300);
}

#[test]
fn test_comprehensive_validation() {
    let (mut contract, _admin, minter, _pauser, _upgrader) = setup();
    let user = Address::new("user");
    let user2 = Address::new("user2");

    contract.mint(&minter, &user, 1000).unwrap();
    assert_eq!(contract.balance(&user), 1000);

    contract.transfer(&user, &user2, 500).unwrap();
    assert_eq!(contract.balance(&user), 500);
    assert_eq!(contract.balance(&user2), 500);

    contract.burn(&user, 200).unwrap();
    assert_eq!(contract.balance(&user), 300);
    assert_eq!(contract.total_supply(), 800);
}

#[test]
fn test_admin_functionality() {
    let (contract, _admin, minter, pauser, upgrader) = setup();

    assert!(contract.get_admin().is_some());

    assert!(contract.has_role_minter(&minter));
    assert!(contract.has_role_pauser(&pauser));
    assert!(contract.has_role_upgrader(&upgrader));

    let unauthorized_user = Address::new("unauthorized_user");
    assert!(!contract.has_role_minter(&unauthorized_user));
    assert!(!contract.has_role_pauser(&unauthorized_user));
    assert!(!contract.has_role_upgrader(&unauthorized_user));
}

#[test]
fn test_address_validation() {
    let (mut contract, _admin, minter, _pauser, _upgrader) = setup();

    let valid_user = Address::new("valid_user");
    contract.mint(&minter, &valid_user, 1000).unwrap();
    assert_eq!(contract.balance(&valid_user), 1000);

    let valid_recipient = Address::new("valid_recipient");
    contract.transfer(&valid_user, &valid_recipient, 500).unwrap();
    assert_eq!(contract.balance(&valid_user), 500);
    assert_eq!(contract.balance(&valid_recipient), 500);

    let address_str = valid_user.to_string();
    assert!(!address_str.is_empty());
}

#[test]
fn test_error_conditions() {
    let (mut contract, _admin, minter, _pauser, _upgrader) = setup();
    let user = Address::new("user");

    let result = contract.mint(&minter, &user, 0);
    assert!(result.is_err());

    let result = contract.mint(&minter, &user, -100);
    assert!(result.is_err());

    contract.mint(&minter, &user, 1000).unwrap();
    let user2 = Address::new("user2");
    let result = contract.transfer(&user, &user2, 0);
    assert!(result.is_err());

    let result = contract.transfer(&user, &user2, -100);
    assert!(result.is_err());

    let result = contract.transfer(&user, &user2, 2000);
    assert!(result.is_err());

    let result = contract.burn(&user, 0);
    assert!(result.is_err());

    let result = contract.burn(&user, -100);
    assert!(result.is_err());

    let result = contract.burn(&user, 2000);
    assert!(result.is_err());
}

#[test]
fn test_self_transfer_prevention() {
    let (mut contract, _admin, minter, _pauser, _upgrader) = setup();
    let user = Address::new("user");

    contract.mint(&minter, &user, 1000).unwrap();
    assert_eq!(contract.balance(&user), 1000);

    let result = contract.transfer(&user, &user, 100);
    assert!(result.is_err());
    assert_eq!(result, Err(StablecoinError::SelfTransfer));

    assert_eq!(contract.balance(&user), 1000);
}

#[test]
fn test_min_amount_boundary() {
    let (mut contract, _admin, minter, _pauser, _upgrader) = setup();
    let user = Address::new("user");
    let other = Address::new("other");

    assert_eq!(contract.mint(&minter, &user, 4), Err(StablecoinError::InvalidAmount));
    assert_eq!(contract.balance(&user), 0);

    contract.mint(&minter, &user, 5).unwrap();
    assert_eq!(contract.balance(&user), 5);

    contract.mint(&minter, &user, 6).unwrap();
    assert_eq!(contract.balance(&user), 11);

    assert_eq!(contract.transfer(&user, &other, 4), Err(StablecoinError::InvalidAmount));
    assert_eq!(contract.burn(&user, 4), Err(StablecoinError::InvalidAmount));
    contract.transfer(&user, &other, 5).unwrap();
    contract.burn(&user, 5).unwrap();
    assert_eq!(contract.balance(&user), 1);
    assert_eq!(contract.total_supply(), 6);
}

#[test]
fn test_supply_cap() {
    let (mut contract, _admin, minter, _pauser, _upgrader) = setup();
    let user = Address::new("user");

    for _ in 0..10 {
        contract.mint(&minter, &user, 100_000_000).unwrap();
    }
    assert_eq!(contract.total_supply(), 1_000_000_000);

    let result = contract.mint(&minter, &user, 5);
    assert_eq!(result, Err(StablecoinError::ExceedsMaxSupply));
    assert_eq!(contract.total_supply(), 1_000_000_000);
    assert_eq!(contract.balance(&user), 1_000_000_000);

    let result = contract.mint(&minter, &user, 100_000_001);
    assert_eq!(result, Err(StablecoinError::AmountTooLarge));
}

#[test]
fn test_batch_mint_atomicity() {
    let (mut contract, _admin, minter, _pauser, _upgrader) = setup();
    let user1 = Address::new("user1");
    let user2 = Address::new("user2");
    let user3 = Address::new("user3");

    let recipients =
        vec![(user1.clone(), 100), (user2.clone(), 3), (user3.clone(), 200)];
    let result = contract.batch_mint(&minter, &recipients);
    assert_eq!(result, Err(StablecoinError::InvalidAmount));

    assert_eq!(contract.balance(&user1), 0);
    assert_eq!(contract.balance(&user2), 0);
    assert_eq!(contract.balance(&user3), 0);
    assert_eq!(contract.total_supply(), 0);
}

#[test]
fn test_pause_gate_blocks_mutations() {
    let (mut contract, _admin, minter, pauser, _upgrader) = setup();
    let user = Address::new("user");
    let other = Address::new("other");

    contract.mint(&minter, &user, 1000).unwrap();
    contract.pause(&pauser).unwrap();

    assert_eq!(contract.mint(&minter, &user, 100), Err(StablecoinError::Paused));
    assert_eq!(contract.transfer(&user, &other, 100), Err(StablecoinError::Paused));
    assert_eq!(contract.burn(&user, 100), Err(StablecoinError::Paused));
    assert_eq!(contract.approve(&user, &other, 100, 50), Err(StablecoinError::Paused));
    assert_eq!(
        contract.transfer_from(&other, &user, &other, 100),
        Err(StablecoinError::Paused)
    );
    assert_eq!(contract.burn_from(&other, &user, 100), Err(StablecoinError::Paused));
    assert_eq!(
        contract.batch_mint(&minter, &vec![(user.clone(), 100)]),
        Err(StablecoinError::Paused)
    );

    assert_eq!(contract.balance(&user), 1000);
    assert_eq!(contract.total_supply(), 1000);
    assert_eq!(contract.name(), "Costa Rica Colon".to_string());
    assert!(contract.is_paused());

    contract.unpause(&pauser).unwrap();
    contract.mint(&minter, &user, 100).unwrap();
    assert_eq!(contract.balance(&user), 1100);
}

#[test]
fn test_unauthorized_callers() {
    let (mut contract, _admin, _minter, _pauser, _upgrader) = setup();
    let outsider = Address::new("outsider");
    let user = Address::new("user");

    assert_eq!(contract.mint(&outsider, &user, 1000), Err(StablecoinError::Unauthorized));
    assert_eq!(
        contract.batch_mint(&outsider, &vec![(user.clone(), 1000)]),
        Err(StablecoinError::Unauthorized)
    );
    assert_eq!(contract.pause(&outsider), Err(StablecoinError::Unauthorized));
    assert_eq!(contract.unpause(&outsider), Err(StablecoinError::Unauthorized));
    assert_eq!(contract.total_supply(), 0);
}

#[test]
fn test_initialization_lifecycle() {
    let mut contract = MyStablecoin::new();
    let minter = Address::new("minter");
    let user = Address::new("user");

    // No roles are granted yet, so the role check (which runs before the
    // pipeline) refuses the mint; transfer has no role check and reaches
    // the initialization guard.
    assert_eq!(contract.mint(&minter, &user, 1000), Err(StablecoinError::Unauthorized));
    assert_eq!(
        contract.transfer(&user, &minter, 100),
        Err(StablecoinError::ContractNotInitialized)
    );

    let admin = Address::new("admin");
    let pauser = Address::new("pauser");
    let upgrader = Address::new("upgrader");
    contract.initialize(&admin, &pauser, &upgrader, &minter).unwrap();

    assert_eq!(
        contract.initialize(&admin, &pauser, &upgrader, &minter),
        Err(StablecoinError::AlreadyInitialized)
    );

    contract.mint(&minter, &user, 1000).unwrap();
    assert_eq!(contract.balance(&user), 1000);
}

#[test]
fn test_zero_address_rejected() {
    let (mut contract, _admin, minter, _pauser, _upgrader) = setup();
    let empty = Address::new("");
    let user = Address::new("user");

    assert_eq!(contract.mint(&minter, &empty, 1000), Err(StablecoinError::ZeroAddress));
    contract.mint(&minter, &user, 1000).unwrap();
    assert_eq!(contract.transfer(&user, &empty, 100), Err(StablecoinError::ZeroAddress));
    assert_eq!(contract.burn(&empty, 100), Err(StablecoinError::ZeroAddress));
}

#[test]
fn test_allowance_expiration_and_shortfall() {
    let (mut contract, _admin, minter, _pauser, _upgrader) = setup();
    let owner = Address::new("owner");
    let spender = Address::new("spender");
    let recipient = Address::new("recipient");

    contract.mint(&minter, &owner, 1000).unwrap();
    contract.approve(&owner, &spender, 500, 10).unwrap();
    assert_eq!(contract.allowance(&owner, &spender), 500);

    assert_eq!(
        contract.transfer_from(&spender, &owner, &recipient, 600),
        Err(StablecoinError::InsufficientAllowance)
    );
    assert_eq!(
        contract.burn_from(&spender, &owner, 600),
        Err(StablecoinError::InsufficientAllowance)
    );

    contract.burn_from(&spender, &owner, 100).unwrap();
    assert_eq!(contract.balance(&owner), 900);
    assert_eq!(contract.total_supply(), 900);
    assert_eq!(contract.allowance(&owner, &spender), 400);

    contract.set_ledger_height(11);
    assert_eq!(contract.allowance(&owner, &spender), 0);
    assert_eq!(
        contract.transfer_from(&spender, &owner, &recipient, 200),
        Err(StablecoinError::InsufficientAllowance)
    );
    assert_eq!(contract.balance(&owner), 900);

    assert_eq!(contract.approve(&owner, &spender, -1, 20), Err(StablecoinError::InvalidAmount));
    contract.approve(&owner, &spender, 300, 20).unwrap();
    assert_eq!(contract.allowance(&owner, &spender), 300);
    contract.transfer_from(&spender, &owner, &recipient, 200).unwrap();
    assert_eq!(contract.balance(&recipient), 200);
    assert_eq!(contract.allowance(&owner, &spender), 100);
}

#[test]
fn test_roles_fixed_after_initialization() {
    let (mut contract, _admin, minter, pauser, upgrader) = setup();
    let user = Address::new("user");

    contract.mint(&minter, &user, 1000).unwrap();
    contract.pause(&pauser).unwrap();
    contract.unpause(&pauser).unwrap();

    // No revoke or regrant operation exists; the grants made at
    // initialization are the grants forever.
    assert!(contract.has_role_minter(&minter));
    assert!(contract.has_role_pauser(&pauser));
    assert!(contract.has_role_upgrader(&upgrader));
    assert!(!contract.has_role_minter(&pauser));
    assert!(!contract.has_role_pauser(&minter));
    assert_eq!(contract.get_admin().map(|a| a.to_string()), Some("admin".to_string()));
}

#[test]
fn test_get_token_info() {
    let (mut contract, _admin, minter, _pauser, _upgrader) = setup();
    let user = Address::new("user");
    contract.mint(&minter, &user, 1000).unwrap();

    let (name, symbol, decimals, supply, paused) = contract.get_token_info();
    assert_eq!(name, "Costa Rica Colon".to_string());
    assert_eq!(symbol, "CRCX".to_string());
    assert_eq!(decimals, 2);
    assert_eq!(supply, 1000);
    assert_eq!(paused, false);
}

#[test]
fn test_event_log() {
    let (mut contract, _admin, minter, pauser, _upgrader) = setup();
    let user = Address::new("user");
    let other = Address::new("other");

    contract.mint(&minter, &user, 1000).unwrap();
    contract.transfer(&user, &other, 500).unwrap();
    contract.burn(&user, 100).unwrap();
    contract.pause(&pauser).unwrap();
    contract.unpause(&pauser).unwrap();

    assert_eq!(contract.events.len(), 5);
    assert!(matches!(contract.events[0], StablecoinEvent::Mint { amount: 1000, .. }));
    assert!(matches!(contract.events[1], StablecoinEvent::Transfer { amount: 500, .. }));
    assert!(matches!(contract.events[2], StablecoinEvent::Burn { amount: 100, .. }));
    assert!(matches!(contract.events[3], StablecoinEvent::Pause));
    assert!(matches!(contract.events[4], StablecoinEvent::Unpause));

    // A failed call records nothing.
    assert!(contract.mint(&minter, &user, 4).is_err());
    assert_eq!(contract.events.len(), 5);
}
