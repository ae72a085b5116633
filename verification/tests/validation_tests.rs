use stablecoin::contract::MyStablecoin;
use stablecoin::extensions::burnable::{
    can_burn, can_burn_from, max_burnable_amount, StablecoinBurnable,
};
use stablecoin::extensions::pausable::{get_pause_status, PauseStatus, StablecoinPausable};
use stablecoin::extensions::upgradeable::{
    can_upgrade_now, get_upgrade_status, validate_upgrade_permissions, StablecoinUpgradeable,
    UpgradeError, UpgradeStatus,
};
use stablecoin::types::{
    create_metadata_strings, error_to_message, Address, StablecoinError, TokenStats,
};
use stablecoin::utils::{
    validate_address, validate_address_comprehensive, validate_amount_range, validate_balance,
    validate_burn_amount, validate_burn_comprehensive, validate_contract_initialized,
    validate_mint, validate_mint_amount, validate_mint_comprehensive,
    validate_not_specific_address, validate_parameters, validate_role, validate_supply_limits,
    validate_transfer, validate_transfer_addresses, validate_transfer_comprehensive,
};

fn setup() -> (MyStablecoin, Address, Address, Address, Address) {
    let mut contract = MyStablecoin::new();
    let admin = Address::new("admin");
    let minter = Address::new("minter");
    let pauser = Address::new("pauser");
    let upgrader = Address::new("upgrader");
    contract.initialize(&admin, &pauser, &upgrader, &minter).unwrap();
    (contract, admin, minter, pauser, upgrader)
}

#[test]
fn test_address_guards() {
    let user = Address::new("user");
    let empty = Address::new("");
    let contract_addr = Address::new("contract");

    assert_eq!(validate_address(&user), Ok(()));
    assert_eq!(validate_address(&empty), Err(StablecoinError::ZeroAddress));
    assert_eq!(validate_address_comprehensive(&user), Ok(()));
    assert_eq!(validate_address_comprehensive(&empty), Err(StablecoinError::ZeroAddress));
    assert_eq!(validate_not_specific_address(&user, &contract_addr), Ok(()));
    assert_eq!(
        validate_not_specific_address(&contract_addr, &contract_addr),
        Err(StablecoinError::ZeroAddress)
    );
    assert_eq!(validate_transfer_addresses(&user, &contract_addr), Ok(()));
    assert_eq!(
        validate_transfer_addresses(&user, &user),
        Err(StablecoinError::SelfTransfer)
    );
}

#[test]
fn test_amount_guards() {
    assert_eq!(validate_mint_amount(0), Err(StablecoinError::InvalidAmount));
    assert_eq!(validate_mint_amount(-5), Err(StablecoinError::InvalidAmount));
    assert_eq!(validate_mint_amount(1), Ok(()));
    assert_eq!(validate_burn_amount(0), Err(StablecoinError::InvalidAmount));
    assert_eq!(validate_burn_amount(7), Ok(()));

    assert_eq!(validate_amount_range(4), Err(StablecoinError::InvalidAmount));
    assert_eq!(validate_amount_range(5), Ok(()));
    assert_eq!(validate_amount_range(100_000_000), Ok(()));
    assert_eq!(validate_amount_range(100_000_001), Err(StablecoinError::AmountTooLarge));
}

#[test]
fn test_supply_limit_guard() {
    assert_eq!(validate_supply_limits(0, 1_000_000_000), Ok(()));
    assert_eq!(
        validate_supply_limits(1_000_000_000, 5),
        Err(StablecoinError::ExceedsMaxSupply)
    );
    assert_eq!(validate_supply_limits(999_999_999, 1), Ok(()));
    assert_eq!(
        validate_supply_limits(999_999_997, 5),
        Err(StablecoinError::ExceedsMaxSupply)
    );
    assert_eq!(validate_supply_limits(999_999_995, 5), Ok(()));
    assert_eq!(validate_supply_limits(i128::MAX, 1), Err(StablecoinError::AmountTooLarge));
}

#[test]
fn test_role_and_parameter_guards() {
    assert_eq!(validate_role("minter"), Ok(()));
    assert_eq!(validate_role("pauser"), Ok(()));
    assert_eq!(validate_role("upgrader"), Ok(()));
    assert_eq!(validate_role("admin"), Err(StablecoinError::InvalidRole));
    assert_eq!(validate_role(""), Err(StablecoinError::InvalidRole));

    assert_eq!(validate_parameters(&[]), Err(StablecoinError::InvalidParameters));
    assert_eq!(validate_parameters(&["a", ""]), Err(StablecoinError::InvalidParameters));
    assert_eq!(validate_parameters(&["a", "b"]), Ok(()));
}

#[test]
fn test_composite_validators() {
    let (mut contract, _admin, minter, _pauser, _upgrader) = setup();
    let user = Address::new("user");
    let other = Address::new("other");
    let empty = Address::new("");
    contract.mint(&minter, &user, 1000).unwrap();

    assert_eq!(validate_contract_initialized(&contract), Ok(()));
    let uninitialized = MyStablecoin::new();
    assert_eq!(
        validate_contract_initialized(&uninitialized),
        Err(StablecoinError::ContractNotInitialized)
    );

    assert_eq!(validate_mint(&user, 10), Ok(()));
    assert_eq!(validate_mint(&empty, 10), Err(StablecoinError::ZeroAddress));
    assert_eq!(validate_mint(&user, 0), Err(StablecoinError::InvalidAmount));

    assert_eq!(validate_transfer(&user, &other, 10), Ok(()));
    assert_eq!(validate_transfer(&user, &other, 0), Err(StablecoinError::InvalidAmount));

    assert_eq!(validate_balance(&contract, &user, 1000), Ok(()));
    assert_eq!(
        validate_balance(&contract, &user, 1001),
        Err(StablecoinError::InsufficientBalance)
    );

    assert_eq!(validate_mint_comprehensive(&contract, &user, 100), Ok(()));
    assert_eq!(
        validate_mint_comprehensive(&contract, &user, 4),
        Err(StablecoinError::InvalidAmount)
    );
    assert_eq!(validate_transfer_comprehensive(&contract, &user, &other, 100), Ok(()));
    assert_eq!(
        validate_transfer_comprehensive(&contract, &user, &user, 100),
        Err(StablecoinError::SelfTransfer)
    );
    assert_eq!(
        validate_transfer_comprehensive(&contract, &user, &other, 2000),
        Err(StablecoinError::InsufficientBalance)
    );
    assert_eq!(validate_burn_comprehensive(&contract, &user, 100), Ok(()));
    assert_eq!(
        validate_burn_comprehensive(&contract, &user, 2000),
        Err(StablecoinError::InsufficientBalance)
    );
}

#[test]
fn test_error_messages() {
    assert_eq!(error_to_message(StablecoinError::Paused), "Contract is paused");
    assert_eq!(
        error_to_message(StablecoinError::InvalidAmount),
        "Invalid amount: must be a positive integer"
    );
    assert_eq!(
        error_to_message(StablecoinError::ExceedsMaxSupply),
        "Operation would exceed maximum supply"
    );
    assert_eq!(
        error_to_message(StablecoinError::SelfTransfer),
        "Cannot transfer to same address"
    );
    assert_eq!(
        error_to_message(StablecoinError::ContractNotInitialized),
        "Contract not properly initialized"
    );
}

#[test]
fn test_metadata_strings() {
    let (name, symbol) = create_metadata_strings();
    assert_eq!(name, "Costa Rica Colon".to_string());
    assert_eq!(symbol, "CRCX".to_string());
}

#[test]
fn test_token_stats_type() {
    let stats = TokenStats {
        total_supply: 900,
        total_minted: 1000,
        total_burned: 100,
        holders_count: 2,
    };
    let copy = stats;
    assert_eq!(stats, copy);
    assert_eq!(stats.total_supply, 900);
}

#[test]
fn test_burnable_extension() {
    let (mut contract, _admin, minter, _pauser, _upgrader) = setup();
    let owner = Address::new("owner");
    let spender = Address::new("spender");
    contract.mint(&minter, &owner, 1000).unwrap();

    assert!(can_burn(&contract, &owner, 1000));
    assert!(!can_burn(&contract, &owner, 1001));
    assert!(!can_burn(&contract, &owner, 0));
    assert_eq!(max_burnable_amount(&contract, &owner), 1000);

    StablecoinBurnable::burn(&mut contract, &owner, 250);
    assert_eq!(contract.balance(&owner), 750);
    assert_eq!(contract.total_supply(), 750);

    contract.approve(&owner, &spender, 300, 100).unwrap();
    assert!(can_burn_from(&contract, &spender, &owner, 300));
    assert!(!can_burn_from(&contract, &spender, &owner, 301));
    StablecoinBurnable::burn_from(&mut contract, &spender, &owner, 200);
    assert_eq!(contract.balance(&owner), 550);
    assert_eq!(contract.allowance(&owner, &spender), 100);
    assert_eq!(contract.total_supply(), 550);
}

#[test]
fn test_pausable_extension() {
    let (mut contract, _admin, _minter, pauser, _upgrader) = setup();

    assert!(!StablecoinPausable::paused(&contract));
    assert_eq!(get_pause_status(&contract), PauseStatus::NotPaused);

    StablecoinPausable::pause(&mut contract, &pauser);
    assert!(StablecoinPausable::paused(&contract));
    assert_eq!(get_pause_status(&contract), PauseStatus::Paused);

    StablecoinPausable::unpause(&mut contract, &pauser);
    assert!(!StablecoinPausable::paused(&contract));
    assert_eq!(get_pause_status(&contract), PauseStatus::NotPaused);
}

#[test]
fn test_upgradeable_extension() {
    let (mut contract, _admin, _minter, pauser, upgrader) = setup();
    let outsider = Address::new("outsider");

    assert!(StablecoinUpgradeable::can_upgrade(&contract, &upgrader));
    assert!(!StablecoinUpgradeable::can_upgrade(&contract, &outsider));
    assert_eq!(validate_upgrade_permissions(&contract, &upgrader), Ok(()));
    assert_eq!(
        validate_upgrade_permissions(&contract, &outsider),
        Err(UpgradeError::Unauthorized)
    );

    assert!(can_upgrade_now(&contract, &upgrader));
    assert_eq!(get_upgrade_status(&contract, &upgrader), UpgradeStatus::Authorized);
    assert_eq!(get_upgrade_status(&contract, &outsider), UpgradeStatus::Unauthorized);

    StablecoinPausable::pause(&mut contract, &pauser);
    assert!(!can_upgrade_now(&contract, &upgrader));
    assert_eq!(get_upgrade_status(&contract, &upgrader), UpgradeStatus::Restricted);
}
