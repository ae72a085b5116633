//! The validation pipeline and initialization helpers.
//!
//! Each guard checks one precondition and returns the first violated
//! condition as a typed error.  The `spec_validate_*` functions give the
//! exact fail-fast semantics; each executable guard is proved to return
//! precisely what its spec function says.

use vstd::prelude::*;
use vstd::string::StringExecFns;

use crate::contract::MyStablecoin;
use crate::types::{
    create_metadata_strings, token_name, token_symbol, Address, StablecoinError, DECIMALS,
    ENABLE_OPERATION_LIMITS, ENABLE_SUPPLY_LIMITS, MAX_SINGLE_OPERATION, MAX_SUPPLY, MIN_AMOUNT,
};

verus! {

/// An address is acceptable exactly when its identifier is non-empty.
pub open spec fn spec_validate_address(a: Seq<char>) -> Result<(), StablecoinError> {
    if a.len() == 0 {
        Err(StablecoinError::ZeroAddress)
    } else {
        Ok(())
    }
}

/// A mint or burn amount must be strictly positive.
pub open spec fn spec_validate_positive_amount(amount: i128) -> Result<(), StablecoinError> {
    if amount <= 0 {
        Err(StablecoinError::InvalidAmount)
    } else {
        Ok(())
    }
}

/// An amount must reach the minimum and, with operation limits on, not
/// exceed the per-operation cap.
pub open spec fn spec_validate_amount_range(amount: i128) -> Result<(), StablecoinError> {
    if amount < MIN_AMOUNT {
        Err(StablecoinError::InvalidAmount)
    } else if ENABLE_OPERATION_LIMITS && amount > MAX_SINGLE_OPERATION {
        Err(StablecoinError::AmountTooLarge)
    } else {
        Ok(())
    }
}

/// With supply limits on, minting may neither overflow the supply counter
/// nor push it past the cap.
pub open spec fn spec_validate_supply_limits(total_supply: int, mint_amount: int) -> Result<
    (),
    StablecoinError,
> {
    if !ENABLE_SUPPLY_LIMITS {
        Ok(())
    } else if total_supply + mint_amount > i128::MAX as int || total_supply + mint_amount
        < i128::MIN as int {
        Err(StablecoinError::AmountTooLarge)
    } else if total_supply + mint_amount > MAX_SUPPLY as int {
        Err(StablecoinError::ExceedsMaxSupply)
    } else {
        Ok(())
    }
}

/// A transfer may not send funds back to the sender.
pub open spec fn spec_validate_transfer_addresses(from: Seq<char>, to: Seq<char>) -> Result<
    (),
    StablecoinError,
> {
    if from == to {
        Err(StablecoinError::SelfTransfer)
    } else {
        Ok(())
    }
}

/// A balance must cover the required amount.
pub open spec fn spec_validate_balance(balance: int, required: int) -> Result<
    (),
    StablecoinError,
> {
    if balance < required {
        Err(StablecoinError::InsufficientBalance)
    } else {
        Ok(())
    }
}

/// Only the three role names are recognized.
pub open spec fn spec_validate_role(role: Seq<char>) -> Result<(), StablecoinError> {
    if role == "minter"@ || role == "pauser"@ || role == "upgrader"@ {
        Ok(())
    } else {
        Err(StablecoinError::InvalidRole)
    }
}

/// A parameter list must be non-empty and hold no empty entry.
pub open spec fn spec_validate_parameters(ps: Seq<Seq<char>>) -> Result<(), StablecoinError> {
    if ps.len() == 0 {
        Err(StablecoinError::InvalidParameters)
    } else if exists|i: int| 0 <= i < ps.len() && ps[i].len() == 0 {
        Err(StablecoinError::InvalidParameters)
    } else {
        Ok(())
    }
}

/// The views of a list of string parameters.
pub open spec fn params_views(ps: Seq<&str>) -> Seq<Seq<char>> {
    ps.map_values(|p: &str| p@)
}

/// The contract is initialized exactly when its name has been set.
pub open spec fn spec_validate_contract_initialized(t: MyStablecoin) -> Result<
    (),
    StablecoinError,
> {
    if !t.spec_initialized() {
        Err(StablecoinError::ContractNotInitialized)
    } else {
        Ok(())
    }
}

/// The mint pipeline, with the supply to validate against given
/// explicitly: initialization, recipient address, amount range, supply
/// limits, in that order.
pub open spec fn spec_validate_mint_with_supply(
    initialized: bool,
    to: Seq<char>,
    amount: i128,
    total_supply: int,
) -> Result<(), StablecoinError> {
    if !initialized {
        Err(StablecoinError::ContractNotInitialized)
    } else if spec_validate_address(to) is Err {
        spec_validate_address(to)
    } else if spec_validate_amount_range(amount) is Err {
        spec_validate_amount_range(amount)
    } else {
        spec_validate_supply_limits(total_supply, amount as int)
    }
}

/// The mint pipeline against the ledger's current supply.
pub open spec fn spec_validate_mint_comprehensive(
    t: MyStablecoin,
    to: Seq<char>,
    amount: i128,
) -> Result<(), StablecoinError> {
    spec_validate_mint_with_supply(t.spec_initialized(), to, amount, t.spec_supply())
}

/// The transfer pipeline: initialization, both addresses, self-transfer,
/// amount range, sender balance, in that order.
pub open spec fn spec_validate_transfer_comprehensive(
    t: MyStablecoin,
    from: Seq<char>,
    to: Seq<char>,
    amount: i128,
) -> Result<(), StablecoinError> {
    if !t.spec_initialized() {
        Err(StablecoinError::ContractNotInitialized)
    } else if spec_validate_address(from) is Err {
        spec_validate_address(from)
    } else if spec_validate_address(to) is Err {
        spec_validate_address(to)
    } else if spec_validate_transfer_addresses(from, to) is Err {
        spec_validate_transfer_addresses(from, to)
    } else if spec_validate_amount_range(amount) is Err {
        spec_validate_amount_range(amount)
    } else {
        spec_validate_balance(t.spec_balance(from), amount as int)
    }
}

/// The burn pipeline: initialization, source address, amount range,
/// source balance, in that order.
pub open spec fn spec_validate_burn_comprehensive(
    t: MyStablecoin,
    from: Seq<char>,
    amount: i128,
) -> Result<(), StablecoinError> {
    if !t.spec_initialized() {
        Err(StablecoinError::ContractNotInitialized)
    } else if spec_validate_address(from) is Err {
        spec_validate_address(from)
    } else if spec_validate_amount_range(amount) is Err {
        spec_validate_amount_range(amount)
    } else {
        spec_validate_balance(t.spec_balance(from), amount as int)
    }
}

fn str_eq(a: &str, b: &str) -> (r: bool)
    ensures
        r == (a@ == b@),
{
    let sa = String::from_str(a);
    let sb = String::from_str(b);
    sa == sb
}

/// Set the token metadata.
pub fn initialize_token(token: &mut MyStablecoin)
    ensures
        final(token).name@ == token_name(),
        final(token).symbol@ == token_symbol(),
        final(token).decimals == DECIMALS,
        final(token).admin == old(token).admin,
        final(token).minter == old(token).minter,
        final(token).pauser == old(token).pauser,
        final(token).upgrader == old(token).upgrader,
        final(token).paused == old(token).paused,
        final(token).supply == old(token).supply,
        final(token).balances@ == old(token).balances@,
        final(token).allowances@ == old(token).allowances@,
        final(token).ledger_height == old(token).ledger_height,
        final(token).events@ == old(token).events@,
{
    let (name, symbol) = create_metadata_strings();
    token.name = name;
    token.symbol = symbol;
    token.decimals = DECIMALS;
}

/// Record the admin and the three role holders.
pub fn initialize_access_control(
    token: &mut MyStablecoin,
    admin: &Address,
    pauser: &Address,
    upgrader: &Address,
    minter: &Address,
)
    ensures
        final(token).admin == Some(*admin),
        final(token).pauser == Some(*pauser),
        final(token).upgrader == Some(*upgrader),
        final(token).minter == Some(*minter),
        final(token).name@ == old(token).name@,
        final(token).symbol@ == old(token).symbol@,
        final(token).decimals == old(token).decimals,
        final(token).paused == old(token).paused,
        final(token).supply == old(token).supply,
        final(token).balances@ == old(token).balances@,
        final(token).allowances@ == old(token).allowances@,
        final(token).ledger_height == old(token).ledger_height,
        final(token).events@ == old(token).events@,
{
    token.admin = Some(admin.clone());
    token.pauser = Some(pauser.clone());
    token.upgrader = Some(upgrader.clone());
    token.minter = Some(minter.clone());
}

/// Validate that an address is not the zero address: its identifier must
/// be non-empty.
pub fn validate_address(address: &Address) -> (r: Result<(), StablecoinError>)
    ensures
        r == spec_validate_address(address@),
{
    if address.is_empty() {
        Err(StablecoinError::ZeroAddress)
    } else {
        Ok(())
    }
}

/// Validate that an address is not the contract's own address.  The
/// ledger holds no self-identifier, so every address is accepted.
pub fn validate_not_self_address(_address: &Address) -> (r: Result<(), StablecoinError>)
    ensures
        r == Ok::<(), StablecoinError>(()),
{
    Ok(())
}

/// Validate that an address differs from one specific address.
pub fn validate_not_specific_address(address: &Address, contract_address: &Address) -> (r: Result<
    (),
    StablecoinError,
>)
    ensures
        r == if address@ == contract_address@ {
            Err::<(), StablecoinError>(StablecoinError::ZeroAddress)
        } else {
            Ok::<(), StablecoinError>(())
        },
{
    if address == contract_address {
        Err(StablecoinError::ZeroAddress)
    } else {
        Ok(())
    }
}

/// Basic address validation together with the self-address check.
pub fn validate_address_comprehensive(address: &Address) -> (r: Result<(), StablecoinError>)
    ensures
        r == spec_validate_address(address@),
{
    match validate_address(address) {
        Err(e) => return Err(e),
        Ok(()) => {},
    }
    match validate_not_self_address(address) {
        Err(e) => return Err(e),
        Ok(()) => {},
    }
    Ok(())
}

/// Validate a mint amount: it must be strictly positive.
pub fn validate_mint_amount(amount: i128) -> (r: Result<(), StablecoinError>)
    ensures
        r == spec_validate_positive_amount(amount),
{
    if amount <= 0 {
        return Err(StablecoinError::InvalidAmount);
    }
    Ok(())
}

/// Validate a burn amount: it must be strictly positive.
pub fn validate_burn_amount(amount: i128) -> (r: Result<(), StablecoinError>)
    ensures
        r == spec_validate_positive_amount(amount),
{
    if amount <= 0 {
        return Err(StablecoinError::InvalidAmount);
    }
    Ok(())
}

/// Validate transfer addresses and amount.
pub fn validate_transfer(from: &Address, to: &Address, amount: i128) -> (r: Result<
    (),
    StablecoinError,
>)
    ensures
        r == if spec_validate_address(from@) is Err {
            spec_validate_address(from@)
        } else if spec_validate_address(to@) is Err {
            spec_validate_address(to@)
        } else {
            spec_validate_positive_amount(amount)
        },
{
    match validate_address_comprehensive(from) {
        Err(e) => return Err(e),
        Ok(()) => {},
    }
    match validate_address_comprehensive(to) {
        Err(e) => return Err(e),
        Ok(()) => {},
    }
    if amount <= 0 {
        return Err(StablecoinError::InvalidAmount);
    }
    Ok(())
}

/// Validate a mint operation's recipient and amount.
pub fn validate_mint(to: &Address, amount: i128) -> (r: Result<(), StablecoinError>)
    ensures
        r == if spec_validate_address(to@) is Err {
            spec_validate_address(to@)
        } else {
            spec_validate_positive_amount(amount)
        },
{
    match validate_address_comprehensive(to) {
        Err(e) => return Err(e),
        Ok(()) => {},
    }
    match validate_mint_amount(amount) {
        Err(e) => return Err(e),
        Ok(()) => {},
    }
    Ok(())
}

/// Validate that an amount is within the acceptable range.
pub fn validate_amount_range(amount: i128) -> (r: Result<(), StablecoinError>)
    ensures
        r == spec_validate_amount_range(amount),
{
    if amount < MIN_AMOUNT {
        return Err(StablecoinError::InvalidAmount);
    }
    if ENABLE_OPERATION_LIMITS && amount > MAX_SINGLE_OPERATION {
        return Err(StablecoinError::AmountTooLarge);
    }
    Ok(())
}

/// Validate that a mint does not overflow the supply counter or exceed
/// the supply cap.
pub fn validate_supply_limits(total_supply: i128, mint_amount: i128) -> (r: Result<
    (),
    StablecoinError,
>)
    ensures
        r == spec_validate_supply_limits(total_supply as int, mint_amount as int),
{
    if !ENABLE_SUPPLY_LIMITS {
        return Ok(());
    }
    match total_supply.checked_add(mint_amount) {
        None => Err(StablecoinError::AmountTooLarge),
        Some(new_supply) => if new_supply > MAX_SUPPLY {
            Err(StablecoinError::ExceedsMaxSupply)
        } else {
            Ok(())
        },
    }
}

/// Validate that a transfer is not a self-transfer.
pub fn validate_transfer_addresses(from: &Address, to: &Address) -> (r: Result<
    (),
    StablecoinError,
>)
    ensures
        r == spec_validate_transfer_addresses(from@, to@),
{
    if from == to {
        return Err(StablecoinError::SelfTransfer);
    }
    Ok(())
}

/// Validate that an address's balance covers the required amount.
pub fn validate_balance(token: &MyStablecoin, address: &Address, required_amount: i128) -> (r:
    Result<(), StablecoinError>)
    requires
        token.wf(),
    ensures
        r == spec_validate_balance(token.spec_balance(address@), required_amount as int),
{
    let balance = token.balance(address);
    if balance < required_amount {
        return Err(StablecoinError::InsufficientBalance);
    }
    Ok(())
}

/// Validate that a role name is one of the recognized roles.
pub fn validate_role(role: &str) -> (r: Result<(), StablecoinError>)
    ensures
        r == spec_validate_role(role@),
{
    if str_eq(role, "minter") || str_eq(role, "pauser") || str_eq(role, "upgrader") {
        Ok(())
    } else {
        Err(StablecoinError::InvalidRole)
    }
}

/// Validate that the contract has been initialized: the token name must
/// have been set.
pub fn validate_contract_initialized(token: &MyStablecoin) -> (r: Result<(), StablecoinError>)
    ensures
        r == spec_validate_contract_initialized(*token),
{
    if token.name.as_str().is_empty() {
        return Err(StablecoinError::ContractNotInitialized);
    }
    Ok(())
}

/// Comprehensive validation for mint operations.
pub fn validate_mint_comprehensive(token: &MyStablecoin, to: &Address, amount: i128) -> (r: Result<
    (),
    StablecoinError,
>)
    ensures
        r == spec_validate_mint_comprehensive(*token, to@, amount),
{
    match validate_contract_initialized(token) {
        Err(e) => return Err(e),
        Ok(()) => {},
    }
    match validate_address_comprehensive(to) {
        Err(e) => return Err(e),
        Ok(()) => {},
    }
    match validate_amount_range(amount) {
        Err(e) => return Err(e),
        Ok(()) => {},
    }
    validate_supply_limits(token.total_supply(), amount)
}

/// The mint pipeline validated against an explicitly given supply, as a
/// batch mint does for each entry after the ones before it.
pub fn validate_mint_with_supply(
    token: &MyStablecoin,
    to: &Address,
    amount: i128,
    total_supply: i128,
) -> (r: Result<(), StablecoinError>)
    ensures
        r == spec_validate_mint_with_supply(
            token.spec_initialized(),
            to@,
            amount,
            total_supply as int,
        ),
{
    match validate_contract_initialized(token) {
        Err(e) => return Err(e),
        Ok(()) => {},
    }
    match validate_address_comprehensive(to) {
        Err(e) => return Err(e),
        Ok(()) => {},
    }
    match validate_amount_range(amount) {
        Err(e) => return Err(e),
        Ok(()) => {},
    }
    validate_supply_limits(total_supply, amount)
}

/// Comprehensive validation for transfer operations.
pub fn validate_transfer_comprehensive(
    token: &MyStablecoin,
    from: &Address,
    to: &Address,
    amount: i128,
) -> (r: Result<(), StablecoinError>)
    requires
        token.wf(),
    ensures
        r == spec_validate_transfer_comprehensive(*token, from@, to@, amount),
{
    match validate_contract_initialized(token) {
        Err(e) => return Err(e),
        Ok(()) => {},
    }
    match validate_address_comprehensive(from) {
        Err(e) => return Err(e),
        Ok(()) => {},
    }
    match validate_address_comprehensive(to) {
        Err(e) => return Err(e),
        Ok(()) => {},
    }
    match validate_transfer_addresses(from, to) {
        Err(e) => return Err(e),
        Ok(()) => {},
    }
    match validate_amount_range(amount) {
        Err(e) => return Err(e),
        Ok(()) => {},
    }
    validate_balance(token, from, amount)
}

/// Comprehensive validation for burn operations.
pub fn validate_burn_comprehensive(token: &MyStablecoin, from: &Address, amount: i128) -> (r:
    Result<(), StablecoinError>)
    requires
        token.wf(),
    ensures
        r == spec_validate_burn_comprehensive(*token, from@, amount),
{
    match validate_contract_initialized(token) {
        Err(e) => return Err(e),
        Ok(()) => {},
    }
    match validate_address_comprehensive(from) {
        Err(e) => return Err(e),
        Ok(()) => {},
    }
    match validate_amount_range(amount) {
        Err(e) => return Err(e),
        Ok(()) => {},
    }
    validate_balance(token, from, amount)
}

/// Validate a list of string parameters: it must be non-empty and hold no
/// empty string.
pub fn validate_parameters(parameters: &[&str]) -> (r: Result<(), StablecoinError>)
    ensures
        r == spec_validate_parameters(params_views(parameters@)),
{
    let n = parameters.len();
    if n == 0 {
        return Err(StablecoinError::InvalidParameters);
    }
    let mut k: usize = 0;
    while k < n
        invariant
            n == parameters@.len(),
            k <= n,
            forall|j: int| 0 <= j < k ==> params_views(parameters@)[j].len() != 0,
        decreases n - k,
    {
        if parameters[k].is_empty() {
            proof {
                assert(params_views(parameters@)[k as int].len() == 0);
            }
            return Err(StablecoinError::InvalidParameters);
        }
        k += 1;
    }
    Ok(())
}

} // verus!
