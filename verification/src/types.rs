//! Core data types, constants and error taxonomy of the ledger.

use vstd::prelude::*;
use vstd::string::StringExecFns;

verus! {

/// Number of decimal places in the token's fixed-point representation.
pub const DECIMALS: u32 = 2;

/// Hard cap on the total supply.
pub const MAX_SUPPLY: i128 = 1_000_000_000;

/// Largest amount a single operation may move.
pub const MAX_SINGLE_OPERATION: i128 = 100_000_000;

/// Smallest amount a single operation may move.
pub const MIN_AMOUNT: i128 = 5;

/// Whether the supply cap is enforced.
pub const ENABLE_SUPPLY_LIMITS: bool = true;

/// Whether the per-operation size limits are enforced.
pub const ENABLE_OPERATION_LIMITS: bool = true;

/// Whether the full validation pipeline runs before every mutation.
pub const ENABLE_STRICT_VALIDATION: bool = true;

/// The token's name, fixed at initialization.
pub open spec fn token_name() -> Seq<char> {
    "Costa Rica Colon"@
}

/// The token's symbol, fixed at initialization.
pub open spec fn token_symbol() -> Seq<char> {
    "CRCX"@
}

/// An account identifier.
///
/// The hosting environment authenticates callers before an entry point
/// runs; the ledger itself only ever compares identifiers and checks that
/// they are non-empty.  The view of an address is its identifier text.
pub struct Address {
    id: String,
}

impl View for Address {
    type V = Seq<char>;

    closed spec fn view(&self) -> Seq<char> {
        self.id@
    }
}

impl Address {
    /// Wraps an identifier string as an address.
    pub fn new(id: &str) -> (a: Address)
        ensures
            a@ == id@,
    {
        Address { id: String::from_str(id) }
    }

    /// The identifier as text.
    pub fn to_string(&self) -> (s: String)
        ensures
            s@ == self@,
    {
        self.id.clone()
    }

    /// Whether the identifier is empty.
    pub fn is_empty(&self) -> (r: bool)
        ensures
            r == (self@.len() == 0),
    {
        self.id.as_str().is_empty()
    }
}

impl Clone for Address {
    fn clone(&self) -> (r: Self)
        ensures
            r == *self,
    {
        Address { id: self.id.clone() }
    }
}

impl PartialEq for Address {
    fn eq(&self, other: &Address) -> bool {
        self.id == other.id
    }
}

impl vstd::std_specs::cmp::PartialEqSpecImpl for Address {
    open spec fn obeys_eq_spec() -> bool {
        true
    }

    open spec fn eq_spec(&self, other: &Address) -> bool {
        self@ == other@
    }
}

/// Error taxonomy of the ledger.  Every guard returns the first violated
/// condition as one of these; entry points propagate it unchanged.
#[derive(Debug, Clone, Copy, PartialEq, Eq, Structural)]
pub enum StablecoinError {
    InvalidAmount,
    InsufficientBalance,
    InsufficientAllowance,
    Paused,
    NotPaused,
    ZeroAddress,
    Unauthorized,
    AlreadyInitialized,
    ExceedsMaxSupply,
    AmountTooLarge,
    InvalidParameters,
    SelfTransfer,
    InvalidRole,
    ContractNotInitialized,
}

/// Token statistics for monitoring.
#[derive(Debug, Clone, Copy, PartialEq, Eq, Structural)]
pub struct TokenStats {
    pub total_supply: i128,
    pub total_minted: i128,
    pub total_burned: i128,
    pub holders_count: u32,
}

/// A state-change announcement, recorded in the order it was handed to the
/// hosting environment's event bus.
pub enum StablecoinEvent {
    Mint { to: Address, amount: i128 },
    Transfer { from: Address, to: Address, amount: i128 },
    Burn { from: Address, amount: i128 },
    Pause,
    Unpause,
}

/// The message text for each error kind.
pub open spec fn spec_error_message(error: StablecoinError) -> Seq<char> {
    match error {
        StablecoinError::InvalidAmount => "Invalid amount: must be a positive integer"@,
        StablecoinError::InsufficientBalance => "Insufficient balance for operation"@,
        StablecoinError::InsufficientAllowance => "Insufficient allowance for operation"@,
        StablecoinError::Paused => "Contract is paused"@,
        StablecoinError::NotPaused => "Contract is not paused"@,
        StablecoinError::ZeroAddress => "Invalid address: zero address not allowed"@,
        StablecoinError::Unauthorized => "Unauthorized: insufficient permissions"@,
        StablecoinError::AlreadyInitialized => "Contract already initialized"@,
        StablecoinError::ExceedsMaxSupply => "Operation would exceed maximum supply"@,
        StablecoinError::AmountTooLarge => "Amount too large for this operation"@,
        StablecoinError::InvalidParameters => "Invalid parameters provided"@,
        StablecoinError::SelfTransfer => "Cannot transfer to same address"@,
        StablecoinError::InvalidRole => "Invalid or unrecognized role"@,
        StablecoinError::ContractNotInitialized => "Contract not properly initialized"@,
    }
}

/// Convert errors to human-readable messages.
pub fn error_to_message(error: StablecoinError) -> (msg: &'static str)
    ensures
        msg@ == spec_error_message(error),
{
    match error {
        StablecoinError::InvalidAmount => "Invalid amount: must be a positive integer",
        StablecoinError::InsufficientBalance => "Insufficient balance for operation",
        StablecoinError::InsufficientAllowance => "Insufficient allowance for operation",
        StablecoinError::Paused => "Contract is paused",
        StablecoinError::NotPaused => "Contract is not paused",
        StablecoinError::ZeroAddress => "Invalid address: zero address not allowed",
        StablecoinError::Unauthorized => "Unauthorized: insufficient permissions",
        StablecoinError::AlreadyInitialized => "Contract already initialized",
        StablecoinError::ExceedsMaxSupply => "Operation would exceed maximum supply",
        StablecoinError::AmountTooLarge => "Amount too large for this operation",
        StablecoinError::InvalidParameters => "Invalid parameters provided",
        StablecoinError::SelfTransfer => "Cannot transfer to same address",
        StablecoinError::InvalidRole => "Invalid or unrecognized role",
        StablecoinError::ContractNotInitialized => "Contract not properly initialized",
    }
}

/// The token's metadata strings: name and symbol.
pub fn create_metadata_strings() -> (r: (String, String))
    ensures
        r.0@ == token_name(),
        r.1@ == token_symbol(),
{
    (String::from_str("Costa Rica Colon"), String::from_str("CRCX"))
}

} // verus!
