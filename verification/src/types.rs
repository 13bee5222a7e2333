//! The ledger's data: principals, subscriptions, merchant policy, errors and
//! the records handed back to the host.

use vstd::prelude::*;

verus! {

/// A principal: a subscriber, a merchant, the administrator or a token.
///
/// A principal is identified by its kind (an account or a contract) and a
/// 256-bit key, held as two halves. Two principals are the same exactly when
/// all three fields agree.
#[derive(Clone, Copy, Debug, PartialEq, Eq, Structural)]
pub struct Address {
    /// True for a contract, false for an account.
    pub contract: bool,
    /// The upper 128 bits of the key.
    pub hi: u128,
    /// The lower 128 bits of the key.
    pub lo: u128,
}

impl Address {
    /// The account with the given key.
    pub fn account(hi: u128, lo: u128) -> (r: Self)
        ensures
            r == (Address { contract: false, hi, lo }),
    {
        Address { contract: false, hi, lo }
    }

    /// The contract with the given key.
    pub fn contract(hi: u128, lo: u128) -> (r: Self)
        ensures
            r == (Address { contract: true, hi, lo }),
    {
        Address { contract: true, hi, lo }
    }
}

/// Every way an operation of the ledger can fail.
#[derive(Clone, Copy, Debug, PartialEq, Eq, Structural)]
pub enum Error {
    /// The subscription, or a global parameter, is not stored.
    NotFound,
    /// The acting principal may not perform the operation.
    Unauthorized,
    /// Charge attempted before `last_payment_timestamp + interval_seconds`.
    IntervalNotElapsed,
    /// Subscription is not Active (e.g. Paused, Cancelled).
    NotActive,
    /// The status change is not an edge of the state machine.
    InvalidStatusTransition,
    /// A deposit smaller than the configured minimum top-up.
    BelowMinimumTopup,
    /// Arithmetic overflow in a computation.
    Overflow,
    /// Arithmetic underflow: a balance would go negative.
    Underflow,
    /// The prepaid balance, or the merchant's earned balance, does not cover
    /// the amount asked for.
    InsufficientBalance,
    /// Usage-based charge attempted on a subscription with `usage_enabled = false`.
    UsageNotEnabled,
    /// Usage-based charge amount exceeds the available prepaid balance.
    InsufficientPrepaidBalance,
    /// The provided amount is zero or negative.
    InvalidAmount,
    /// Charge already processed for this billing period.
    Replay,
    /// Recovery amount is zero or negative.
    InvalidRecoveryAmount,
    /// The subscriber has not approved the vault for the amount.
    InsufficientAllowance,
    /// The subscriber's spendable balance does not cover the amount.
    TransferFailed,
    /// The operation needs a subscription in another status.
    InvalidStatus,
    /// A balance would exceed the largest representable amount.
    ArithmeticOverflow,
    /// The amount is below the merchant's configured minimum.
    BelowMerchantMinimum,
}

/// The numeric code under which each error is reported.
pub open spec fn error_code(e: Error) -> u32 {
    match e {
        Error::InvalidStatusTransition => 400,
        Error::Unauthorized => 401,
        Error::BelowMinimumTopup => 402,
        Error::Overflow => 403,
        Error::NotFound => 404,
        Error::InsufficientAllowance => 405,
        Error::TransferFailed => 406,
        Error::InvalidStatus => 408,
        Error::ArithmeticOverflow => 409,
        Error::BelowMerchantMinimum => 410,
        Error::IntervalNotElapsed => 1001,
        Error::NotActive => 1002,
        Error::InsufficientBalance => 1003,
        Error::Underflow => 1004,
        Error::InvalidAmount => 1006,
        Error::Replay => 1007,
        Error::InvalidRecoveryAmount => 1008,
        Error::UsageNotEnabled => 1009,
        Error::InsufficientPrepaidBalance => 1010,
    }
}

impl Error {
    /// Returns the numeric code for this error (for batch result reporting).
    /// No code is 0, and no two errors share one.
    pub fn to_code(self) -> (code: u32)
        ensures
            code == error_code(self),
            code != 0,
    {
        match self {
            Error::NotFound => 404,
            Error::Unauthorized => 401,
            Error::IntervalNotElapsed => 1001,
            Error::NotActive => 1002,
            Error::InvalidStatusTransition => 400,
            Error::BelowMinimumTopup => 402,
            Error::Overflow => 403,
            Error::Underflow => 1004,
            Error::InsufficientBalance => 1003,
            Error::UsageNotEnabled => 1009,
            Error::InsufficientPrepaidBalance => 1010,
            Error::InvalidAmount => 1006,
            Error::Replay => 1007,
            Error::InvalidRecoveryAmount => 1008,
            Error::InsufficientAllowance => 405,
            Error::TransferFailed => 406,
            Error::InvalidStatus => 408,
            Error::ArithmeticOverflow => 409,
            Error::BelowMerchantMinimum => 410,
        }
    }
}

/// Distinct errors are reported under distinct codes.
pub proof fn error_codes_are_distinct(a: Error, b: Error)
    requires
        a != b,
    ensures
        error_code(a) != error_code(b),
{
}

/// Detailed information about a charge that the prepaid balance could not
/// cover.
#[derive(Clone, Copy, Debug, PartialEq, Eq, Structural)]
pub struct InsufficientBalanceError {
    /// The current available prepaid balance in the subscription vault.
    pub available: i128,
    /// The required amount to complete the charge.
    pub required: i128,
}

impl InsufficientBalanceError {
    /// Creates a new InsufficientBalanceError with the given available and required amounts.
    pub fn new(available: i128, required: i128) -> (r: Self)
        ensures
            r.available == available,
            r.required == required,
    {
        Self { available, required }
    }

    /// The amount that is missing, `required - available`, as a mathematical
    /// integer.
    pub open spec fn spec_shortfall(&self) -> int {
        self.required - self.available
    }

    /// Returns the shortfall amount (required - available).
    ///
    /// The difference must be a representable amount; it always is for the
    /// record of a failed charge, where both parts are non-negative.
    pub fn shortfall(&self) -> (r: i128)
        requires
            i128::MIN <= self.spec_shortfall() <= i128::MAX,
        ensures
            r == self.spec_shortfall(),
    {
        self.required - self.available
    }
}

/// Result of charging one subscription in a batch.
#[derive(Clone, Copy, Debug, PartialEq, Eq, Structural)]
pub struct BatchChargeResult {
    /// True if the charge succeeded.
    pub success: bool,
    /// If success is false, the error's code; otherwise 0.
    pub error_code: u32,
}

/// The lifecycle state of a subscription.
///
/// - **Active**: charges can be processed. Can move to `Paused`, `Cancelled`,
///   `InsufficientBalance`.
/// - **Paused**: temporarily suspended. Can move to `Active`, `Cancelled`.
/// - **Cancelled**: permanently terminated; nothing leaves it.
/// - **InsufficientBalance**: a charge found the prepaid balance short. Can
///   move to `Active` or `Cancelled`, never straight to `Paused`.
#[derive(Clone, Copy, Debug, PartialEq, Eq, Structural)]
pub enum SubscriptionStatus {
    /// Subscription is active and ready for charging.
    Active,
    /// Subscription is temporarily paused, no charges processed.
    Paused,
    /// Subscription is permanently cancelled (terminal state).
    Cancelled,
    /// Subscription failed due to insufficient balance for charging.
    InsufficientBalance,
}

/// A subscription and its current state.
#[derive(Clone, Copy, Debug, PartialEq, Eq, Structural)]
pub struct Subscription {
    /// Wallet that owns and funds this subscription.
    pub subscriber: Address,
    /// Wallet that receives periodic charges.
    pub merchant: Address,
    /// Billing amount charged per interval in token base units.
    pub amount: i128,
    /// Length of each billing interval in seconds.
    pub interval_seconds: u64,
    /// Timestamp of the last successful payment lifecycle event.
    pub last_payment_timestamp: u64,
    /// Current lifecycle state. Modified only through state machine transitions.
    pub status: SubscriptionStatus,
    /// Subscriber funds currently held in the vault for this subscription.
    pub prepaid_balance: i128,
    /// If true, usage-based add-ons may be charged.
    pub usage_enabled: bool,
}

impl Subscription {
    /// What holds of every stored subscription: it charges a positive amount
    /// over a positive interval, and its escrow is never negative.
    pub open spec fn wf(&self) -> bool {
        &&& self.amount > 0
        &&& self.interval_seconds > 0
        &&& self.prepaid_balance >= 0
    }
}

/// A merchant's billing policy.
#[derive(Clone, Copy, Debug, PartialEq, Eq, Structural)]
pub struct MerchantConfig {
    /// Schema version, always 1.
    pub version: u32,
    /// Minimum subscription amount accepted for this merchant (0 = no merchant-specific minimum).
    pub min_subscription_amount: i128,
    /// Default interval used when a subscription is created with interval `0`.
    pub default_interval_seconds: u64,
}

impl MerchantConfig {
    /// The policy of a merchant that has configured nothing: no minimum and
    /// no default interval.
    pub open spec fn spec_unset() -> MerchantConfig {
        MerchantConfig { version: 1, min_subscription_amount: 0, default_interval_seconds: 0 }
    }

    /// What holds of every stored policy.
    pub open spec fn wf(&self) -> bool {
        &&& self.version == 1
        &&& self.min_subscription_amount >= 0
    }

    /// The policy of a merchant that has configured nothing.
    pub fn unset() -> (r: Self)
        ensures
            r == Self::spec_unset(),
    {
        MerchantConfig { version: 1, min_subscription_amount: 0, default_interval_seconds: 0 }
    }
}

/// Why stranded funds are taken out of custody. Purely descriptive.
#[derive(Clone, Copy, Debug, PartialEq, Eq, Structural)]
pub enum RecoveryReason {
    /// Funds sent to the vault by mistake (no associated subscription).
    AccidentalTransfer,
    /// Funds from deprecated flows or logic errors.
    DeprecatedFlow,
    /// Funds from cancelled subscriptions with unreachable addresses.
    UnreachableSubscriber,
}

/// The audit record of one recovery of stranded funds.
#[derive(Clone, Copy, Debug, PartialEq, Eq, Structural)]
pub struct RecoveryEvent {
    /// The admin who authorized the recovery
    pub admin: Address,
    /// The destination address receiving the recovered funds
    pub recipient: Address,
    /// The amount of funds recovered
    pub amount: i128,
    /// The documented reason for recovery
    pub reason: RecoveryReason,
    /// Timestamp when recovery was executed
    pub timestamp: u64,
}

/// When a subscription is next due, and whether a charge is expected then.
#[derive(Clone, Copy, Debug, PartialEq, Eq, Structural)]
pub struct NextChargeInfo {
    /// Estimated timestamp for the next charge attempt.
    pub next_charge_timestamp: u64,
    /// Whether a charge is actually expected based on the subscription status.
    pub is_charge_expected: bool,
}

} // verus!
