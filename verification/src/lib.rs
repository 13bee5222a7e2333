//! A recurring-billing ledger.
//!
//! Subscribers escrow prepaid funds against a subscription; each charge moves
//! one billing amount from that escrow into the merchant's earned balance,
//! which the merchant later withdraws. The crate holds the rules of that
//! ledger: the status state machine, the debit/credit protocol, the due-date
//! policy and the checks that guard every operation. Authorization, the token
//! transfers themselves, the clock and persistence belong to the host that
//! drives the ledger; their results enter as plain values.

pub mod types;
pub mod events;
pub mod state_machine;
pub mod next_charge;
pub mod rules;
pub mod registry;
pub mod model;
pub mod vault;
pub mod laws;

pub use types::{
    Address, BatchChargeResult, Error, InsufficientBalanceError, MerchantConfig, NextChargeInfo,
    RecoveryEvent, RecoveryReason, Subscription, SubscriptionStatus,
};
pub use events::{
    FundsDepositedEvent, MerchantWithdrawalEvent, OneOffChargedEvent, SubscriptionCancelledEvent,
    SubscriptionChargedEvent, SubscriptionCreatedEvent, SubscriptionPausedEvent,
    SubscriptionResumedEvent,
};
pub use state_machine::{can_transition, get_allowed_transitions, validate_status_transition};
pub use next_charge::compute_next_charge_info;
pub use model::{Operation, VaultState};
pub use vault::SubscriptionVault;
