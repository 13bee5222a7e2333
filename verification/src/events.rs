//! The lifecycle events that the host emits after an operation has succeeded.
//! Nothing in the ledger depends on them; they serve external indexers.

use vstd::prelude::*;
use crate::types::{Address, Subscription};

verus! {

/// A subscription was created.
#[derive(Clone, Copy, Debug, PartialEq, Eq, Structural)]
pub struct SubscriptionCreatedEvent {
    pub subscription_id: u32,
    pub subscriber: Address,
    pub merchant: Address,
    pub amount: i128,
    pub interval_seconds: u64,
}

/// A subscriber topped up the escrow of a subscription.
#[derive(Clone, Copy, Debug, PartialEq, Eq, Structural)]
pub struct FundsDepositedEvent {
    pub subscription_id: u32,
    pub subscriber: Address,
    pub amount: i128,
}

/// A subscription was charged one billing amount.
#[derive(Clone, Copy, Debug, PartialEq, Eq, Structural)]
pub struct SubscriptionChargedEvent {
    pub subscription_id: u32,
    pub merchant: Address,
    pub amount: i128,
}

/// A subscription was cancelled; `refund_amount` is what its escrow still
/// holds.
#[derive(Clone, Copy, Debug, PartialEq, Eq, Structural)]
pub struct SubscriptionCancelledEvent {
    pub subscription_id: u32,
    pub authorizer: Address,
    pub refund_amount: i128,
}

/// A subscription was paused.
#[derive(Clone, Copy, Debug, PartialEq, Eq, Structural)]
pub struct SubscriptionPausedEvent {
    pub subscription_id: u32,
    pub authorizer: Address,
}

/// A subscription was resumed.
#[derive(Clone, Copy, Debug, PartialEq, Eq, Structural)]
pub struct SubscriptionResumedEvent {
    pub subscription_id: u32,
    pub authorizer: Address,
}

/// A merchant withdrew earnings.
#[derive(Clone, Copy, Debug, PartialEq, Eq, Structural)]
pub struct MerchantWithdrawalEvent {
    pub merchant: Address,
    pub amount: i128,
}

/// Emitted when a merchant-initiated one-off charge is applied to a subscription.
#[derive(Clone, Copy, Debug, PartialEq, Eq, Structural)]
pub struct OneOffChargedEvent {
    pub subscription_id: u32,
    pub merchant: Address,
    pub amount: i128,
}

impl SubscriptionCreatedEvent {
    /// The event for subscription `subscription_id` as it was first stored.
    pub fn of(subscription_id: u32, subscription: &Subscription) -> (e: Self)
        ensures
            e == (SubscriptionCreatedEvent {
                subscription_id,
                subscriber: subscription.subscriber,
                merchant: subscription.merchant,
                amount: subscription.amount,
                interval_seconds: subscription.interval_seconds,
            }),
    {
        SubscriptionCreatedEvent {
            subscription_id,
            subscriber: subscription.subscriber,
            merchant: subscription.merchant,
            amount: subscription.amount,
            interval_seconds: subscription.interval_seconds,
        }
    }
}

impl SubscriptionChargedEvent {
    /// The event for one periodic charge of `subscription`: its merchant
    /// earned its billing amount.
    pub fn of(subscription_id: u32, subscription: &Subscription) -> (e: Self)
        ensures
            e == (SubscriptionChargedEvent {
                subscription_id,
                merchant: subscription.merchant,
                amount: subscription.amount,
            }),
    {
        SubscriptionChargedEvent {
            subscription_id,
            merchant: subscription.merchant,
            amount: subscription.amount,
        }
    }
}

impl OneOffChargedEvent {
    /// The event for a charge of `amount` on `subscription` outside the
    /// billing schedule.
    pub fn of(subscription_id: u32, subscription: &Subscription, amount: i128) -> (e: Self)
        ensures
            e == (OneOffChargedEvent { subscription_id, merchant: subscription.merchant, amount }),
    {
        OneOffChargedEvent { subscription_id, merchant: subscription.merchant, amount }
    }
}

impl SubscriptionCancelledEvent {
    /// The event for the cancellation of `subscription` by `authorizer`. The
    /// refund amount is the whole remaining escrow.
    pub fn of(subscription_id: u32, authorizer: Address, subscription: &Subscription) -> (e: Self)
        ensures
            e == (SubscriptionCancelledEvent {
                subscription_id,
                authorizer,
                refund_amount: subscription.prepaid_balance,
            }),
    {
        SubscriptionCancelledEvent {
            subscription_id,
            authorizer,
            refund_amount: subscription.prepaid_balance,
        }
    }
}

} // verus!
