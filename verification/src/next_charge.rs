//! When a subscription is next due.

use vstd::prelude::*;
use crate::types::{NextChargeInfo, Subscription, SubscriptionStatus};

verus! {

/// The due date of the next charge: one interval after the last payment,
/// clamped to the largest timestamp where the sum would pass it.
pub open spec fn next_charge_timestamp(last_payment_timestamp: u64, interval_seconds: u64) -> u64 {
    if last_payment_timestamp + interval_seconds > u64::MAX {
        u64::MAX
    } else {
        (last_payment_timestamp + interval_seconds) as u64
    }
}

/// Whether a subscription in this status is expected to be charged when it
/// falls due. One that ran short of funds still is: it will be retried once
/// funded. A paused or cancelled one is left out of billing.
pub open spec fn charge_expected(status: SubscriptionStatus) -> bool {
    status == SubscriptionStatus::Active || status == SubscriptionStatus::InsufficientBalance
}

/// The next-charge information of a subscription, as a function of its
/// schedule and status alone.
pub open spec fn next_charge_info(subscription: Subscription) -> NextChargeInfo {
    NextChargeInfo {
        next_charge_timestamp: next_charge_timestamp(
            subscription.last_payment_timestamp,
            subscription.interval_seconds,
        ),
        is_charge_expected: charge_expected(subscription.status),
    }
}

/// Computes when the subscription is next due and whether a charge is
/// expected then. Reads the snapshot only; the balance plays no part.
pub fn compute_next_charge_info(subscription: &Subscription) -> (info: NextChargeInfo)
    ensures
        info == next_charge_info(*subscription),
{
    let next_charge_timestamp = subscription.last_payment_timestamp.saturating_add(
        subscription.interval_seconds,
    );
    let is_charge_expected = match subscription.status {
        SubscriptionStatus::Active => true,
        SubscriptionStatus::InsufficientBalance => true,
        SubscriptionStatus::Paused => false,
        SubscriptionStatus::Cancelled => false,
    };
    NextChargeInfo { next_charge_timestamp, is_charge_expected }
}

/// The due date never wraps around: it is never before the last payment, and
/// it is the exact sum whenever that sum is a timestamp.
pub proof fn due_date_saturates(last_payment_timestamp: u64, interval_seconds: u64)
    ensures
        next_charge_timestamp(last_payment_timestamp, interval_seconds) >= last_payment_timestamp,
        next_charge_timestamp(last_payment_timestamp, interval_seconds) >= interval_seconds,
        last_payment_timestamp + interval_seconds <= u64::MAX ==> next_charge_timestamp(
            last_payment_timestamp,
            interval_seconds,
        ) == last_payment_timestamp + interval_seconds,
        last_payment_timestamp + interval_seconds > u64::MAX ==> next_charge_timestamp(
            last_payment_timestamp,
            interval_seconds,
        ) == u64::MAX,
{
}

/// Due-ness depends on the status alone: two subscriptions in the same status
/// are expected alike, whatever their balances, and the expected statuses
/// are exactly `Active` and `InsufficientBalance`.
pub proof fn due_ness_goes_by_status(a: Subscription, b: Subscription)
    requires
        a.status == b.status,
    ensures
        next_charge_info(a).is_charge_expected == next_charge_info(b).is_charge_expected,
        next_charge_info(a).is_charge_expected <==> (a.status == SubscriptionStatus::Active
            || a.status == SubscriptionStatus::InsufficientBalance),
        !next_charge_info(a).is_charge_expected <==> (a.status == SubscriptionStatus::Paused
            || a.status == SubscriptionStatus::Cancelled),
{
}

} // verus!
