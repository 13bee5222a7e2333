//! The ledger's rules on single records: what each operation decides about
//! one subscription, one balance or one policy, whatever store holds them.
//!
//! Every function here is total and changes nothing: it takes the records as
//! they are and hands back what they become, or the error.

use vstd::prelude::*;
use crate::state_machine::{status_after, transition_allowed, validate_status_transition};
use crate::types::{
    error_code, Address, BatchChargeResult, Error, MerchantConfig, RecoveryEvent, RecoveryReason,
    Subscription, SubscriptionStatus,
};

verus! {

/// Whether the operation may go on, given whether the host has seen the
/// consent of the principal that it names. Without consent nothing is done.
pub open spec fn consent_check(authorized: bool) -> Result<(), Error> {
    if authorized {
        Ok(())
    } else {
        Err(Error::Unauthorized)
    }
}

/// Fails closed where the named principal has not consented.
pub fn require_authorized(authorized: bool) -> (r: Result<(), Error>)
    ensures
        r == consent_check(authorized),
{
    if authorized {
        Ok(())
    } else {
        Err(Error::Unauthorized)
    }
}

/// Whether `admin` is the stored administrator. Without a stored
/// administrator the answer is `NotFound`.
pub open spec fn admin_check(stored_admin: Option<Address>, admin: Address) -> Result<(), Error> {
    match stored_admin {
        None => Err(Error::NotFound),
        Some(stored) => if admin != stored {
            Err(Error::Unauthorized)
        } else {
            Ok(())
        },
    }
}

/// Checks that `admin` is the stored administrator.
pub fn require_admin(stored_admin: Option<Address>, admin: Address) -> (r: Result<(), Error>)
    ensures
        r == admin_check(stored_admin, admin),
{
    match stored_admin {
        None => Err(Error::NotFound),
        Some(stored) => {
            if admin != stored {
                Err(Error::Unauthorized)
            } else {
                Ok(())
            }
        },
    }
}

/// Whether `actor` may change the policy of `merchant`: the merchant itself
/// and the administrator may. Without a stored administrator the answer is
/// `NotFound`.
pub open spec fn admin_or_merchant_check(
    stored_admin: Option<Address>,
    actor: Address,
    merchant: Address,
) -> Result<(), Error> {
    match stored_admin {
        None => Err(Error::NotFound),
        Some(admin) => if actor != merchant && actor != admin {
            Err(Error::Unauthorized)
        } else {
            Ok(())
        },
    }
}

/// Checks that `actor` is the merchant or the stored administrator.
pub fn require_admin_or_merchant(
    stored_admin: Option<Address>,
    actor: Address,
    merchant: Address,
) -> (r: Result<(), Error>)
    ensures
        r == admin_or_merchant_check(stored_admin, actor, merchant),
{
    match stored_admin {
        None => Err(Error::NotFound),
        Some(admin) => {
            if actor != merchant && actor != admin {
                Err(Error::Unauthorized)
            } else {
                Ok(())
            }
        },
    }
}

/// A minimum top-up must be positive.
pub open spec fn min_topup_check(min_topup: i128) -> Result<(), Error> {
    if min_topup <= 0 {
        Err(Error::InvalidAmount)
    } else {
        Ok(())
    }
}

/// Checks a minimum top-up before it is stored.
pub fn validate_min_topup(min_topup: i128) -> (r: Result<(), Error>)
    ensures
        r == min_topup_check(min_topup),
{
    if min_topup <= 0 {
        Err(Error::InvalidAmount)
    } else {
        Ok(())
    }
}

/// The policy that replaces a merchant's policy wholesale. Its minimum may
/// not be negative.
pub open spec fn config_set(min_subscription_amount: i128, default_interval_seconds: u64) -> Result<
    MerchantConfig,
    Error,
> {
    if min_subscription_amount < 0 {
        Err(Error::InvalidAmount)
    } else {
        Ok(MerchantConfig { version: 1, min_subscription_amount, default_interval_seconds })
    }
}

/// Builds the policy that replaces a merchant's policy wholesale.
pub fn new_merchant_config(min_subscription_amount: i128, default_interval_seconds: u64) -> (r:
    Result<MerchantConfig, Error>)
    ensures
        r == config_set(min_subscription_amount, default_interval_seconds),
{
    if min_subscription_amount < 0 {
        return Err(Error::InvalidAmount);
    }
    Ok(MerchantConfig { version: 1, min_subscription_amount, default_interval_seconds })
}

/// The policy `current` with the given fields changed; a field that is not
/// given keeps its value. A given minimum may not be negative.
pub open spec fn config_updated(
    current: MerchantConfig,
    min_subscription_amount: Option<i128>,
    default_interval_seconds: Option<u64>,
) -> Result<MerchantConfig, Error> {
    if min_subscription_amount matches Some(min) && min < 0 {
        Err(Error::InvalidAmount)
    } else {
        Ok(
            MerchantConfig {
                version: current.version,
                min_subscription_amount: match min_subscription_amount {
                    Some(min) => min,
                    None => current.min_subscription_amount,
                },
                default_interval_seconds: match default_interval_seconds {
                    Some(interval) => interval,
                    None => current.default_interval_seconds,
                },
            },
        )
    }
}

/// Changes the given fields of a policy.
pub fn updated_merchant_config(
    current: MerchantConfig,
    min_subscription_amount: Option<i128>,
    default_interval_seconds: Option<u64>,
) -> (r: Result<MerchantConfig, Error>)
    ensures
        r == config_updated(current, min_subscription_amount, default_interval_seconds),
{
    let mut config = current;
    if let Some(min) = min_subscription_amount {
        if min < 0 {
            return Err(Error::InvalidAmount);
        }
        config.min_subscription_amount = min;
    }
    if let Some(default_interval) = default_interval_seconds {
        config.default_interval_seconds = default_interval;
    }
    Ok(config)
}

/// The billing interval of a new subscription: the one asked for, or the
/// merchant's default where none (0) is asked for.
pub open spec fn effective_interval(config: MerchantConfig, interval_seconds: u64) -> u64 {
    if interval_seconds == 0 {
        config.default_interval_seconds
    } else {
        interval_seconds
    }
}

/// The terms of a new subscription under the merchant's policy: its
/// effective interval, or why it is refused. The amount must be positive and
/// not below the merchant's minimum, if there is one, and an interval must
/// be resolvable.
pub open spec fn subscription_terms(config: MerchantConfig, amount: i128, interval_seconds: u64) -> Result<
    u64,
    Error,
> {
    if amount <= 0 {
        Err(Error::InvalidAmount)
    } else if config.min_subscription_amount > 0 && amount < config.min_subscription_amount {
        Err(Error::BelowMerchantMinimum)
    } else if effective_interval(config, interval_seconds) == 0 {
        Err(Error::InvalidAmount)
    } else {
        Ok(effective_interval(config, interval_seconds))
    }
}

/// Checks a new subscription against the merchant's policy and resolves its
/// effective interval.
pub fn resolve_subscription_terms(config: &MerchantConfig, amount: i128, interval_seconds: u64) -> (r:
    Result<u64, Error>)
    ensures
        r == subscription_terms(*config, amount, interval_seconds),
{
    if amount <= 0 {
        return Err(Error::InvalidAmount);
    }
    if config.min_subscription_amount > 0 && amount < config.min_subscription_amount {
        return Err(Error::BelowMerchantMinimum);
    }
    if interval_seconds == 0 {
        if config.default_interval_seconds == 0 {
            return Err(Error::InvalidAmount);
        }
        Ok(config.default_interval_seconds)
    } else {
        Ok(interval_seconds)
    }
}

/// Whether the subscriber can fund `amount`: the vault must be approved for
/// it, and the subscriber must hold it.
pub open spec fn funding_check(amount: i128, allowance: i128, balance: i128) -> Result<(), Error> {
    if allowance < amount {
        Err(Error::InsufficientAllowance)
    } else if balance < amount {
        Err(Error::TransferFailed)
    } else {
        Ok(())
    }
}

/// Checks the subscriber's allowance and balance, as the token reports them,
/// before `amount` is pulled.
pub fn check_funding(amount: i128, allowance: i128, balance: i128) -> (r: Result<(), Error>)
    ensures
        r == funding_check(amount, allowance, balance),
{
    if allowance < amount {
        return Err(Error::InsufficientAllowance);
    }
    if balance < amount {
        return Err(Error::TransferFailed);
    }
    Ok(())
}

/// A subscription as it is first stored: active, funded with one billing
/// amount, last paid at `now`.
pub open spec fn opened(
    subscriber: Address,
    merchant: Address,
    amount: i128,
    interval_seconds: u64,
    usage_enabled: bool,
    now: u64,
) -> Subscription {
    Subscription {
        subscriber,
        merchant,
        amount,
        interval_seconds,
        last_payment_timestamp: now,
        status: SubscriptionStatus::Active,
        prepaid_balance: amount,
        usage_enabled,
    }
}

/// Builds a subscription as it is first stored.
pub fn open_subscription(
    subscriber: Address,
    merchant: Address,
    amount: i128,
    interval_seconds: u64,
    usage_enabled: bool,
    now: u64,
) -> (s: Subscription)
    ensures
        s == opened(subscriber, merchant, amount, interval_seconds, usage_enabled, now),
{
    Subscription {
        subscriber,
        merchant,
        amount,
        interval_seconds,
        last_payment_timestamp: now,
        status: SubscriptionStatus::Active,
        prepaid_balance: amount,
        usage_enabled,
    }
}

/// The id counter after `next_id` has been given out. Ids count up from 0 and
/// none is given out twice; the last value of the counter is never given
/// out.
pub open spec fn counter_after(next_id: u32) -> Result<u32, Error> {
    if next_id >= u32::MAX {
        Err(Error::ArithmeticOverflow)
    } else {
        Ok((next_id + 1) as u32)
    }
}

/// Advances the id counter past `next_id`, which the caller gives out on
/// `Ok`.
pub fn advance_id_counter(next_id: u32) -> (r: Result<u32, Error>)
    ensures
        r == counter_after(next_id),
{
    match next_id.checked_add(1) {
        Some(counter) => Ok(counter),
        None => Err(Error::ArithmeticOverflow),
    }
}

/// Whether a deposit of `amount` is accepted: it must be positive, which is
/// checked first, and not below the configured minimum top-up.
pub open spec fn topup_check(min_topup: Option<i128>, amount: i128) -> Result<(), Error> {
    if amount <= 0 {
        Err(Error::InvalidAmount)
    } else {
        match min_topup {
            None => Err(Error::NotFound),
            Some(min) => if amount < min {
                Err(Error::BelowMinimumTopup)
            } else {
                Ok(())
            },
        }
    }
}

/// Checks the amount of a deposit.
pub fn check_topup(min_topup: Option<i128>, amount: i128) -> (r: Result<(), Error>)
    ensures
        r == topup_check(min_topup, amount),
{
    if amount <= 0 {
        return Err(Error::InvalidAmount);
    }
    match min_topup {
        None => Err(Error::NotFound),
        Some(min) => {
            if amount < min {
                Err(Error::BelowMinimumTopup)
            } else {
                Ok(())
            }
        },
    }
}

/// The subscription after `amount` is added to its escrow. Nothing else
/// changes, the status least of all.
pub open spec fn deposited(s: Subscription, amount: i128) -> Result<Subscription, Error> {
    if s.prepaid_balance + amount > i128::MAX || s.prepaid_balance + amount < i128::MIN {
        Err(Error::ArithmeticOverflow)
    } else {
        Ok(Subscription { prepaid_balance: (s.prepaid_balance + amount) as i128, ..s })
    }
}

/// Adds `amount` to the escrow of a subscription.
pub fn deposit(subscription: &Subscription, amount: i128) -> (r: Result<Subscription, Error>)
    ensures
        r == deposited(*subscription, amount),
{
    let mut updated = *subscription;
    match subscription.prepaid_balance.checked_add(amount) {
        Some(prepaid) => {
            updated.prepaid_balance = prepaid;
            Ok(updated)
        },
        None => Err(Error::ArithmeticOverflow),
    }
}

/// What a periodic charge makes of a subscription and of its merchant's
/// earned balance, and how it ends.
///
/// Only an active subscription is charged. Where the escrow covers the
/// amount, it is debited and the merchant credited by the same amount, and
/// `now` becomes the time of the last payment. Where it does not, the charge
/// fails and the subscription goes into status `InsufficientBalance`. Every
/// other failure changes nothing.
pub open spec fn charged(s: Subscription, merchant_balance: i128, now: u64) -> (
    Subscription,
    i128,
    Result<(), Error>,
) {
    if s.status != SubscriptionStatus::Active {
        (s, merchant_balance, Err(Error::InvalidStatus))
    } else if s.prepaid_balance < s.amount {
        (
            Subscription {
                status: status_after(s.status, SubscriptionStatus::InsufficientBalance),
                ..s
            },
            merchant_balance,
            Err(Error::InsufficientBalance),
        )
    } else if s.prepaid_balance - s.amount > i128::MAX || merchant_balance + s.amount > i128::MAX
        || merchant_balance + s.amount < i128::MIN {
        (s, merchant_balance, Err(Error::ArithmeticOverflow))
    } else {
        (
            Subscription {
                prepaid_balance: (s.prepaid_balance - s.amount) as i128,
                last_payment_timestamp: now,
                ..s
            },
            (merchant_balance + s.amount) as i128,
            Ok(()),
        )
    }
}

/// Charges one billing interval: hands back the subscription and the
/// merchant's earned balance as they are to be stored, and the outcome.
pub fn charge(subscription: &Subscription, merchant_balance: i128, now: u64) -> (r: (
    Subscription,
    i128,
    Result<(), Error>,
))
    ensures
        r == charged(*subscription, merchant_balance, now),
{
    let mut updated = *subscription;
    if subscription.status != SubscriptionStatus::Active {
        return (updated, merchant_balance, Err(Error::InvalidStatus));
    }
    if subscription.prepaid_balance < subscription.amount {
        if validate_status_transition(&subscription.status, &SubscriptionStatus::InsufficientBalance).is_ok() {
            updated.status = SubscriptionStatus::InsufficientBalance;
        }
        return (updated, merchant_balance, Err(Error::InsufficientBalance));
    }
    let updated_prepaid = match subscription.prepaid_balance.checked_sub(subscription.amount) {
        Some(v) => v,
        None => {
            return (updated, merchant_balance, Err(Error::ArithmeticOverflow));
        },
    };
    let updated_merchant_balance = match merchant_balance.checked_add(subscription.amount) {
        Some(v) => v,
        None => {
            return (updated, merchant_balance, Err(Error::ArithmeticOverflow));
        },
    };
    updated.prepaid_balance = updated_prepaid;
    updated.last_payment_timestamp = now;
    (updated, updated_merchant_balance, Ok(()))
}

/// What a charge for metered usage makes of a subscription and of its
/// merchant's earned balance: `amount` moves from the escrow to the
/// merchant. The billing schedule and the status are not touched.
pub open spec fn usage_charged(s: Subscription, merchant_balance: i128, amount: i128) -> Result<
    (Subscription, i128),
    Error,
> {
    if s.status != SubscriptionStatus::Active {
        Err(Error::NotActive)
    } else if !s.usage_enabled {
        Err(Error::UsageNotEnabled)
    } else if amount <= 0 {
        Err(Error::InvalidAmount)
    } else if s.prepaid_balance < amount {
        Err(Error::InsufficientPrepaidBalance)
    } else if merchant_balance + amount > i128::MAX {
        Err(Error::ArithmeticOverflow)
    } else {
        Ok(
            (
                Subscription { prepaid_balance: (s.prepaid_balance - amount) as i128, ..s },
                (merchant_balance + amount) as i128,
            ),
        )
    }
}

/// Charges metered usage: hands back the subscription and the merchant's
/// earned balance as they are to be stored.
pub fn charge_usage(subscription: &Subscription, merchant_balance: i128, amount: i128) -> (r: Result<
    (Subscription, i128),
    Error,
>)
    ensures
        r == usage_charged(*subscription, merchant_balance, amount),
{
    if subscription.status != SubscriptionStatus::Active {
        return Err(Error::NotActive);
    }
    if !subscription.usage_enabled {
        return Err(Error::UsageNotEnabled);
    }
    if amount <= 0 {
        return Err(Error::InvalidAmount);
    }
    if subscription.prepaid_balance < amount {
        return Err(Error::InsufficientPrepaidBalance);
    }
    let updated_merchant_balance = match merchant_balance.checked_add(amount) {
        Some(v) => v,
        None => {
            return Err(Error::ArithmeticOverflow);
        },
    };
    let updated_prepaid = match subscription.prepaid_balance.checked_sub(amount) {
        Some(v) => v,
        None => {
            return Err(Error::ArithmeticOverflow);
        },
    };
    let mut updated = *subscription;
    updated.prepaid_balance = updated_prepaid;
    Ok((updated, updated_merchant_balance))
}

/// The subscription in status `target`, if the state machine allows the
/// change.
pub open spec fn status_changed(s: Subscription, target: SubscriptionStatus) -> Result<
    Subscription,
    Error,
> {
    if transition_allowed(s.status, target) {
        Ok(Subscription { status: target, ..s })
    } else {
        Err(Error::InvalidStatusTransition)
    }
}

/// Puts a subscription into status `target`, if the state machine allows it.
pub fn change_status(subscription: &Subscription, target: SubscriptionStatus) -> (r: Result<
    Subscription,
    Error,
>)
    ensures
        r == status_changed(*subscription, target),
{
    match validate_status_transition(&subscription.status, &target) {
        Ok(()) => {
            let mut updated = *subscription;
            updated.status = target;
            Ok(updated)
        },
        Err(e) => Err(e),
    }
}

/// A merchant's earned balance after a withdrawal of `amount`, which must be
/// positive and covered by the balance.
pub open spec fn withdrawn(balance: i128, amount: i128) -> Result<i128, Error> {
    if amount <= 0 {
        Err(Error::InvalidAmount)
    } else if balance < amount {
        Err(Error::InsufficientBalance)
    } else if balance - amount > i128::MAX {
        Err(Error::ArithmeticOverflow)
    } else {
        Ok((balance - amount) as i128)
    }
}

/// Debits a withdrawal from a merchant's earned balance.
pub fn withdraw(balance: i128, amount: i128) -> (r: Result<i128, Error>)
    ensures
        r == withdrawn(balance, amount),
{
    if amount <= 0 {
        return Err(Error::InvalidAmount);
    }
    if balance < amount {
        return Err(Error::InsufficientBalance);
    }
    match balance.checked_sub(amount) {
        Some(updated) => Ok(updated),
        None => Err(Error::ArithmeticOverflow),
    }
}

/// The audit record of a recovery of stranded funds: only the stored
/// administrator may recover, and only a positive amount. The reason is
/// recorded and decides nothing.
pub open spec fn recovery(
    stored_admin: Option<Address>,
    admin: Address,
    recipient: Address,
    amount: i128,
    reason: RecoveryReason,
    now: u64,
) -> Result<RecoveryEvent, Error> {
    match admin_check(stored_admin, admin) {
        Err(e) => Err(e),
        Ok(_) => if amount <= 0 {
            Err(Error::InvalidRecoveryAmount)
        } else {
            Ok(RecoveryEvent { admin, recipient, amount, reason, timestamp: now })
        },
    }
}

/// Checks a recovery of stranded funds and builds its audit record.
pub fn recover(
    stored_admin: Option<Address>,
    admin: Address,
    recipient: Address,
    amount: i128,
    reason: RecoveryReason,
    now: u64,
) -> (r: Result<RecoveryEvent, Error>)
    ensures
        r == recovery(stored_admin, admin, recipient, amount, reason, now),
{
    match require_admin(stored_admin, admin) {
        Ok(()) => {},
        Err(e) => {
            return Err(e);
        },
    }
    if amount <= 0 {
        return Err(Error::InvalidRecoveryAmount);
    }
    Ok(RecoveryEvent { admin, recipient, amount, reason, timestamp: now })
}

/// The line of a batch report for one charge attempt: success with code 0,
/// or failure with the error's code.
pub open spec fn batch_result(r: Result<(), Error>) -> BatchChargeResult {
    match r {
        Ok(_) => BatchChargeResult { success: true, error_code: 0 },
        Err(e) => BatchChargeResult { success: false, error_code: error_code(e) },
    }
}

/// Reports one charge attempt of a batch.
pub fn report_charge(r: Result<(), Error>) -> (line: BatchChargeResult)
    ensures
        line == batch_result(r),
        line.success <==> line.error_code == 0,
{
    match r {
        Ok(()) => BatchChargeResult { success: true, error_code: 0 },
        Err(e) => BatchChargeResult { success: false, error_code: e.to_code() },
    }
}

} // verus!
