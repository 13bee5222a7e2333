//! What holds of the ledger whatever is done to it.

use vstd::prelude::*;
use crate::model::{escrow_of, total_escrow, Operation, VaultState};
use crate::rules::{charged, usage_charged};
use crate::state_machine::transition_allowed;
use crate::types::{Address, Error, Subscription, SubscriptionStatus};

verus! {

/// A charge on the records alone: whatever it takes out of the escrow it adds
/// to the merchant's earned balance, so their sum stays the same whether the
/// charge succeeds or fails; and from a well-formed subscription and a
/// non-negative balance it yields both again.
pub proof fn record_charge_conserves_value(s: Subscription, merchant_balance: i128, now: u64)
    ensures
        charged(s, merchant_balance, now).0.prepaid_balance + charged(s, merchant_balance, now).1
            == s.prepaid_balance + merchant_balance,
        charged(s, merchant_balance, now).2 is Ok ==> s.prepaid_balance - charged(
            s,
            merchant_balance,
            now,
        ).0.prepaid_balance == s.amount,
        s.wf() && merchant_balance >= 0 ==> charged(s, merchant_balance, now).0.wf() && charged(
            s,
            merchant_balance,
            now,
        ).1 >= 0,
{
}

/// A usage charge on the records alone moves exactly `amount` from the escrow
/// to the merchant's earned balance, and keeps both non-negative.
pub proof fn record_usage_charge_conserves_value(s: Subscription, merchant_balance: i128, amount: i128)
    requires
        usage_charged(s, merchant_balance, amount) is Ok,
    ensures
        s.prepaid_balance - usage_charged(s, merchant_balance, amount)->Ok_0.0.prepaid_balance
            == amount,
        usage_charged(s, merchant_balance, amount)->Ok_0.1 - merchant_balance == amount,
        s.wf() && merchant_balance >= 0 ==> usage_charged(s, merchant_balance, amount)->Ok_0.0.wf()
            && usage_charged(s, merchant_balance, amount)->Ok_0.1 >= 0,
{
}

/// Replacing one subscription by another of the same merchant changes that
/// merchant's escrow by the difference of the two prepaid balances, and no
/// other merchant's escrow.
pub proof fn escrow_after_update(subscriptions: Seq<Subscription>, i: int, s: Subscription, m: Address)
    requires
        0 <= i < subscriptions.len(),
        s.merchant == subscriptions[i].merchant,
    ensures
        escrow_of(subscriptions.update(i, s), m) == escrow_of(subscriptions, m) + (if s.merchant == m {
            s.prepaid_balance - subscriptions[i].prepaid_balance
        } else {
            0
        }),
    decreases subscriptions.len(),
{
    let updated = subscriptions.update(i, s);
    if i == subscriptions.len() - 1 {
        assert(updated.drop_last() =~= subscriptions.drop_last());
    } else {
        assert(updated.drop_last() =~= subscriptions.drop_last().update(i, s));
        escrow_after_update(subscriptions.drop_last(), i, s, m);
    }
}

/// A charge, successful or not, leaves a well-formed vault well formed.
pub proof fn charge_preserves_wf(v: VaultState, id: u32, now: u64)
    requires
        v.wf(),
    ensures
        v.charge_subscription(id, now).0.wf(),
{
    if v.has_subscription(id) {
        assert(v.subscriptions[id as int].wf());
    }
}

/// A usage charge, successful or not, leaves a well-formed vault well formed.
pub proof fn usage_charge_preserves_wf(v: VaultState, id: u32, amount: i128)
    requires
        v.wf(),
    ensures
        v.charge_usage(id, amount).0.wf(),
{
    if v.has_subscription(id) {
        assert(v.subscriptions[id as int].wf());
    }
}

/// A deposit, successful or not, leaves a well-formed vault well formed.
pub proof fn deposit_preserves_wf(
    v: VaultState,
    id: u32,
    subscriber: Address,
    amount: i128,
    authorized: bool,
)
    requires
        v.wf(),
    ensures
        v.deposit_funds(id, subscriber, amount, authorized).0.wf(),
{
    if v.has_subscription(id) {
        assert(v.subscriptions[id as int].wf());
    }
}

/// A status change, allowed or refused, leaves a well-formed vault well
/// formed.
pub proof fn status_change_preserves_wf(
    v: VaultState,
    id: u32,
    target: SubscriptionStatus,
    authorized: bool,
)
    requires
        v.wf(),
    ensures
        v.set_status(id, target, authorized).0.wf(),
{
    if v.has_subscription(id) {
        assert(v.subscriptions[id as int].wf());
    }
}

/// Every operation, successful or not, leaves a well-formed vault well
/// formed.
#[verifier::rlimit(40)]
pub proof fn operation_preserves_wf(v: VaultState, op: Operation)
    requires
        v.wf(),
    ensures
        v.apply(op).wf(),
{
    let w = v.apply(op);
    match op {
        Operation::Init { .. } => {
            assert(w.wf());
        },
        Operation::SetMinTopup { .. } => {
            assert(w.wf());
        },
        Operation::SetMerchantConfig { .. } => {
            assert(w.wf());
        },
        Operation::UpdateMerchantConfig { merchant, .. } => {
            assert(v.config_of(merchant).wf());
            assert(w.wf());
        },
        Operation::CreateSubscription { .. } => {
            assert(w.wf());
        },
        Operation::DepositFunds { subscription_id, subscriber, amount, authorized } => {
            deposit_preserves_wf(v, subscription_id, subscriber, amount, authorized);
        },
        Operation::ChargeSubscription { subscription_id, now } => {
            charge_preserves_wf(v, subscription_id, now);
        },
        Operation::ChargeUsage { subscription_id, amount } => {
            usage_charge_preserves_wf(v, subscription_id, amount);
        },
        Operation::PauseSubscription { subscription_id, authorized, .. } => {
            status_change_preserves_wf(v, subscription_id, SubscriptionStatus::Paused, authorized);
        },
        Operation::ResumeSubscription { subscription_id, authorized, .. } => {
            status_change_preserves_wf(v, subscription_id, SubscriptionStatus::Active, authorized);
        },
        Operation::CancelSubscription { subscription_id, authorized, .. } => {
            status_change_preserves_wf(v, subscription_id, SubscriptionStatus::Cancelled, authorized);
        },
        Operation::WithdrawMerchantFunds { .. } => {
            assert(w.wf());
        },
        Operation::RecoverStrandedFunds { .. } => {},
    }
}

/// Non-negativity in every reachable state: after any sequence of operations
/// on a well-formed vault, every prepaid balance and every merchant balance
/// is at least 0.
pub proof fn balances_never_negative(v: VaultState, ops: Seq<Operation>)
    requires
        v.wf(),
    ensures
        v.apply_all(ops).wf(),
        forall|id: u32|
            #![trigger v.apply_all(ops).has_subscription(id)]
            v.apply_all(ops).has_subscription(id) ==> v.apply_all(
                ops,
            ).subscriptions[id as int].prepaid_balance >= 0,
        forall|m: Address|
            #![trigger v.apply_all(ops).balance_of(m)]
            v.apply_all(ops).balance_of(m) >= 0,
    decreases ops.len(),
{
    if ops.len() > 0 {
        balances_never_negative(v, ops.drop_last());
        operation_preserves_wf(v.apply_all(ops.drop_last()), ops.last());
    }
    let w = v.apply_all(ops);
    assert forall|id: u32|
        #![trigger w.has_subscription(id)]
        w.has_subscription(id) implies w.subscriptions[id as int].prepaid_balance >= 0 by {
        assert(w.subscriptions[id as int].wf());
    }
}

/// The empty vault is well formed, so everything reachable from it is.
pub proof fn reachable_vaults_are_wf(ops: Seq<Operation>)
    ensures
        VaultState::empty().apply_all(ops).wf(),
{
    balances_never_negative(VaultState::empty(), ops);
}

/// Conservation in one charge: whatever a charge, periodic or for usage,
/// takes out of a merchant's escrow it adds to that merchant's earned
/// balance. For every merchant the sum of escrow and earned balance is the
/// same before and after, whether the charge succeeds or fails.
pub proof fn charge_conserves_value(v: VaultState, op: Operation, m: Address)
    requires
        v.wf(),
        op.is_charge(),
    ensures
        escrow_of(v.apply(op).subscriptions, m) + v.apply(op).balance_of(m) == escrow_of(
            v.subscriptions,
            m,
        ) + v.balance_of(m),
{
    let w = v.apply(op);
    match op {
        Operation::ChargeSubscription { subscription_id, now } => {
            if v.has_subscription(subscription_id) {
                let s = v.subscriptions[subscription_id as int];
                assert(s.wf());
                escrow_after_update(
                    v.subscriptions,
                    subscription_id as int,
                    w.subscriptions[subscription_id as int],
                    m,
                );
                assert(w.subscriptions =~= v.subscriptions.update(
                    subscription_id as int,
                    w.subscriptions[subscription_id as int],
                ));
            }
        },
        Operation::ChargeUsage { subscription_id, amount } => {
            if v.has_subscription(subscription_id) {
                let s = v.subscriptions[subscription_id as int];
                assert(s.wf());
                escrow_after_update(
                    v.subscriptions,
                    subscription_id as int,
                    w.subscriptions[subscription_id as int],
                    m,
                );
                assert(w.subscriptions =~= v.subscriptions.update(
                    subscription_id as int,
                    w.subscriptions[subscription_id as int],
                ));
            }
        },
        _ => {},
    }
}

/// Replacing one subscription by another changes the total escrow by the
/// difference of the two prepaid balances.
pub proof fn total_escrow_after_update(subscriptions: Seq<Subscription>, i: int, s: Subscription)
    requires
        0 <= i < subscriptions.len(),
    ensures
        total_escrow(subscriptions.update(i, s)) == total_escrow(subscriptions) + s.prepaid_balance
            - subscriptions[i].prepaid_balance,
    decreases subscriptions.len(),
{
    let updated = subscriptions.update(i, s);
    if i == subscriptions.len() - 1 {
        assert(updated.drop_last() =~= subscriptions.drop_last());
    } else {
        assert(updated.drop_last() =~= subscriptions.drop_last().update(i, s));
        total_escrow_after_update(subscriptions.drop_last(), i, s);
    }
}

/// One charge in totals: the decrease of the total escrow equals the
/// increase of the charged merchant's earned balance, and no other merchant's
/// balance changes.
pub proof fn charge_conserves_total(v: VaultState, op: Operation)
    requires
        v.wf(),
        op.is_charge(),
    ensures
        total_escrow(v.subscriptions) - total_escrow(v.apply(op).subscriptions) == v.credited(op),
        v.credited(op) >= 0,
        forall|m: Address|
            #![trigger v.apply(op).balance_of(m)]
            v.apply(op).balance_of(m) != v.balance_of(m) ==> {
                &&& op matches Operation::ChargeSubscription { subscription_id, .. } ==> v.has_subscription(subscription_id)
                    && v.subscriptions[subscription_id as int].merchant == m
                &&& op matches Operation::ChargeUsage { subscription_id, .. } ==> v.has_subscription(subscription_id)
                    && v.subscriptions[subscription_id as int].merchant == m
            },
{
    let w = v.apply(op);
    match op {
        Operation::ChargeSubscription { subscription_id, now } => {
            if v.has_subscription(subscription_id) {
                assert(v.subscriptions[subscription_id as int].wf());
                total_escrow_after_update(
                    v.subscriptions,
                    subscription_id as int,
                    w.subscriptions[subscription_id as int],
                );
                assert(w.subscriptions =~= v.subscriptions.update(
                    subscription_id as int,
                    w.subscriptions[subscription_id as int],
                ));
            }
        },
        Operation::ChargeUsage { subscription_id, amount } => {
            if v.has_subscription(subscription_id) {
                assert(v.subscriptions[subscription_id as int].wf());
                total_escrow_after_update(
                    v.subscriptions,
                    subscription_id as int,
                    w.subscriptions[subscription_id as int],
                );
                assert(w.subscriptions =~= v.subscriptions.update(
                    subscription_id as int,
                    w.subscriptions[subscription_id as int],
                ));
            }
        },
        _ => {},
    }
}

/// Conservation in totals: over any sequence of charges, the sum of the
/// decreases of prepaid balances equals the sum of the increases of merchant
/// balances.
pub proof fn charges_conserve_total(v: VaultState, ops: Seq<Operation>)
    requires
        v.wf(),
        forall|i: int| 0 <= i < ops.len() ==> (#[trigger] ops[i]).is_charge(),
    ensures
        total_escrow(v.subscriptions) - total_escrow(v.apply_all(ops).subscriptions)
            == v.total_credited(ops),
    decreases ops.len(),
{
    if ops.len() > 0 {
        let before = ops.drop_last();
        assert forall|i: int| 0 <= i < before.len() implies (#[trigger] before[i]).is_charge() by {
            assert(before[i] == ops[i]);
        }
        charges_conserve_total(v, before);
        balances_never_negative(v, before);
        charge_conserves_total(v.apply_all(before), ops.last());
    }
}

/// Conservation over any sequence of charges, merchant by merchant: the
/// total taken out of the escrow held for a merchant equals the total added
/// to that merchant's earned balance.
pub proof fn charges_conserve_value(v: VaultState, ops: Seq<Operation>, m: Address)
    requires
        v.wf(),
        forall|i: int| 0 <= i < ops.len() ==> (#[trigger] ops[i]).is_charge(),
    ensures
        escrow_of(v.subscriptions, m) - escrow_of(v.apply_all(ops).subscriptions, m)
            == v.apply_all(ops).balance_of(m) - v.balance_of(m),
    decreases ops.len(),
{
    if ops.len() > 0 {
        let before = ops.drop_last();
        assert forall|i: int| 0 <= i < before.len() implies (#[trigger] before[i]).is_charge() by {
            assert(before[i] == ops[i]);
        }
        charges_conserve_value(v, before, m);
        balances_never_negative(v, before);
        charge_conserves_value(v.apply_all(before), ops.last(), m);
    }
}

/// A batch charge is the sequence of its charges: it conserves value for
/// every merchant and keeps the vault well formed, whichever of its charges
/// fail.
pub proof fn batch_charge_conserves_value(v: VaultState, ids: Seq<u32>, now: u64, m: Address)
    requires
        v.wf(),
    ensures
        v.batch_charge(ids, now).0.wf(),
        v.batch_charge(ids, now).1.len() == ids.len(),
        escrow_of(v.subscriptions, m) - escrow_of(v.batch_charge(ids, now).0.subscriptions, m)
            == v.batch_charge(ids, now).0.balance_of(m) - v.balance_of(m),
    decreases ids.len(),
{
    if ids.len() > 0 {
        batch_charge_conserves_value(v, ids.drop_last(), now, m);
        let before = v.batch_charge(ids.drop_last(), now).0;
        let op = Operation::ChargeSubscription { subscription_id: ids.last(), now };
        operation_preserves_wf(before, op);
        charge_conserves_value(before, op, m);
    }
}

/// A failed charge moves no value. One that the escrow cannot cover puts the
/// subscription into status `InsufficientBalance` and changes nothing else;
/// every other failure leaves the whole vault as it was.
pub proof fn failed_charge_moves_nothing(v: VaultState, id: u32, now: u64)
    requires
        v.wf(),
        v.charge_subscription(id, now).1 is Err,
    ensures
        v.charge_subscription(id, now).1 != Err::<(), Error>(Error::InsufficientBalance)
            ==> v.charge_subscription(id, now).0 == v,
        v.charge_subscription(id, now).1 == Err::<(), Error>(Error::InsufficientBalance) ==> {
            &&& v.has_subscription(id)
            &&& v.subscriptions[id as int].status == SubscriptionStatus::Active
            &&& v.subscriptions[id as int].prepaid_balance < v.subscriptions[id as int].amount
            &&& v.charge_subscription(id, now).0 == v.with_subscription(
                id,
                Subscription {
                    status: SubscriptionStatus::InsufficientBalance,
                    ..v.subscriptions[id as int]
                },
            )
        },
{
    if v.has_subscription(id) {
        let w = v.charge_subscription(id, now).0;
        if v.charge_subscription(id, now).1 != Err::<(), Error>(Error::InsufficientBalance) {
            assert(w.subscriptions =~= v.subscriptions);
        }
    }
}

/// A status change that the state machine does not allow fails and leaves
/// the whole vault as it was: with `InvalidStatusTransition` where the
/// authorizer has consented, with `Unauthorized` where not.
pub proof fn illegal_status_change_changes_nothing(
    v: VaultState,
    id: u32,
    target: SubscriptionStatus,
    authorized: bool,
)
    requires
        v.has_subscription(id),
        !transition_allowed(v.subscriptions[id as int].status, target),
    ensures
        v.set_status(id, target, authorized).0 == v,
        v.set_status(id, target, authorized).1 == Err::<(), Error>(
            if authorized {
                Error::InvalidStatusTransition
            } else {
                Error::Unauthorized
            },
        ),
{
}

/// Putting a subscription into the status it already has succeeds and leaves
/// the whole vault as it was: pausing a paused subscription, cancelling a
/// cancelled one.
pub proof fn repeated_status_change_changes_nothing(v: VaultState, id: u32)
    requires
        v.has_subscription(id),
    ensures
        v.set_status(id, v.subscriptions[id as int].status, true) == (v, Ok::<(), Error>(())),
{
    let s = v.subscriptions[id as int];
    let w = v.set_status(id, s.status, true).0;
    assert(w.subscriptions =~= v.subscriptions);
}

/// Every operation leaves the subscriptions that exist in place, and leaves a
/// cancelled one cancelled.
#[verifier::rlimit(40)]
pub proof fn operation_keeps_cancelled(v: VaultState, op: Operation, id: u32)
    requires
        v.has_subscription(id),
    ensures
        v.apply(op).has_subscription(id),
        v.subscriptions[id as int].status == SubscriptionStatus::Cancelled ==> v.apply(
            op,
        ).subscriptions[id as int].status == SubscriptionStatus::Cancelled,
{
    let cancelled = SubscriptionStatus::Cancelled;
    match op {
        Operation::CreateSubscription {
            subscriber,
            merchant,
            amount,
            interval_seconds,
            usage_enabled,
            allowance,
            balance,
            now,
            authorized,
        } => {
            let w = v.create_subscription(
                subscriber,
                merchant,
                amount,
                interval_seconds,
                usage_enabled,
                allowance,
                balance,
                now,
                authorized,
            ).0;
            assert(w.subscriptions.len() >= v.subscriptions.len());
            assert(w.subscriptions[id as int] == v.subscriptions[id as int]);
        },
        Operation::DepositFunds { subscription_id, subscriber, amount, authorized } => {
            let w = v.deposit_funds(subscription_id, subscriber, amount, authorized).0;
            assert(w.subscriptions[id as int].status == v.subscriptions[id as int].status);
        },
        Operation::ChargeSubscription { subscription_id, now } => {
            let w = v.charge_subscription(subscription_id, now).0;
            assert(v.subscriptions[id as int].status == cancelled ==> w.subscriptions[id as int]
                == v.subscriptions[id as int]);
        },
        Operation::ChargeUsage { subscription_id, amount } => {
            let w = v.charge_usage(subscription_id, amount).0;
            assert(v.subscriptions[id as int].status == cancelled ==> w.subscriptions[id as int]
                == v.subscriptions[id as int]);
        },
        Operation::PauseSubscription { subscription_id, authorized, .. } => {
            status_change_keeps_cancelled(
                v,
                subscription_id,
                SubscriptionStatus::Paused,
                authorized,
                id,
            );
        },
        Operation::ResumeSubscription { subscription_id, authorized, .. } => {
            status_change_keeps_cancelled(
                v,
                subscription_id,
                SubscriptionStatus::Active,
                authorized,
                id,
            );
        },
        Operation::CancelSubscription { subscription_id, authorized, .. } => {
            status_change_keeps_cancelled(v, subscription_id, cancelled, authorized, id);
        },
        Operation::Init { .. } => {},
        Operation::SetMinTopup { .. } => {},
        Operation::SetMerchantConfig { .. } => {},
        Operation::UpdateMerchantConfig { .. } => {},
        Operation::WithdrawMerchantFunds { .. } => {},
        Operation::RecoverStrandedFunds { .. } => {},
    }
}

/// No status change, allowed or refused, takes a subscription out of the
/// cancelled status.
pub proof fn status_change_keeps_cancelled(
    v: VaultState,
    changed: u32,
    target: SubscriptionStatus,
    authorized: bool,
    id: u32,
)
    requires
        v.has_subscription(id),
    ensures
        v.set_status(changed, target, authorized).0.has_subscription(id),
        v.subscriptions[id as int].status == SubscriptionStatus::Cancelled ==> v.set_status(
            changed,
            target,
            authorized,
        ).0.subscriptions[id as int].status == SubscriptionStatus::Cancelled,
{
}

/// The cancelled status is terminal: once a subscription is cancelled, no
/// sequence of operations, by whatever principals, changes its status.
pub proof fn cancelled_stays_cancelled(v: VaultState, ops: Seq<Operation>, id: u32)
    requires
        v.has_subscription(id),
        v.subscriptions[id as int].status == SubscriptionStatus::Cancelled,
    ensures
        v.apply_all(ops).has_subscription(id),
        v.apply_all(ops).subscriptions[id as int].status == SubscriptionStatus::Cancelled,
    decreases ops.len(),
{
    if ops.len() > 0 {
        cancelled_stays_cancelled(v, ops.drop_last(), id);
        operation_keeps_cancelled(v.apply_all(ops.drop_last()), ops.last(), id);
    }
}

/// The time of the last payment never goes back: whatever the operation, it
/// is afterwards no earlier than before, as long as no charge is made at a
/// time before it.
#[verifier::rlimit(40)]
pub proof fn payment_time_never_goes_back(v: VaultState, op: Operation, id: u32)
    requires
        v.has_subscription(id),
        op matches Operation::ChargeSubscription { subscription_id, now } ==> now
            >= v.subscriptions[id as int].last_payment_timestamp,
    ensures
        v.apply(op).has_subscription(id),
        v.apply(op).subscriptions[id as int].last_payment_timestamp
            >= v.subscriptions[id as int].last_payment_timestamp,
{
    match op {
        Operation::CreateSubscription {
            subscriber,
            merchant,
            amount,
            interval_seconds,
            usage_enabled,
            allowance,
            balance,
            now,
            authorized,
        } => {
            let w = v.create_subscription(
                subscriber,
                merchant,
                amount,
                interval_seconds,
                usage_enabled,
                allowance,
                balance,
                now,
                authorized,
            ).0;
            assert(w.subscriptions.len() >= v.subscriptions.len());
            assert(w.subscriptions[id as int] == v.subscriptions[id as int]);
        },
        Operation::DepositFunds { subscription_id, subscriber, amount, authorized } => {
            let w = v.deposit_funds(subscription_id, subscriber, amount, authorized).0;
            assert(w.subscriptions[id as int].last_payment_timestamp
                == v.subscriptions[id as int].last_payment_timestamp);
        },
        Operation::ChargeSubscription { subscription_id, now } => {
            let w = v.charge_subscription(subscription_id, now).0;
            assert(w.subscriptions[id as int].last_payment_timestamp
                >= v.subscriptions[id as int].last_payment_timestamp);
        },
        Operation::ChargeUsage { subscription_id, amount } => {
            let w = v.charge_usage(subscription_id, amount).0;
            assert(w.subscriptions[id as int].last_payment_timestamp
                == v.subscriptions[id as int].last_payment_timestamp);
        },
        Operation::PauseSubscription { subscription_id, authorized, .. } => {
            let w = v.set_status(subscription_id, SubscriptionStatus::Paused, authorized).0;
            assert(w.subscriptions[id as int].last_payment_timestamp
                == v.subscriptions[id as int].last_payment_timestamp);
        },
        Operation::ResumeSubscription { subscription_id, authorized, .. } => {
            let w = v.set_status(subscription_id, SubscriptionStatus::Active, authorized).0;
            assert(w.subscriptions[id as int].last_payment_timestamp
                == v.subscriptions[id as int].last_payment_timestamp);
        },
        Operation::CancelSubscription { subscription_id, authorized, .. } => {
            let w = v.set_status(subscription_id, SubscriptionStatus::Cancelled, authorized).0;
            assert(w.subscriptions[id as int].last_payment_timestamp
                == v.subscriptions[id as int].last_payment_timestamp);
        },
        Operation::Init { .. } => {},
        Operation::SetMinTopup { .. } => {},
        Operation::SetMerchantConfig { .. } => {},
        Operation::UpdateMerchantConfig { .. } => {},
        Operation::WithdrawMerchantFunds { .. } => {},
        Operation::RecoverStrandedFunds { .. } => {},
    }
}

/// A deposit never changes a status, whether it succeeds or fails.
pub proof fn deposit_keeps_status(
    v: VaultState,
    id: u32,
    subscriber: Address,
    amount: i128,
    authorized: bool,
    other: u32,
)
    requires
        v.has_subscription(other),
    ensures
        v.deposit_funds(id, subscriber, amount, authorized).0.has_subscription(other),
        v.deposit_funds(id, subscriber, amount, authorized).0.subscriptions[other as int].status
            == v.subscriptions[other as int].status,
{
}

/// Earnings cannot be withdrawn twice: a withdrawal debits the earned
/// balance by its amount, and a second withdrawal of the same amount
/// succeeds only where the merchant had earned at least twice the amount.
/// Where less is left, it fails with `InsufficientBalance`.
pub proof fn no_double_withdrawal(v: VaultState, merchant: Address, amount: i128)
    requires
        v.wf(),
        v.withdraw_merchant_funds(merchant, amount, true).1 is Ok,
    ensures
        v.withdraw_merchant_funds(merchant, amount, true).0.balance_of(merchant) == v.balance_of(
            merchant,
        ) - amount,
        v.withdraw_merchant_funds(merchant, amount, true).0.withdraw_merchant_funds(
            merchant,
            amount,
            true,
        ).1 is Ok <==> v.balance_of(merchant) >= 2 * amount,
        v.balance_of(merchant) < 2 * amount ==> v.withdraw_merchant_funds(
            merchant,
            amount,
            true,
        ).0.withdraw_merchant_funds(merchant, amount, true).1 == Err::<(), Error>(
            Error::InsufficientBalance,
        ),
{
}

/// Without the consent of the principal that an operation names, the vault
/// stays as it was.
#[verifier::rlimit(40)]
pub proof fn nothing_happens_without_consent(v: VaultState, op: Operation)
    requires
        match op {
            Operation::SetMinTopup { authorized, .. } => !authorized,
            Operation::SetMerchantConfig { authorized, .. } => !authorized,
            Operation::UpdateMerchantConfig { authorized, .. } => !authorized,
            Operation::CreateSubscription { authorized, .. } => !authorized,
            Operation::DepositFunds { authorized, .. } => !authorized,
            Operation::PauseSubscription { authorized, .. } => !authorized,
            Operation::ResumeSubscription { authorized, .. } => !authorized,
            Operation::CancelSubscription { authorized, .. } => !authorized,
            Operation::WithdrawMerchantFunds { authorized, .. } => !authorized,
            Operation::RecoverStrandedFunds { authorized, .. } => !authorized,
            Operation::Init { .. } => false,
            Operation::ChargeSubscription { .. } => false,
            Operation::ChargeUsage { .. } => false,
        },
    ensures
        v.apply(op) == v,
{
}

} // verus!
