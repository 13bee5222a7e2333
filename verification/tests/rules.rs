use subscription_vault::registry::Registry;
use subscription_vault::rules::{
    advance_id_counter, change_status, charge, charge_usage, check_funding, check_topup, deposit,
    new_merchant_config, open_subscription, recover, report_charge, require_admin,
    require_admin_or_merchant, require_authorized, resolve_subscription_terms, updated_merchant_config,
    validate_min_topup, withdraw,
};
use subscription_vault::{
    Address, BatchChargeResult, Error, MerchantConfig, OneOffChargedEvent, RecoveryEvent,
    RecoveryReason, Subscription, SubscriptionCancelledEvent, SubscriptionChargedEvent,
    SubscriptionCreatedEvent, SubscriptionStatus,
};

const ADMIN: Address = Address { contract: false, hi: 0, lo: 2 };
const SUBSCRIBER: Address = Address { contract: false, hi: 0, lo: 100 };
const MERCHANT: Address = Address { contract: false, hi: 0, lo: 200 };
const STRANGER: Address = Address { contract: false, hi: 7, lo: 7 };

fn subscription(status: SubscriptionStatus, amount: i128, prepaid: i128) -> Subscription {
    Subscription {
        subscriber: SUBSCRIBER,
        merchant: MERCHANT,
        amount,
        interval_seconds: 3600,
        last_payment_timestamp: 10,
        status,
        prepaid_balance: prepaid,
        usage_enabled: true,
    }
}

#[test]
fn consent_fails_closed() {
    assert_eq!(require_authorized(true), Ok(()));
    assert_eq!(require_authorized(false), Err(Error::Unauthorized));
}

#[test]
fn administrator_is_told_by_identity() {
    assert_eq!(require_admin(None, ADMIN), Err(Error::NotFound));
    assert_eq!(require_admin(Some(ADMIN), ADMIN), Ok(()));
    assert_eq!(require_admin(Some(ADMIN), STRANGER), Err(Error::Unauthorized));
    assert_eq!(
        require_admin(Some(ADMIN), Address { contract: true, hi: 0, lo: 2 }),
        Err(Error::Unauthorized)
    );
}

#[test]
fn policy_is_changed_by_merchant_or_administrator() {
    assert_eq!(require_admin_or_merchant(None, MERCHANT, MERCHANT), Err(Error::NotFound));
    assert_eq!(require_admin_or_merchant(Some(ADMIN), MERCHANT, MERCHANT), Ok(()));
    assert_eq!(require_admin_or_merchant(Some(ADMIN), ADMIN, MERCHANT), Ok(()));
    assert_eq!(require_admin_or_merchant(Some(ADMIN), STRANGER, MERCHANT), Err(Error::Unauthorized));
    assert_eq!(require_admin_or_merchant(Some(ADMIN), SUBSCRIBER, MERCHANT), Err(Error::Unauthorized));
}

#[test]
fn minimum_topup_is_positive() {
    assert_eq!(validate_min_topup(1), Ok(()));
    assert_eq!(validate_min_topup(i128::MAX), Ok(()));
    assert_eq!(validate_min_topup(0), Err(Error::InvalidAmount));
    assert_eq!(validate_min_topup(i128::MIN), Err(Error::InvalidAmount));
}

#[test]
fn policy_minimum_is_not_negative() {
    assert_eq!(
        new_merchant_config(0, 0),
        Ok(MerchantConfig { version: 1, min_subscription_amount: 0, default_interval_seconds: 0 })
    );
    assert_eq!(
        new_merchant_config(5_000000, 86_400),
        Ok(MerchantConfig { version: 1, min_subscription_amount: 5_000000, default_interval_seconds: 86_400 })
    );
    assert_eq!(new_merchant_config(-1, 86_400), Err(Error::InvalidAmount));

    let current = MerchantConfig { version: 1, min_subscription_amount: 3, default_interval_seconds: 4 };
    assert_eq!(updated_merchant_config(current, None, None), Ok(current));
    assert_eq!(
        updated_merchant_config(current, Some(9), None),
        Ok(MerchantConfig { version: 1, min_subscription_amount: 9, default_interval_seconds: 4 })
    );
    assert_eq!(
        updated_merchant_config(current, None, Some(0)),
        Ok(MerchantConfig { version: 1, min_subscription_amount: 3, default_interval_seconds: 0 })
    );
    assert_eq!(updated_merchant_config(current, Some(-1), Some(8)), Err(Error::InvalidAmount));
}

#[test]
fn terms_follow_the_policy() {
    let none = MerchantConfig::unset();
    let floor = MerchantConfig { version: 1, min_subscription_amount: 5_000000, default_interval_seconds: 0 };
    let fallback = MerchantConfig { version: 1, min_subscription_amount: 0, default_interval_seconds: 86_400 };

    assert_eq!(resolve_subscription_terms(&none, 10_000000, 2_592_000), Ok(2_592_000));
    assert_eq!(resolve_subscription_terms(&none, 0, 2_592_000), Err(Error::InvalidAmount));
    assert_eq!(resolve_subscription_terms(&none, -1, 2_592_000), Err(Error::InvalidAmount));
    assert_eq!(resolve_subscription_terms(&none, 1, 0), Err(Error::InvalidAmount));
    assert_eq!(resolve_subscription_terms(&floor, 4_999999, 60), Err(Error::BelowMerchantMinimum));
    assert_eq!(resolve_subscription_terms(&floor, 4_999999, 0), Err(Error::BelowMerchantMinimum));
    assert_eq!(resolve_subscription_terms(&floor, 5_000000, 60), Ok(60));
    assert_eq!(resolve_subscription_terms(&fallback, 1, 0), Ok(86_400));
    assert_eq!(resolve_subscription_terms(&fallback, 1, 7), Ok(7));
}

#[test]
fn funding_needs_allowance_then_balance() {
    assert_eq!(check_funding(10, 10, 10), Ok(()));
    assert_eq!(check_funding(10, 9, 10), Err(Error::InsufficientAllowance));
    assert_eq!(check_funding(10, 10, 9), Err(Error::TransferFailed));
    assert_eq!(check_funding(10, 9, 9), Err(Error::InsufficientAllowance));
    assert_eq!(check_funding(10, i128::MAX, i128::MAX), Ok(()));
}

#[test]
fn a_subscription_opens_active_and_funded() {
    assert_eq!(
        open_subscription(SUBSCRIBER, MERCHANT, 10_000000, 2_592_000, true, 77),
        Subscription {
            subscriber: SUBSCRIBER,
            merchant: MERCHANT,
            amount: 10_000000,
            interval_seconds: 2_592_000,
            last_payment_timestamp: 77,
            status: SubscriptionStatus::Active,
            prepaid_balance: 10_000000,
            usage_enabled: true,
        }
    );
}

#[test]
fn topup_checks_amount_then_minimum() {
    assert_eq!(check_topup(Some(5_000000), 5_000000), Ok(()));
    assert_eq!(check_topup(Some(5_000000), 4_999999), Err(Error::BelowMinimumTopup));
    assert_eq!(check_topup(Some(5_000000), 0), Err(Error::InvalidAmount));
    assert_eq!(check_topup(Some(5_000000), -1), Err(Error::InvalidAmount));
    assert_eq!(check_topup(None, 0), Err(Error::InvalidAmount));
    assert_eq!(check_topup(None, 1), Err(Error::NotFound));
}

#[test]
fn deposit_adds_to_the_escrow_only() {
    let before = subscription(SubscriptionStatus::Paused, 10, 3);
    let after = deposit(&before, 4).unwrap();
    assert_eq!(after, Subscription { prepaid_balance: 7, ..before });
    assert_eq!(
        deposit(&subscription(SubscriptionStatus::Active, 10, i128::MAX), 1),
        Err(Error::ArithmeticOverflow)
    );
    assert_eq!(deposit(&subscription(SubscriptionStatus::Active, 10, i128::MAX - 1), 1).unwrap().prepaid_balance, i128::MAX);
}

#[test]
fn charge_moves_one_amount() {
    let s = subscription(SubscriptionStatus::Active, 10, 25);
    let (after, balance, outcome) = charge(&s, 100, 500);
    assert_eq!(outcome, Ok(()));
    assert_eq!(after, Subscription { prepaid_balance: 15, last_payment_timestamp: 500, ..s });
    assert_eq!(balance, 110);

    // exactly enough
    let s = subscription(SubscriptionStatus::Active, 10, 10);
    let (after, balance, outcome) = charge(&s, 0, 1);
    assert_eq!(outcome, Ok(()));
    assert_eq!(after.prepaid_balance, 0);
    assert_eq!(after.status, SubscriptionStatus::Active);
    assert_eq!(balance, 10);
}

#[test]
fn charge_without_funds_marks_the_subscription() {
    let s = subscription(SubscriptionStatus::Active, 10, 9);
    let (after, balance, outcome) = charge(&s, 100, 500);
    assert_eq!(outcome, Err(Error::InsufficientBalance));
    assert_eq!(after, Subscription { status: SubscriptionStatus::InsufficientBalance, ..s });
    assert_eq!(balance, 100);
}

#[test]
fn charge_needs_an_active_subscription() {
    for status in [
        SubscriptionStatus::Paused,
        SubscriptionStatus::Cancelled,
        SubscriptionStatus::InsufficientBalance,
    ] {
        let s = subscription(status, 10, 25);
        assert_eq!(charge(&s, 100, 500), (s, 100, Err(Error::InvalidStatus)));
        assert_eq!(charge_usage(&s, 100, 5), Err(Error::NotActive));
    }
}

#[test]
fn charge_refuses_an_overflowing_credit() {
    let s = subscription(SubscriptionStatus::Active, 10, 25);
    assert_eq!(charge(&s, i128::MAX - 9, 500), (s, i128::MAX - 9, Err(Error::ArithmeticOverflow)));
    let (after, balance, outcome) = charge(&s, i128::MAX - 10, 500);
    assert_eq!(outcome, Ok(()));
    assert_eq!(balance, i128::MAX);
    assert_eq!(after.prepaid_balance, 15);
    assert_eq!(charge_usage(&s, i128::MAX, 1), Err(Error::ArithmeticOverflow));
}

#[test]
fn usage_charge_moves_the_amount_asked_for() {
    let s = subscription(SubscriptionStatus::Active, 10, 25);
    assert_eq!(charge_usage(&s, 100, 25), Ok((Subscription { prepaid_balance: 0, ..s }, 125)));
    assert_eq!(charge_usage(&s, 100, 1), Ok((Subscription { prepaid_balance: 24, ..s }, 101)));
    assert_eq!(charge_usage(&s, 100, 26), Err(Error::InsufficientPrepaidBalance));
    assert_eq!(charge_usage(&s, 100, 0), Err(Error::InvalidAmount));
    assert_eq!(charge_usage(&s, 100, -3), Err(Error::InvalidAmount));
    let flat = Subscription { usage_enabled: false, ..s };
    assert_eq!(charge_usage(&flat, 100, 1), Err(Error::UsageNotEnabled));
    // the flag is looked at before the amount
    assert_eq!(charge_usage(&flat, 100, 0), Err(Error::UsageNotEnabled));
}

#[test]
fn status_changes_only_the_status() {
    let s = subscription(SubscriptionStatus::Active, 10, 25);
    assert_eq!(
        change_status(&s, SubscriptionStatus::Paused),
        Ok(Subscription { status: SubscriptionStatus::Paused, ..s })
    );
    assert_eq!(change_status(&s, SubscriptionStatus::Active), Ok(s));
    let cancelled = subscription(SubscriptionStatus::Cancelled, 10, 25);
    assert_eq!(change_status(&cancelled, SubscriptionStatus::Cancelled), Ok(cancelled));
    assert_eq!(
        change_status(&cancelled, SubscriptionStatus::Active),
        Err(Error::InvalidStatusTransition)
    );
    let short = subscription(SubscriptionStatus::InsufficientBalance, 10, 0);
    assert_eq!(change_status(&short, SubscriptionStatus::Paused), Err(Error::InvalidStatusTransition));
}

#[test]
fn withdrawal_is_covered_by_the_balance() {
    assert_eq!(withdraw(10, 10), Ok(0));
    assert_eq!(withdraw(10, 4), Ok(6));
    assert_eq!(withdraw(10, 11), Err(Error::InsufficientBalance));
    assert_eq!(withdraw(0, 1), Err(Error::InsufficientBalance));
    assert_eq!(withdraw(10, 0), Err(Error::InvalidAmount));
    assert_eq!(withdraw(10, -10), Err(Error::InvalidAmount));
    assert_eq!(withdraw(i128::MAX, i128::MAX), Ok(0));
}

#[test]
fn recovery_builds_the_audit_record() {
    let recipient = Address::contract(3, 4);
    assert_eq!(
        recover(Some(ADMIN), ADMIN, recipient, 50_000000, RecoveryReason::UnreachableSubscriber, 10000),
        Ok(RecoveryEvent {
            admin: ADMIN,
            recipient,
            amount: 50_000000,
            reason: RecoveryReason::UnreachableSubscriber,
            timestamp: 10000,
        })
    );
    assert_eq!(
        recover(Some(ADMIN), ADMIN, recipient, 0, RecoveryReason::DeprecatedFlow, 1),
        Err(Error::InvalidRecoveryAmount)
    );
    assert_eq!(
        recover(Some(ADMIN), STRANGER, recipient, 1, RecoveryReason::DeprecatedFlow, 1),
        Err(Error::Unauthorized)
    );
    assert_eq!(
        recover(None, ADMIN, recipient, 1, RecoveryReason::AccidentalTransfer, 1),
        Err(Error::NotFound)
    );
}

#[test]
fn batch_lines_carry_the_code() {
    assert_eq!(report_charge(Ok(())), BatchChargeResult { success: true, error_code: 0 });
    assert_eq!(
        report_charge(Err(Error::InsufficientBalance)),
        BatchChargeResult { success: false, error_code: 1003 }
    );
    assert_eq!(
        report_charge(Err(Error::NotFound)),
        BatchChargeResult { success: false, error_code: 404 }
    );
}

#[test]
fn registry_holds_one_value_per_key() {
    let mut registry: Registry<i128> = Registry::new();
    assert_eq!(registry.get(MERCHANT), None);
    registry.set(MERCHANT, 5);
    registry.set(ADMIN, 7);
    assert_eq!(registry.get(MERCHANT), Some(5));
    assert_eq!(registry.get(ADMIN), Some(7));
    registry.set(MERCHANT, 6);
    assert_eq!(registry.get(MERCHANT), Some(6));
    assert_eq!(registry.get(ADMIN), Some(7));
    assert_eq!(registry.get(STRANGER), None);
    assert_eq!(registry.get(Address::contract(0, 200)), None);
}

#[test]
fn events_are_taken_from_the_records() {
    let s = subscription(SubscriptionStatus::Active, 10, 25);
    assert_eq!(
        SubscriptionCreatedEvent::of(3, &s),
        SubscriptionCreatedEvent {
            subscription_id: 3,
            subscriber: SUBSCRIBER,
            merchant: MERCHANT,
            amount: 10,
            interval_seconds: 3600,
        }
    );
    assert_eq!(
        SubscriptionChargedEvent::of(3, &s),
        SubscriptionChargedEvent { subscription_id: 3, merchant: MERCHANT, amount: 10 }
    );
    assert_eq!(
        OneOffChargedEvent::of(3, &s, 4),
        OneOffChargedEvent { subscription_id: 3, merchant: MERCHANT, amount: 4 }
    );
    assert_eq!(
        SubscriptionCancelledEvent::of(3, STRANGER, &s),
        SubscriptionCancelledEvent { subscription_id: 3, authorizer: STRANGER, refund_amount: 25 }
    );
}

#[test]
fn id_counter_counts_up_and_stops() {
    assert_eq!(advance_id_counter(0), Ok(1));
    assert_eq!(advance_id_counter(41), Ok(42));
    assert_eq!(advance_id_counter(u32::MAX - 1), Ok(u32::MAX));
    assert_eq!(advance_id_counter(u32::MAX), Err(Error::ArithmeticOverflow));
}
