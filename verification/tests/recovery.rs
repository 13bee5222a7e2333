use subscription_vault::{
    Address, Error, RecoveryEvent, RecoveryReason, SubscriptionStatus, SubscriptionVault,
};

fn address(n: u128) -> Address {
    Address::account(0, n)
}

fn setup_test_env() -> (SubscriptionVault, Address, Address) {
    let mut vault = SubscriptionVault::new();
    let token = Address::contract(0, 1);
    let admin = address(2);
    let min_topup = 1_000000i128; // 1 USDC
    vault.init(token, admin, min_topup).unwrap();
    (vault, token, admin)
}

#[test]
fn test_recover_stranded_funds_successful() {
    let (vault, _, admin) = setup_test_env();

    let recipient = address(10);
    let amount = 50_000_000i128; // 50 USDC
    let reason = RecoveryReason::AccidentalTransfer;

    // Recovery should succeed
    let result = vault.recover_stranded_funds(admin, recipient, amount, reason, 10000, true);
    assert!(result.is_ok());

    // The audit record is handed back
    assert_eq!(
        result,
        Ok(RecoveryEvent { admin, recipient, amount, reason, timestamp: 10000 })
    );
}

#[test]
fn test_recover_stranded_funds_unauthorized_caller() {
    let (vault, _, _) = setup_test_env();

    let non_admin = address(11);
    let recipient = address(10);
    let amount = 10_000_000i128;
    let reason = RecoveryReason::AccidentalTransfer;

    // Should fail: caller is not admin
    assert_eq!(
        vault.recover_stranded_funds(non_admin, recipient, amount, reason, 0, true),
        Err(Error::Unauthorized)
    );
    assert_eq!(Error::Unauthorized.to_code(), 401);
}

#[test]
fn test_recover_stranded_funds_zero_amount() {
    let (vault, _, admin) = setup_test_env();

    let recipient = address(10);
    let amount = 0i128; // Invalid: zero amount
    let reason = RecoveryReason::DeprecatedFlow;

    // Should fail: amount must be positive
    assert_eq!(
        vault.recover_stranded_funds(admin, recipient, amount, reason, 0, true),
        Err(Error::InvalidRecoveryAmount)
    );
}

#[test]
fn test_recover_stranded_funds_negative_amount() {
    let (vault, _, admin) = setup_test_env();

    let recipient = address(10);
    let amount = -1_000_000i128; // Invalid: negative amount
    let reason = RecoveryReason::AccidentalTransfer;

    // Should fail: amount must be positive
    assert_eq!(
        vault.recover_stranded_funds(admin, recipient, amount, reason, 0, true),
        Err(Error::InvalidRecoveryAmount)
    );
}

#[test]
fn test_recover_stranded_funds_all_recovery_reasons() {
    let (vault, _, admin) = setup_test_env();

    let recipient = address(10);
    let amount = 10_000_000i128;

    // Test each recovery reason
    let result1 = vault.recover_stranded_funds(admin, recipient, amount, RecoveryReason::AccidentalTransfer, 0, true);
    assert!(result1.is_ok());

    let result2 = vault.recover_stranded_funds(admin, recipient, amount, RecoveryReason::DeprecatedFlow, 0, true);
    assert!(result2.is_ok());

    let result3 = vault.recover_stranded_funds(admin, recipient, amount, RecoveryReason::UnreachableSubscriber, 0, true);
    assert!(result3.is_ok());
}

#[test]
fn test_recover_stranded_funds_event_emission() {
    let (vault, _, admin) = setup_test_env();

    let recipient = address(10);
    let amount = 25_000_000i128;
    let reason = RecoveryReason::UnreachableSubscriber;

    // Perform recovery at time 5000
    let event = vault.recover_stranded_funds(admin, recipient, amount, reason, 5000, true).unwrap();

    // The event contains the recovery information
    assert_eq!(event.admin, admin);
    assert_eq!(event.recipient, recipient);
    assert_eq!(event.amount, amount);
    assert_eq!(event.reason, reason);
}

#[test]
fn test_recover_stranded_funds_large_amount() {
    let (vault, _, admin) = setup_test_env();

    let recipient = address(10);
    let amount = 1_000_000_000_000i128; // 1 million USDC (with 6 decimals)
    let reason = RecoveryReason::DeprecatedFlow;

    // Should handle large amounts
    let result = vault.recover_stranded_funds(admin, recipient, amount, reason, 0, true);
    assert!(result.is_ok());
}

#[test]
fn test_recover_stranded_funds_small_amount() {
    let (vault, _, admin) = setup_test_env();

    let recipient = address(10);
    let amount = 1i128; // Minimal amount
    let reason = RecoveryReason::AccidentalTransfer;

    // Should handle minimal positive amount
    let result = vault.recover_stranded_funds(admin, recipient, amount, reason, 0, true);
    assert!(result.is_ok());
}

#[test]
fn test_recover_stranded_funds_multiple_recoveries() {
    let (vault, _, admin) = setup_test_env();

    let recipient1 = address(10);
    let recipient2 = address(11);
    let recipient3 = address(12);

    // Multiple recoveries should all succeed
    let result1 = vault.recover_stranded_funds(
        admin,
        recipient1,
        10_000_000i128,
        RecoveryReason::AccidentalTransfer,
        0,
        true,
    );
    assert!(result1.is_ok());

    let result2 = vault.recover_stranded_funds(
        admin,
        recipient2,
        20_000_000i128,
        RecoveryReason::DeprecatedFlow,
        0,
        true,
    );
    assert!(result2.is_ok());

    let result3 = vault.recover_stranded_funds(
        admin,
        recipient3,
        30_000_000i128,
        RecoveryReason::UnreachableSubscriber,
        0,
        true,
    );
    assert!(result3.is_ok());

    // Each hands back its own record
    assert!(result1.unwrap().amount + result2.unwrap().amount + result3.unwrap().amount > 0);
}

#[test]
fn test_recover_stranded_funds_different_recipients() {
    let (vault, _, admin) = setup_test_env();

    // Test recovery to different recipient types
    let treasury = address(10);
    let user_wallet = address(11);
    let contract_addr = Address::contract(0, 12);

    let amount = 5_000_000i128;
    let reason = RecoveryReason::AccidentalTransfer;

    // Recovery to treasury
    assert!(vault.recover_stranded_funds(admin, treasury, amount, reason, 0, true).is_ok());

    // Recovery to user wallet
    assert!(vault.recover_stranded_funds(admin, user_wallet, amount, reason, 0, true).is_ok());

    // Recovery to contract address
    assert!(vault.recover_stranded_funds(admin, contract_addr, amount, reason, 0, true).is_ok());
}

#[test]
fn test_recovery_reason_enum_values() {
    // Verify recovery reason enum is properly defined
    let reason1 = RecoveryReason::AccidentalTransfer;
    let reason2 = RecoveryReason::DeprecatedFlow;
    let reason3 = RecoveryReason::UnreachableSubscriber;

    // Ensure reasons are distinct
    assert!(reason1 != reason2);
    assert!(reason2 != reason3);
    assert!(reason1 != reason3);

    // Test cloning
    let reason_clone = reason1.clone();
    assert!(reason_clone == RecoveryReason::AccidentalTransfer);
}

#[test]
fn test_recover_stranded_funds_timestamp_recorded() {
    let (vault, _, admin) = setup_test_env();

    let recipient = address(10);
    let amount = 15_000_000i128;
    let reason = RecoveryReason::DeprecatedFlow;

    // Set specific timestamp
    let expected_timestamp = 123456u64;

    // Perform recovery
    let event = vault.recover_stranded_funds(admin, recipient, amount, reason, expected_timestamp, true).unwrap();

    // Event should contain the timestamp
    assert_eq!(event.timestamp, expected_timestamp);
}

#[test]
fn test_recover_stranded_funds_admin_authorization_required() {
    let (vault, _, admin) = setup_test_env();

    let recipient = address(10);
    let amount = 10_000_000i128;
    let reason = RecoveryReason::AccidentalTransfer;

    // This should succeed because the caller is the admin
    let result = vault.recover_stranded_funds(admin, recipient, amount, reason, 0, true);
    assert!(result.is_ok());
}

#[test]
fn test_recover_stranded_funds_does_not_affect_subscriptions() {
    let (mut vault, _, admin) = setup_test_env();

    // Create a subscription
    let subscriber = address(100);
    let merchant = address(200);
    let sub_id = vault
        .create_subscription(subscriber, merchant, 10_000_000i128, 30 * 24 * 60 * 60, false, 10_000_000, 10_000_000, 0, true)
        .unwrap();
    let before = vault.get_subscription(sub_id).unwrap();

    // Perform recovery (should not affect subscription)
    let recipient = address(10);
    vault
        .recover_stranded_funds(admin, recipient, 5_000_000i128, RecoveryReason::DeprecatedFlow, 0, true)
        .unwrap();

    // Verify subscription is still intact
    let subscription = vault.get_subscription(sub_id).unwrap();
    assert_eq!(subscription.status, SubscriptionStatus::Active);
    assert_eq!(subscription.subscriber, subscriber);
    assert_eq!(subscription.merchant, merchant);
    assert_eq!(subscription, before);
    assert_eq!(vault.get_merchant_balance(merchant), Ok(0));
}

#[test]
fn test_recover_stranded_funds_with_cancelled_subscription() {
    let (mut vault, _, admin) = setup_test_env();

    // Create and cancel a subscription
    let subscriber = address(100);
    let merchant = address(200);
    let sub_id = vault
        .create_subscription(subscriber, merchant, 10_000_000i128, 30 * 24 * 60 * 60, false, 10_000_000, 10_000_000, 0, true)
        .unwrap();
    vault.cancel_subscription(sub_id, subscriber, true).unwrap();

    // Admin can still recover stranded funds
    let recipient = address(10);
    let result = vault.recover_stranded_funds(
        admin,
        recipient,
        5_000_000i128,
        RecoveryReason::UnreachableSubscriber,
        0,
        true,
    );
    assert!(result.is_ok());

    // Subscription remains cancelled
    assert_eq!(vault.get_subscription(sub_id).unwrap().status, SubscriptionStatus::Cancelled);
}

#[test]
fn test_recover_stranded_funds_idempotency() {
    let (vault, _, admin) = setup_test_env();

    let recipient = address(10);
    let amount = 10_000_000i128;
    let reason = RecoveryReason::AccidentalTransfer;

    // Perform first recovery
    let result1 = vault.recover_stranded_funds(admin, recipient, amount, reason, 0, true);
    assert!(result1.is_ok());

    // Perform second recovery with same parameters
    let result2 = vault.recover_stranded_funds(admin, recipient, amount, reason, 0, true);
    assert!(result2.is_ok());

    // Both succeed (no idempotency constraint), each with its own record
    assert_eq!(result1, result2);
}

#[test]
fn test_recover_stranded_funds_edge_case_max_i128() {
    let (vault, _, admin) = setup_test_env();

    let recipient = address(10);
    // Test near max i128 value
    let amount = i128::MAX - 1000;
    let reason = RecoveryReason::DeprecatedFlow;

    // Should handle large values
    let result = vault.recover_stranded_funds(admin, recipient, amount, reason, 0, true);
    assert!(result.is_ok());
}

#[test]
fn recovery_needs_a_configured_vault() {
    let vault = SubscriptionVault::new();
    assert_eq!(
        vault.recover_stranded_funds(address(2), address(10), 1, RecoveryReason::DeprecatedFlow, 0, true),
        Err(Error::NotFound)
    );
}

#[test]
fn recovery_checks_the_admin_before_the_amount() {
    let (vault, _, _) = setup_test_env();
    assert_eq!(
        vault.recover_stranded_funds(address(11), address(10), 0, RecoveryReason::DeprecatedFlow, 0, true),
        Err(Error::Unauthorized)
    );
}

#[test]
fn recovery_needs_the_consent_of_the_admin() {
    let (vault, _, admin) = setup_test_env();
    assert_eq!(
        vault.recover_stranded_funds(admin, address(10), 5, RecoveryReason::DeprecatedFlow, 0, false),
        Err(Error::Unauthorized)
    );
    assert_eq!(
        SubscriptionVault::new().recover_stranded_funds(
            admin,
            address(10),
            0,
            RecoveryReason::DeprecatedFlow,
            0,
            false
        ),
        Err(Error::Unauthorized)
    );
}
