//! The vault: the ledger's state held in memory, and its operations.
//!
//! What the host alone can know enters each operation as a plain value:
//! `authorized` says whether the host has seen the consent of the principal
//! that the operation names, `now` is the host's clock, and a new
//! subscription comes with the allowance and balance that the token reports.
//! Where an operation moves tokens, the host performs the transfer once the
//! operation has returned `Ok`.

use vstd::prelude::*;
use crate::model::VaultState;
use crate::next_charge::compute_next_charge_info;
use crate::registry::Registry;
use crate::rules::{
    advance_id_counter, counter_after, change_status, charge, charge_usage, check_funding, check_topup, deposit,
    new_merchant_config, open_subscription, recover, report_charge, require_admin,
    require_admin_or_merchant, require_authorized, resolve_subscription_terms,
    updated_merchant_config, validate_min_topup, withdraw,
};
use crate::types::{
    Address, BatchChargeResult, Error, MerchantConfig, NextChargeInfo, RecoveryEvent,
    RecoveryReason, Subscription, SubscriptionStatus,
};

verus! {

/// A vault of prepaid subscriptions and merchant earnings.
pub struct SubscriptionVault {
    token: Option<Address>,
    admin: Option<Address>,
    min_topup: Option<i128>,
    subscriptions: Vec<Subscription>,
    merchant_balances: Registry<i128>,
    merchant_configs: Registry<MerchantConfig>,
}

impl View for SubscriptionVault {
    type V = VaultState;

    closed spec fn view(&self) -> VaultState {
        VaultState {
            token: self.token,
            admin: self.admin,
            min_topup: self.min_topup,
            subscriptions: self.subscriptions@,
            merchant_balances: self.merchant_balances@,
            merchant_configs: self.merchant_configs@,
        }
    }
}

impl SubscriptionVault {
    /// The invariant of the vault's stores.
    pub closed spec fn stores_wf(&self) -> bool {
        self.merchant_balances.wf() && self.merchant_configs.wf()
    }

    /// The view holds the fields as they are, the stores by their views.
    proof fn view_fields(&self)
        ensures
            self@.token == self.token,
            self@.admin == self.admin,
            self@.min_topup == self.min_topup,
            self@.subscriptions == self.subscriptions@,
            self@.merchant_balances == self.merchant_balances@,
            self@.merchant_configs == self.merchant_configs@,
    {
    }

    /// What holds of every vault between operations.
    pub open spec fn wf(&self) -> bool {
        self.stores_wf() && self@.wf()
    }

    /// A vault in which nothing is configured or stored.
    pub fn new() -> (vault: Self)
        ensures
            vault.wf(),
            vault@ == VaultState::empty(),
    {
        SubscriptionVault {
            token: None,
            admin: None,
            min_topup: None,
            subscriptions: Vec::new(),
            merchant_balances: Registry::new(),
            merchant_configs: Registry::new(),
        }
    }

    /// Initialize the vault with token/admin config and minimum top-up threshold.
    pub fn init(&mut self, token: Address, admin: Address, min_topup: i128) -> (r: Result<(), Error>)
        requires
            old(self).wf(),
        ensures
            final(self).wf(),
            (final(self)@, r) == old(self)@.init(token, admin, min_topup),
    {
        match validate_min_topup(min_topup) {
            Ok(()) => {},
            Err(e) => {
                return Err(e);
            },
        }
        self.token = Some(token);
        self.admin = Some(admin);
        self.min_topup = Some(min_topup);
        proof {
            old(self).view_fields();
            self.view_fields();
        }
        Ok(())
    }

    /// Update the minimum top-up threshold. Only the administrator may.
    pub fn set_min_topup(&mut self, admin: Address, min_topup: i128, authorized: bool) -> (r: Result<
        (),
        Error,
    >)
        requires
            old(self).wf(),
        ensures
            final(self).wf(),
            (final(self)@, r) == old(self)@.set_min_topup(admin, min_topup, authorized),
    {
        match validate_min_topup(min_topup) {
            Ok(()) => {},
            Err(e) => {
                return Err(e);
            },
        }
        match require_authorized(authorized) {
            Ok(()) => {},
            Err(e) => {
                return Err(e);
            },
        }
        match require_admin(self.admin, admin) {
            Ok(()) => {},
            Err(e) => {
                return Err(e);
            },
        }
        self.min_topup = Some(min_topup);
        proof {
            old(self).view_fields();
            self.view_fields();
        }
        Ok(())
    }

    /// Get the current minimum top-up threshold.
    pub fn get_min_topup(&self) -> (r: Result<i128, Error>)
        ensures
            r == self@.get_min_topup(),
    {
        match self.min_topup {
            Some(t) => Ok(t),
            None => Err(Error::NotFound),
        }
    }

    /// Set full merchant configuration. Callable by the merchant or the administrator.
    pub fn set_merchant_config(
        &mut self,
        actor: Address,
        merchant: Address,
        min_subscription_amount: i128,
        default_interval_seconds: u64,
        authorized: bool,
    ) -> (r: Result<(), Error>)
        requires
            old(self).wf(),
        ensures
            final(self).wf(),
            (final(self)@, r) == old(self)@.set_merchant_config(
                actor,
                merchant,
                min_subscription_amount,
                default_interval_seconds,
                authorized,
            ),
    {
        let config = match new_merchant_config(min_subscription_amount, default_interval_seconds) {
            Ok(config) => config,
            Err(e) => {
                return Err(e);
            },
        };
        match self.require_admin_or_merchant(actor, merchant, authorized) {
            Ok(()) => {},
            Err(e) => {
                return Err(e);
            },
        }
        self.write_merchant_config(merchant, config);
        Ok(())
    }

    /// Update merchant configuration fields. Any `None` field keeps its current value.
    pub fn update_merchant_config(
        &mut self,
        actor: Address,
        merchant: Address,
        min_subscription_amount: Option<i128>,
        default_interval_seconds: Option<u64>,
        authorized: bool,
    ) -> (r: Result<(), Error>)
        requires
            old(self).wf(),
        ensures
            final(self).wf(),
            (final(self)@, r) == old(self)@.update_merchant_config(
                actor,
                merchant,
                min_subscription_amount,
                default_interval_seconds,
                authorized,
            ),
    {
        match self.require_admin_or_merchant(actor, merchant, authorized) {
            Ok(()) => {},
            Err(e) => {
                return Err(e);
            },
        }
        let current = self.read_merchant_config(merchant);
        let config = match updated_merchant_config(
            current,
            min_subscription_amount,
            default_interval_seconds,
        ) {
            Ok(config) => config,
            Err(e) => {
                return Err(e);
            },
        };
        self.write_merchant_config(merchant, config);
        Ok(())
    }

    /// Return merchant configuration. If unset, returns default config values.
    pub fn get_merchant_config(&self, merchant: Address) -> (r: Result<MerchantConfig, Error>)
        requires
            self.wf(),
        ensures
            r == Ok::<MerchantConfig, Error>(self@.config_of(merchant)),
    {
        Ok(self.read_merchant_config(merchant))
    }

    /// Create a new subscription, funded with its first billing amount.
    ///
    /// `amount` is both the recurring charge amount and the required initial
    /// prepaid deposit. `allowance` is what the subscriber has approved the
    /// vault to pull and `balance` what the subscriber can spend, both as the
    /// token reports them; `now` is the current time; `authorized` says
    /// whether the subscriber has consented. On `Ok` the host pulls `amount`
    /// from the subscriber into custody.
    pub fn create_subscription(
        &mut self,
        subscriber: Address,
        merchant: Address,
        amount: i128,
        interval_seconds: u64,
        usage_enabled: bool,
        allowance: i128,
        balance: i128,
        now: u64,
        authorized: bool,
    ) -> (r: Result<u32, Error>)
        requires
            old(self).wf(),
        ensures
            final(self).wf(),
            (final(self)@, r) == old(self)@.create_subscription(
                subscriber,
                merchant,
                amount,
                interval_seconds,
                usage_enabled,
                allowance,
                balance,
                now,
                authorized,
            ),
    {
        match require_authorized(authorized) {
            Ok(()) => {},
            Err(e) => {
                return Err(e);
            },
        }
        let merchant_config = self.read_merchant_config(merchant);
        let effective_interval_seconds = match resolve_subscription_terms(
            &merchant_config,
            amount,
            interval_seconds,
        ) {
            Ok(interval) => interval,
            Err(e) => {
                return Err(e);
            },
        };
        if self.token.is_none() {
            return Err(Error::NotFound);
        }
        match check_funding(amount, allowance, balance) {
            Ok(()) => {},
            Err(e) => {
                return Err(e);
            },
        }
        let id = match self._next_id() {
            Ok(id) => id,
            Err(e) => {
                return Err(e);
            },
        };
        let sub = open_subscription(
            subscriber,
            merchant,
            amount,
            effective_interval_seconds,
            usage_enabled,
            now,
        );
        self.subscriptions.push(sub);
        proof {
            old(self).view_fields();
            self.view_fields();
        }
        Ok(id)
    }

    /// Subscriber deposits more funds into the escrow of a subscription.
    ///
    /// Deposits below the configured minimum top-up are refused.
    /// `subscriber` is the principal whose consent `authorized` reports; on
    /// `Ok` the host pulls `amount` from that principal into custody.
    pub fn deposit_funds(
        &mut self,
        subscription_id: u32,
        subscriber: Address,
        amount: i128,
        authorized: bool,
    ) -> (r: Result<(), Error>)
        requires
            old(self).wf(),
        ensures
            final(self).wf(),
            (final(self)@, r) == old(self)@.deposit_funds(
                subscription_id,
                subscriber,
                amount,
                authorized,
            ),
    {
        match require_authorized(authorized) {
            Ok(()) => {},
            Err(e) => {
                return Err(e);
            },
        }
        match check_topup(self.min_topup, amount) {
            Ok(()) => {},
            Err(e) => {
                return Err(e);
            },
        }
        let index = subscription_id as usize;
        if index >= self.subscriptions.len() {
            return Err(Error::NotFound);
        }
        let subscription = match deposit(&self.subscriptions[index], amount) {
            Ok(s) => s,
            Err(e) => {
                return Err(e);
            },
        };
        if self.token.is_none() {
            return Err(Error::NotFound);
        }
        self.subscriptions.set(index, subscription);
        proof {
            old(self).view_fields();
            self.view_fields();
        }
        Ok(())
    }

    /// Charge one billing interval and accrue earnings to the merchant's internal balance.
    ///
    /// On success this atomically:
    /// 1. debits `subscription.prepaid_balance` by `subscription.amount`
    /// 2. credits the merchant's aggregate balance ledger by the same amount
    /// 3. updates `last_payment_timestamp` to `now`
    ///
    /// Tokens are not transferred to the merchant here. They remain in the vault until
    /// `withdraw_merchant_funds` is called.
    pub fn charge_subscription(&mut self, subscription_id: u32, now: u64) -> (r: Result<(), Error>)
        requires
            old(self).wf(),
        ensures
            final(self).wf(),
            (final(self)@, r) == old(self)@.charge_subscription(subscription_id, now),
    {
        let index = subscription_id as usize;
        if index >= self.subscriptions.len() {
            return Err(Error::NotFound);
        }
        let subscription = self.subscriptions[index];
        let current_merchant_balance = self.read_merchant_balance(subscription.merchant);
        let (updated, updated_merchant_balance, result) = charge(
            &subscription,
            current_merchant_balance,
            now,
        );
        proof {
            self.view_fields();
            assert(subscription.wf());
        }
        self.subscriptions.set(index, updated);
        proof {
            self.view_fields();
        }
        if result.is_ok() {
            self.write_merchant_balance(subscription.merchant, updated_merchant_balance);
        }
        result
    }

    /// Charge metered usage against a subscription that has usage enabled.
    ///
    /// Debits `amount` from the escrow and credits the merchant with it,
    /// without touching the billing schedule.
    pub fn charge_usage(&mut self, subscription_id: u32, amount: i128) -> (r: Result<(), Error>)
        requires
            old(self).wf(),
        ensures
            final(self).wf(),
            (final(self)@, r) == old(self)@.charge_usage(subscription_id, amount),
    {
        let index = subscription_id as usize;
        if index >= self.subscriptions.len() {
            return Err(Error::NotFound);
        }
        let subscription = self.subscriptions[index];
        let current_merchant_balance = self.read_merchant_balance(subscription.merchant);
        let (updated, updated_merchant_balance) = match charge_usage(
            &subscription,
            current_merchant_balance,
            amount,
        ) {
            Ok(pair) => pair,
            Err(e) => {
                return Err(e);
            },
        };
        proof {
            self.view_fields();
            assert(subscription.wf());
        }
        self.subscriptions.set(index, updated);
        proof {
            self.view_fields();
        }
        self.write_merchant_balance(subscription.merchant, updated_merchant_balance);
        Ok(())
    }

    /// Charge each of `subscription_ids` in order and report on each. One
    /// failure never stops the sweep or undoes another charge.
    pub fn batch_charge(&mut self, subscription_ids: &Vec<u32>, now: u64) -> (results: Vec<
        BatchChargeResult,
    >)
        requires
            old(self).wf(),
        ensures
            final(self).wf(),
            (final(self)@, results@) == old(self)@.batch_charge(subscription_ids@, now),
    {
        let mut results: Vec<BatchChargeResult> = Vec::new();
        let mut i: usize = 0;
        while i < subscription_ids.len()
            invariant
                i <= subscription_ids@.len(),
                self.wf(),
                (self@, results@) == old(self)@.batch_charge(subscription_ids@.take(i as int), now),
            decreases subscription_ids@.len() - i,
        {
            let id = subscription_ids[i];
            proof {
                assert(subscription_ids@.take(i + 1).drop_last() =~= subscription_ids@.take(
                    i as int,
                ));
                assert(subscription_ids@.take(i + 1).last() == id);
            }
            let result = self.charge_subscription(id, now);
            results.push(report_charge(result));
            i += 1;
        }
        proof {
            assert(subscription_ids@.take(i as int) =~= subscription_ids@);
        }
        results
    }

    /// Subscriber or merchant cancels the subscription. The escrow stays as
    /// it is; nothing leaves the cancelled status. `authorizer` is the
    /// principal whose consent `authorized` reports.
    pub fn cancel_subscription(&mut self, subscription_id: u32, authorizer: Address, authorized: bool) -> (r:
        Result<(), Error>)
        requires
            old(self).wf(),
        ensures
            final(self).wf(),
            (final(self)@, r) == old(self)@.set_status(
                subscription_id,
                SubscriptionStatus::Cancelled,
                authorized,
            ),
    {
        self.transition(subscription_id, SubscriptionStatus::Cancelled, authorized)
    }

    /// Pause subscription (no charges until resumed). `authorizer` is the
    /// principal whose consent `authorized` reports.
    pub fn pause_subscription(&mut self, subscription_id: u32, authorizer: Address, authorized: bool) -> (r:
        Result<(), Error>)
        requires
            old(self).wf(),
        ensures
            final(self).wf(),
            (final(self)@, r) == old(self)@.set_status(
                subscription_id,
                SubscriptionStatus::Paused,
                authorized,
            ),
    {
        self.transition(subscription_id, SubscriptionStatus::Paused, authorized)
    }

    /// Resume a paused subscription, or one that ran short of funds.
    /// `authorizer` is the principal whose consent `authorized` reports.
    pub fn resume_subscription(&mut self, subscription_id: u32, authorizer: Address, authorized: bool) -> (r:
        Result<(), Error>)
        requires
            old(self).wf(),
        ensures
            final(self).wf(),
            (final(self)@, r) == old(self)@.set_status(
                subscription_id,
                SubscriptionStatus::Active,
                authorized,
            ),
    {
        self.transition(subscription_id, SubscriptionStatus::Active, authorized)
    }

    /// Merchant withdraws from their internal earned balance.
    ///
    /// The earned balance is debited here, before any token moves: on `Ok`
    /// the host pays `amount` out of custody to the merchant, and a second
    /// withdrawal of the same earnings finds them gone.
    pub fn withdraw_merchant_funds(&mut self, merchant: Address, amount: i128, authorized: bool) -> (r:
        Result<(), Error>)
        requires
            old(self).wf(),
        ensures
            final(self).wf(),
            (final(self)@, r) == old(self)@.withdraw_merchant_funds(merchant, amount, authorized),
    {
        match require_authorized(authorized) {
            Ok(()) => {},
            Err(e) => {
                return Err(e);
            },
        }
        let current_balance = self.read_merchant_balance(merchant);
        let updated_balance = match withdraw(current_balance, amount) {
            Ok(balance) => balance,
            Err(e) => {
                return Err(e);
            },
        };
        if self.token.is_none() {
            return Err(Error::NotFound);
        }
        self.write_merchant_balance(merchant, updated_balance);
        Ok(())
    }

    /// Returns the internal earned balance currently available for a merchant to withdraw.
    pub fn get_merchant_balance(&self, merchant: Address) -> (r: Result<i128, Error>)
        requires
            self.wf(),
        ensures
            r == Ok::<i128, Error>(self@.balance_of(merchant)),
    {
        Ok(self.read_merchant_balance(merchant))
    }

    /// Read subscription by id.
    pub fn get_subscription(&self, subscription_id: u32) -> (r: Result<Subscription, Error>)
        ensures
            r == self@.get_subscription(subscription_id),
    {
        let index = subscription_id as usize;
        if index < self.subscriptions.len() {
            Ok(self.subscriptions[index])
        } else {
            Err(Error::NotFound)
        }
    }

    /// When the subscription is next due, and whether a charge is expected then.
    pub fn get_next_charge_info(&self, subscription_id: u32) -> (r: Result<NextChargeInfo, Error>)
        ensures
            r == self@.get_next_charge_info(subscription_id),
    {
        match self.get_subscription(subscription_id) {
            Ok(subscription) => Ok(compute_next_charge_info(&subscription)),
            Err(e) => Err(e),
        }
    }

    /// Administrator takes stranded funds out of custody.
    ///
    /// Returns the audit record to emit; on `Ok` the host pays `amount` out
    /// of custody to `recipient`. No subscription and no merchant balance is
    /// read or changed, and nothing makes a repeated call fail.
    pub fn recover_stranded_funds(
        &self,
        admin: Address,
        recipient: Address,
        amount: i128,
        reason: RecoveryReason,
        now: u64,
        authorized: bool,
    ) -> (r: Result<RecoveryEvent, Error>)
        ensures
            r == self@.recover_stranded_funds(admin, recipient, amount, reason, now, authorized),
    {
        match require_authorized(authorized) {
            Ok(()) => {},
            Err(e) => {
                return Err(e);
            },
        }
        let event = match recover(self.admin, admin, recipient, amount, reason, now) {
            Ok(event) => event,
            Err(e) => {
                return Err(e);
            },
        };
        if self.token.is_none() {
            return Err(Error::NotFound);
        }
        Ok(event)
    }

    /// Loads the subscription, asks the state machine, and stores the new
    /// status where the change is allowed.
    fn transition(&mut self, subscription_id: u32, target: SubscriptionStatus, authorized: bool) -> (r:
        Result<(), Error>)
        requires
            old(self).wf(),
        ensures
            final(self).wf(),
            (final(self)@, r) == old(self)@.set_status(subscription_id, target, authorized),
    {
        match require_authorized(authorized) {
            Ok(()) => {},
            Err(e) => {
                return Err(e);
            },
        }
        let index = subscription_id as usize;
        if index >= self.subscriptions.len() {
            return Err(Error::NotFound);
        }
        let subscription = match change_status(&self.subscriptions[index], target) {
            Ok(s) => s,
            Err(e) => {
                return Err(e);
            },
        };
        self.subscriptions.set(index, subscription);
        proof {
            old(self).view_fields();
            self.view_fields();
        }
        Ok(())
    }

    /// The id that the next subscription gets: ids count up from 0 and none
    /// is used twice.
    fn _next_id(&self) -> (r: Result<u32, Error>)
        requires
            self.wf(),
        ensures
            r == (match counter_after(self@.next_id()) {
                Ok(_) => Ok::<u32, Error>(self@.next_id()),
                Err(e) => Err::<u32, Error>(e),
            }),
    {
        proof {
            self.view_fields();
        }
        let id = self.subscriptions.len() as u32;
        match advance_id_counter(id) {
            Ok(_) => Ok(id),
            Err(e) => Err(e),
        }
    }

    fn read_merchant_balance(&self, merchant: Address) -> (r: i128)
        requires
            self.wf(),
        ensures
            r == self@.balance_of(merchant),
            r >= 0,
    {
        proof {
            self.view_fields();
        }
        match self.merchant_balances.get(merchant) {
            Some(b) => b,
            None => 0i128,
        }
    }

    fn write_merchant_balance(&mut self, merchant: Address, balance: i128)
        requires
            old(self).wf(),
            balance >= 0,
        ensures
            final(self).wf(),
            final(self)@ == old(self)@.with_balance(merchant, balance),
    {
        self.merchant_balances.set(merchant, balance);
        proof {
            old(self).view_fields();
            self.view_fields();
        }
    }

    fn read_merchant_config(&self, merchant: Address) -> (r: MerchantConfig)
        requires
            self.wf(),
        ensures
            r == self@.config_of(merchant),
            r.wf(),
    {
        proof {
            self.view_fields();
        }
        match self.merchant_configs.get(merchant) {
            Some(c) => c,
            None => MerchantConfig::unset(),
        }
    }

    fn write_merchant_config(&mut self, merchant: Address, config: MerchantConfig)
        requires
            old(self).wf(),
            config.wf(),
        ensures
            final(self).wf(),
            final(self)@ == old(self)@.with_config(merchant, config),
    {
        self.merchant_configs.set(merchant, config);
        proof {
            old(self).view_fields();
            self.view_fields();
        }
    }

    fn require_admin_or_merchant(&self, actor: Address, merchant: Address, authorized: bool) -> (r:
        Result<(), Error>)
        ensures
            r == self@.acting_for_merchant(actor, merchant, authorized),
    {
        match require_authorized(authorized) {
            Ok(()) => require_admin_or_merchant(self.admin, actor, merchant),
            Err(e) => Err(e),
        }
    }
}

} // verus!
