//! The ledger as a mathematical state machine: what the vault holds, and what
//! each operation makes of it.

use vstd::prelude::*;
use crate::next_charge::next_charge_info;
use crate::rules::{
    admin_check, admin_or_merchant_check, batch_result, charged, config_set, config_updated,
    consent_check, counter_after, deposited, funding_check, min_topup_check, opened, recovery, status_changed,
    subscription_terms, topup_check, usage_charged, withdrawn,
};
use crate::types::{
    Address, BatchChargeResult, Error, MerchantConfig, NextChargeInfo, RecoveryEvent,
    RecoveryReason, Subscription, SubscriptionStatus,
};

verus! {

/// Everything a vault holds.
pub struct VaultState {
    /// The token in which all amounts are held, once configured.
    pub token: Option<Address>,
    /// The administrator, once configured.
    pub admin: Option<Address>,
    /// The smallest deposit accepted, once configured.
    pub min_topup: Option<i128>,
    /// Every subscription ever created, each at the position of its id.
    pub subscriptions: Seq<Subscription>,
    /// What each merchant has earned and not yet withdrawn. A merchant
    /// without an entry has earned nothing.
    pub merchant_balances: Map<Address, i128>,
    /// Each merchant's policy. A merchant without an entry has the unset
    /// policy.
    pub merchant_configs: Map<Address, MerchantConfig>,
}

/// The sum of the prepaid balances that the subscriptions of merchant `m`
/// hold in escrow.
pub open spec fn escrow_of(subscriptions: Seq<Subscription>, m: Address) -> int
    decreases subscriptions.len(),
{
    if subscriptions.len() == 0 {
        0
    } else {
        escrow_of(subscriptions.drop_last(), m) + (if subscriptions.last().merchant == m {
            subscriptions.last().prepaid_balance as int
        } else {
            0
        })
    }
}

/// The sum of all prepaid balances held in escrow.
pub open spec fn total_escrow(subscriptions: Seq<Subscription>) -> int
    decreases subscriptions.len(),
{
    if subscriptions.len() == 0 {
        0
    } else {
        total_escrow(subscriptions.drop_last()) + subscriptions.last().prepaid_balance
    }
}

impl VaultState {
    /// A vault in which nothing is configured or stored.
    pub open spec fn empty() -> VaultState {
        VaultState {
            token: None,
            admin: None,
            min_topup: None,
            subscriptions: Seq::empty(),
            merchant_balances: Map::empty(),
            merchant_configs: Map::empty(),
        }
    }

    /// What holds of every reachable vault: no balance is negative, every
    /// subscription and policy is well formed, a configured minimum top-up is
    /// positive, and the number of subscriptions, which is the next id, fits
    /// its type.
    pub open spec fn wf(self) -> bool {
        &&& self.min_topup matches Some(t) ==> t > 0
        &&& self.subscriptions.len() <= u32::MAX
        &&& forall|i: int|
            #![trigger self.subscriptions[i]]
            0 <= i < self.subscriptions.len() ==> self.subscriptions[i].wf()
        &&& forall|m: Address|
            #![trigger self.merchant_balances.contains_key(m)]
            self.merchant_balances.contains_key(m) ==> self.merchant_balances[m] >= 0
        &&& forall|m: Address|
            #![trigger self.merchant_configs.contains_key(m)]
            self.merchant_configs.contains_key(m) ==> self.merchant_configs[m].wf()
    }

    /// The earned balance of merchant `m`.
    pub open spec fn balance_of(self, m: Address) -> i128 {
        if self.merchant_balances.contains_key(m) {
            self.merchant_balances[m]
        } else {
            0
        }
    }

    /// The policy of merchant `m`.
    pub open spec fn config_of(self, m: Address) -> MerchantConfig {
        if self.merchant_configs.contains_key(m) {
            self.merchant_configs[m]
        } else {
            MerchantConfig::spec_unset()
        }
    }

    /// The id that the next subscription gets: the number of subscriptions
    /// created so far.
    pub open spec fn next_id(self) -> u32 {
        self.subscriptions.len() as u32
    }

    /// Whether a subscription is stored under `id`.
    pub open spec fn has_subscription(self, id: u32) -> bool {
        id < self.subscriptions.len()
    }

    /// This vault with subscription `id` replaced by `s`.
    pub open spec fn with_subscription(self, id: u32, s: Subscription) -> VaultState {
        VaultState { subscriptions: self.subscriptions.update(id as int, s), ..self }
    }

    /// This vault with `balance` as the earned balance of merchant `m`.
    pub open spec fn with_balance(self, m: Address, balance: i128) -> VaultState {
        VaultState { merchant_balances: self.merchant_balances.insert(m, balance), ..self }
    }

    /// This vault with `config` as the policy of merchant `m`.
    pub open spec fn with_config(self, m: Address, config: MerchantConfig) -> VaultState {
        VaultState { merchant_configs: self.merchant_configs.insert(m, config), ..self }
    }

    /// Whether `admin`, whose consent the host has seen or not, acts as the
    /// administrator.
    pub open spec fn acting_admin(self, admin: Address, authorized: bool) -> Result<(), Error> {
        match consent_check(authorized) {
            Err(e) => Err(e),
            Ok(_) => admin_check(self.admin, admin),
        }
    }

    /// Whether `actor`, whose consent the host has seen or not, may change
    /// the policy of `merchant`.
    pub open spec fn acting_for_merchant(self, actor: Address, merchant: Address, authorized: bool) -> Result<
        (),
        Error,
    > {
        match consent_check(authorized) {
            Err(e) => Err(e),
            Ok(_) => admin_or_merchant_check(self.admin, actor, merchant),
        }
    }

    /// Configures the token, the administrator and the minimum top-up, which
    /// must be positive.
    pub open spec fn init(self, token: Address, admin: Address, min_topup: i128) -> (
        VaultState,
        Result<(), Error>,
    ) {
        match min_topup_check(min_topup) {
            Err(e) => (self, Err(e)),
            Ok(_) => (
                VaultState {
                    token: Some(token),
                    admin: Some(admin),
                    min_topup: Some(min_topup),
                    ..self
                },
                Ok(()),
            ),
        }
    }

    /// Changes the minimum top-up, on the administrator's word. The amount
    /// is checked first, then the consent of `admin`, then that `admin` is
    /// the administrator.
    pub open spec fn set_min_topup(self, admin: Address, min_topup: i128, authorized: bool) -> (
        VaultState,
        Result<(), Error>,
    ) {
        match min_topup_check(min_topup) {
            Err(e) => (self, Err(e)),
            Ok(_) => match self.acting_admin(admin, authorized) {
                Err(e) => (self, Err(e)),
                Ok(_) => (VaultState { min_topup: Some(min_topup), ..self }, Ok(())),
            },
        }
    }

    /// The configured minimum top-up.
    pub open spec fn get_min_topup(self) -> Result<i128, Error> {
        match self.min_topup {
            Some(t) => Ok(t),
            None => Err(Error::NotFound),
        }
    }

    /// Replaces the policy of `merchant` wholesale, on the word of the
    /// merchant or the administrator. The minimum is checked before the
    /// actor.
    pub open spec fn set_merchant_config(
        self,
        actor: Address,
        merchant: Address,
        min_subscription_amount: i128,
        default_interval_seconds: u64,
        authorized: bool,
    ) -> (VaultState, Result<(), Error>) {
        match config_set(min_subscription_amount, default_interval_seconds) {
            Err(e) => (self, Err(e)),
            Ok(config) => match self.acting_for_merchant(actor, merchant, authorized) {
                Err(e) => (self, Err(e)),
                Ok(_) => (self.with_config(merchant, config), Ok(())),
            },
        }
    }

    /// Changes the given fields of the policy of `merchant`, on the word of
    /// the merchant or the administrator; a field that is not given keeps
    /// its value. The actor is checked before the minimum.
    pub open spec fn update_merchant_config(
        self,
        actor: Address,
        merchant: Address,
        min_subscription_amount: Option<i128>,
        default_interval_seconds: Option<u64>,
        authorized: bool,
    ) -> (VaultState, Result<(), Error>) {
        match self.acting_for_merchant(actor, merchant, authorized) {
            Err(e) => (self, Err(e)),
            Ok(_) => match config_updated(
                self.config_of(merchant),
                min_subscription_amount,
                default_interval_seconds,
            ) {
                Err(e) => (self, Err(e)),
                Ok(config) => (self.with_config(merchant, config), Ok(())),
            },
        }
    }

    /// Creates a subscription under the next id, active and funded with one
    /// billing amount, which the host pulls from the subscriber.
    ///
    /// The subscriber must consent. Then the terms are checked against the
    /// merchant's policy, then the token must be configured, then the
    /// subscriber's `allowance` and `balance` must cover the amount, and an
    /// id must be left. A refused creation leaves no trace.
    pub open spec fn create_subscription(
        self,
        subscriber: Address,
        merchant: Address,
        amount: i128,
        interval_seconds: u64,
        usage_enabled: bool,
        allowance: i128,
        balance: i128,
        now: u64,
        authorized: bool,
    ) -> (VaultState, Result<u32, Error>) {
        if !authorized {
            (self, Err(Error::Unauthorized))
        } else {
            self.create_authorized(
                subscriber,
                merchant,
                amount,
                interval_seconds,
                usage_enabled,
                allowance,
                balance,
                now,
            )
        }
    }

    /// The creation of a subscription to which the subscriber has consented.
    pub open spec fn create_authorized(
        self,
        subscriber: Address,
        merchant: Address,
        amount: i128,
        interval_seconds: u64,
        usage_enabled: bool,
        allowance: i128,
        balance: i128,
        now: u64,
    ) -> (VaultState, Result<u32, Error>) {
        match subscription_terms(self.config_of(merchant), amount, interval_seconds) {
            Err(e) => (self, Err(e)),
            Ok(interval) => if self.token is None {
                (self, Err(Error::NotFound))
            } else {
                match funding_check(amount, allowance, balance) {
                    Err(e) => (self, Err(e)),
                    Ok(_) => match counter_after(self.next_id()) {
                        Err(e) => (self, Err(e)),
                        Ok(_) => (
                            VaultState {
                                subscriptions: self.subscriptions.push(
                                    opened(subscriber, merchant, amount, interval, usage_enabled, now),
                                ),
                                ..self
                            },
                            Ok(self.next_id()),
                        ),
                    },
                }
            },
        }
    }

    /// Adds `amount`, which the host pulls from the subscriber, to the
    /// escrow of subscription `id`. The subscriber must consent; then the
    /// amount is checked, before the subscription is looked up; and the
    /// token to pull must be configured. The status is never touched.
    pub open spec fn deposit_funds(self, id: u32, subscriber: Address, amount: i128, authorized: bool) -> (
        VaultState,
        Result<(), Error>,
    ) {
        match consent_check(authorized) {
            Err(e) => (self, Err(e)),
            Ok(_) => self.deposit_authorized(id, amount),
        }
    }

    /// A deposit to which the subscriber has consented.
    pub open spec fn deposit_authorized(self, id: u32, amount: i128) -> (VaultState, Result<(), Error>) {
        match topup_check(self.min_topup, amount) {
            Err(e) => (self, Err(e)),
            Ok(_) => if !self.has_subscription(id) {
                (self, Err(Error::NotFound))
            } else {
                match deposited(self.subscriptions[id as int], amount) {
                    Err(e) => (self, Err(e)),
                    Ok(s) => if self.token is None {
                        (self, Err(Error::NotFound))
                    } else {
                        (self.with_subscription(id, s), Ok(()))
                    },
                }
            },
        }
    }

    /// Charges subscription `id` one billing amount: the escrow is debited
    /// and the merchant credited by the same amount, and `now` becomes the
    /// time of the last payment. A charge that the escrow cannot cover
    /// fails and leaves the subscription in status `InsufficientBalance`;
    /// every other failure leaves the vault as it was.
    pub open spec fn charge_subscription(self, id: u32, now: u64) -> (VaultState, Result<(), Error>) {
        if !self.has_subscription(id) {
            (self, Err(Error::NotFound))
        } else {
            let s = self.subscriptions[id as int];
            let (updated, balance, r) = charged(s, self.balance_of(s.merchant), now);
            match r {
                Ok(_) => (self.with_subscription(id, updated).with_balance(s.merchant, balance), r),
                Err(_) => (self.with_subscription(id, updated), r),
            }
        }
    }

    /// Draws `amount` for metered usage from the escrow of subscription `id`
    /// and credits the merchant with it. The billing schedule and the status
    /// are not touched.
    pub open spec fn charge_usage(self, id: u32, amount: i128) -> (VaultState, Result<(), Error>) {
        if !self.has_subscription(id) {
            (self, Err(Error::NotFound))
        } else {
            let s = self.subscriptions[id as int];
            match usage_charged(s, self.balance_of(s.merchant), amount) {
                Err(e) => (self, Err(e)),
                Ok((updated, balance)) => (
                    self.with_subscription(id, updated).with_balance(s.merchant, balance),
                    Ok(()),
                ),
            }
        }
    }

    /// Charges the subscriptions `ids` one after the other, each as
    /// `charge_subscription` does, and reports on each in order. A failure
    /// neither stops the sweep nor undoes earlier charges.
    pub open spec fn batch_charge(self, ids: Seq<u32>, now: u64) -> (
        VaultState,
        Seq<BatchChargeResult>,
    )
        decreases ids.len(),
    {
        if ids.len() == 0 {
            (self, Seq::empty())
        } else {
            let (before, results) = self.batch_charge(ids.drop_last(), now);
            let (after, r) = before.charge_subscription(ids.last(), now);
            (after, results.push(batch_result(r)))
        }
    }

    /// Puts subscription `id` into status `target`, if the authorizer has
    /// consented and the state machine allows the change. A refused change
    /// leaves the vault as it was.
    pub open spec fn set_status(self, id: u32, target: SubscriptionStatus, authorized: bool) -> (
        VaultState,
        Result<(), Error>,
    ) {
        if !authorized {
            (self, Err(Error::Unauthorized))
        } else if !self.has_subscription(id) {
            (self, Err(Error::NotFound))
        } else {
            match status_changed(self.subscriptions[id as int], target) {
                Err(e) => (self, Err(e)),
                Ok(s) => (self.with_subscription(id, s), Ok(())),
            }
        }
    }

    /// Debits `amount` from what `merchant` has earned, if the merchant has
    /// consented; the host then pays it out in the configured token.
    pub open spec fn withdraw_merchant_funds(self, merchant: Address, amount: i128, authorized: bool) -> (
        VaultState,
        Result<(), Error>,
    ) {
        if !authorized {
            (self, Err(Error::Unauthorized))
        } else {
            match withdrawn(self.balance_of(merchant), amount) {
                Err(e) => (self, Err(e)),
                Ok(balance) => if self.token is None {
                    (self, Err(Error::NotFound))
                } else {
                    (self.with_balance(merchant, balance), Ok(()))
                },
            }
        }
    }

    /// The subscription stored under `id`.
    pub open spec fn get_subscription(self, id: u32) -> Result<Subscription, Error> {
        if self.has_subscription(id) {
            Ok(self.subscriptions[id as int])
        } else {
            Err(Error::NotFound)
        }
    }

    /// When subscription `id` is next due.
    pub open spec fn get_next_charge_info(self, id: u32) -> Result<NextChargeInfo, Error> {
        if self.has_subscription(id) {
            Ok(next_charge_info(self.subscriptions[id as int]))
        } else {
            Err(Error::NotFound)
        }
    }

    /// The audit record of a recovery of stranded funds, which the host pays
    /// out to `recipient` in the configured token. No ledger is involved.
    pub open spec fn recover_stranded_funds(
        self,
        admin: Address,
        recipient: Address,
        amount: i128,
        reason: RecoveryReason,
        now: u64,
        authorized: bool,
    ) -> Result<RecoveryEvent, Error> {
        if !authorized {
            Err(Error::Unauthorized)
        } else {
            match recovery(self.admin, admin, recipient, amount, reason, now) {
                Err(e) => Err(e),
                Ok(event) => if self.token is None {
                    Err(Error::NotFound)
                } else {
                    Ok(event)
                },
            }
        }
    }
}

/// One call of an operation of the vault, with its arguments.
#[allow(inconsistent_fields)]
pub enum Operation {
    Init { token: Address, admin: Address, min_topup: i128 },
    SetMinTopup { admin: Address, min_topup: i128, authorized: bool },
    SetMerchantConfig {
        actor: Address,
        merchant: Address,
        min_subscription_amount: i128,
        default_interval_seconds: u64,
        authorized: bool,
    },
    UpdateMerchantConfig {
        actor: Address,
        merchant: Address,
        min_subscription_amount: Option<i128>,
        default_interval_seconds: Option<u64>,
        authorized: bool,
    },
    CreateSubscription {
        subscriber: Address,
        merchant: Address,
        amount: i128,
        interval_seconds: u64,
        usage_enabled: bool,
        allowance: i128,
        balance: i128,
        now: u64,
        authorized: bool,
    },
    DepositFunds { subscription_id: u32, subscriber: Address, amount: i128, authorized: bool },
    ChargeSubscription { subscription_id: u32, now: u64 },
    ChargeUsage { subscription_id: u32, amount: i128 },
    PauseSubscription { subscription_id: u32, authorizer: Address, authorized: bool },
    ResumeSubscription { subscription_id: u32, authorizer: Address, authorized: bool },
    CancelSubscription { subscription_id: u32, authorizer: Address, authorized: bool },
    WithdrawMerchantFunds { merchant: Address, amount: i128, authorized: bool },
    RecoverStrandedFunds {
        admin: Address,
        recipient: Address,
        amount: i128,
        reason: RecoveryReason,
        now: u64,
        authorized: bool,
    },
}

impl Operation {
    /// Whether the operation is a charge: a periodic one or one for usage.
    pub open spec fn is_charge(self) -> bool {
        self is ChargeSubscription || self is ChargeUsage
    }
}

impl VaultState {
    /// The vault after one operation, whether it succeeded or failed.
    pub open spec fn apply(self, op: Operation) -> VaultState {
        match op {
            Operation::Init { token, admin, min_topup } => self.init(token, admin, min_topup).0,
            Operation::SetMinTopup { admin, min_topup, authorized } => self.set_min_topup(
                admin,
                min_topup,
                authorized,
            ).0,
            Operation::SetMerchantConfig {
                actor,
                merchant,
                min_subscription_amount,
                default_interval_seconds,
                authorized,
            } => self.set_merchant_config(
                actor,
                merchant,
                min_subscription_amount,
                default_interval_seconds,
                authorized,
            ).0,
            Operation::UpdateMerchantConfig {
                actor,
                merchant,
                min_subscription_amount,
                default_interval_seconds,
                authorized,
            } => self.update_merchant_config(
                actor,
                merchant,
                min_subscription_amount,
                default_interval_seconds,
                authorized,
            ).0,
            Operation::CreateSubscription {
                subscriber,
                merchant,
                amount,
                interval_seconds,
                usage_enabled,
                allowance,
                balance,
                now,
                authorized,
            } => self.create_subscription(
                subscriber,
                merchant,
                amount,
                interval_seconds,
                usage_enabled,
                allowance,
                balance,
                now,
                authorized,
            ).0,
            Operation::DepositFunds {
                subscription_id,
                subscriber,
                amount,
                authorized,
            } => self.deposit_funds(subscription_id, subscriber, amount, authorized).0,
            Operation::ChargeSubscription { subscription_id, now } => self.charge_subscription(
                subscription_id,
                now,
            ).0,
            Operation::ChargeUsage { subscription_id, amount } => self.charge_usage(
                subscription_id,
                amount,
            ).0,
            Operation::PauseSubscription { subscription_id, authorizer, authorized } => self.set_status(
                subscription_id,
                SubscriptionStatus::Paused,
                authorized,
            ).0,
            Operation::ResumeSubscription {
                subscription_id,
                authorizer,
                authorized,
            } => self.set_status(subscription_id, SubscriptionStatus::Active, authorized).0,
            Operation::CancelSubscription {
                subscription_id,
                authorizer,
                authorized,
            } => self.set_status(subscription_id, SubscriptionStatus::Cancelled, authorized).0,
            Operation::WithdrawMerchantFunds {
                merchant,
                amount,
                authorized,
            } => self.withdraw_merchant_funds(merchant, amount, authorized).0,
            Operation::RecoverStrandedFunds { .. } => self,
        }
    }

    /// What operation `op` adds to merchant balances: for a charge, the
    /// increase of the earned balance of the charged subscription's merchant;
    /// for a charge on a subscription that is not stored, nothing.
    pub open spec fn credited(self, op: Operation) -> int {
        match op {
            Operation::ChargeSubscription { subscription_id, now } => if self.has_subscription(
                subscription_id,
            ) {
                let m = self.subscriptions[subscription_id as int].merchant;
                self.apply(op).balance_of(m) - self.balance_of(m)
            } else {
                0
            },
            Operation::ChargeUsage { subscription_id, amount } => if self.has_subscription(
                subscription_id,
            ) {
                let m = self.subscriptions[subscription_id as int].merchant;
                self.apply(op).balance_of(m) - self.balance_of(m)
            } else {
                0
            },
            _ => 0,
        }
    }

    /// What the operations `ops`, performed in order, add to merchant
    /// balances in all.
    pub open spec fn total_credited(self, ops: Seq<Operation>) -> int
        decreases ops.len(),
    {
        if ops.len() == 0 {
            0
        } else {
            self.total_credited(ops.drop_last()) + self.apply_all(ops.drop_last()).credited(
                ops.last(),
            )
        }
    }

    /// The vault after the operations `ops`, performed in order.
    pub open spec fn apply_all(self, ops: Seq<Operation>) -> VaultState
        decreases ops.len(),
    {
        if ops.len() == 0 {
            self
        } else {
            self.apply_all(ops.drop_last()).apply(ops.last())
        }
    }
}

} // verus!
