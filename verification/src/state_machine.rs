//! The status state machine: which changes of status are legal.

use vstd::prelude::*;
use crate::types::{Error, SubscriptionStatus};

verus! {

/// The statuses that `from` may move to, in the table's order. The terminal
/// status has none.
pub open spec fn allowed_targets(from: SubscriptionStatus) -> Seq<SubscriptionStatus> {
    match from {
        SubscriptionStatus::Active => seq![
            SubscriptionStatus::Paused,
            SubscriptionStatus::Cancelled,
            SubscriptionStatus::InsufficientBalance,
        ],
        SubscriptionStatus::Paused => seq![SubscriptionStatus::Active, SubscriptionStatus::Cancelled],
        SubscriptionStatus::Cancelled => Seq::empty(),
        SubscriptionStatus::InsufficientBalance => seq![
            SubscriptionStatus::Active,
            SubscriptionStatus::Cancelled,
        ],
    }
}

/// Whether the table has an edge from `from` to `to`.
pub open spec fn is_edge(from: SubscriptionStatus, to: SubscriptionStatus) -> bool {
    match (from, to) {
        (SubscriptionStatus::Active, SubscriptionStatus::Paused) => true,
        (SubscriptionStatus::Active, SubscriptionStatus::Cancelled) => true,
        (SubscriptionStatus::Active, SubscriptionStatus::InsufficientBalance) => true,
        (SubscriptionStatus::Paused, SubscriptionStatus::Active) => true,
        (SubscriptionStatus::Paused, SubscriptionStatus::Cancelled) => true,
        (SubscriptionStatus::InsufficientBalance, SubscriptionStatus::Active) => true,
        (SubscriptionStatus::InsufficientBalance, SubscriptionStatus::Cancelled) => true,
        _ => false,
    }
}

/// Whether a subscription in status `from` may be put into status `to`:
/// along an edge of the table, or by staying where it is.
pub open spec fn transition_allowed(from: SubscriptionStatus, to: SubscriptionStatus) -> bool {
    from == to || is_edge(from, to)
}

/// The status after an attempt to move from `from` to `to`: `to` where the
/// move is allowed, `from` where it is refused.
pub open spec fn status_after(from: SubscriptionStatus, to: SubscriptionStatus) -> SubscriptionStatus {
    if transition_allowed(from, to) {
        to
    } else {
        from
    }
}

/// Validates a status change. A change to the same status is always
/// accepted, the terminal status included; any other change is accepted
/// exactly when the table has the edge.
pub fn validate_status_transition(from: &SubscriptionStatus, to: &SubscriptionStatus) -> (r: Result<
    (),
    Error,
>)
    ensures
        transition_allowed(*from, *to) ==> r == Ok::<(), Error>(()),
        !transition_allowed(*from, *to) ==> r == Err::<(), Error>(Error::InvalidStatusTransition),
{
    if *from == *to {
        return Ok(());
    }
    let ok = match from {
        SubscriptionStatus::Active => true,
        SubscriptionStatus::Paused => match to {
            SubscriptionStatus::Active => true,
            SubscriptionStatus::Cancelled => true,
            _ => false,
        },
        SubscriptionStatus::Cancelled => false,
        SubscriptionStatus::InsufficientBalance => match to {
            SubscriptionStatus::Active => true,
            SubscriptionStatus::Cancelled => true,
            _ => false,
        },
    };
    if ok {
        Ok(())
    } else {
        Err(Error::InvalidStatusTransition)
    }
}

/// Whether the change from `from` to `to` would be accepted.
pub fn can_transition(from: &SubscriptionStatus, to: &SubscriptionStatus) -> (r: bool)
    ensures
        r == transition_allowed(*from, *to),
{
    validate_status_transition(from, to).is_ok()
}

/// The statuses that `from` may move to, for introspection. The status
/// itself, which is always accepted, is not listed.
pub fn get_allowed_transitions(from: &SubscriptionStatus) -> (r: Vec<SubscriptionStatus>)
    ensures
        r@ == allowed_targets(*from),
{
    let mut targets: Vec<SubscriptionStatus> = Vec::new();
    match from {
        SubscriptionStatus::Active => {
            targets.push(SubscriptionStatus::Paused);
            targets.push(SubscriptionStatus::Cancelled);
            targets.push(SubscriptionStatus::InsufficientBalance);
        },
        SubscriptionStatus::Paused => {
            targets.push(SubscriptionStatus::Active);
            targets.push(SubscriptionStatus::Cancelled);
        },
        SubscriptionStatus::Cancelled => {},
        SubscriptionStatus::InsufficientBalance => {
            targets.push(SubscriptionStatus::Active);
            targets.push(SubscriptionStatus::Cancelled);
        },
    }
    proof {
        assert(targets@ =~= allowed_targets(*from));
    }
    targets
}

/// The listed targets of a status are exactly the ends of its edges.
pub proof fn allowed_targets_are_the_edges(from: SubscriptionStatus, to: SubscriptionStatus)
    ensures
        allowed_targets(from).contains(to) <==> is_edge(from, to),
        !allowed_targets(from).contains(from),
{
    let s = allowed_targets(from);
    if is_edge(from, to) {
        match from {
            SubscriptionStatus::Active => {
                assert(s[0] == SubscriptionStatus::Paused);
                assert(s[1] == SubscriptionStatus::Cancelled);
                assert(s[2] == SubscriptionStatus::InsufficientBalance);
            },
            SubscriptionStatus::Paused => {
                assert(s[0] == SubscriptionStatus::Active);
                assert(s[1] == SubscriptionStatus::Cancelled);
            },
            SubscriptionStatus::Cancelled => {},
            SubscriptionStatus::InsufficientBalance => {
                assert(s[0] == SubscriptionStatus::Active);
                assert(s[1] == SubscriptionStatus::Cancelled);
            },
        }
    }
}

/// Every change that is neither an edge of the table nor a change to the same
/// status is refused, and the status stays as it was.
pub proof fn illegal_transition_is_refused(from: SubscriptionStatus, to: SubscriptionStatus)
    requires
        from != to,
        !allowed_targets(from).contains(to),
    ensures
        !transition_allowed(from, to),
        status_after(from, to) == from,
{
    allowed_targets_are_the_edges(from, to);
}

/// Moving to the status a subscription already has is accepted and changes
/// nothing.
pub proof fn self_transition_is_a_no_op(s: SubscriptionStatus)
    ensures
        transition_allowed(s, s),
        status_after(s, s) == s,
{
}

/// Nothing leaves the terminal status: whatever change is attempted, a
/// cancelled subscription stays cancelled.
pub proof fn cancelled_is_terminal(to: SubscriptionStatus)
    ensures
        status_after(SubscriptionStatus::Cancelled, to) == SubscriptionStatus::Cancelled,
        transition_allowed(SubscriptionStatus::Cancelled, to) <==> to == SubscriptionStatus::Cancelled,
        allowed_targets(SubscriptionStatus::Cancelled).len() == 0,
{
}

/// A subscription short of funds cannot be paused directly; it leaves that
/// status only by becoming active again or by being cancelled.
pub proof fn insufficient_balance_recovers_through_active(to: SubscriptionStatus)
    ensures
        transition_allowed(SubscriptionStatus::InsufficientBalance, to) <==> to
            != SubscriptionStatus::Paused,
{
}

} // verus!
