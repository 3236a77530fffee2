//! The settlement rules: how a balance read classifies an invoice, how the
//! state moves forward, and what a forwarding attempt changes.
use vstd::prelude::*;
use crate::codes::{InvoiceAction, InvoiceState, is_terminal};

verus! {

/// Classification of one balance read (all amounts in base units):
/// zero is Empty before the deadline and Rejected from it on; below the
/// target is Incomplete; the target or more is Complete.
pub open spec fn evaluated(balance: int, value: int, lifetime: int, now: int) -> InvoiceState {
    if balance == 0 {
        if now >= lifetime {
            InvoiceState::Rejected
        } else {
            InvoiceState::Empty
        }
    } else if balance < value {
        InvoiceState::Incomplete
    } else {
        InvoiceState::Complete
    }
}

/// The state an invoice moves to from `current` after a balance read.
/// Terminal states stay; Complete never falls back; an underfunded invoice
/// past its deadline is Rejected.
pub open spec fn transition(
    current: InvoiceState,
    balance: int,
    value: int,
    lifetime: int,
    now: int,
) -> InvoiceState {
    if is_terminal(current) {
        current
    } else if current is Complete {
        InvoiceState::Complete
    } else {
        let e = evaluated(balance, value, lifetime, now);
        if e is Incomplete && now >= lifetime {
            InvoiceState::Rejected
        } else {
            e
        }
    }
}

/// Whether an invoice in state `s` with action `a` forwards its funds.
pub open spec fn sweep_due(s: InvoiceState, a: InvoiceAction) -> bool {
    s is Complete && a is SendToReceiver
}

/// The state after a forwarding attempt: Sent only when one was due and
/// it succeeded; otherwise unchanged, to be retried on the next pass.
pub open spec fn settled(s: InvoiceState, a: InvoiceAction, succeeded: bool) -> InvoiceState {
    if sweep_due(s, a) && succeeded {
        InvoiceState::Sent
    } else {
        s
    }
}

/// The state that one whole update operation leaves: a balance read, then
/// a forwarding attempt with outcome `succeeded` where one is due.
pub open spec fn update_result(
    current: InvoiceState,
    a: InvoiceAction,
    balance: int,
    value: int,
    lifetime: int,
    now: int,
    succeeded: bool,
) -> InvoiceState {
    settled(transition(current, balance, value, lifetime, now), a, succeeded)
}

/// Classifies a balance read against the target `value` and the deadline.
pub fn evaluate_state(balance: u128, value: u128, lifetime: u64, now: u64) -> (r: InvoiceState)
    ensures
        r == evaluated(balance as int, value as int, lifetime as int, now as int),
{
    if balance == 0 {
        if now >= lifetime {
            InvoiceState::Rejected
        } else {
            InvoiceState::Empty
        }
    } else if balance < value {
        InvoiceState::Incomplete
    } else {
        InvoiceState::Complete
    }
}

/// The state that follows `current` after a balance read.
pub fn next_state(current: InvoiceState, balance: u128, value: u128, lifetime: u64, now: u64) -> (r:
    InvoiceState)
    ensures
        r == transition(current, balance as int, value as int, lifetime as int, now as int),
{
    match current {
        InvoiceState::Rejected | InvoiceState::Sent => current,
        InvoiceState::Complete => InvoiceState::Complete,
        _ => {
            let e = evaluate_state(balance, value, lifetime, now);
            match e {
                InvoiceState::Incomplete => {
                    if now >= lifetime {
                        InvoiceState::Rejected
                    } else {
                        e
                    }
                },
                _ => e,
            }
        },
    }
}

/// Whether a forwarding transaction is due for state `s` and action `a`.
pub fn needs_sweep(s: InvoiceState, a: InvoiceAction) -> (r: bool)
    ensures
        r == sweep_due(s, a),
{
    match (s, a) {
        (InvoiceState::Complete, InvoiceAction::SendToReceiver) => true,
        _ => false,
    }
}

/// The state after a forwarding attempt whose outcome was `succeeded`.
pub fn state_after_sweep(s: InvoiceState, a: InvoiceAction, succeeded: bool) -> (r: InvoiceState)
    ensures
        r == settled(s, a, succeeded),
{
    if needs_sweep(s, a) && succeeded {
        InvoiceState::Sent
    } else {
        s
    }
}

/// With a positive target, a balance read is Complete exactly when it
/// reaches the target, Incomplete exactly when it is positive and below
/// it, and Empty or Rejected exactly when it is zero, Rejected then exactly
/// when the deadline has passed.
pub proof fn law_evaluation_classifies(balance: nat, value: nat, lifetime: nat, now: nat)
    requires
        value > 0,
    ensures
        evaluated(balance as int, value as int, lifetime as int, now as int) is Complete
            <==> balance >= value,
        evaluated(balance as int, value as int, lifetime as int, now as int) is Incomplete
            <==> 0 < balance < value,
        (evaluated(balance as int, value as int, lifetime as int, now as int) is Empty
            || evaluated(balance as int, value as int, lifetime as int, now as int) is Rejected)
            <==> balance == 0,
        balance == 0 ==> (evaluated(balance as int, value as int, lifetime as int, now as int)
            is Rejected <==> now >= lifetime),
{
}

/// Updating twice in succession, with the same balance read at the same
/// instant and the same forwarding outcome, leaves the state of the first
/// update.
pub proof fn law_update_idempotent(
    current: InvoiceState,
    a: InvoiceAction,
    balance: nat,
    value: nat,
    lifetime: nat,
    now: nat,
    succeeded: bool,
)
    ensures
        ({
            let once = transition(current, balance as int, value as int, lifetime as int, now as int);
            transition(once, balance as int, value as int, lifetime as int, now as int) == once
        }),
        ({
            let once = update_result(
                current,
                a,
                balance as int,
                value as int,
                lifetime as int,
                now as int,
                succeeded,
            );
            update_result(once, a, balance as int, value as int, lifetime as int, now as int, succeeded)
                == once
        }),
{
}

/// Once Sent or Rejected, neither a balance read nor a forwarding attempt
/// moves an invoice to any other state.
pub proof fn law_terminal_states_stay(
    s: InvoiceState,
    a: InvoiceAction,
    balance: nat,
    value: nat,
    lifetime: nat,
    now: nat,
    succeeded: bool,
)
    requires
        is_terminal(s),
    ensures
        transition(s, balance as int, value as int, lifetime as int, now as int) == s,
        settled(s, a, succeeded) == s,
        update_result(s, a, balance as int, value as int, lifetime as int, now as int, succeeded)
            == s,
{
}

/// No transition re-enters Empty or Incomplete from Complete, Rejected or
/// Sent.
pub proof fn law_no_backward_transition(
    s: InvoiceState,
    balance: nat,
    value: nat,
    lifetime: nat,
    now: nat,
)
    requires
        s is Complete || is_terminal(s),
    ensures
        !(transition(s, balance as int, value as int, lifetime as int, now as int) is Empty),
        !(transition(s, balance as int, value as int, lifetime as int, now as int) is Incomplete),
{
}

} // verus!
