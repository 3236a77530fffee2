//! Lifecycle states and post-completion actions, with their integer codes.
use vstd::prelude::*;

verus! {

/// Where an invoice stands in its settlement lifecycle.
#[derive(Clone, Copy, Debug, PartialEq, Eq, Structural)]
pub enum InvoiceState {
    Empty,
    Incomplete,
    Complete,
    Rejected,
    Sent,
}

/// What happens to the received funds once an invoice is complete.
#[derive(Clone, Copy, Debug, PartialEq, Eq, Structural)]
pub enum InvoiceAction {
    SendToReceiver,
    Nothing,
}

/// The persisted code of a state.
pub open spec fn state_code(s: InvoiceState) -> u32 {
    match s {
        InvoiceState::Empty => 0,
        InvoiceState::Incomplete => 1,
        InvoiceState::Complete => 2,
        InvoiceState::Rejected => 3,
        InvoiceState::Sent => 4,
    }
}

/// The state a persisted code stands for; unknown codes fall back to `Empty`.
pub open spec fn state_of_code(c: u32) -> InvoiceState {
    if c == 0 {
        InvoiceState::Empty
    } else if c == 1 {
        InvoiceState::Incomplete
    } else if c == 2 {
        InvoiceState::Complete
    } else if c == 3 {
        InvoiceState::Rejected
    } else if c == 4 {
        InvoiceState::Sent
    } else {
        InvoiceState::Empty
    }
}

/// The persisted code of an action.
pub open spec fn action_code(a: InvoiceAction) -> u32 {
    match a {
        InvoiceAction::SendToReceiver => 0,
        InvoiceAction::Nothing => 1,
    }
}

/// The action a persisted code stands for; unknown codes fall back to `Nothing`.
pub open spec fn action_of_code(c: u32) -> InvoiceAction {
    if c == 0 {
        InvoiceAction::SendToReceiver
    } else {
        InvoiceAction::Nothing
    }
}

/// Rejected and Sent admit no further transition.
pub open spec fn is_terminal(s: InvoiceState) -> bool {
    s is Rejected || s is Sent
}

impl InvoiceState {
    pub fn to_int(&self) -> (r: u32)
        ensures
            r == state_code(*self),
    {
        match self {
            InvoiceState::Empty => 0,
            InvoiceState::Incomplete => 1,
            InvoiceState::Complete => 2,
            InvoiceState::Rejected => 3,
            InvoiceState::Sent => 4,
        }
    }

    pub fn from_int(data: u32) -> (r: InvoiceState)
        ensures
            r == state_of_code(data),
    {
        match data {
            0 => InvoiceState::Empty,
            1 => InvoiceState::Incomplete,
            2 => InvoiceState::Complete,
            3 => InvoiceState::Rejected,
            4 => InvoiceState::Sent,
            _ => InvoiceState::Empty,
        }
    }

    /// Whether no further transition can leave this state.
    pub fn is_final(&self) -> (r: bool)
        ensures
            r == is_terminal(*self),
    {
        match self {
            InvoiceState::Rejected | InvoiceState::Sent => true,
            _ => false,
        }
    }
}

impl InvoiceAction {
    pub fn to_int(&self) -> (r: u32)
        ensures
            r == action_code(*self),
    {
        match self {
            InvoiceAction::SendToReceiver => 0,
            InvoiceAction::Nothing => 1,
        }
    }

    pub fn from_int(data: u32) -> (r: InvoiceAction)
        ensures
            r == action_of_code(data),
    {
        match data {
            0 => InvoiceAction::SendToReceiver,
            _ => InvoiceAction::Nothing,
        }
    }
}

/// Decoding the code of a state gives the state back.
pub proof fn lemma_state_code_round_trip(s: InvoiceState)
    ensures
        state_of_code(state_code(s)) == s,
{
}

/// Decoding the code of an action gives the action back.
pub proof fn lemma_action_code_round_trip(a: InvoiceAction)
    ensures
        action_of_code(action_code(a)) == a,
{
}

} // verus!
