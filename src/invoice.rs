//! The invoice entity: a payment request bound to an address derived from
//! its own seed phrase.
use vstd::prelude::*;
use crate::codes::{
    InvoiceAction,
    InvoiceState,
    action_of_code,
    is_terminal,
    state_of_code,
};
use crate::error::EngineError;
use crate::lifecycle::{next_state, needs_sweep, settled, state_after_sweep, sweep_due, transition};
use crate::wallet::{
    address_text_ok,
    derive_address,
    derived_address,
    fresh_phrase,
    parses_as_address,
    unix_now,
};

verus! {

/// One payment request. Amounts are in the chain's base units; `lifetime`
/// is the absolute deadline in seconds since the epoch.
#[derive(Clone, Debug)]
pub struct Invoice {
    pub address: String,
    pub receiver: String,
    pub mnemonic: String,
    pub value: u128,
    pub state: InvoiceState,
    pub lifetime: u64,
    pub complete_action: InvoiceAction,
}

impl Invoice {
    /// The address is the one derived from the phrase.
    pub open spec fn wf(&self) -> bool {
        derived_address(self.mnemonic@) == Some(self.address@)
    }

    /// Creates an invoice in state Empty from a fresh random phrase, due
    /// `lifetime` seconds from now. A receiver that is no address is an
    /// input error.
    pub fn new(receiver: String, value: u128, lifetime: u64, action: InvoiceAction) -> (r: Result<
        Invoice,
        EngineError,
    >)
        ensures
            !address_text_ok(receiver@) ==> r == Err::<Invoice, EngineError>(EngineError::Input),
            r matches Ok(inv) ==> {
                &&& inv.wf()
                &&& inv.receiver@ == receiver@
                &&& inv.value == value
                &&& inv.state == InvoiceState::Empty
                &&& inv.lifetime >= lifetime
                &&& inv.complete_action == action
            },
    {
        if !parses_as_address(&receiver) {
            return Err(EngineError::Input);
        }
        let phrase = match fresh_phrase() {
            Some(p) => p,
            None => {
                return Err(EngineError::Chain);
            },
        };
        let now = match unix_now() {
            Some(t) => t,
            None => {
                return Err(EngineError::Chain);
            },
        };
        Invoice::issue(phrase, receiver, value, lifetime, action, now)
    }

    /// Creates an invoice in state Empty from a given phrase at the instant
    /// `now`, due `lifetime` seconds later.
    pub fn issue(
        mnemonic: String,
        receiver: String,
        value: u128,
        lifetime: u64,
        action: InvoiceAction,
        now: u64,
    ) -> (r: Result<Invoice, EngineError>)
        ensures
            r == Err::<Invoice, EngineError>(EngineError::Input) <==> !address_text_ok(receiver@)
                || now + lifetime > u64::MAX,
            r == Err::<Invoice, EngineError>(EngineError::Chain) <==> address_text_ok(receiver@)
                && now + lifetime <= u64::MAX && derived_address(mnemonic@) is None,
            r is Ok <==> address_text_ok(receiver@) && now + lifetime <= u64::MAX
                && derived_address(mnemonic@) is Some,
            r matches Ok(inv) ==> {
                &&& inv.wf()
                &&& inv.mnemonic@ == mnemonic@
                &&& inv.receiver@ == receiver@
                &&& inv.value == value
                &&& inv.state == InvoiceState::Empty
                &&& inv.lifetime == now + lifetime
                &&& inv.complete_action == action
            },
    {
        if !parses_as_address(&receiver) {
            return Err(EngineError::Input);
        }
        let deadline = match now.checked_add(lifetime) {
            Some(d) => d,
            None => {
                return Err(EngineError::Input);
            },
        };
        let address = match derive_address(&mnemonic) {
            Some(a) => a,
            None => {
                return Err(EngineError::Chain);
            },
        };
        Ok(
            Invoice {
                address,
                receiver,
                mnemonic,
                value,
                state: InvoiceState::Empty,
                lifetime: deadline,
                complete_action: action,
            },
        )
    }

    /// Rebuilds a persisted invoice, re-deriving its address from the phrase
    /// without any randomness. Unknown state codes read as Empty, unknown
    /// action codes as Nothing. A malformed phrase is a chain error.
    pub fn load(
        mnemonic: String,
        receiver: String,
        value: u128,
        state: u32,
        lifetime: u64,
        action: u32,
    ) -> (r: Result<Invoice, EngineError>)
        ensures
            r is Ok <==> derived_address(mnemonic@) is Some,
            r is Err ==> r == Err::<Invoice, EngineError>(EngineError::Chain),
            r matches Ok(inv) ==> {
                &&& inv.wf()
                &&& inv.mnemonic@ == mnemonic@
                &&& inv.receiver@ == receiver@
                &&& inv.value == value
                &&& inv.state == state_of_code(state)
                &&& inv.lifetime == lifetime
                &&& inv.complete_action == action_of_code(action)
            },
    {
        let address = match derive_address(&mnemonic) {
            Some(a) => a,
            None => {
                return Err(EngineError::Chain);
            },
        };
        Ok(
            Invoice {
                address,
                receiver,
                mnemonic,
                value,
                state: InvoiceState::from_int(state),
                lifetime,
                complete_action: InvoiceAction::from_int(action),
            },
        )
    }

    /// Whether the deadline has passed at `now`.
    pub fn check_lifetime(&self, now: u64) -> (r: bool)
        ensures
            r == (now >= self.lifetime),
    {
        now >= self.lifetime
    }

    /// Moves the state forward after a balance read at `now`, and returns
    /// the new state. Nothing else changes.
    pub fn update_state(&mut self, balance: u128, now: u64) -> (r: InvoiceState)
        ensures
            r == transition(
                old(self).state,
                balance as int,
                old(self).value as int,
                old(self).lifetime as int,
                now as int,
            ),
            final(self).state == r,
            final(self).address == old(self).address,
            final(self).receiver == old(self).receiver,
            final(self).mnemonic == old(self).mnemonic,
            final(self).value == old(self).value,
            final(self).lifetime == old(self).lifetime,
            final(self).complete_action == old(self).complete_action,
            is_terminal(old(self).state) ==> r == old(self).state,
    {
        let s = next_state(self.state, balance, self.value, self.lifetime, now);
        self.state = s;
        s
    }

    /// Whether the funds are to be forwarded now.
    pub fn needs_sweep(&self) -> (r: bool)
        ensures
            r == sweep_due(self.state, self.complete_action),
    {
        needs_sweep(self.state, self.complete_action)
    }

    /// Records the outcome of a forwarding attempt: Sent where one was due
    /// and succeeded, else the state stays. Nothing else changes.
    pub fn settle_sweep(&mut self, succeeded: bool) -> (r: InvoiceState)
        ensures
            r == settled(old(self).state, old(self).complete_action, succeeded),
            final(self).state == r,
            final(self).address == old(self).address,
            final(self).receiver == old(self).receiver,
            final(self).mnemonic == old(self).mnemonic,
            final(self).value == old(self).value,
            final(self).lifetime == old(self).lifetime,
            final(self).complete_action == old(self).complete_action,
            is_terminal(old(self).state) ==> r == old(self).state,
    {
        let s = state_after_sweep(self.state, self.complete_action, succeeded);
        self.state = s;
        s
    }
}

/// The address is a function of the phrase: two well-formed invoices with
/// the same phrase, whenever and wherever they were built, have the same
/// address.
pub proof fn law_same_phrase_same_address(a: Invoice, b: Invoice)
    requires
        a.wf(),
        b.wf(),
        a.mnemonic@ == b.mnemonic@,
    ensures
        a.address@ == b.address@,
{
}

} // verus!
