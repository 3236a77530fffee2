//! The engine's own state: configuration, the cooperative stop flag, and
//! the reconciliation loop's decisions. The loop's outside work (store
//! reads, chain calls, sleeping) is done by the caller, which reports each
//! outcome back as an event and performs the action it gets.
use vstd::prelude::*;
use crate::codes::{InvoiceAction, action_of_code};
use crate::error::EngineError;
use crate::invoice::Invoice;
use crate::sweep::{
    SweepPlan,
    gas_cost,
    is_dust,
    max_fee_per_gas,
    net_amount,
    over_ceiling,
    plan_sweep,
};
use crate::wallet::address_text_ok;

verus! {

/// The pause between two reconciliation passes, in seconds.
pub const PASS_INTERVAL_SECS: u64 = 60;

/// Where the reconciliation loop stands.
#[derive(Clone, Copy, Debug, PartialEq, Eq, Structural)]
pub enum LoopPhase {
    /// Not started.
    Idle,
    /// Waiting for the pending invoices of this pass.
    Fetching,
    /// Updating the `next`-th of `count` fetched invoices is due next.
    Updating { next: usize, count: usize },
    /// Waiting out the pause after a pass.
    Sleeping,
    /// Left for good.
    Stopped,
}

/// The outcome of the last action, reported by the caller.
#[derive(Clone, Copy, Debug, PartialEq, Eq, Structural)]
pub enum LoopEvent {
    /// The store returned this many pending invoices, in fetch order.
    Fetched(usize),
    /// The store could not be read.
    FetchFailed,
    /// The update of the last requested invoice ended, well or not.
    Handled,
    /// The pause is over.
    Woke,
}

/// What the caller does next.
#[derive(Clone, Copy, Debug, PartialEq, Eq, Structural)]
pub enum LoopAction {
    /// Read the invoices that are neither Rejected nor Sent.
    FetchPending,
    /// Run the update operation on the fetched invoice at this index.
    UpdateInvoice(usize),
    /// Pause this many seconds.
    Sleep(u64),
    /// Leave the loop.
    Exit,
    /// The event did not fit the phase: nothing to do.
    Wait,
}

/// The action after a pass, or after a failed fetch: pause.
pub open spec fn pause() -> (LoopPhase, LoopAction) {
    (LoopPhase::Sleeping, LoopAction::Sleep(PASS_INTERVAL_SECS))
}

/// The top of an iteration: leave if a stop was asked for, else fetch.
pub open spec fn loop_top(stopped: bool) -> (LoopPhase, LoopAction) {
    if stopped {
        (LoopPhase::Stopped, LoopAction::Exit)
    } else {
        (LoopPhase::Fetching, LoopAction::FetchPending)
    }
}

/// One step of the reconciliation loop: the next phase and action, from
/// the stop flag, the current phase and the reported event.
pub open spec fn loop_step(stopped: bool, phase: LoopPhase, ev: LoopEvent) -> (
    LoopPhase,
    LoopAction,
) {
    match phase {
        LoopPhase::Stopped => (LoopPhase::Stopped, LoopAction::Exit),
        LoopPhase::Fetching => match ev {
            LoopEvent::Fetched(n) => if n == 0 {
                pause()
            } else {
                (LoopPhase::Updating { next: 1, count: n }, LoopAction::UpdateInvoice(0))
            },
            LoopEvent::FetchFailed => pause(),
            _ => (phase, LoopAction::Wait),
        },
        LoopPhase::Updating { next, count } => match ev {
            LoopEvent::Handled => if next < count {
                (
                    LoopPhase::Updating { next: (next + 1) as usize, count },
                    LoopAction::UpdateInvoice(next),
                )
            } else {
                pause()
            },
            _ => (phase, LoopAction::Wait),
        },
        LoopPhase::Sleeping => match ev {
            LoopEvent::Woke => loop_top(stopped),
            _ => (phase, LoopAction::Wait),
        },
        LoopPhase::Idle => (phase, LoopAction::Wait),
    }
}

/// The action that the caller's `create_invoice` request asks for: none
/// means Nothing; a code must name an action.
pub open spec fn requested_action(action: Option<u32>) -> Option<InvoiceAction> {
    match action {
        None => Some(InvoiceAction::Nothing),
        Some(c) => if c <= 1 {
            Some(action_of_code(c))
        } else {
            None
        },
    }
}

/// The engine's state shared between request handlers and the loop.
pub struct InvoiceManager {
    pub is_stopped: bool,
    pub phase: LoopPhase,
    /// The ceiling on a sweep's worst-case gas cost.
    pub max_allowed_gas: u128,
    /// The priority fee added to the gas price.
    pub max_priority_fee: u128,
}

impl InvoiceManager {
    pub fn new(max_allowed_gas: u128, max_priority_fee: u128) -> (r: InvoiceManager)
        ensures
            !r.is_stopped,
            r.phase == LoopPhase::Idle,
            r.max_allowed_gas == max_allowed_gas,
            r.max_priority_fee == max_priority_fee,
    {
        InvoiceManager { is_stopped: false, phase: LoopPhase::Idle, max_allowed_gas, max_priority_fee }
    }

    /// Starts an iteration: leaves at once if a stop was asked for, else
    /// asks for the pending invoices.
    pub fn start_loop(&mut self) -> (r: LoopAction)
        ensures
            (final(self).phase, r) == loop_top(old(self).is_stopped),
            final(self).is_stopped == old(self).is_stopped,
            final(self).max_allowed_gas == old(self).max_allowed_gas,
            final(self).max_priority_fee == old(self).max_priority_fee,
    {
        if self.is_stopped {
            self.phase = LoopPhase::Stopped;
            LoopAction::Exit
        } else {
            self.phase = LoopPhase::Fetching;
            LoopAction::FetchPending
        }
    }

    /// Takes the outcome of the last action and returns the next one.
    pub fn advance(&mut self, ev: LoopEvent) -> (r: LoopAction)
        ensures
            (final(self).phase, r) == loop_step(old(self).is_stopped, old(self).phase, ev),
            final(self).is_stopped == old(self).is_stopped,
            final(self).max_allowed_gas == old(self).max_allowed_gas,
            final(self).max_priority_fee == old(self).max_priority_fee,
    {
        match self.phase {
            LoopPhase::Stopped => LoopAction::Exit,
            LoopPhase::Fetching => match ev {
                LoopEvent::Fetched(n) => {
                    if n == 0 {
                        self.phase = LoopPhase::Sleeping;
                        LoopAction::Sleep(PASS_INTERVAL_SECS)
                    } else {
                        self.phase = LoopPhase::Updating { next: 1, count: n };
                        LoopAction::UpdateInvoice(0)
                    }
                },
                LoopEvent::FetchFailed => {
                    self.phase = LoopPhase::Sleeping;
                    LoopAction::Sleep(PASS_INTERVAL_SECS)
                },
                _ => LoopAction::Wait,
            },
            LoopPhase::Updating { next, count } => match ev {
                LoopEvent::Handled => {
                    if next < count {
                        self.phase = LoopPhase::Updating { next: next + 1, count };
                        LoopAction::UpdateInvoice(next)
                    } else {
                        self.phase = LoopPhase::Sleeping;
                        LoopAction::Sleep(PASS_INTERVAL_SECS)
                    }
                },
                _ => LoopAction::Wait,
            },
            LoopPhase::Sleeping => match ev {
                LoopEvent::Woke => self.start_loop(),
                _ => LoopAction::Wait,
            },
            LoopPhase::Idle => LoopAction::Wait,
        }
    }

    /// Asks the loop to leave at the top of its next iteration.
    pub fn stop_loop(&mut self)
        ensures
            final(self).is_stopped,
            final(self).phase == old(self).phase,
            final(self).max_allowed_gas == old(self).max_allowed_gas,
            final(self).max_priority_fee == old(self).max_priority_fee,
    {
        self.is_stopped = true;
    }

    /// Creates a fresh invoice for a request. An action code other than
    /// those of SendToReceiver and Nothing, or a receiver that is no
    /// address, is an input error.
    pub fn create_invoice(&self, receiver: String, value: u128, lifetime: u64, action: Option<
        u32,
    >) -> (r: Result<Invoice, EngineError>)
        ensures
            requested_action(action) is None ==> r == Err::<Invoice, EngineError>(
                EngineError::Input,
            ),
            !address_text_ok(receiver@) ==> r == Err::<Invoice, EngineError>(EngineError::Input),
            r matches Ok(inv) ==> {
                &&& inv.wf()
                &&& inv.receiver@ == receiver@
                &&& inv.value == value
                &&& inv.state is Empty
                &&& inv.lifetime >= lifetime
                &&& requested_action(action) == Some(inv.complete_action)
            },
    {
        let a = match action {
            None => InvoiceAction::Nothing,
            Some(c) => {
                if c <= 1 {
                    InvoiceAction::from_int(c)
                } else {
                    return Err(EngineError::Input);
                }
            },
        };
        Invoice::new(receiver, value, lifetime, a)
    }

    /// The fee cap per unit of gas at the given gas price.
    pub fn fee_cap(&self, gas_price: u128) -> (r: Option<u128>)
        ensures
            r is Some <==> gas_price + self.max_priority_fee <= u128::MAX,
            r matches Some(f) ==> f == gas_price + self.max_priority_fee,
    {
        max_fee_per_gas(gas_price, self.max_priority_fee)
    }

    /// Decides a sweep under this engine's ceiling and priority fee.
    pub fn sweep_plan(&self, balance: u128, gas_limit: u64, max_fee: u128) -> (r: Result<
        SweepPlan,
        EngineError,
    >)
        ensures
            r == Err::<SweepPlan, EngineError>(EngineError::GasLimitExceeded) <==> over_ceiling(
                gas_limit as int,
                max_fee as int,
                self.max_allowed_gas as int,
            ),
            r == Err::<SweepPlan, EngineError>(EngineError::InsufficientFunds) <==> !over_ceiling(
                gas_limit as int,
                max_fee as int,
                self.max_allowed_gas as int,
            ) && is_dust(balance as int, gas_limit as int, max_fee as int),
            r is Ok <==> !over_ceiling(gas_limit as int, max_fee as int, self.max_allowed_gas as int)
                && !is_dust(balance as int, gas_limit as int, max_fee as int),
            r matches Ok(p) ==> {
                &&& p.value == net_amount(balance as int, gas_cost(gas_limit as int, max_fee as int))
                &&& p.gas_limit == gas_limit
                &&& p.max_fee_per_gas == max_fee
                &&& p.max_priority_fee_per_gas == self.max_priority_fee
                &&& p.max_gas_cost == gas_cost(gas_limit as int, max_fee as int)
            },
    {
        plan_sweep(balance, gas_limit, max_fee, self.max_priority_fee, self.max_allowed_gas)
    }
}

/// Once stopped, the loop only ever leaves.
pub proof fn law_stopped_loop_stays_stopped(stopped: bool, ev: LoopEvent)
    ensures
        loop_step(stopped, LoopPhase::Stopped, ev) == (LoopPhase::Stopped, LoopAction::Exit),
{
}

/// With the stop flag set, the loop leaves when its pause ends instead of
/// starting another pass.
pub proof fn law_stop_checked_at_top(phase: LoopPhase)
    requires
        phase == LoopPhase::Sleeping,
    ensures
        loop_step(true, phase, LoopEvent::Woke) == (LoopPhase::Stopped, LoopAction::Exit),
{
}

/// The actions that `k` consecutive `Handled` events produce from `phase`,
/// and the phase they leave.
pub open spec fn run_handled(stopped: bool, phase: LoopPhase, k: nat) -> (
    LoopPhase,
    Seq<LoopAction>,
)
    decreases k,
{
    if k == 0 {
        (phase, Seq::empty())
    } else {
        let first = loop_step(stopped, phase, LoopEvent::Handled);
        let rest = run_handled(stopped, first.0, (k - 1) as nat);
        (rest.0, seq![first.1] + rest.1)
    }
}

proof fn lemma_run_from(stopped: bool, j: usize, n: usize)
    requires
        1 <= j <= n,
    ensures
        ({
            let run = run_handled(stopped, LoopPhase::Updating { next: j, count: n }, (n - j + 1) as nat);
            &&& run.0 == LoopPhase::Sleeping
            &&& run.1.len() == n - j + 1
            &&& forall|i: int| 0 <= i < n - j ==> run.1[i] == LoopAction::UpdateInvoice((j + i) as usize)
            &&& run.1[n - j] == LoopAction::Sleep(PASS_INTERVAL_SECS)
        }),
    decreases n - j,
{
    let k = (n - j + 1) as nat;
    let first = loop_step(stopped, LoopPhase::Updating { next: j, count: n }, LoopEvent::Handled);
    if j < n {
        lemma_run_from(stopped, (j + 1) as usize, n);
        let rest = run_handled(stopped, first.0, (k - 1) as nat);
        assert(run_handled(stopped, LoopPhase::Updating { next: j, count: n }, k) == (rest.0, seq![first.1] + rest.1));
        assert forall|i: int| 0 <= i < n - j implies (seq![first.1] + rest.1)[i] == LoopAction::UpdateInvoice((j + i) as usize) by {
            if i > 0 {
                assert((seq![first.1] + rest.1)[i] == rest.1[i - 1]);
            }
        }
    } else {
        assert(run_handled(stopped, first.0, 0) == (first.0, Seq::<LoopAction>::empty()));
    }
}

/// One pass updates every fetched invoice exactly once, in fetch order,
/// and then pauses: after `n > 0` invoices were fetched, the loop asks for
/// the update of index 0, and the `n` reports that follow ask for indices
/// 1 to `n - 1` and then for the pause.
pub proof fn law_pass_updates_each_fetched_invoice(stopped: bool, n: usize)
    requires
        n > 0,
    ensures
        loop_step(stopped, LoopPhase::Fetching, LoopEvent::Fetched(n)).1 == LoopAction::UpdateInvoice(0),
        ({
            let run = run_handled(
                stopped,
                loop_step(stopped, LoopPhase::Fetching, LoopEvent::Fetched(n)).0,
                n as nat,
            );
            &&& run.0 == LoopPhase::Sleeping
            &&& run.1.len() == n
            &&& forall|i: int| 0 <= i < n - 1 ==> run.1[i] == LoopAction::UpdateInvoice((i + 1) as usize)
            &&& run.1[n - 1] == LoopAction::Sleep(PASS_INTERVAL_SECS)
        }),
{
    lemma_run_from(stopped, 1, n);
}

} // verus!
