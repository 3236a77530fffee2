use invoice_engine::error::EngineError;
use invoice_engine::manager::{InvoiceManager, LoopAction, LoopEvent, LoopPhase, PASS_INTERVAL_SECS};

#[test]
fn loop_visits_every_fetched_invoice_in_order() {
    let mut m = InvoiceManager::new(0, 0);
    assert_eq!(m.advance(LoopEvent::Woke), LoopAction::Wait);
    assert_eq!(m.start_loop(), LoopAction::FetchPending);
    assert_eq!(m.advance(LoopEvent::Fetched(3)), LoopAction::UpdateInvoice(0));
    assert_eq!(m.advance(LoopEvent::Handled), LoopAction::UpdateInvoice(1));
    assert_eq!(m.advance(LoopEvent::Woke), LoopAction::Wait);
    assert_eq!(m.advance(LoopEvent::Handled), LoopAction::UpdateInvoice(2));
    assert_eq!(m.advance(LoopEvent::Handled), LoopAction::Sleep(60));
    assert_eq!(PASS_INTERVAL_SECS, 60);
    assert_eq!(m.advance(LoopEvent::Woke), LoopAction::FetchPending);
    assert_eq!(m.advance(LoopEvent::Fetched(0)), LoopAction::Sleep(60));
    assert_eq!(m.advance(LoopEvent::Woke), LoopAction::FetchPending);
    assert_eq!(m.advance(LoopEvent::FetchFailed), LoopAction::Sleep(60));
}

#[test]
fn stop_is_seen_at_top_of_next_iteration() {
    let mut m = InvoiceManager::new(0, 0);
    assert_eq!(m.start_loop(), LoopAction::FetchPending);
    assert_eq!(m.advance(LoopEvent::Fetched(1)), LoopAction::UpdateInvoice(0));
    m.stop_loop();
    assert!(m.is_stopped);
    assert_eq!(m.advance(LoopEvent::Handled), LoopAction::Sleep(60));
    assert_eq!(m.advance(LoopEvent::Woke), LoopAction::Exit);
    assert_eq!(m.phase, LoopPhase::Stopped);
    assert_eq!(m.advance(LoopEvent::Fetched(4)), LoopAction::Exit);
    let mut n = InvoiceManager::new(0, 0);
    n.stop_loop();
    assert_eq!(n.start_loop(), LoopAction::Exit);
}

#[test]
fn manager_sweep_uses_its_configuration() {
    let m = InvoiceManager::new(210_000_000, 2);
    assert_eq!(m.fee_cap(9_998), Some(10_000));
    assert_eq!(m.fee_cap(u128::MAX), None);
    let p = m.sweep_plan(1_000_000_000, 21_000, 10_000).unwrap();
    assert_eq!(p.value, 790_000_000);
    assert_eq!(p.max_priority_fee_per_gas, 2);
    assert_eq!(m.sweep_plan(1_000_000_000, 21_001, 10_000), Err(EngineError::GasLimitExceeded));
    assert_eq!(m.sweep_plan(210_000_000, 21_000, 10_000), Err(EngineError::InsufficientFunds));
}
