use invoice_engine::codes::{InvoiceAction, InvoiceState};
use invoice_engine::error::EngineError;
use invoice_engine::invoice::Invoice;
use invoice_engine::manager::InvoiceManager;

const PHRASE: &str = "abandon abandon abandon abandon abandon abandon abandon abandon abandon abandon abandon about";
const PHRASE_ADDRESS: &str = "0x9858EfFD232B4033E47d90003D41EC34EcaEda94";
const RECEIVER: &str = "0x0000000000000000000000000000000000000001";
const ONE: u128 = 1_000_000_000_000_000_000;
const START: u64 = 1_700_000_000;

fn issued(action: InvoiceAction) -> Invoice {
    Invoice::issue(PHRASE.to_string(), RECEIVER.to_string(), ONE, 3600, action, START).unwrap()
}

#[test]
fn issue_derives_address_and_deadline() {
    let inv = issued(InvoiceAction::Nothing);
    assert_eq!(inv.address, PHRASE_ADDRESS);
    assert_ne!(inv.address, inv.mnemonic);
    assert_eq!(inv.lifetime, START + 3600);
    assert_eq!(inv.state, InvoiceState::Empty);
    assert_eq!(inv.value, ONE);
}

#[test]
fn load_rederives_same_address() {
    let a = Invoice::load(PHRASE.to_string(), RECEIVER.to_string(), ONE, 2, START, 0).unwrap();
    let b = Invoice::load(PHRASE.to_string(), RECEIVER.to_string(), ONE, 9, START, 5).unwrap();
    assert_eq!(a.address, PHRASE_ADDRESS);
    assert_eq!(a.address, b.address);
    assert_eq!(a.state, InvoiceState::Complete);
    assert_eq!(a.complete_action, InvoiceAction::SendToReceiver);
    assert_eq!(b.state, InvoiceState::Empty);
    assert_eq!(b.complete_action, InvoiceAction::Nothing);
}

#[test]
fn malformed_phrase_is_an_error() {
    let r = Invoice::load("abandon abandon".to_string(), RECEIVER.to_string(), ONE, 0, START, 0);
    assert_eq!(r.err(), Some(EngineError::Chain));
    let r = Invoice::issue("not words".to_string(), RECEIVER.to_string(), ONE, 10, InvoiceAction::Nothing, START);
    assert_eq!(r.err(), Some(EngineError::Chain));
}

#[test]
fn bad_receiver_or_overflowing_deadline_is_input_error() {
    let r = Invoice::issue(PHRASE.to_string(), "not an address".to_string(), ONE, 10, InvoiceAction::Nothing, START);
    assert_eq!(r.err(), Some(EngineError::Input));
    let r = Invoice::issue(PHRASE.to_string(), RECEIVER.to_string(), ONE, u64::MAX, InvoiceAction::Nothing, START);
    assert_eq!(r.err(), Some(EngineError::Input));
}

#[test]
fn fresh_invoices_get_distinct_addresses() {
    let a = Invoice::new(RECEIVER.to_string(), ONE, 3600, InvoiceAction::Nothing).unwrap();
    let b = Invoice::new(RECEIVER.to_string(), ONE, 3600, InvoiceAction::Nothing).unwrap();
    assert_ne!(a.address, b.address);
    assert_eq!(a.mnemonic.split(' ').count(), 24);
    let again = Invoice::load(a.mnemonic.clone(), RECEIVER.to_string(), ONE, 0, a.lifetime, 1).unwrap();
    assert_eq!(again.address, a.address);
    assert!(a.lifetime >= 3600);
    assert_eq!(a.state, InvoiceState::Empty);
}

#[test]
fn scenario_empty_then_complete() {
    let mut inv = issued(InvoiceAction::Nothing);
    assert_eq!(inv.update_state(0, START), InvoiceState::Empty);
    assert_eq!(inv.state, InvoiceState::Empty);
    assert_eq!(inv.update_state(ONE, START + 60), InvoiceState::Complete);
    assert_eq!(inv.state, InvoiceState::Complete);
    assert!(!inv.needs_sweep());
}

#[test]
fn scenario_sweep_success_and_failure() {
    let mut inv = issued(InvoiceAction::SendToReceiver);
    assert_eq!(inv.update_state(ONE, START + 60), InvoiceState::Complete);
    assert!(inv.needs_sweep());
    assert_eq!(inv.settle_sweep(false), InvoiceState::Complete);
    assert!(inv.needs_sweep());
    assert_eq!(inv.update_state(ONE, START + 120), InvoiceState::Complete);
    assert_eq!(inv.settle_sweep(true), InvoiceState::Sent);
    assert_eq!(inv.update_state(0, START + 180), InvoiceState::Sent);
}

#[test]
fn scenario_expiry_rejects_for_good() {
    let mut inv = issued(InvoiceAction::Nothing);
    assert!(!inv.check_lifetime(START + 3599));
    assert!(inv.check_lifetime(START + 3600));
    assert_eq!(inv.update_state(0, START + 3600), InvoiceState::Rejected);
    assert_eq!(inv.update_state(ONE / 2, START + 4000), InvoiceState::Rejected);
    assert_eq!(inv.update_state(0, START + 4000), InvoiceState::Rejected);
}

#[test]
fn manager_create_checks_action_and_receiver() {
    let m = InvoiceManager::new(1_000_000, 2);
    assert_eq!(m.create_invoice(RECEIVER.to_string(), ONE, 60, Some(2)).err(), Some(EngineError::Input));
    assert_eq!(m.create_invoice("0x12".to_string(), ONE, 60, None).err(), Some(EngineError::Input));
    let inv = m.create_invoice(RECEIVER.to_string(), ONE, 60, None).unwrap();
    assert_eq!(inv.complete_action, InvoiceAction::Nothing);
    let inv = m.create_invoice(RECEIVER.to_string(), ONE, 60, Some(0)).unwrap();
    assert_eq!(inv.complete_action, InvoiceAction::SendToReceiver);
}
