use papier::loginitem::set_enabled;
use papier::power::{is_battery_state, on_battery_from_states};

#[test]
fn login_item_reconciliation() {
    assert!(set_enabled(true, true));
    assert!(!set_enabled(true, false));
    assert!(!set_enabled(false, true));
    // A failed unregistration leaves the login item registered.
    assert!(set_enabled(false, false));
}

#[test]
fn battery_state_is_exact() {
    assert!(is_battery_state(&"Battery Power".to_string()));
    assert!(!is_battery_state(&"AC Power".to_string()));
    assert!(!is_battery_state(&"battery power".to_string()));
}

#[test]
fn on_battery_when_any_source_reports_it() {
    assert!(!on_battery_from_states(&Vec::new()));
    assert!(!on_battery_from_states(&vec![None, Some("AC Power".to_string())]));
    assert!(on_battery_from_states(&vec![None, Some("AC Power".to_string()), Some("Battery Power".to_string())]));
    assert!(on_battery_from_states(&vec![Some("Battery Power".to_string())]));
}
