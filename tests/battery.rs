use watchy_rs::battery::charging;
use watchy_rs::BatteryStatus;

#[test]
fn reading_is_scaled_by_divider() {
    assert_eq!(BatteryStatus::from_reading(3600).voltage(), 4600);
    assert_eq!(BatteryStatus::from_reading(2973).voltage(), 3798);
    assert_eq!(BatteryStatus::from_reading(0).voltage(), 0);
    assert_eq!(BatteryStatus::from_reading(u16::MAX).voltage(), 83_739);
}

#[test]
fn percentage_is_linear_and_clamped() {
    assert_eq!(BatteryStatus::from_reading(2973).percentage(), 49);
    assert_eq!(BatteryStatus::from_reading(3600).percentage(), 100);
    assert_eq!(BatteryStatus::from_reading(2000).percentage(), 0);
    // 3400 mV exactly is empty; 4200 mV is full
    assert_eq!(BatteryStatus::from_reading(2661).voltage(), 3400);
    assert_eq!(BatteryStatus::from_reading(2661).percentage(), 0);
    assert_eq!(BatteryStatus::from_reading(3288).voltage(), 4201);
    assert_eq!(BatteryStatus::from_reading(3288).percentage(), 100);
    assert_eq!(BatteryStatus::from_reading(u16::MAX).percentage(), 100);
}

#[test]
fn charge_pin_threshold() {
    assert!(!charging(3000));
    assert!(charging(3001));
    assert!(!charging(0));
}
