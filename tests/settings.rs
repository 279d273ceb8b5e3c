use mourse::clicker::{Clicker, ClickerConfig};
use mourse::hotkey::HotkeyDebounce;
use mourse::mouse_button::SerializableMouseButton;
use mourse::mouse_mover::{MouseMover, MouseMoverConfig};

#[test]
fn clicker_defaults() {
    let c = Clicker::default();
    assert_eq!(c.get_interval(), 1000);
    assert_eq!(c.get_mouse_button(), SerializableMouseButton::Left);
    assert!(!c.is_random_delay());
    assert_eq!(c.get_random_delay_range(), (0, 500));
    assert_eq!(c.get_config(), ClickerConfig::default());
}

#[test]
fn mover_defaults() {
    let m = MouseMover::default();
    assert_eq!(m.get_interval(), 100);
    assert_eq!(m.get_max_distance(), 100);
    assert!(!m.is_random_delay());
    assert_eq!(m.get_random_delay_range(), (0, 200));
    assert_eq!(m.get_config(), MouseMoverConfig::default());
}

#[test]
fn clicker_setters_change_one_field() {
    let mut c = Clicker::default();
    c.set_interval(25);
    c.set_mouse_button(SerializableMouseButton::Middle);
    c.set_random_delay(true);
    c.set_random_delay_range(5, 40);
    let want = ClickerConfig {
        click_interval_ms: 25,
        mouse_button: SerializableMouseButton::Middle,
        random_delay_enabled: true,
        random_delay_min_ms: 5,
        random_delay_max_ms: 40,
    };
    assert_eq!(c.get_config(), want);
    c.set_config(ClickerConfig::default());
    assert_eq!(c.get_config(), ClickerConfig::default());
}

#[test]
fn mover_setters_change_one_field() {
    let mut m = MouseMover::default();
    m.set_interval(15);
    m.set_max_distance(7);
    m.set_random_delay(true);
    m.set_random_delay_range(1, 2);
    let want = MouseMoverConfig {
        move_interval_ms: 15,
        max_distance: 7,
        random_delay_enabled: true,
        random_delay_min_ms: 1,
        random_delay_max_ms: 2,
    };
    assert_eq!(m.get_config(), want);
    m.set_config(MouseMoverConfig::default());
    assert_eq!(m.get_config(), MouseMoverConfig::default());
}

#[test]
fn hotkey_waits_out_the_retrigger_time() {
    let mut d = HotkeyDebounce::new(0);
    assert!(!d.poll(true, 100));
    assert!(!d.poll(true, 200));
    assert!(d.poll(true, 201));
    assert_eq!(d.last_trigger_ms, 201);
    assert!(!d.poll(true, 300));
    assert!(!d.poll(false, 1000));
    assert!(d.poll(true, 1000));
    // a second key in the same frame shares the time of the last toggle
    assert!(!d.poll(true, 1000));
}

#[test]
fn hotkey_clock_behind_last_toggle_does_not_fire() {
    let mut d = HotkeyDebounce::new(500);
    assert!(!d.poll(true, 10));
    assert_eq!(d.last_trigger_ms, 500);
}
