use quick_settings::QuickSetting;
use quick_settings::QuickSettingSignal;

fn fresh() -> QuickSetting {
    QuickSetting::new(String::from("/com/samcday/QSDemo"))
}

#[test]
fn new_initial_state() {
    let qs = fresh();
    assert!(!qs.active());
    assert_eq!(qs.counter(), 0);
    assert_eq!(qs.status(), "/com/samcday/QSDemo");
    assert_eq!(qs.label(), "Count: 0");
    assert_eq!(qs.icon(), "emoji-people-symbolic");
}

#[test]
fn static_properties() {
    let qs = fresh();
    assert_eq!(qs.name(), "DBus Quick Setting demo");
    assert_eq!(
        qs.description(),
        "A demonstration of making a QuickSetting available entirely via DBus. Look ma no .so!"
    );
}

#[test]
fn press_increments_and_signals() {
    let mut qs = fresh();
    let signals = qs.press();
    assert_eq!(
        signals,
        vec![QuickSettingSignal::LabelChanged, QuickSettingSignal::IconChanged]
    );
    assert_eq!(qs.counter(), 1);
    assert!(!qs.active());
    assert_eq!(qs.label(), "Count: 1");
    assert_eq!(qs.icon(), "emblem-favorite-symbolic");
}

#[test]
fn press_many_counts_up() {
    let mut qs = fresh();
    for _ in 0..5 {
        qs.press();
    }
    assert_eq!(qs.counter(), 5);
    assert_eq!(qs.label(), "Count: 5");
    assert_eq!(qs.icon(), "emblem-favorite-symbolic");
}

#[test]
fn long_press_at_zero_enters_warning() {
    let mut qs = fresh();
    let signals = qs.long_press();
    assert_eq!(
        signals,
        vec![
            QuickSettingSignal::LabelChanged,
            QuickSettingSignal::ActiveChanged,
            QuickSettingSignal::IconChanged,
        ]
    );
    assert_eq!(qs.counter(), -1);
    assert!(!qs.active());
    assert_eq!(qs.label(), "Count: -1");
    assert_eq!(qs.icon(), "dialog-question-symbolic");
}

#[test]
fn long_press_below_zero_keeps_decrementing() {
    let mut qs = fresh();
    qs.long_press();
    qs.long_press();
    qs.long_press();
    assert_eq!(qs.counter(), -3);
    assert!(!qs.active());
    assert_eq!(qs.label(), "Count: -3");
}

#[test]
fn long_press_while_counting_toggles_active() {
    let mut qs = fresh();
    qs.press();
    let signals = qs.long_press();
    assert_eq!(
        signals,
        vec![
            QuickSettingSignal::LabelChanged,
            QuickSettingSignal::ActiveChanged,
            QuickSettingSignal::IconChanged,
        ]
    );
    assert!(qs.active());
    assert_eq!(qs.counter(), 1);
    assert_eq!(qs.icon(), "image-loading-symbolic");
    qs.long_press();
    assert!(!qs.active());
    assert_eq!(qs.counter(), 1);
}

#[test]
fn ticker_counts_down_to_idle() {
    let mut qs = fresh();
    qs.press();
    qs.press();
    qs.press();
    qs.long_press();
    assert!(qs.active());
    assert_eq!(qs.counter(), 3);

    let signals = qs.tick();
    assert_eq!(signals, vec![QuickSettingSignal::LabelChanged]);
    assert_eq!(qs.counter(), 2);
    assert!(qs.active());

    let signals = qs.tick();
    assert_eq!(signals, vec![QuickSettingSignal::LabelChanged]);
    assert_eq!(qs.counter(), 1);

    let signals = qs.tick();
    assert_eq!(
        signals,
        vec![
            QuickSettingSignal::IconChanged,
            QuickSettingSignal::ActiveChanged,
            QuickSettingSignal::LabelChanged,
        ]
    );
    assert_eq!(qs.counter(), 0);
    assert!(!qs.active());
    assert_eq!(qs.label(), "Count: 0");
    assert_eq!(qs.icon(), "emoji-people-symbolic");

    let signals = qs.tick();
    assert!(signals.is_empty());
    assert_eq!(qs.counter(), 0);
    assert!(!qs.active());
}

#[test]
fn tick_while_inactive_is_a_noop() {
    let mut qs = fresh();
    let signals = qs.tick();
    assert!(signals.is_empty());
    assert_eq!(qs.counter(), 0);
    assert!(!qs.active());
}

#[test]
fn set_active_writes_flag_and_stays_silent() {
    let mut qs = fresh();
    qs.set_active(true);
    assert!(qs.active());
    assert_eq!(qs.counter(), 0);
    assert_eq!(qs.icon(), "image-loading-symbolic");
    qs.set_active(false);
    assert!(!qs.active());
    assert_eq!(qs.counter(), 0);
}

#[test]
fn tick_switches_off_a_forced_idle_activation() {
    let mut qs = fresh();
    qs.set_active(true);
    let signals = qs.tick();
    assert_eq!(
        signals,
        vec![
            QuickSettingSignal::IconChanged,
            QuickSettingSignal::ActiveChanged,
            QuickSettingSignal::LabelChanged,
        ]
    );
    assert!(!qs.active());
    assert_eq!(qs.counter(), 0);
}

#[test]
fn tick_leaves_a_forced_warning_activation_running() {
    let mut qs = fresh();
    qs.long_press();
    qs.set_active(true);
    let signals = qs.tick();
    assert_eq!(signals, vec![QuickSettingSignal::LabelChanged]);
    assert!(qs.active());
    assert_eq!(qs.counter(), -1);
}

#[test]
fn end_to_end_scenario() {
    let mut qs = fresh();
    assert!(!qs.active());
    assert_eq!(qs.counter(), 0);

    qs.press();
    assert_eq!(qs.counter(), 1);
    assert_eq!(qs.label(), "Count: 1");
    assert_eq!(qs.icon(), "emblem-favorite-symbolic");

    qs.long_press();
    assert!(qs.active());
    assert_eq!(qs.counter(), 1);

    qs.tick();
    assert_eq!(qs.counter(), 0);
    assert!(!qs.active());
    assert_eq!(qs.icon(), "emoji-people-symbolic");
    assert_eq!(qs.label(), "Count: 0");
}
