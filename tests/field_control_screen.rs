use cargo_v5::migrate::{migrate_features, rename_feature};
use cargo_v5::field_control::{Control, FieldControl, Focus, Key, MatchMode, Panel};
use cargo_v5::transfer::{vendor_from_prefix, vendor_prefix, FileVendor};
use cargo_v5::widgets::CursorPos;

#[test]
fn screen_opens_on_the_driver_timer() {
    let s = FieldControl::new();
    assert_eq!(s.current_mode, MatchMode::Disabled);
    assert_eq!(s.focus, Focus::Panel(Panel::Mode(MatchMode::Driver)));
    assert_eq!(s.set_time(MatchMode::Auto), 15);
    assert_eq!(s.set_time(MatchMode::Driver), 105);
    assert!(!s.running);
}

#[test]
fn focus_moves_and_wraps() {
    let mut s = FieldControl::new();
    assert_eq!(s.handle_key(Key::Down), Control::Continue);
    assert_eq!(s.focus, Focus::Panel(Panel::Mode(MatchMode::Auto)));
    s.handle_key(Key::Down);
    s.handle_key(Key::Down);
    assert_eq!(s.focus, Focus::Panel(Panel::Countdown));
    s.handle_key(Key::Up);
    assert_eq!(s.focus, Focus::Panel(Panel::Mode(MatchMode::Disabled)));
}

#[test]
fn help_opens_and_closes() {
    let mut s = FieldControl::new();
    assert_eq!(s.handle_key(Key::Help), Control::Continue);
    assert_eq!(s.focus, Focus::Help(Panel::Mode(MatchMode::Driver)));
    s.handle_key(Key::Down);
    assert_eq!(s.focus, Focus::Help(Panel::Mode(MatchMode::Driver)));
    assert_eq!(s.handle_key(Key::Quit), Control::Continue);
    assert_eq!(s.focus, Focus::Panel(Panel::Mode(MatchMode::Driver)));
    assert_eq!(s.handle_key(Key::Quit), Control::Exit);
    assert_eq!(s.handle_key(Key::Interrupt), Control::Exit);
}

#[test]
fn digits_edit_the_focused_timer() {
    let mut s = FieldControl::new();
    // Driver timer 01:45: typing 0,2 gives 02:45, then the cursor is on the seconds.
    s.handle_key(Key::Digit(0));
    s.handle_key(Key::Digit(2));
    assert_eq!(s.driver.set_secs, 165);
    assert_eq!(s.driver.cursor, CursorPos(2));
    s.handle_key(Key::Left);
    assert_eq!(s.driver.cursor, CursorPos(1));
    s.handle_key(Key::Right);
    s.handle_key(Key::Right);
    s.handle_key(Key::Right);
    assert_eq!(s.driver.cursor, CursorPos(3));
    assert_eq!(s.auto.set_secs, 15);
}

#[test]
fn select_changes_mode_and_toggles_countdown() {
    let mut s = FieldControl::new();
    s.handle_key(Key::Down);
    assert_eq!(s.handle_key(Key::Select), Control::ChangeMode(MatchMode::Auto));
    assert_eq!(s.current_mode, MatchMode::Auto);
    s.handle_key(Key::Down);
    s.handle_key(Key::Down);
    assert_eq!(s.handle_key(Key::Select), Control::ChangeMode(MatchMode::Auto));
    assert!(s.running);
}

#[test]
fn countdown_runs_through_the_match() {
    let mut s = FieldControl::new();
    s.current_mode = MatchMode::Auto;
    let t = s.tick(0);
    assert!(t.restart_clock);
    assert_eq!(s.current_ms, 15_000);
    s.running = true;
    let t = s.tick(5_000);
    assert_eq!(t.control, Control::Continue);
    assert!(!t.restart_clock);
    assert_eq!(s.current_ms, 10_000);
    let t = s.tick(14_500);
    assert_eq!(t.control, Control::ChangeMode(MatchMode::Driver));
    assert!(t.restart_clock);
    assert!(s.running);
    let t = s.tick(200_000);
    assert_eq!(t.control, Control::ChangeMode(MatchMode::Disabled));
    assert_eq!(s.current_ms, 0);
    assert!(!s.running);
}

#[test]
fn vendors_by_path_prefix() {
    assert_eq!(vendor_from_prefix("user"), FileVendor::User);
    assert_eq!(vendor_from_prefix("/pros"), FileVendor::Dev2);
    assert_eq!(vendor_from_prefix("/vex_"), FileVendor::Vex);
    assert_eq!(vendor_from_prefix("vxvm"), FileVendor::VexVm);
    assert_eq!(vendor_from_prefix("home"), FileVendor::Undefined);
    assert_eq!(vendor_from_prefix(""), FileVendor::Undefined);
    assert_eq!(vendor_prefix(FileVendor::Dev2), "pros/");
    assert_eq!(vendor_prefix(FileVendor::Undefined), "test/");
}

fn features(items: &[Option<&str>]) -> Vec<Option<String>> {
    items.iter().map(|i| i.map(|s| s.to_string())).collect()
}

#[test]
fn migrated_feature_lists() {
    assert_eq!(migrate_features(&Vec::new(), true), vec!["full", "default-sdk"]);
    assert_eq!(
        migrate_features(&features(&[Some("dangerous_motor_tuning"), Some("panic"), None, Some("vex-sdk-jumptable")]), false),
        vec!["dangerous-motor-tuning", "vex-sdk-jumptable"]
    );
    assert_eq!(
        migrate_features(&features(&[Some("full"), Some("backtraces"), Some("vex-sdk-mock")]), true),
        vec!["full", "backtrace", "default-sdk"]
    );
    assert_eq!(
        migrate_features(&features(&[Some("startup"), Some("macro"), Some("vex-sdk-mock")]), false),
        vec!["startup", "macros", "default-sdk"]
    );
    assert_eq!(rename_feature("display_panics"), Some("panic-hook".to_string()));
    assert_eq!(rename_feature("smart_leds_trait"), None);
    assert_eq!(rename_feature("devices"), Some("devices".to_string()));
}
