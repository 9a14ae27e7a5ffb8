use shelves::startup::{
    should_schedule_splash_delay, splash_reveal_plan, tray_menu, WindowAction, SPLASH_DELAY_SECS,
};

#[test]
fn no_splash_schedules_nothing() {
    assert!(!should_schedule_splash_delay(false));
    assert_eq!(splash_reveal_plan(false, false, false), vec![]);
    assert_eq!(splash_reveal_plan(false, false, true), vec![]);
    assert_eq!(splash_reveal_plan(false, true, false), vec![]);
    assert_eq!(splash_reveal_plan(false, true, true), vec![]);
}

#[test]
fn splash_present_schedules_delay() {
    assert!(should_schedule_splash_delay(true));
}

#[test]
fn splash_and_main_reveal_in_order() {
    assert_eq!(
        splash_reveal_plan(true, true, true),
        vec![
            WindowAction::CloseSplash,
            WindowAction::ShowMain,
            WindowAction::FocusMain
        ]
    );
}

#[test]
fn splash_gone_at_fire_still_reveals_main() {
    assert_eq!(
        splash_reveal_plan(true, false, true),
        vec![WindowAction::ShowMain, WindowAction::FocusMain]
    );
}

#[test]
fn main_absent_only_closes_splash() {
    assert_eq!(
        splash_reveal_plan(true, true, false),
        vec![WindowAction::CloseSplash]
    );
}

#[test]
fn both_gone_at_fire_is_a_no_op() {
    assert_eq!(splash_reveal_plan(true, false, false), vec![]);
}

#[test]
fn splash_delay_is_two_seconds() {
    assert_eq!(SPLASH_DELAY_SECS, 2);
}

#[test]
fn tray_menu_is_single_quit_item() {
    let menu = tray_menu();
    assert_eq!(menu.len(), 1);
    assert_eq!(menu[0].id, "quit");
    assert_eq!(menu[0].label, "Quit");
    assert!(menu[0].enabled);
}
