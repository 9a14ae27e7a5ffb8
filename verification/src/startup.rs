//! The startup sequencer's decision logic. After the GUI shell initializes,
//! a one-shot delayed action waits a fixed duration, then hides the splash
//! window and reveals the main window. The shell performs the waiting and the
//! window calls; this module decides, from which windows are present, exactly
//! which visibility commands the delayed action issues.

use vstd::prelude::*;

verus! {

/// The fixed delay, in seconds, between shell initialization and the swap of
/// window visibility.
pub const SPLASH_DELAY_SECS: u64 = 2;

/// A one-shot window-visibility command issued by the delayed action.
#[derive(Clone, Copy, Debug, PartialEq, Eq, Structural)]
pub enum WindowAction {
    /// Close the splash window.
    CloseSplash,
    /// Show the main window.
    ShowMain,
    /// Give the main window focus.
    FocusMain,
}

/// The commands the delayed action issues. `splash_at_setup` says whether the
/// splash window existed when the shell initialized: without it, no delayed
/// action is scheduled at all. `splash_present` and `main_present` say which
/// windows still exist when the delay elapses; an absent window's commands
/// are skipped, never errored.
pub open spec fn spec_splash_reveal_plan(
    splash_at_setup: bool,
    splash_present: bool,
    main_present: bool,
) -> Seq<WindowAction> {
    if !splash_at_setup {
        Seq::empty()
    } else {
        (if splash_present {
            seq![WindowAction::CloseSplash]
        } else {
            Seq::empty()
        }) + (if main_present {
            seq![WindowAction::ShowMain, WindowAction::FocusMain]
        } else {
            Seq::empty()
        })
    }
}

/// Whether a delayed splash-hide action is scheduled at all: it is exactly
/// when the splash window is present at setup.
pub fn should_schedule_splash_delay(splash_at_setup: bool) -> (r: bool)
    ensures
        r == splash_at_setup,
        !r ==> forall|s: bool, m: bool|
            spec_splash_reveal_plan(splash_at_setup, s, m) == Seq::<WindowAction>::empty(),
{
    splash_at_setup
}

/// Compute the ordered visibility commands of the delayed action, given which
/// windows were present at setup and which are present when the delay fires.
pub fn splash_reveal_plan(
    splash_at_setup: bool,
    splash_present: bool,
    main_present: bool,
) -> (r: Vec<WindowAction>)
    ensures
        r@ == spec_splash_reveal_plan(splash_at_setup, splash_present, main_present),
{
    let mut r: Vec<WindowAction> = Vec::new();
    if splash_at_setup {
        if splash_present {
            r.push(WindowAction::CloseSplash);
        }
        if main_present {
            r.push(WindowAction::ShowMain);
            r.push(WindowAction::FocusMain);
        }
    }
    proof {
        assert(r@ =~= spec_splash_reveal_plan(splash_at_setup, splash_present, main_present));
    }
    r
}

/// One entry of the system-tray menu: a fixed string id, a visible label,
/// and whether the item is enabled.
#[derive(Clone, Copy, Debug)]
pub struct TrayMenuItem {
    pub id: &'static str,
    pub label: &'static str,
    pub enabled: bool,
}

/// The complete tray menu: exactly one enabled item, "Quit", identified by
/// the fixed id `quit`, which terminates the process when selected.
pub fn tray_menu() -> (r: Vec<TrayMenuItem>)
    ensures
        r@.len() == 1,
        r@[0].id@ == "quit"@,
        r@[0].label@ == "Quit"@,
        r@[0].enabled,
{
    let mut r: Vec<TrayMenuItem> = Vec::new();
    r.push(TrayMenuItem { id: "quit", label: "Quit", enabled: true });
    r
}

/// With no splash window present, the delayed action performs no visibility
/// change: nothing is scheduled, whatever windows exist when the delay would
/// have fired.
pub proof fn lemma_no_splash_no_actions(splash_present: bool, main_present: bool)
    ensures
        spec_splash_reveal_plan(false, splash_present, main_present) == Seq::<WindowAction>::empty(),
{
}

/// With both the splash and main windows present, the delayed action closes
/// the splash window, then shows and focuses the main window, in that order
/// and nothing else.
pub proof fn lemma_splash_and_main_reveal()
    ensures
        spec_splash_reveal_plan(true, true, true)
            == seq![WindowAction::CloseSplash, WindowAction::ShowMain, WindowAction::FocusMain],
{
    assert(spec_splash_reveal_plan(true, true, true)
        =~= seq![WindowAction::CloseSplash, WindowAction::ShowMain, WindowAction::FocusMain]);
}

} // verus!
