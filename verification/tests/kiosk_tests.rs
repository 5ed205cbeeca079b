use kiosk_controller::kiosk::{
    entry_navigable, playlist_url, CyclerAction, KioskCycler, PlaylistEntry, FETCH_RETRY_SECONDS,
};
use kiosk_controller::mode::{Mode, ModeAction, ModeController};

fn entry(url: &str, dwell: u64) -> PlaylistEntry {
    PlaylistEntry { url: url.to_string(), dwell_seconds: dwell }
}

#[test]
fn two_entry_playlist_is_shown_in_order_then_refetched() {
    let playlist = vec![entry("https://a.example", 5), entry("https://b.example", 3)];
    let mut c = KioskCycler::start();
    let mut actions = Vec::new();
    loop {
        let a = c.next_action(&playlist, true);
        actions.push(a);
        if a == CyclerAction::Refetch {
            break;
        }
    }
    assert_eq!(
        actions,
        vec![
            CyclerAction::Navigate { index: 0 },
            CyclerAction::Sleep { seconds: 5 },
            CyclerAction::Continue,
            CyclerAction::Navigate { index: 1 },
            CyclerAction::Sleep { seconds: 3 },
            CyclerAction::Continue,
            CyclerAction::Refetch,
        ]
    );
}

#[test]
fn trigger_mid_dwell_exits_at_the_next_check() {
    let playlist = vec![entry("https://a.example", 5), entry("https://b.example", 3)];
    let mut ctl = ModeController::new();
    let mut c = KioskCycler::start();
    let in_kiosk = ctl.current_mode() == Mode::Kiosk;
    assert_eq!(c.next_action(&playlist, in_kiosk), CyclerAction::Navigate { index: 0 });
    assert_eq!(c.next_action(&playlist, in_kiosk), CyclerAction::Sleep { seconds: 5 });
    // Two seconds into that sleep the hardware trigger fires: the mode
    // moves to SessionStarting at once, and the cycler notices as soon as
    // its current segment ends — one polling interval at the latest.
    assert_eq!(ctl.on_trigger(), ModeAction::StartSession);
    assert_eq!(ctl.current_mode(), Mode::SessionStarting);
    let in_kiosk = ctl.current_mode() == Mode::Kiosk;
    assert_eq!(c.next_action(&playlist, in_kiosk), CyclerAction::Exit);
}

#[test]
fn long_dwell_is_sliced_into_mode_check_segments() {
    let playlist = vec![entry("https://a.example", 12)];
    let mut c = KioskCycler::start();
    assert_eq!(c.next_action(&playlist, true), CyclerAction::Navigate { index: 0 });
    assert_eq!(c.next_action(&playlist, true), CyclerAction::Sleep { seconds: 5 });
    assert_eq!(c.next_action(&playlist, true), CyclerAction::Sleep { seconds: 5 });
    assert_eq!(c.next_action(&playlist, true), CyclerAction::Sleep { seconds: 2 });
    assert_eq!(c.next_action(&playlist, true), CyclerAction::Continue);
    assert_eq!(c.next_action(&playlist, true), CyclerAction::Refetch);
}

#[test]
fn zero_dwell_entry_is_shown_and_passed_over() {
    let playlist = vec![entry("https://a.example", 0)];
    let mut c = KioskCycler::start();
    assert_eq!(c.next_action(&playlist, true), CyclerAction::Navigate { index: 0 });
    assert_eq!(c.next_action(&playlist, true), CyclerAction::Continue);
    assert_eq!(c.next_action(&playlist, true), CyclerAction::Refetch);
}

#[test]
fn unparsable_address_skips_navigation_but_still_dwells() {
    let playlist = vec![entry("not a url", 3)];
    assert!(!entry_navigable(&playlist[0]));
    let mut c = KioskCycler::start();
    assert_eq!(c.next_action(&playlist, true), CyclerAction::Continue);
    assert_eq!(c.next_action(&playlist, true), CyclerAction::Sleep { seconds: 3 });
}

#[test]
fn valid_addresses_are_navigable() {
    assert!(entry_navigable(&entry("https://a.example", 1)));
    assert!(entry_navigable(&entry("https://a.example/path?q=1", 1)));
    assert!(!entry_navigable(&entry("", 1)));
    assert!(!entry_navigable(&entry("/relative/only", 1)));
}

#[test]
fn empty_playlist_waits_and_retries() {
    let playlist: Vec<PlaylistEntry> = Vec::new();
    let mut c = KioskCycler::start();
    assert_eq!(
        c.next_action(&playlist, true),
        CyclerAction::RetryDelay { seconds: FETCH_RETRY_SECONDS }
    );
}

#[test]
fn fetch_errors_back_off_and_restart_the_pass() {
    let mut c = KioskCycler::start();
    let playlist = vec![entry("https://a.example", 5)];
    c.next_action(&playlist, true);
    let a = c.on_fetch_error();
    assert_eq!(a, CyclerAction::RetryDelay { seconds: FETCH_RETRY_SECONDS });
    // The next pass starts from the first entry again.
    assert_eq!(c.next_action(&playlist, true), CyclerAction::Navigate { index: 0 });
}

#[test]
fn playlist_url_attaches_the_token() {
    assert_eq!(
        playlist_url("SECRET-REDACTED"),
        "https://rctv.recurse.com/get_all_apps_for_tauri?tv_login_token=SECRET-REDACTED"
    );
    assert_eq!(
        playlist_url(""),
        "https://rctv.recurse.com/get_all_apps_for_tauri?tv_login_token="
    );
}
