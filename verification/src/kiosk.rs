//! The kiosk cycler: advances through a fetched playlist, showing each entry
//! for its dwell time in bounded sleep segments so that a mode change is
//! noticed within one segment, and refetching the playlist after each full
//! pass.  The cycler decides; the surroundings fetch, navigate and sleep.

use vstd::prelude::*;
use vstd::string::StringExecFns;

verus! {

/// Seconds waited before retrying after an empty playlist or a failed fetch.
pub const FETCH_RETRY_SECONDS: u64 = 10;

/// Upper bound of one dwell segment; between segments the cycler re-checks
/// whether the appliance is still in kiosk mode.
pub const MODE_CHECK_INTERVAL_SECONDS: u64 = 5;

/// One entry of the kiosk playlist: the page to show and how long to show it.
pub struct PlaylistEntry {
    pub url: String,
    pub dwell_seconds: u64,
}

/// Name for what `url::Url::parse` accepts: whether a string parses as an
/// absolute URL depends on the characters alone.
pub uninterp spec fn url_accepted(s: Seq<char>) -> bool;

/// Relies on url::Url::parse: whether the entry's address parses as an
/// absolute URL.
#[verifier::external_body]
fn parses_as_url(s: &str) -> (r: bool)
    ensures
        r == url_accepted(s@),
{
    url::Url::parse(s).is_ok()
}

/// Public runtime check of `url_accepted`, for callers that validate an
/// entry before handing it to the display surface.
pub fn entry_navigable(entry: &PlaylistEntry) -> (r: bool)
    ensures
        r == url_accepted(entry.url@),
{
    parses_as_url(entry.url.as_str())
}

/// What the cycler asks its surroundings to do next.
#[derive(Clone, Copy, PartialEq, Eq, Structural, Debug)]
pub enum CyclerAction {
    /// The appliance left kiosk mode: stop cycling.
    Exit,
    /// Load the playlist entry at this position on the kiosk surface.
    Navigate { index: usize },
    /// Wait this many seconds, then ask again.
    Sleep { seconds: u64 },
    /// The pass is complete: fetch a fresh playlist, then ask again.
    Refetch,
    /// The playlist was empty or the fetch failed: wait this many seconds,
    /// then fetch again.
    RetryDelay { seconds: u64 },
    /// Bookkeeping only (an entry was finished, or its address did not
    /// parse and navigation is skipped): nothing to perform, ask again.
    Continue,
}

/// The cycler's position inside one pass over the playlist.
#[derive(Clone, Copy, PartialEq, Eq, Structural, Debug)]
pub struct KioskCycler {
    /// Which entry is current.
    pub index: usize,
    /// Seconds already dwelt on the current entry.
    pub elapsed: u64,
    /// Whether navigation for the current entry was already decided.
    pub showing: bool,
}

pub open spec fn min_u64(a: u64, b: u64) -> u64 {
    if a <= b {
        a
    } else {
        b
    }
}

/// The cycler's starting state: at the head of a pass, nothing shown yet.
pub open spec fn spec_cycler_start() -> KioskCycler {
    KioskCycler { index: 0, elapsed: 0, showing: false }
}

/// The cycler's decision for one call: leave when the mode changed; retry
/// later on an empty playlist; refetch after a full pass; navigate each
/// entry once (skipping addresses that do not parse); then dwell in
/// segments of at most `MODE_CHECK_INTERVAL_SECONDS`, never sleeping past
/// the entry's dwell time.
pub open spec fn spec_cycler_step(
    st: KioskCycler,
    playlist: Seq<PlaylistEntry>,
    in_kiosk: bool,
) -> (KioskCycler, CyclerAction) {
    if !in_kiosk {
        (st, CyclerAction::Exit)
    } else if playlist.len() == 0 {
        (spec_cycler_start(), CyclerAction::RetryDelay { seconds: FETCH_RETRY_SECONDS })
    } else if st.index >= playlist.len() {
        (spec_cycler_start(), CyclerAction::Refetch)
    } else if !st.showing {
        let shown = KioskCycler { index: st.index, elapsed: st.elapsed, showing: true };
        if url_accepted(playlist[st.index as int].url@) {
            (shown, CyclerAction::Navigate { index: st.index })
        } else {
            (shown, CyclerAction::Continue)
        }
    } else {
        let dwell = playlist[st.index as int].dwell_seconds;
        if st.elapsed < dwell {
            let segment = min_u64(
                min_u64(dwell, MODE_CHECK_INTERVAL_SECONDS),
                (dwell - st.elapsed) as u64,
            );
            (
                KioskCycler {
                    index: st.index,
                    elapsed: (st.elapsed + segment) as u64,
                    showing: true,
                },
                CyclerAction::Sleep { seconds: segment },
            )
        } else {
            (
                KioskCycler { index: (st.index + 1) as usize, elapsed: 0, showing: false },
                CyclerAction::Continue,
            )
        }
    }
}

impl KioskCycler {
    /// Begin a fresh pass.
    pub fn start() -> (c: Self)
        ensures
            c == spec_cycler_start(),
    {
        KioskCycler { index: 0, elapsed: 0, showing: false }
    }

    /// Decide the next action.  `in_kiosk` is whether the shared mode still
    /// reads `Kiosk`; the caller re-reads it before every call, which is
    /// what lets a trigger interrupt a dwell at the next segment boundary.
    pub fn next_action(&mut self, playlist: &Vec<PlaylistEntry>, in_kiosk: bool) -> (a:
        CyclerAction)
        ensures
            (*final(self), a) == spec_cycler_step(*old(self), playlist@, in_kiosk),
    {
        if !in_kiosk {
            return CyclerAction::Exit;
        }
        if playlist.len() == 0 {
            *self = KioskCycler::start();
            return CyclerAction::RetryDelay { seconds: FETCH_RETRY_SECONDS };
        }
        if self.index >= playlist.len() {
            *self = KioskCycler::start();
            return CyclerAction::Refetch;
        }
        if !self.showing {
            self.showing = true;
            if entry_navigable(&playlist[self.index]) {
                return CyclerAction::Navigate { index: self.index };
            }
            return CyclerAction::Continue;
        }
        let dwell = playlist[self.index].dwell_seconds;
        if self.elapsed < dwell {
            let check = if dwell <= MODE_CHECK_INTERVAL_SECONDS {
                dwell
            } else {
                MODE_CHECK_INTERVAL_SECONDS
            };
            let remaining = dwell - self.elapsed;
            let segment = if check <= remaining {
                check
            } else {
                remaining
            };
            self.elapsed = self.elapsed + segment;
            return CyclerAction::Sleep { seconds: segment };
        }
        self.index = self.index + 1;
        self.elapsed = 0;
        self.showing = false;
        CyclerAction::Continue
    }

    /// The decision after a failed playlist fetch: start the next pass
    /// fresh after a fixed backoff.  Fetch errors are recoverable by
    /// design and never stop the cycler.
    pub fn on_fetch_error(&mut self) -> (a: CyclerAction)
        ensures
            *final(self) == spec_cycler_start(),
            a == (CyclerAction::RetryDelay { seconds: FETCH_RETRY_SECONDS }),
    {
        *self = KioskCycler::start();
        CyclerAction::RetryDelay { seconds: FETCH_RETRY_SECONDS }
    }
}

/// Law: a dwell segment never runs past the entry's dwell time, and a
/// sleeping step always makes progress: after the sleep the elapsed time
/// has grown by the segment and still fits under the dwell.
pub proof fn lemma_sleep_bounded(st: KioskCycler, playlist: Seq<PlaylistEntry>, in_kiosk: bool)
    requires
        spec_cycler_step(st, playlist, in_kiosk).1 matches CyclerAction::Sleep { seconds },
    ensures
        ({
            let (st2, a) = spec_cycler_step(st, playlist, in_kiosk);
            let dwell = playlist[st.index as int].dwell_seconds;
            &&& a matches CyclerAction::Sleep { seconds } ==> seconds >= 1 && st2.elapsed
                == st.elapsed + seconds && st2.elapsed <= dwell
        }),
{
}

/// The playlist endpoint with the viewer's access token as its query.
pub fn playlist_url(token: &str) -> (r: String)
    ensures
        r@ == "https://rctv.recurse.com/get_all_apps_for_tauri?tv_login_token="@ + token@,
{
    let mut s = String::from_str("https://rctv.recurse.com/get_all_apps_for_tauri?tv_login_token=");
    s.append(token);
    s
}

} // verus!
