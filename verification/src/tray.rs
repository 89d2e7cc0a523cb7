//! The tray icon's side: when to refresh it, and what it shows.

use vstd::prelude::*;
use crate::app::AppModel;
use crate::session::SessionPhase;

verus! {

/// The time between two looks at the session record, in milliseconds.
pub const POLL_INTERVAL_MS: u64 = 250;

/// The name of the tray icon for a session that is active or not.
pub open spec fn icon_name_text(active: bool) -> Seq<char> {
    if active {
        "input-gaming"@
    } else {
        "input-mouse"@
    }
}

/// The name of the tray icon for a session that is active or not.
pub fn icon_name(active: bool) -> (r: &'static str)
    ensures
        r@ == icon_name_text(active),
{
    if active {
        "input-gaming"
    } else {
        "input-mouse"
    }
}

/// The first line of the tray menu for a session that is active or not.
pub open spec fn status_label_text(active: bool) -> Seq<char> {
    if active {
        "\u{25cf} Remapping Active"@
    } else {
        "\u{25cb} Remapping Inactive"@
    }
}

/// The first line of the tray menu for a session that is active or not.
pub fn status_label(active: bool) -> (r: &'static str)
    ensures
        r@ == status_label_text(active),
{
    if active {
        "\u{25cf} Remapping Active"
    } else {
        "\u{25cb} Remapping Inactive"
    }
}

/// What the poller remembers between two looks: the value it saw last.
#[derive(Clone, Copy, Debug, PartialEq, Eq, Structural)]
pub struct TrayPoller {
    pub last: bool,
}

impl TrayPoller {
    /// Whether a reading differs from what the poller saw last. A failed
    /// reading differs from nothing.
    pub open spec fn sees_change(self, reading: Option<bool>) -> bool {
        reading matches Some(current) && current != self.last
    }

    /// The poller after it has looked at a reading.
    pub open spec fn after(self, reading: Option<bool>) -> TrayPoller {
        match reading {
            Some(current) => TrayPoller { last: current },
            None => self,
        }
    }

    /// A poller that has seen "inactive".
    pub fn new() -> (r: Self)
        ensures
            !r.last,
    {
        TrayPoller { last: false }
    }

    /// Takes one reading of the session record. Returns whether the tray is
    /// to be refreshed: exactly when the reading succeeded and differs from
    /// the last value seen.
    pub fn tick(&mut self, reading: Option<bool>) -> (refresh: bool)
        ensures
            refresh == old(self).sees_change(reading),
            *final(self) == old(self).after(reading),
    {
        match reading {
            Some(current) => {
                if current != self.last {
                    self.last = current;
                    true
                } else {
                    false
                }
            },
            None => false,
        }
    }
}

/// A poller that has taken a reading has seen its value, and sees no change
/// in the same value again: the tray is refreshed once for each change.
pub proof fn lemma_poller_refreshes_once_per_change(poller: TrayPoller, current: bool)
    ensures
        poller.sees_change(Some(current)) <==> current != poller.last,
        poller.after(Some(current)).last == current,
        !poller.after(Some(current)).sees_change(Some(current)),
{
}

/// A reading that failed leaves the poller as it was, and asks for no
/// refresh.
pub proof fn lemma_failed_reading_changes_nothing(poller: TrayPoller)
    ensures
        !poller.sees_change(None),
        poller.after(None) == poller,
{
}

/// A poller that looks at the session record after a start and again after
/// the stop that follows sees "active" and then "inactive", and asks for a
/// refresh each time the value is new to it.
pub proof fn lemma_poller_follows_start_and_stop(app: AppModel, poller: TrayPoller)
    requires
        app.session == SessionPhase::Idle,
    ensures
        ({
            let running = app.started();
            let seen = Some(running.state.remapping_enabled);
            let idle = running.stopped();
            let seen_after = Some(idle.state.remapping_enabled);
            &&& seen == Some(true)
            &&& poller.sees_change(seen) == !poller.last
            &&& poller.after(seen).last
            &&& seen_after == Some(false)
            &&& poller.after(seen).sees_change(seen_after)
            &&& !poller.after(seen).after(seen_after).last
        }),
{
}

} // verus!
