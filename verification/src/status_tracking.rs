//! Tracking of the application's state for the status display, and the count
//! of running operations that keep the application from quitting.
//!
//! Points in time are nanoseconds of a monotonic clock, read by the caller.

use vstd::prelude::*;

verus! {

/// After more than this many nanoseconds (two minutes) without any
/// operation, a hidden interface quits.
pub const IDLE_QUIT_NANOS: u64 = 120_000_000_000;

/// Whether an application idle since `idle_since` has been idle for more than
/// two minutes at time `now`.
pub open spec fn idle_expired(idle_since: Option<u64>, now: u64) -> bool {
    match idle_since {
        Some(t) => now > t && now - t > IDLE_QUIT_NANOS,
        None => false,
    }
}

/// The tracked state of the application.
pub struct StatusTracking {
    on_battery_since: Option<u64>,
    metered_since: Option<u64>,
    daemon_running: bool,
    quit_inhibit_count: usize,
    idle_since: Option<u64>,
}

/// What the application does after a guard ends.
#[derive(Clone, Copy, Debug, PartialEq, Eq, Structural)]
pub struct GuardRelease {
    /// The application is to quit: no guard is left and no window shows.
    pub quit: bool,
    /// The release had no guard to end, which is an error in the caller.
    pub unbalanced: bool,
}

/// `b` is `a` with one more quit guard held.
pub open spec fn acquired(a: StatusTracking, b: StatusTracking) -> bool {
    &&& b.well_formed()
    &&& b.inhibit_count() == a.inhibit_count() + 1
    &&& b.idle_since_spec() is None
    &&& b.battery_since() == a.battery_since()
    &&& b.metered() == a.metered()
    &&& b.daemon() == a.daemon()
}

/// `b` is `a` after one quit guard ends at time `now`, and `r` is what the
/// application does next.
pub open spec fn released(a: StatusTracking, b: StatusTracking, now: u64, window_visible: bool, r: GuardRelease) -> bool {
    &&& b.well_formed()
    &&& a.inhibit_count() > 0 ==> {
        &&& b.inhibit_count() == a.inhibit_count() - 1
        &&& !r.unbalanced
        &&& b.inhibit_count() == 0 ==> b.idle_since_spec() == Some(now)
        &&& b.inhibit_count() > 0 ==> b.idle_since_spec() == a.idle_since_spec()
    }
    &&& a.inhibit_count() == 0 ==> {
        &&& b.inhibit_count() == 0
        &&& r.unbalanced
        &&& b.idle_since_spec() == a.idle_since_spec()
    }
    &&& r.quit == (b.inhibit_count() == 0 && !window_visible)
    &&& b.battery_since() == a.battery_since()
    &&& b.metered() == a.metered()
    &&& b.daemon() == a.daemon()
}

/// `b` is `a` after the regular update at time `now`, which makes the
/// application quit when `quit` holds.
pub open spec fn updated(a: StatusTracking, b: StatusTracking, now: u64, window_visible: bool, quit: bool) -> bool {
    &&& b.well_formed()
    &&& b.inhibit_count() == a.inhibit_count()
    &&& quit == (a.inhibit_count() == 0 && !window_visible && idle_expired(a.idle_since_spec(), now))
    &&& (a.inhibit_count() == 0 && a.idle_since_spec() is None) ==> b.idle_since_spec() == Some(now)
    &&& !(a.inhibit_count() == 0 && a.idle_since_spec() is None) ==> b.idle_since_spec() == a.idle_since_spec()
    &&& b.battery_since() == a.battery_since()
    &&& b.metered() == a.metered()
    &&& b.daemon() == a.daemon()
}

/// A backup operation holds a quit guard.
pub open spec fn operation_running(s: StatusTracking) -> bool {
    s.inhibit_count() > 0
}

impl StatusTracking {
    /// Since when the device runs on battery, if it does.
    pub closed spec fn battery_since(self) -> Option<u64> {
        self.on_battery_since
    }

    /// Since when the network connection is metered, if it is.
    pub closed spec fn metered(self) -> Option<u64> {
        self.metered_since
    }

    /// The background process that starts scheduled backups is running.
    pub closed spec fn daemon(self) -> bool {
        self.daemon_running
    }

    /// The number of quit guards now held.
    pub closed spec fn inhibit_count(self) -> nat {
        self.quit_inhibit_count as nat
    }

    /// Since when no guard has been held, if none is.
    pub closed spec fn idle_since_spec(self) -> Option<u64> {
        self.idle_since
    }

    /// Nothing is idle while a guard is held.
    pub closed spec fn well_formed(self) -> bool {
        self.quit_inhibit_count > 0 ==> self.idle_since is None
    }

    /// Fresh tracking at time `now`: no guard, idle since `now`, on mains,
    /// unmetered, no background process known.
    pub fn new(now: u64) -> (s: Self)
        ensures
            s.well_formed(),
            s.inhibit_count() == 0,
            s.idle_since_spec() == Some(now),
            s.battery_since() is None,
            s.metered() is None,
            !s.daemon(),
    {
        StatusTracking {
            on_battery_since: None,
            metered_since: None,
            daemon_running: false,
            quit_inhibit_count: 0,
            idle_since: Some(now),
        }
    }

    /// The number of quit guards now held.
    pub fn quit_inhibit_count(&self) -> (n: usize)
        ensures
            n == self.inhibit_count(),
    {
        self.quit_inhibit_count
    }

    /// Takes a quit guard: one more operation keeps the application running,
    /// which is then no longer idle.
    pub fn quit_guard_acquire(&mut self)
        requires
            old(self).inhibit_count() < usize::MAX,
        ensures
            acquired(*old(self), *final(self)),
    {
        self.quit_inhibit_count = self.quit_inhibit_count + 1;
        self.idle_since = None;
    }

    /// Ends a quit guard at time `now`. The last guard to end makes the
    /// application idle, and a hidden application then quits. Ending a guard
    /// when none is held changes nothing and is reported.
    pub fn quit_guard_release(&mut self, now: u64, window_visible: bool) -> (r: GuardRelease)
        requires
            old(self).well_formed(),
        ensures
            released(*old(self), *final(self), now, window_visible, r),
    {
        let unbalanced = if self.quit_inhibit_count > 0 {
            self.quit_inhibit_count = self.quit_inhibit_count - 1;
            if self.quit_inhibit_count == 0 {
                self.idle_since = Some(now);
            }
            false
        } else {
            true
        };
        GuardRelease { quit: self.quit_inhibit_count == 0 && !window_visible, unbalanced }
    }

    /// The regular update at time `now`: with no guard held, a hidden
    /// application that has been idle for more than two minutes quits, and an
    /// idle time that was never set starts now.
    pub fn regular_update(&mut self, now: u64, window_visible: bool) -> (quit: bool)
        requires
            old(self).well_formed(),
        ensures
            updated(*old(self), *final(self), now, window_visible, quit),
    {
        if self.quit_inhibit_count == 0 {
            match self.idle_since {
                Some(t) => now > t && now - t > IDLE_QUIT_NANOS && !window_visible,
                None => {
                    self.idle_since = Some(now);
                    false
                },
            }
        } else {
            false
        }
    }

    /// Since when the device runs on battery, if it does.
    pub fn on_battery_since(&self) -> (r: Option<u64>)
        ensures
            r == self.battery_since(),
    {
        self.on_battery_since
    }

    /// Since when the network connection is metered, if it is.
    pub fn metered_since(&self) -> (r: Option<u64>)
        ensures
            r == self.metered(),
    {
        self.metered_since
    }

    /// Whether the background process that starts scheduled backups runs.
    pub fn daemon_running(&self) -> (r: bool)
        ensures
            r == self.daemon(),
    {
        self.daemon_running
    }

    /// Records whether the background process runs.
    pub fn set_daemon_running(&mut self, running: bool)
        ensures
            final(self).daemon() == running,
            final(self).battery_since() == old(self).battery_since(),
            final(self).metered() == old(self).metered(),
            final(self).inhibit_count() == old(self).inhibit_count(),
            final(self).idle_since_spec() == old(self).idle_since_spec(),
            final(self).well_formed() == old(self).well_formed(),
    {
        self.daemon_running = running;
    }

    /// Records whether the network connection is metered, at time `now`.
    pub fn set_network_metered(&mut self, metered: bool, now: u64)
        ensures
            final(self).metered() == (if metered { Some(now) } else { None::<u64> }),
            final(self).battery_since() == old(self).battery_since(),
            final(self).daemon() == old(self).daemon(),
            final(self).inhibit_count() == old(self).inhibit_count(),
            final(self).idle_since_spec() == old(self).idle_since_spec(),
            final(self).well_formed() == old(self).well_formed(),
    {
        self.metered_since = if metered { Some(now) } else { None };
    }

    /// Records whether the device runs on battery, at time `now`.
    pub fn set_on_battery(&mut self, on_battery: bool, now: u64)
        ensures
            final(self).battery_since() == (if on_battery { Some(now) } else { None::<u64> }),
            final(self).metered() == old(self).metered(),
            final(self).daemon() == old(self).daemon(),
            final(self).inhibit_count() == old(self).inhibit_count(),
            final(self).idle_since_spec() == old(self).idle_since_spec(),
            final(self).well_formed() == old(self).well_formed(),
    {
        self.on_battery_since = if on_battery { Some(now) } else { None };
    }
}

/// Whether a backup operation holds a quit guard.
pub fn is_borg_operation_running(status: &StatusTracking) -> (r: bool)
    ensures
        r == operation_running(*status),
{
    status.quit_inhibit_count() > 0
}

/// Taking a quit guard and ending it again leaves as many guards held as
/// before, and the end is balanced. With no guard held before, the
/// application is idle from the moment the guard ended, no operation runs,
/// and it quits exactly when its window is hidden. (A guard can be taken
/// while fewer than `usize::MAX` are held.)
pub proof fn law_guard_release_restores_count(
    s0: StatusTracking,
    s1: StatusTracking,
    s2: StatusTracking,
    now: u64,
    window_visible: bool,
    r: GuardRelease,
)
    requires
        s0.inhibit_count() < usize::MAX,
        acquired(s0, s1),
        released(s1, s2, now, window_visible, r),
    ensures
        s2.inhibit_count() == s0.inhibit_count(),
        !r.unbalanced,
        s0.inhibit_count() == 0 ==> s2.idle_since_spec() == Some(now) && !operation_running(s2),
        s0.inhibit_count() == 0 ==> r.quit == !window_visible,
        s0.inhibit_count() > 0 ==> !r.quit,
{
}

/// Ending a guard never takes the count below zero: with none held, the
/// count stays at zero and the end is reported as unbalanced.
pub proof fn law_release_never_below_zero(
    s0: StatusTracking,
    s1: StatusTracking,
    now: u64,
    window_visible: bool,
    r: GuardRelease,
)
    requires
        s0.inhibit_count() == 0,
        released(s0, s1, now, window_visible, r),
    ensures
        s1.inhibit_count() == 0,
        r.unbalanced,
{
}

/// While a quit guard is held, a backup operation counts as running.
pub proof fn law_guard_means_running(s0: StatusTracking, s1: StatusTracking)
    requires
        acquired(s0, s1),
    ensures
        operation_running(s1),
{
}

/// The application never quits while a quit guard is held: neither at the
/// regular update nor when another guard ends.
pub proof fn law_no_quit_while_guarded(
    a: StatusTracking,
    b: StatusTracking,
    now: u64,
    window_visible: bool,
    quit: bool,
    r: GuardRelease,
)
    requires
        operation_running(a),
    ensures
        updated(a, b, now, window_visible, quit) ==> !quit,
        released(a, b, now, window_visible, r) && operation_running(b) ==> !r.quit,
{
}

/// A visible application never quits by itself.
pub proof fn law_visible_never_quits(
    a: StatusTracking,
    b: StatusTracking,
    now: u64,
    quit: bool,
    r: GuardRelease,
)
    ensures
        updated(a, b, now, true, quit) ==> !quit,
        released(a, b, now, true, r) ==> !r.quit,
{
}

} // verus!
