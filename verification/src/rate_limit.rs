//! The per-agent fixed-window rate limiter.
//!
//! A window opens at an agent's first call and holds until
//! `window_start + window_seconds` (saturating); a call at or after that
//! moment opens a new window with a zero count.
use vstd::prelude::*;

verus! {

/// The limiter is on only when both the cap and the window length are set.
pub open spec fn limiter_enabled(max_per_window: u32, window_seconds: u64) -> bool {
    max_per_window > 0 && window_seconds > 0
}

/// The first moment that no longer belongs to a window opened at `start`.
pub open spec fn window_end(start: u64, window_seconds: u64) -> u64 {
    if start + window_seconds > u64::MAX {
        u64::MAX
    } else {
        (start + window_seconds) as u64
    }
}

/// The stored window `w` still holds at `now`.
pub open spec fn window_current(w: Option<(u64, u32)>, window_seconds: u64, now: u64) -> bool {
    match w {
        Some((start, _)) => now < window_end(start, window_seconds),
        None => false,
    }
}

/// `a + b`, saturating at `u32::MAX`.
pub open spec fn sat_add_u32(a: u32, b: u32) -> u32 {
    if a + b > u32::MAX {
        u32::MAX
    } else {
        (a + b) as u32
    }
}

/// The window after a call of `requests` at `now`: the current window with
/// the count grown, or a new window opened at `now`.
pub open spec fn window_after(w: Option<(u64, u32)>, window_seconds: u64, now: u64, requests: u32) -> (
    u64,
    u32,
) {
    if window_current(w, window_seconds, now) {
        (w.unwrap().0, sat_add_u32(w.unwrap().1, requests))
    } else {
        (now, requests)
    }
}

/// A call of `requests` at `now` would push the window's count above the cap.
pub open spec fn exceeds_window(
    max_per_window: u32,
    window_seconds: u64,
    w: Option<(u64, u32)>,
    now: u64,
    requests: u32,
) -> bool {
    limiter_enabled(max_per_window, window_seconds) && window_after(
        w,
        window_seconds,
        now,
        requests,
    ).1 > max_per_window
}

/// How many more requests fit the agent's window at `now`: the full cap when
/// the limiter is off or no window holds, else what the count leaves.
pub open spec fn remaining_in_window(
    max_per_window: u32,
    window_seconds: u64,
    w: Option<(u64, u32)>,
    now: u64,
) -> u32 {
    if !limiter_enabled(max_per_window, window_seconds) || !window_current(w, window_seconds, now) {
        max_per_window
    } else if w.unwrap().1 >= max_per_window {
        0
    } else {
        (max_per_window - w.unwrap().1) as u32
    }
}

/// The window after a call of `requests` at `now`.
pub fn next_window(w: Option<(u64, u32)>, window_seconds: u64, now: u64, requests: u32) -> (r: (
    u64,
    u32,
))
    ensures
        r == window_after(w, window_seconds, now, requests),
{
    match w {
        Some((start, count)) => {
            let end = start.saturating_add(window_seconds);
            if now < end {
                (start, count.saturating_add(requests))
            } else {
                (now, requests)
            }
        },
        None => (now, requests),
    }
}

/// How many more requests fit the agent's window at `now`.
pub fn remaining_capacity(max_per_window: u32, window_seconds: u64, w: Option<(u64, u32)>, now: u64) -> (r:
    u32)
    ensures
        r == remaining_in_window(max_per_window, window_seconds, w, now),
{
    if max_per_window == 0 || window_seconds == 0 {
        return max_per_window;
    }
    match w {
        Some((start, count)) => {
            let end = start.saturating_add(window_seconds);
            if now < end {
                max_per_window.saturating_sub(count)
            } else {
                max_per_window
            }
        },
        None => max_per_window,
    }
}

/// A window's start only moves forward: whatever the clock reads, the window
/// after a call never starts before the stored one.
pub proof fn lemma_window_start_never_moves_back(
    start: u64,
    count: u32,
    window_seconds: u64,
    now: u64,
    requests: u32,
)
    ensures
        window_after(Some((start, count)), window_seconds, now, requests).0 >= start,
{
}

/// A call that the limiter accepts leaves the window's count within the cap.
pub proof fn lemma_accepted_call_stays_within_cap(
    max_per_window: u32,
    window_seconds: u64,
    w: Option<(u64, u32)>,
    now: u64,
    requests: u32,
)
    requires
        limiter_enabled(max_per_window, window_seconds),
        !exceeds_window(max_per_window, window_seconds, w, now, requests),
    ensures
        window_after(w, window_seconds, now, requests).1 <= max_per_window,
{
}

} // verus!
