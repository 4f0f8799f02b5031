use vstd::prelude::*;

verus! {

/// The TOTP time step that contains Unix time `now`: `floor(now / period)`.
pub open spec fn step_of(now: int, period: int) -> int {
    now / period
}

/// Seconds left in the window that contains `now`.
pub open spec fn remaining_of(now: int, period: int) -> int {
    if now % period == 0 {
        period
    } else {
        period - now % period
    }
}

/// Seconds until a code computed at `now` expires, always in `1..=period`.
pub fn window_remaining_seconds(now: u64, period: u64) -> (r: u64)
    requires
        period > 0,
    ensures
        r as int == remaining_of(now as int, period as int),
        r as int == period - (now % period) as int,
        1 <= r <= period,
{
    period - now % period
}

/// The challenge sent to the OATH applet for a code at Unix time `now`.
pub fn time_step(now: u64, period: u64) -> (r: u64)
    requires
        period > 0,
    ensures
        r as int == step_of(now as int, period as int),
{
    now / period
}

/// What a one-second tick asks of the UI.
#[derive(Clone, Copy, Debug, PartialEq, Eq, Structural)]
pub enum TickAction {
    /// Only the remaining-lifetime display changes.
    Redraw { remaining: u64 },
    /// A new window started: the codes must be computed again.
    Refresh { remaining: u64 },
}

/// Decides what the tick at `now` asks for, given the time of the last
/// snapshot. Codes are recomputed only when the time step changed.
pub fn on_tick(last_snapshot_at: u64, now: u64, period: u64) -> (r: TickAction)
    requires
        period > 0,
    ensures
        step_of(now as int, period as int) != step_of(last_snapshot_at as int, period as int)
            ==> r == (TickAction::Refresh {
            remaining: remaining_of(now as int, period as int) as u64,
        }),
        step_of(now as int, period as int) == step_of(last_snapshot_at as int, period as int)
            ==> r == (TickAction::Redraw {
            remaining: remaining_of(now as int, period as int) as u64,
        }),
{
    let remaining = window_remaining_seconds(now, period);
    if time_step(now, period) != time_step(last_snapshot_at, period) {
        TickAction::Refresh { remaining }
    } else {
        TickAction::Redraw { remaining }
    }
}

/// The window's remaining seconds lie in `1..=period` for every instant, and
/// equal `period - now mod period`, or `period` where that is zero.
pub proof fn lemma_remaining_in_window(now: int, period: int)
    requires
        now >= 0,
        period > 0,
    ensures
        1 <= remaining_of(now, period) <= period,
        now % period != 0 ==> remaining_of(now, period) == period - now % period,
        now % period == 0 ==> remaining_of(now, period) == period,
{
}

} // verus!
