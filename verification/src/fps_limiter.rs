//! The game-speed limiter: which call the game loop is throttled at, and
//! at what tick rate. Waiting for the tick is left to the caller.

use vstd::prelude::*;

verus! {

/// Pick the throttle point from what the game is known to call every frame.
pub const LIMIT_AUTO: i32 = 0;

/// Throttle in `TestCooperativeLevel`.
pub const LIMIT_TEST_COOPERATIVE_LEVEL: i32 = 1;

/// Throttle in `BltFast`.
pub const LIMIT_BLTFAST: i32 = 2;

/// Throttle in `Unlock`.
pub const LIMIT_UNLOCK: i32 = 3;

/// Throttle in `PeekMessage`.
pub const LIMIT_PEEKMESSAGE: i32 = 4;

/// The limiter's configuration.
#[derive(Clone, Copy, PartialEq, Eq, Debug)]
pub struct Limiter {
    /// The throttle point, 0..=4.
    pub limiter_type: i32,
    /// Game ticks per second: -2 the refresh rate, 0 60 Hz emulation, -1
    /// disabled, a positive value that many.
    pub maxgameticks: i32,
    pub minfps: i32,
    /// The display refresh rate used for `-2` (60 when unknown).
    pub refresh_hz: i32,
    /// The tick rate the game loop is held to.
    pub tick_hz: i32,
}

/// The tick rate `maxgameticks` asks for: the refresh rate for -2, the value
/// itself when positive, 60 otherwise.
pub open spec fn tick_hz_spec(maxgameticks: i32, refresh_hz: i32) -> i32 {
    if maxgameticks == -2 {
        refresh_hz
    } else if maxgameticks > 0 {
        maxgameticks
    } else {
        60
    }
}

/// The limiter the configuration values describe: the throttle point
/// limited to 0..=4, the refresh rate (60 when not positive) and the tick
/// rate `tick_hz_spec` gives.
pub open spec fn limiter_for(maxgameticks: i32, limiter_type: i32, minfps: i32, refresh_rate: i32) -> Limiter {
    let hz: i32 = if refresh_rate > 0 { refresh_rate } else { 60 };
    Limiter {
        limiter_type: if limiter_type < 0 { 0 } else if limiter_type > 4 { 4 } else { limiter_type },
        maxgameticks,
        minfps,
        refresh_hz: hz,
        tick_hz: tick_hz_spec(maxgameticks, hz),
    }
}

/// (Re)initialises the limiter from the configuration values.
pub fn init(maxgameticks: i32, limiter_type: i32, minfps: i32, refresh_rate: i32) -> (l: Limiter)
    ensures
        l == limiter_for(maxgameticks, limiter_type, minfps, refresh_rate),
        l.tick_hz > 0,
{
    let t = if limiter_type < 0 {
        0
    } else if limiter_type > 4 {
        4
    } else {
        limiter_type
    };
    let hz = if refresh_rate > 0 { refresh_rate } else { 60 };
    let tick = if maxgameticks == -2 {
        hz
    } else if maxgameticks > 0 {
        maxgameticks
    } else {
        60
    };
    Limiter { limiter_type: t, maxgameticks, minfps, refresh_hz: hz, tick_hz: tick }
}

/// The configured throttle point.
pub fn configured_limiter_type(l: &Limiter) -> (t: i32)
    ensures
        t == l.limiter_type,
{
    l.limiter_type
}

/// The configured game tick rate setting.
pub fn maxgameticks(l: &Limiter) -> (m: i32)
    ensures
        m == l.maxgameticks,
{
    l.maxgameticks
}

/// The configured minimum frame rate.
pub fn minfps(l: &Limiter) -> (m: i32)
    ensures
        m == l.minfps,
{
    l.minfps
}

/// Whether the game loop is throttled at `method`: never when the limiter is
/// disabled (-1); in auto mode at `BltFast`; otherwise at the configured
/// method.
pub open spec fn applies_spec(l: Limiter, method: i32) -> bool {
    if l.maxgameticks == -1 {
        false
    } else if l.limiter_type == LIMIT_AUTO {
        method == LIMIT_BLTFAST
    } else {
        l.limiter_type == method
    }
}

/// Whether the current limiter type throttles at `method`.
pub fn limiter_applies(l: &Limiter, method: i32) -> (r: bool)
    ensures
        r == applies_spec(*l, method),
{
    if l.maxgameticks == -1 {
        return false;
    }
    if l.limiter_type == LIMIT_AUTO {
        method == LIMIT_BLTFAST
    } else {
        l.limiter_type == method
    }
}

/// At most one throttle point is active: two different methods never both
/// apply.
pub proof fn lemma_single_throttle_point(l: Limiter, a: i32, b: i32)
    requires
        a != b,
    ensures
        !(applies_spec(l, a) && applies_spec(l, b)),
{
}

} // verus!
