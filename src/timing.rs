//! The day-boundary engine: a pure function of two instants, their time zone
//! offsets and the rollover hour.
use vstd::prelude::*;

verus! {

/// Seconds in one day.
pub const SECS_PER_DAY: i64 = 86400;

/// Seconds in one hour.
pub const SECS_PER_HOUR: i64 = 3600;

/// The latest instant the engine accepts: 9999-12-31T23:59:59Z.
pub const MAX_INSTANT: i64 = 253402300799;

/// An instant the engine accepts: seconds since the Unix epoch, not negative,
/// and not past the end of year 9999.
pub open spec fn valid_instant(secs: int) -> bool {
    0 <= secs <= MAX_INSTANT
}

/// Wall-clock seconds at `secs` in a zone `mins_west` minutes west of UTC.
pub open spec fn local_secs(secs: int, mins_west: int) -> int {
    secs - mins_west * 60
}

/// The local calendar day (days since the epoch, local midnight to midnight).
pub open spec fn local_day(secs: int, mins_west: int) -> int {
    local_secs(secs, mins_west) / (SECS_PER_DAY as int)
}

/// A stored rollover value that has a canonical hour: -23 to 23.
pub open spec fn rollover_encodable(hour: int) -> bool {
    -23 <= hour <= 23
}

/// The canonical hour of a stored rollover value: a negative value counts back
/// from the following midnight, so -1 means 23:00.
pub open spec fn canonical_hour(hour: int) -> int {
    if hour < 0 {
        24 + hour
    } else {
        hour
    }
}

/// Index of the study day that holds `secs`: study day `k` runs from
/// `rollover`:00 of local day `k` up to `rollover`:00 of local day `k + 1`.
pub open spec fn study_day(secs: int, mins_west: int, rollover: int) -> int {
    (local_secs(secs, mins_west) - rollover * SECS_PER_HOUR) / (SECS_PER_DAY as int)
}

/// The instant at which study day `k` begins, seen from a zone `mins_west`
/// minutes west of UTC.
pub open spec fn study_day_start(k: int, mins_west: int, rollover: int) -> int {
    k * SECS_PER_DAY + rollover * SECS_PER_HOUR + mins_west * 60
}

/// The first rollover boundary strictly after `now`.
pub open spec fn next_day_at_spec(now: int, mins_west: int, rollover: int) -> int {
    study_day_start(study_day(now, mins_west, rollover) + 1, mins_west, rollover)
}

/// Study days passed since creation, before clamping: the study day of `now`
/// less the local calendar day of creation. The creation day thus counts as
/// day 0 until its own rollover boundary has passed on the following day.
pub open spec fn raw_days_elapsed(
    created: int,
    created_mins_west: int,
    now: int,
    now_mins_west: int,
    rollover: int,
) -> int {
    study_day(now, now_mins_west, rollover) - local_day(created, created_mins_west)
}

/// Days elapsed: zero when `now` precedes creation, else the raw count
/// clamped at zero.
pub open spec fn days_elapsed_spec(
    created: int,
    created_mins_west: int,
    now: int,
    now_mins_west: int,
    rollover: int,
) -> int {
    let d = raw_days_elapsed(created, created_mins_west, now, now_mins_west, rollover);
    if now < created || d < 0 {
        0
    } else {
        d
    }
}

/// The result of the timing computation.
#[derive(Clone, Copy, Debug, PartialEq, Eq, Structural)]
pub struct SchedTimingToday {
    /// Study days passed since the collection was created.
    pub days_elapsed: u32,
    /// The instant at which the next study day begins.
    pub next_day_at: i64,
}

/// Why the timing computation refused its input.
#[derive(Clone, Copy, Debug, PartialEq, Eq, Structural)]
pub enum TimingError {
    /// The rollover value lies outside -23..=23 and has no canonical hour.
    InvalidRollover,
}

/// What the engine returns for inputs that `valid_instant` admits.
pub open spec fn timing_spec(
    created: int,
    created_mins_west: int,
    now: int,
    now_mins_west: int,
    rollover_hour: int,
) -> Result<SchedTimingToday, TimingError> {
    if !rollover_encodable(rollover_hour) {
        Err(TimingError::InvalidRollover)
    } else {
        let r = canonical_hour(rollover_hour);
        Ok(
            SchedTimingToday {
                days_elapsed: days_elapsed_spec(
                    created,
                    created_mins_west,
                    now,
                    now_mins_west,
                    r,
                ) as u32,
                next_day_at: next_day_at_spec(now, now_mins_west, r) as i64,
            },
        )
    }
}

/// Maps a stored rollover value to its canonical hour in 0..=23, or `None`
/// where it has none.
pub fn normalized_rollover_hour(hour: i8) -> (r: Option<u8>)
    ensures
        r is Some <==> rollover_encodable(hour as int),
        r is Some ==> r->0 as int == canonical_hour(hour as int) && r->0 < 24,
{
    if hour < -23 || hour > 23 {
        None
    } else if hour < 0 {
        Some((24 + hour) as u8)
    } else {
        Some(hour as u8)
    }
}

/// `x` divided by one day, rounded toward negative infinity.
fn floor_div_day(x: i64) -> (q: i64)
    ensures
        q as int == x as int / (SECS_PER_DAY as int),
{
    match x.checked_div_euclid(SECS_PER_DAY) {
        Some(q) => q,
        None => 0,
    }
}

/// Computes the study day that `now_secs` falls into, counted from the local
/// calendar day of `created_secs`, and the instant at which the next study day
/// begins. Each instant is read in its own zone. A `now_secs` before
/// `created_secs` counts zero days.
pub fn sched_timing_today(
    created_secs: i64,
    created_mins_west: i32,
    now_secs: i64,
    now_mins_west: i32,
    rollover_hour: i8,
) -> (r: Result<SchedTimingToday, TimingError>)
    requires
        valid_instant(created_secs as int),
        valid_instant(now_secs as int),
    ensures
        r == timing_spec(
            created_secs as int,
            created_mins_west as int,
            now_secs as int,
            now_mins_west as int,
            rollover_hour as int,
        ),
{
    let rollover = match normalized_rollover_hour(rollover_hour) {
        Some(h) => h as i64,
        None => {
            return Err(TimingError::InvalidRollover);
        },
    };
    let created_local: i64 = created_secs - (created_mins_west as i64) * 60;
    let now_local: i64 = now_secs - (now_mins_west as i64) * 60;
    let created_day: i64 = floor_div_day(created_local);
    let today: i64 = floor_div_day(now_local - rollover * SECS_PER_HOUR);
    proof {
        lemma_day_bounds(created_local as int);
        lemma_day_bounds(now_local - rollover * SECS_PER_HOUR);
    }
    let next_day_at: i64 = (today + 1) * SECS_PER_DAY + rollover * SECS_PER_HOUR + (now_mins_west
        as i64) * 60;
    let days_elapsed: u32 = if now_secs < created_secs || today < created_day {
        0
    } else {
        (today - created_day) as u32
    };
    Ok(SchedTimingToday { days_elapsed, next_day_at })
}

/// Local seconds within the engine's range stay on days -1600000..=4600000.
proof fn lemma_day_bounds(x: int)
    requires
        -131000000000 <= x <= 390000000000,
    ensures
        -1600000 <= x / (SECS_PER_DAY as int) <= 4600000,
{
    assert(-1600000 <= x / 86400 <= 4600000) by (nonlinear_arith)
        requires
            -131000000000 <= x <= 390000000000,
    ;
}

} // verus!
