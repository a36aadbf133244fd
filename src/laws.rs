//! Properties of the timing computation that relate several of its results.
use vstd::prelude::*;
use vstd::arithmetic::div_mod::{
    lemma_div_is_ordered,
    lemma_fundamental_div_mod,
    lemma_fundamental_div_mod_converse_div,
};
use crate::timing::{
    canonical_hour,
    days_elapsed_spec,
    local_day,
    local_secs,
    next_day_at_spec,
    raw_days_elapsed,
    rollover_encodable,
    study_day,
    study_day_start,
    timing_spec,
    valid_instant,
    SchedTimingToday,
    TimingError,
    SECS_PER_DAY,
    SECS_PER_HOUR,
};

verus! {

/// The local seconds of an accepted instant and an `i32` offset fit the range
/// that the day arithmetic is proved on.
proof fn lemma_local_range(secs: i64, mins_west: i32, rollover: int)
    requires
        valid_instant(secs as int),
        0 <= rollover < 24,
    ensures
        -1600000 <= study_day(secs as int, mins_west as int, rollover) <= 4600000,
        -1600000 <= local_day(secs as int, mins_west as int) <= 4600000,
{
    let l = local_secs(secs as int, mins_west as int);
    assert(-1600000 <= (l - rollover * SECS_PER_HOUR) / 86400 <= 4600000) by (nonlinear_arith)
        requires
            -129000000000 <= l <= 390000000000,
            0 <= rollover < 24,
    ;
    assert(-1600000 <= l / 86400 <= 4600000) by (nonlinear_arith)
        requires
            -129000000000 <= l <= 390000000000,
    ;
}

/// Both fields of the result fit their machine types.
proof fn lemma_result_fits(created: i64, created_mins_west: i32, now: i64, now_mins_west: i32, rollover: int)
    requires
        valid_instant(created as int),
        valid_instant(now as int),
        0 <= rollover < 24,
    ensures
        0 <= days_elapsed_spec(created as int, created_mins_west as int, now as int, now_mins_west as int, rollover) <= u32::MAX,
        i64::MIN <= next_day_at_spec(now as int, now_mins_west as int, rollover) <= i64::MAX,
{
    lemma_local_range(created, created_mins_west, rollover);
    lemma_local_range(now, now_mins_west, rollover);
}

/// Determinism: two computations on the same arguments give the same result.
pub proof fn lemma_determinism(
    created_secs: i64,
    created_mins_west: i32,
    now_secs: i64,
    now_mins_west: i32,
    rollover_hour: i8,
    first: Result<SchedTimingToday, TimingError>,
    second: Result<SchedTimingToday, TimingError>,
)
    requires
        first == timing_spec(created_secs as int, created_mins_west as int, now_secs as int, now_mins_west as int, rollover_hour as int),
        second == timing_spec(created_secs as int, created_mins_west as int, now_secs as int, now_mins_west as int, rollover_hour as int),
    ensures
        first == second,
{
}

/// Monotonicity: with creation, rollover and the current zone fixed, a later
/// `now` never gives fewer days elapsed nor an earlier next boundary.
pub proof fn lemma_monotone_in_now(
    created_secs: i64,
    created_mins_west: i32,
    earlier: i64,
    later: i64,
    now_mins_west: i32,
    rollover_hour: i8,
)
    requires
        valid_instant(created_secs as int),
        valid_instant(earlier as int),
        valid_instant(later as int),
        earlier <= later,
        rollover_encodable(rollover_hour as int),
    ensures
        ({
            let a = timing_spec(created_secs as int, created_mins_west as int, earlier as int, now_mins_west as int, rollover_hour as int);
            let b = timing_spec(created_secs as int, created_mins_west as int, later as int, now_mins_west as int, rollover_hour as int);
            &&& a is Ok
            &&& b is Ok
            &&& a->Ok_0.days_elapsed <= b->Ok_0.days_elapsed
            &&& a->Ok_0.next_day_at <= b->Ok_0.next_day_at
        }),
{
    let r = canonical_hour(rollover_hour as int);
    lemma_result_fits(created_secs, created_mins_west, earlier, now_mins_west, r);
    lemma_result_fits(created_secs, created_mins_west, later, now_mins_west, r);
    let off = now_mins_west as int * 60 + r * SECS_PER_HOUR;
    lemma_div_is_ordered(earlier as int - off, later as int - off, SECS_PER_DAY as int);
    let k1 = study_day(earlier as int, now_mins_west as int, r);
    let k2 = study_day(later as int, now_mins_west as int, r);
    assert(study_day_start(k1 + 1, now_mins_west as int, r) <= study_day_start(k2 + 1, now_mins_west as int, r)) by (nonlinear_arith)
        requires
            k1 <= k2,
    ;
}

/// Boundary inclusion: an instant exactly on a rollover boundary starts the
/// new study day. The instant one second earlier ends the previous day there,
/// the boundary itself counts one day more than that instant (once any day
/// counts), and its next boundary is a full day later.
pub proof fn lemma_boundary_inclusion(
    created_secs: i64,
    created_mins_west: i32,
    now_secs: i64,
    now_mins_west: i32,
    rollover_hour: i8,
)
    requires
        valid_instant(created_secs as int),
        valid_instant(now_secs as int),
        valid_instant(now_secs - 1),
        rollover_encodable(rollover_hour as int),
        (local_secs(now_secs as int, now_mins_west as int) - canonical_hour(rollover_hour as int) * SECS_PER_HOUR) % (SECS_PER_DAY as int) == 0,
    ensures
        ({
            let r = canonical_hour(rollover_hour as int);
            let at = timing_spec(created_secs as int, created_mins_west as int, now_secs as int, now_mins_west as int, rollover_hour as int);
            let before = timing_spec(created_secs as int, created_mins_west as int, now_secs - 1, now_mins_west as int, rollover_hour as int);
            &&& study_day(now_secs as int, now_mins_west as int, r) == study_day(now_secs - 1, now_mins_west as int, r) + 1
            &&& study_day_start(study_day(now_secs as int, now_mins_west as int, r), now_mins_west as int, r) == now_secs
            &&& at is Ok && before is Ok
            &&& before->Ok_0.next_day_at == now_secs
            &&& at->Ok_0.next_day_at == now_secs + SECS_PER_DAY
            &&& (created_secs < now_secs && raw_days_elapsed(created_secs as int, created_mins_west as int, now_secs - 1, now_mins_west as int, r) >= 0 ==>
                at->Ok_0.days_elapsed == before->Ok_0.days_elapsed + 1)
        }),
{
    let r = canonical_hour(rollover_hour as int);
    let prev = (now_secs - 1) as i64;
    lemma_result_fits(created_secs, created_mins_west, now_secs, now_mins_west, r);
    lemma_result_fits(created_secs, created_mins_west, prev, now_mins_west, r);
    let x = local_secs(now_secs as int, now_mins_west as int) - r * SECS_PER_HOUR;
    lemma_fundamental_div_mod(x, SECS_PER_DAY as int);
    let q = x / (SECS_PER_DAY as int);
    lemma_fundamental_div_mod_converse_div(x - 1, SECS_PER_DAY as int, q - 1, SECS_PER_DAY - 1);
}

/// The local wall-clock second at which the collection's first study day
/// begins: the rollover hour of the local calendar day of creation.
pub open spec fn local_creation_day_start(created: int, created_mins_west: int, rollover: int) -> int {
    local_day(created, created_mins_west) * SECS_PER_DAY + rollover * SECS_PER_HOUR
}

/// Same-offset reduction: with one zone for creation and now, the days elapsed
/// are the whole days from the local start of the creation day to local now,
/// wherever that count is not negative and now does not precede creation.
pub proof fn lemma_same_offset_reduction(
    created_secs: i64,
    now_secs: i64,
    mins_west: i32,
    rollover_hour: i8,
)
    requires
        valid_instant(created_secs as int),
        valid_instant(now_secs as int),
        created_secs <= now_secs,
        rollover_encodable(rollover_hour as int),
        (local_secs(now_secs as int, mins_west as int) - local_creation_day_start(created_secs as int, mins_west as int, canonical_hour(rollover_hour as int))) / (SECS_PER_DAY as int) >= 0,
    ensures
        ({
            let r = timing_spec(created_secs as int, mins_west as int, now_secs as int, mins_west as int, rollover_hour as int);
            &&& r is Ok
            &&& r->Ok_0.days_elapsed as int == (local_secs(now_secs as int, mins_west as int) - local_creation_day_start(created_secs as int, mins_west as int, canonical_hour(rollover_hour as int))) / (SECS_PER_DAY as int)
        }),
{
    let r = canonical_hour(rollover_hour as int);
    lemma_result_fits(created_secs, mins_west, now_secs, mins_west, r);
    let x = local_secs(now_secs as int, mins_west as int) - r * SECS_PER_HOUR;
    let c = local_day(created_secs as int, mins_west as int);
    lemma_fundamental_div_mod(x, SECS_PER_DAY as int);
    lemma_fundamental_div_mod_converse_div(x - c * SECS_PER_DAY, SECS_PER_DAY as int, x / (SECS_PER_DAY as int) - c, x % (SECS_PER_DAY as int));
}

} // verus!
