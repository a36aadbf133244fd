//! The command layer: recognises a command name and runs the matching
//! computation on already-decoded arguments and the caller's clock reading.
use vstd::prelude::*;
use crate::timing::{sched_timing_today, timing_spec, valid_instant, MAX_INSTANT, TimingError};

verus! {

/// The commands that the bridge serves.
#[derive(Clone, Copy, Debug, PartialEq, Eq, Structural)]
pub enum Command {
    /// Study-day timing for the present moment.
    TimingToday,
}

/// Why a request was refused.
#[derive(Clone, Copy, Debug, PartialEq, Eq, Structural)]
pub enum BridgeError {
    /// No command has this name: a fault of the calling program.
    UnknownCommand,
    /// The rollover value has no canonical hour.
    InvalidRollover,
    /// The creation instant or the clock reading lies outside
    /// 0..=`MAX_INSTANT`.
    InstantOutOfRange,
}

/// The arguments of the timing command.
#[derive(Clone, Copy, Debug, PartialEq, Eq, Structural)]
pub struct TimingTodayIn {
    /// When the collection was created, in seconds since the epoch.
    pub created_secs: i64,
    /// The zone at creation, in minutes west of UTC.
    pub created_mins_west: i32,
    /// The stored rollover value.
    pub rollover_hour: i8,
}

/// The answer of the timing command.
#[derive(Clone, Copy, Debug, PartialEq, Eq, Structural)]
pub struct TimingTodayOut {
    /// Study days passed since the collection was created.
    pub days_elapsed: u32,
    /// The instant at which the next study day begins.
    pub next_day_at: i64,
}

/// The name under which the timing command is called.
pub open spec fn timing_today_name() -> Seq<char> {
    "timingToday"@
}

/// The command that a name selects.
pub open spec fn command_spec(name: Seq<char>) -> Result<Command, BridgeError> {
    if name == timing_today_name() {
        Ok(Command::TimingToday)
    } else {
        Err(BridgeError::UnknownCommand)
    }
}

/// What the timing command answers for `input` at the clock reading
/// `now_secs` in a zone `now_mins_west` minutes west of UTC.
pub open spec fn timing_today_spec(input: TimingTodayIn, now_secs: int, now_mins_west: int) -> Result<TimingTodayOut, BridgeError> {
    if !valid_instant(input.created_secs as int) || !valid_instant(now_secs) {
        Err(BridgeError::InstantOutOfRange)
    } else {
        match timing_spec(
            input.created_secs as int,
            input.created_mins_west as int,
            now_secs,
            now_mins_west,
            input.rollover_hour as int,
        ) {
            Ok(t) => Ok(TimingTodayOut { days_elapsed: t.days_elapsed, next_day_at: t.next_day_at }),
            Err(_) => Err(BridgeError::InvalidRollover),
        }
    }
}

/// Looks up the command that `name` selects.
pub fn parse_command(name: &String) -> (r: Result<Command, BridgeError>)
    ensures
        r == command_spec(name@),
{
    let known: String = "timingToday".to_owned();
    proof {
        reveal_strlit("timingToday");
    }
    if *name == known {
        Ok(Command::TimingToday)
    } else {
        Err(BridgeError::UnknownCommand)
    }
}

/// Runs the timing command on decoded arguments and a clock reading.
pub fn timing_today(input: &TimingTodayIn, now_secs: i64, now_mins_west: i32) -> (r: Result<TimingTodayOut, BridgeError>)
    ensures
        r == timing_today_spec(*input, now_secs as int, now_mins_west as int),
{
    if input.created_secs < 0 || input.created_secs > MAX_INSTANT || now_secs < 0 || now_secs > MAX_INSTANT {
        return Err(BridgeError::InstantOutOfRange);
    }
    match sched_timing_today(
        input.created_secs,
        input.created_mins_west,
        now_secs,
        now_mins_west,
        input.rollover_hour,
    ) {
        Ok(t) => Ok(TimingTodayOut { days_elapsed: t.days_elapsed, next_day_at: t.next_day_at }),
        Err(TimingError::InvalidRollover) => Err(BridgeError::InvalidRollover),
    }
}

/// Runs `command` on decoded arguments and a clock reading.
pub fn dispatch(command: Command, input: &TimingTodayIn, now_secs: i64, now_mins_west: i32) -> (r: Result<TimingTodayOut, BridgeError>)
    ensures
        r == (match command {
            Command::TimingToday => timing_today_spec(*input, now_secs as int, now_mins_west as int),
        }),
{
    match command {
        Command::TimingToday => timing_today(input, now_secs, now_mins_west),
    }
}

/// Going through the bridge gives what a direct computation gives: for
/// accepted instants and a rollover with a canonical hour, the timing command
/// answers the engine's own result, field for field.
pub proof fn lemma_bridge_agrees(input: TimingTodayIn, now_secs: i64, now_mins_west: i32)
    requires
        valid_instant(input.created_secs as int),
        valid_instant(now_secs as int),
        timing_spec(input.created_secs as int, input.created_mins_west as int, now_secs as int, now_mins_west as int, input.rollover_hour as int) is Ok,
    ensures
        ({
            let direct = timing_spec(input.created_secs as int, input.created_mins_west as int, now_secs as int, now_mins_west as int, input.rollover_hour as int)->Ok_0;
            let bridged = timing_today_spec(input, now_secs as int, now_mins_west as int);
            &&& command_spec(timing_today_name()) == Ok::<Command, BridgeError>(Command::TimingToday)
            &&& bridged is Ok
            &&& bridged->Ok_0.days_elapsed == direct.days_elapsed
            &&& bridged->Ok_0.next_day_at == direct.next_day_at
        }),
{
}

} // verus!
