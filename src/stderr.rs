//! The cleaner for the toolchain's human-readable standard error.
//!
//! The toolchain narrates progress as "Compiling ...", then "Finished ...",
//! then "Running ...". Narrative lines become low-priority `Wait` events;
//! anything unexpected becomes an `Error` event, and once the narrative is
//! lost (`Desync`) every later line is an error.
use vstd::prelude::*;
use crate::protocol::{LogItemBare, LogItemLevel};
use crate::text::{is_prefix, starts_with, trim, trimmed_of};

verus! {

/// Where the cleaner stands in the narrative.
#[derive(Clone, Copy, Debug, Eq, PartialEq, Structural)]
pub enum StdErrState {
    First,
    Sync,
    Desync,
    Running,
}

/// Next state, and the level of the event for the line (none: the line is dropped),
/// given the line with surrounding white space removed.
pub open spec fn step_spec(state: StdErrState, t: Seq<char>) -> (StdErrState, Option<LogItemLevel>) {
    match state {
        StdErrState::First => {
            if is_prefix("Compiling "@, t) {
                (StdErrState::First, Some(LogItemLevel::Wait))
            } else if is_prefix("Finished "@, t) {
                (StdErrState::Running, None)
            } else if is_prefix("error: could not compile "@, t) {
                (StdErrState::First, Some(LogItemLevel::Error))
            } else {
                (StdErrState::Desync, Some(LogItemLevel::Error))
            }
        },
        StdErrState::Running => {
            if is_prefix("Running "@, t) {
                (StdErrState::Sync, Some(LogItemLevel::Wait))
            } else {
                (StdErrState::Desync, Some(LogItemLevel::Error))
            }
        },
        StdErrState::Sync => (StdErrState::Sync, Some(LogItemLevel::Error)),
        StdErrState::Desync => (StdErrState::Desync, Some(LogItemLevel::Error)),
    }
}

/// The state after feeding trimmed lines one by one.
pub open spec fn run_spec(state: StdErrState, lines: Seq<Seq<char>>) -> StdErrState
    decreases lines.len(),
{
    if lines.len() == 0 {
        state
    } else {
        run_spec(step_spec(state, lines[0]).0, lines.drop_first())
    }
}

impl StdErrState {
    /// The state of a fresh run.
    pub fn new() -> (r: StdErrState)
        ensures
            r == StdErrState::First,
    {
        StdErrState::First
    }

    /// Decides on one line, given with surrounding white space already removed.
    pub fn step(self, trimmed: &str) -> (r: (StdErrState, Option<LogItemLevel>))
        ensures
            r == step_spec(self, trimmed@),
    {
        match self {
            StdErrState::First => {
                if starts_with(trimmed, "Compiling ") {
                    (StdErrState::First, Some(LogItemLevel::Wait))
                } else if starts_with(trimmed, "Finished ") {
                    (StdErrState::Running, None)
                } else if starts_with(trimmed, "error: could not compile ") {
                    (StdErrState::First, Some(LogItemLevel::Error))
                } else {
                    (StdErrState::Desync, Some(LogItemLevel::Error))
                }
            },
            StdErrState::Running => {
                if starts_with(trimmed, "Running ") {
                    (StdErrState::Sync, Some(LogItemLevel::Wait))
                } else {
                    (StdErrState::Desync, Some(LogItemLevel::Error))
                }
            },
            StdErrState::Sync => (StdErrState::Sync, Some(LogItemLevel::Error)),
            StdErrState::Desync => (StdErrState::Desync, Some(LogItemLevel::Error)),
        }
    }

    /// Feeds one raw line: the next state, and the event for the line, whose
    /// text is the line with surrounding white space removed.
    pub fn feed(self, line: &str) -> (r: (StdErrState, Option<LogItemBare>))
        ensures
            r.0 == step_spec(self, trimmed_of(line@)).0,
            match step_spec(self, trimmed_of(line@)).1 {
                None => r.1 is None,
                Some(level) => r.1 is Some && r.1->0.level == level && r.1->0.line@ == trimmed_of(
                    line@,
                ),
            },
    {
        let trimmed = trim(line);
        let (next, level) = self.step(trimmed.as_str());
        match level {
            None => (next, None),
            Some(level) => (next, Some(LogItemBare { level, line: trimmed })),
        }
    }
}

/// Once the narrative is lost, every line is an error and the cleaner stays lost.
pub proof fn lemma_desync_absorbing(t: Seq<char>)
    ensures
        step_spec(StdErrState::Desync, t) == (StdErrState::Desync, Some(LogItemLevel::Error)),
{
}

/// After the program started running, every line is an error and the state stays `Sync`.
pub proof fn lemma_sync_absorbing(t: Seq<char>)
    ensures
        step_spec(StdErrState::Sync, t) == (StdErrState::Sync, Some(LogItemLevel::Error)),
{
}

/// From `Desync`, no sequence of lines leads anywhere else.
pub proof fn lemma_desync_forever(lines: Seq<Seq<char>>)
    ensures
        run_spec(StdErrState::Desync, lines) == StdErrState::Desync,
    decreases lines.len(),
{
    if lines.len() > 0 {
        lemma_desync_forever(lines.drop_first());
    }
}

/// The states move forward only: no line leads back to `First` from any other
/// state, `Running` lasts one line, and nothing leads out of `Sync` or `Desync`.
pub proof fn lemma_monotone(state: StdErrState, t: Seq<char>)
    ensures
        state != StdErrState::First ==> step_spec(state, t).0 != StdErrState::First,
        state == StdErrState::Running ==> step_spec(state, t).0 != StdErrState::Running,
        state == StdErrState::Sync ==> step_spec(state, t).0 == StdErrState::Sync,
        state == StdErrState::Desync ==> step_spec(state, t).0 == StdErrState::Desync,
{
}

} // verus!
