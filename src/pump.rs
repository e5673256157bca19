//! The decisions of a process's output pump: one event from the process in,
//! one action out. The pump runs until the process terminates or is killed.
use vstd::prelude::*;
use crate::classify::{
    bare_event, classify_diagnostic, classify_spec, delivered, signal_text, stdout_action, LogItemView,
    StdoutAction,
};
use crate::protocol::{BuildCmdId, LogItem, LogItemBare, LogItemLevel, LogItemWrap, RustcCompilerMessage};
use crate::stderr::{step_spec, StdErrState};
use crate::text::trimmed_of;

verus! {

/// Where a process's pump stands.
#[derive(Clone, Copy, Debug, Eq, PartialEq, Structural)]
pub enum Lifecycle {
    Running,
    Terminated,
    Killed,
}

/// One tagged piece of output from a process, with a standard-output line's
/// decoding as a compiler message (`None`: it is not one).
#[derive(Clone, Debug, Eq, PartialEq)]
pub enum ChildEvent {
    StdOut { line: String, decoded: Option<RustcCompilerMessage> },
    StdErr(String),
    Term,
    Kill,
}

/// What the pump does for one event.
#[derive(Clone, Debug, Eq, PartialEq)]
pub enum PumpAction {
    Nothing,
    /// Send this event to the host.
    Emit(LogItemWrap),
    /// Write this text to the process's standard input.
    WriteStdin(String),
    /// Send this last event to the host and stop.
    Finish(LogItemWrap),
    /// Kill the process and stop, with no further event.
    Kill,
}

/// The pump of one run.
pub struct Pump {
    pub cmd_id: BuildCmdId,
    pub stderr: StdErrState,
    pub life: Lifecycle,
}

impl Pump {
    /// The pump of a fresh run.
    pub fn new(cmd_id: BuildCmdId) -> (r: Pump)
        ensures
            r.cmd_id == cmd_id,
            r.stderr == StdErrState::First,
            r.life == Lifecycle::Running,
    {
        Pump { cmd_id, stderr: StdErrState::new(), life: Lifecycle::Running }
    }

    /// Decides on one event. A finished pump does nothing more.
    pub fn step(&mut self, event: ChildEvent) -> (r: PumpAction)
        ensures
            final(self).cmd_id == old(self).cmd_id,
            old(self).life != Lifecycle::Running ==> r == PumpAction::Nothing && *final(self)
                == *old(self),
            old(self).life == Lifecycle::Running ==> match event {
                ChildEvent::Term => {
                    &&& final(self).life == Lifecycle::Terminated
                    &&& final(self).stderr == old(self).stderr
                    &&& r is Finish
                    &&& r->Finish_0.cmd_id == old(self).cmd_id
                    &&& r->Finish_0.item@ == (LogItemView::Bare {
                        level: LogItemLevel::Log,
                        line: "process terminated"@,
                    })
                },
                ChildEvent::Kill => {
                    &&& final(self).life == Lifecycle::Killed
                    &&& final(self).stderr == old(self).stderr
                    &&& r == PumpAction::Kill
                },
                ChildEvent::StdErr(line) => {
                    let (next, level) = step_spec(old(self).stderr, trimmed_of(line@));
                    &&& final(self).life == Lifecycle::Running
                    &&& final(self).stderr == next
                    &&& match level {
                        None => r == PumpAction::Nothing,
                        Some(level) => r is Emit && r->Emit_0.cmd_id == old(self).cmd_id
                            && r->Emit_0.item@ == (LogItemView::Bare {
                            level,
                            line: trimmed_of(line@),
                        }),
                    }
                },
                ChildEvent::StdOut { line, decoded } => {
                    &&& *final(self) == *old(self)
                    &&& match decoded {
                        None => r is Emit && r->Emit_0.cmd_id == old(self).cmd_id
                            && r->Emit_0.item@ == LogItemView::StdinToHost(line@),
                        Some(m) => if m.reason@ == "makepad-signal"@ {
                            match m.signal {
                                Some(s) => r is WriteStdin && r->WriteStdin_0@ == signal_text(s),
                                None => r == PumpAction::Nothing,
                            }
                        } else if m.reason@ == "makepad-error-log"@ || m.reason@
                            == "compiler-message"@ {
                            match m.message {
                                Some(d) => match classify_spec(d, trimmed_of(d.message@)) {
                                    None => r == PumpAction::Nothing,
                                    Some(v) => r is Emit && r->Emit_0.cmd_id == old(self).cmd_id
                                        && r->Emit_0.item@ == delivered(v),
                                },
                                None => r == PumpAction::Nothing,
                            }
                        } else {
                            r == PumpAction::Nothing
                        },
                    }
                },
            },
    {
        if self.life != Lifecycle::Running {
            return PumpAction::Nothing;
        }
        match event {
            ChildEvent::Term => {
                self.life = Lifecycle::Terminated;
                let line = String::from_str("process terminated");
                PumpAction::Finish(
                    self.cmd_id.wrap_msg(LogItem::Bare(LogItemBare { level: LogItemLevel::Log, line })),
                )
            },
            ChildEvent::Kill => {
                self.life = Lifecycle::Killed;
                PumpAction::Kill
            },
            ChildEvent::StdErr(line) => {
                let (next, event) = self.stderr.feed(line.as_str());
                self.stderr = next;
                match event {
                    None => PumpAction::Nothing,
                    Some(bare) => PumpAction::Emit(self.cmd_id.wrap_msg(LogItem::Bare(bare))),
                }
            },
            ChildEvent::StdOut { line, decoded } => {
                match stdout_action(decoded, line) {
                    StdoutAction::Echo(l) => PumpAction::Emit(
                        self.cmd_id.wrap_msg(LogItem::StdinToHost(l)),
                    ),
                    StdoutAction::ToStdin(t) => PumpAction::WriteStdin(t),
                    StdoutAction::Diagnostic(d) => match classify_diagnostic(&d) {
                        None => PumpAction::Nothing,
                        Some(LogItem::Bare(b)) => PumpAction::Emit(
                            bare_event(self.cmd_id, b.level, b.line.as_str()),
                        ),
                        Some(item) => PumpAction::Emit(self.cmd_id.wrap_msg(item)),
                    },
                    StdoutAction::Ignore => PumpAction::Nothing,
                }
            },
        }
    }
}

} // verus!
