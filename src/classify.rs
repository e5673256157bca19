//! Classification of the toolchain's output into events for the host.
use vstd::prelude::*;
use crate::protocol::{
    BuildCmdId, Length, LogItem, LogItemBare, LogItemLevel, LogItemLocation, LogItemWrap,
    Position, RustcCompilerMessage, RustcMessage, RustcSpan,
};
use crate::text::{decimal, ends_with, u64_to_decimal, is_prefix, is_suffix, starts_with, trim, trimmed_of};

verus! {

/// The mathematical value of an event: its strings as character sequences.
pub ghost enum LogItemView {
    Bare { level: LogItemLevel, line: Seq<char> },
    Location {
        level: LogItemLevel,
        file_name: Seq<char>,
        start: Position,
        length: Length,
        msg: Seq<char>,
    },
    StdinToHost(Seq<char>),
}

impl View for LogItem {
    type V = LogItemView;

    open spec fn view(&self) -> LogItemView {
        match self {
            LogItem::Bare(b) => LogItemView::Bare { level: b.level, line: b.line@ },
            LogItem::Location(l) => LogItemView::Location {
                level: l.level,
                file_name: l.file_name@,
                start: l.start,
                length: l.length,
                msg: l.msg@,
            },
            LogItem::StdinToHost(s) => LogItemView::StdinToHost(s@),
        }
    }
}

pub open spec fn opt_view(o: Option<LogItem>) -> Option<LogItemView> {
    match o {
        Some(i) => Some(i@),
        None => None,
    }
}

/// The event level for a diagnostic level of the toolchain; none for an unknown one.
pub open spec fn level_spec(level: Seq<char>) -> Option<LogItemLevel> {
    if level == "error"@ {
        Some(LogItemLevel::Error)
    } else if level == "warning"@ {
        Some(LogItemLevel::Warning)
    } else if level == "log"@ {
        Some(LogItemLevel::Log)
    } else if level == "failure-note"@ {
        Some(LogItemLevel::Error)
    } else if level == "panic"@ {
        Some(LogItemLevel::Panic)
    } else {
        None
    }
}

/// Index of the first primary span at or after `i`.
pub open spec fn first_primary(spans: Seq<RustcSpan>, i: int) -> Option<int>
    decreases spans.len() - i,
{
    if i < 0 || i >= spans.len() {
        None
    } else if spans[i].is_primary {
        Some(i)
    } else {
        first_primary(spans, i + 1)
    }
}

/// Summary lines of a diagnostic run that carry nothing for the host.
pub open spec fn is_noise(t: Seq<char>) -> bool {
    ||| is_prefix("aborting due to "@, t)
    ||| is_prefix("For more information about this error"@, t)
    ||| is_suffix("warning emitted"@, t)
    ||| is_suffix("warnings emitted"@, t)
}

pub open spec fn unexpected_level_text(level: Seq<char>) -> Seq<char> {
    "process_compiler_message: unexpected level "@ + level
}

/// What a diagnostic becomes, given its text with surrounding white space removed.
/// Text in a `Bare` event is handed to the sink, which trims it.
pub open spec fn classify_spec(msg: RustcMessage, trimmed: Seq<char>) -> Option<LogItemView> {
    match level_spec(msg.level@) {
        None => Some(
            LogItemView::Bare { level: LogItemLevel::Error, line: unexpected_level_text(msg.level@) },
        ),
        Some(level) => match first_primary(msg.spans@, 0) {
            Some(i) => Some(
                LogItemView::Location {
                    level,
                    file_name: msg.spans@[i].file_name@,
                    start: msg.spans@[i].start,
                    length: msg.spans@[i].length,
                    msg: msg.message@,
                },
            ),
            None => if is_noise(trimmed) {
                None
            } else {
                Some(LogItemView::Bare { level: LogItemLevel::Warning, line: msg.message@ })
            },
        },
    }
}

/// Maps a diagnostic level of the toolchain to an event level.
pub fn parse_level(level: &String) -> (r: Option<LogItemLevel>)
    ensures
        r == level_spec(level@),
{
    if *level == String::from_str("error") {
        Some(LogItemLevel::Error)
    } else if *level == String::from_str("warning") {
        Some(LogItemLevel::Warning)
    } else if *level == String::from_str("log") {
        Some(LogItemLevel::Log)
    } else if *level == String::from_str("failure-note") {
        Some(LogItemLevel::Error)
    } else if *level == String::from_str("panic") {
        Some(LogItemLevel::Panic)
    } else {
        None
    }
}

/// The index of the first span marked primary.
pub fn find_primary(spans: &Vec<RustcSpan>) -> (r: Option<usize>)
    ensures
        match r {
            Some(i) => i < spans@.len() && first_primary(spans@, 0) == Some(i as int),
            None => first_primary(spans@, 0) is None,
        },
{
    let mut i: usize = 0;
    while i < spans.len()
        invariant
            i <= spans@.len(),
            first_primary(spans@, 0) == first_primary(spans@, i as int),
        decreases spans.len() - i,
    {
        if spans[i].is_primary {
            return Some(i);
        }
        i = i + 1;
    }
    None
}

fn noise(trimmed: &str) -> (r: bool)
    ensures
        r == is_noise(trimmed@),
{
    starts_with(trimmed, "aborting due to ") || starts_with(
        trimmed,
        "For more information about this error",
    ) || ends_with(trimmed, "warning emitted") || ends_with(trimmed, "warnings emitted")
}

/// Classifies a diagnostic whose text, with surrounding white space removed, is `trimmed`.
pub fn classify_message(msg: &RustcMessage, trimmed: &str) -> (r: Option<LogItem>)
    ensures
        opt_view(r) == classify_spec(*msg, trimmed@),
{
    match parse_level(&msg.level) {
        None => {
            let line = String::from_str("process_compiler_message: unexpected level ").concat(
                msg.level.as_str(),
            );
            Some(LogItem::Bare(LogItemBare { level: LogItemLevel::Error, line }))
        },
        Some(level) => match find_primary(&msg.spans) {
            Some(i) => {
                let span = &msg.spans[i];
                Some(
                    LogItem::Location(
                        LogItemLocation {
                            level,
                            file_name: span.file_name.clone(),
                            start: span.start,
                            length: span.length,
                            msg: msg.message.clone(),
                        },
                    ),
                )
            },
            None => {
                if noise(trimmed) {
                    None
                } else {
                    Some(
                        LogItem::Bare(
                            LogItemBare { level: LogItemLevel::Warning, line: msg.message.clone() },
                        ),
                    )
                }
            },
        },
    }
}

/// Classifies a diagnostic of the toolchain.
pub fn classify_diagnostic(msg: &RustcMessage) -> (r: Option<LogItem>)
    ensures
        opt_view(r) == classify_spec(*msg, trimmed_of(msg.message@)),
{
    let trimmed = trim(msg.message.as_str());
    classify_message(msg, trimmed.as_str())
}

/// The event for a line of text at a level: the line with surrounding white space removed.
pub fn bare_event(cmd_id: BuildCmdId, level: LogItemLevel, line: &str) -> (r: LogItemWrap)
    ensures
        r.cmd_id == cmd_id,
        r.item@ == (LogItemView::Bare { level, line: trimmed_of(line@) }),
{
    cmd_id.wrap_msg(LogItem::Bare(LogItemBare { level, line: trim(line) }))
}

/// What the output pump does with one line of the process's standard output.
#[derive(Clone, Debug, Eq, PartialEq)]
pub enum StdoutAction {
    /// Write this text to the process's standard input.
    ToStdin(String),
    /// Classify this diagnostic and send what comes out.
    Diagnostic(RustcMessage),
    /// Send the line to the host as program output.
    Echo(String),
    /// Nothing to do.
    Ignore,
}

/// The text written back to a process to deliver a signal.
pub open spec fn signal_text(signal: u64) -> Seq<char> {
    "{\"Signal\":["@ + decimal(signal as nat) + "]}\n"@
}

/// The event for a classified diagnostic as the host receives it: a bare line is trimmed.
pub open spec fn delivered(v: LogItemView) -> LogItemView {
    match v {
        LogItemView::Bare { level, line } => LogItemView::Bare { level, line: trimmed_of(line) },
        _ => v,
    }
}

/// Decides on one line of standard output, given how it decoded.
pub fn stdout_action(decoded: Option<RustcCompilerMessage>, line: String) -> (r: StdoutAction)
    ensures
        match decoded {
            None => r == StdoutAction::Echo(line),
            Some(m) => if m.reason@ == "makepad-signal"@ {
                match m.signal {
                    Some(s) => r is ToStdin && r->ToStdin_0@ == signal_text(s),
                    None => r == StdoutAction::Ignore,
                }
            } else if m.reason@ == "makepad-error-log"@ || m.reason@ == "compiler-message"@ {
                match m.message {
                    Some(d) => r == StdoutAction::Diagnostic(d),
                    None => r == StdoutAction::Ignore,
                }
            } else {
                r == StdoutAction::Ignore
            },
        },
{
    match decoded {
        None => StdoutAction::Echo(line),
        Some(m) => {
            if m.reason == String::from_str("makepad-signal") {
                match m.signal {
                    Some(s) => {
                        let text = String::from_str("{\"Signal\":[").concat(
                            u64_to_decimal(s).as_str(),
                        ).concat("]}\n");
                        StdoutAction::ToStdin(text)
                    },
                    None => StdoutAction::Ignore,
                }
            } else if m.reason == String::from_str("makepad-error-log") || m.reason
                == String::from_str("compiler-message") {
                match m.message {
                    Some(d) => StdoutAction::Diagnostic(d),
                    None => StdoutAction::Ignore,
                }
            } else {
                StdoutAction::Ignore
            }
        },
    }
}

} // verus!
