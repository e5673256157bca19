use studio_build::protocol::{LogItemBare, LogItemLevel};
use studio_build::stderr::StdErrState;

fn feed_all(lines: &[&str]) -> (StdErrState, Vec<Option<LogItemBare>>) {
    let mut state = StdErrState::new();
    let mut out = Vec::new();
    for line in lines {
        let (next, event) = state.feed(line);
        state = next;
        out.push(event);
    }
    (state, out)
}

fn bare(level: LogItemLevel, line: &str) -> Option<LogItemBare> {
    Some(LogItemBare { level, line: line.to_string() })
}

#[test]
fn narrative_yields_wait_events_and_ends_in_sync() {
    let (state, out) = feed_all(&["Compiling app v0.1", "Finished dev", "Running target/app"]);
    assert_eq!(
        out,
        vec![
            bare(LogItemLevel::Wait, "Compiling app v0.1"),
            None,
            bare(LogItemLevel::Wait, "Running target/app"),
        ]
    );
    assert_eq!(state, StdErrState::Sync);
    let (after, event) = state.feed("hello from the app");
    assert_eq!(after, StdErrState::Sync);
    assert_eq!(event, bare(LogItemLevel::Error, "hello from the app"));
}

#[test]
fn feed_trims_surrounding_white_space() {
    let (state, event) = StdErrState::First.feed("   Compiling lib v1.0  \n");
    assert_eq!(state, StdErrState::First);
    assert_eq!(event, bare(LogItemLevel::Wait, "Compiling lib v1.0"));
}

#[test]
fn could_not_compile_stays_first() {
    let (state, event) = StdErrState::First.feed("error: could not compile `app`");
    assert_eq!(state, StdErrState::First);
    assert_eq!(event, bare(LogItemLevel::Error, "error: could not compile `app`"));
}

#[test]
fn unexpected_first_line_desyncs() {
    let (state, event) = StdErrState::First.feed("warning: unused variable");
    assert_eq!(state, StdErrState::Desync);
    assert_eq!(event, bare(LogItemLevel::Error, "warning: unused variable"));
}

#[test]
fn unexpected_line_after_finished_desyncs() {
    let (state, event) = StdErrState::Running.feed("Compiling again");
    assert_eq!(state, StdErrState::Desync);
    assert_eq!(event, bare(LogItemLevel::Error, "Compiling again"));
}

#[test]
fn desync_is_absorbing() {
    for line in ["Compiling x", "Finished y", "Running z", "", "anything"] {
        let (state, event) = StdErrState::Desync.feed(line);
        assert_eq!(state, StdErrState::Desync);
        assert_eq!(event.map(|e| e.level), Some(LogItemLevel::Error));
    }
}

#[test]
fn step_decides_on_trimmed_text() {
    assert_eq!(StdErrState::First.step("Finished release"), (StdErrState::Running, None));
    assert_eq!(StdErrState::Running.step("Running x"), (StdErrState::Sync, Some(LogItemLevel::Wait)));
    assert_eq!(StdErrState::Sync.step("Running x"), (StdErrState::Sync, Some(LogItemLevel::Error)));
    assert_eq!(StdErrState::First.step("Compiling"), (StdErrState::Desync, Some(LogItemLevel::Error)));
}

#[test]
fn feed_trims_unicode_white_space() {
    let (state, event) = StdErrState::First.feed("\u{3000}\u{a0}Compiling x\u{2028}\u{85}\t");
    assert_eq!(state, StdErrState::First);
    assert_eq!(event, bare(LogItemLevel::Wait, "Compiling x"));
    let (_, kept) = StdErrState::Sync.feed("\u{200b}zero width\u{feff}");
    assert_eq!(kept, bare(LogItemLevel::Error, "\u{200b}zero width\u{feff}"));
}
