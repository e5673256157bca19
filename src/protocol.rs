//! Commands from the host, events to the host, and the compiler's message schema.
use vstd::prelude::*;

verus! {

/// Correlates one run request of the host with the output of that run.
#[derive(Clone, Copy, Debug, Eq, Hash, PartialEq, Structural)]
pub struct BuildCmdId(pub u64);

/// Severity of an event sent to the host.
#[derive(Clone, Copy, Debug, Eq, Hash, PartialEq, Structural)]
pub enum LogItemLevel {
    Warning,
    Error,
    Log,
    Wait,
    Panic,
}

/// A place in a source file: zero-based line and byte within the line.
#[derive(Clone, Copy, Debug, Default, Eq, Hash, PartialEq, Structural)]
pub struct Position {
    pub line_index: usize,
    pub byte_index: usize,
}

/// The extent of a span: lines crossed, and bytes on its last line.
#[derive(Clone, Copy, Debug, Default, Eq, Hash, PartialEq, Structural)]
pub struct Length {
    pub line_count: usize,
    pub byte_count: usize,
}

/// A plain line of text with its level.
#[derive(Clone, Debug, Eq, PartialEq)]
pub struct LogItemBare {
    pub level: LogItemLevel,
    pub line: String,
}

/// A diagnostic tied to a place in a source file.
#[derive(Clone, Debug, Eq, PartialEq)]
pub struct LogItemLocation {
    pub level: LogItemLevel,
    pub file_name: String,
    pub start: Position,
    pub length: Length,
    pub msg: String,
}

/// One event for the host.
#[derive(Clone, Debug, Eq, PartialEq)]
pub enum LogItem {
    Bare(LogItemBare),
    Location(LogItemLocation),
    StdinToHost(String),
}

/// An event tagged with the command it stems from.
#[derive(Clone, Debug, Eq, PartialEq)]
pub struct LogItemWrap {
    pub cmd_id: BuildCmdId,
    pub item: LogItem,
}

impl BuildCmdId {
    pub fn wrap_msg(&self, item: LogItem) -> (r: LogItemWrap)
        ensures
            r == (LogItemWrap { cmd_id: *self, item }),
    {
        LogItemWrap { cmd_id: *self, item }
    }
}

/// The build configurations a package can be launched in.
#[derive(Clone, Debug, Eq, Hash, PartialEq)]
pub enum BuildTarget {
    Release,
    Debug,
    ReleaseStudio,
    DebugStudio,
    Profiler,
    IosSim { org: String, app: String },
    IosDevice { org: String, app: String },
    Android,
    WebAssembly,
}

/// A package together with the configuration it is built in; the key of the registry.
#[derive(Clone, Debug, Eq, Hash, PartialEq)]
pub struct BuildProcess {
    pub binary: String,
    pub target: BuildTarget,
}

/// The mathematical value of a build target: its strings as character sequences.
pub ghost enum BuildTargetView {
    Release,
    Debug,
    ReleaseStudio,
    DebugStudio,
    Profiler,
    IosSim { org: Seq<char>, app: Seq<char> },
    IosDevice { org: Seq<char>, app: Seq<char> },
    Android,
    WebAssembly,
}

pub ghost struct BuildProcessView {
    pub binary: Seq<char>,
    pub target: BuildTargetView,
}

impl View for BuildTarget {
    type V = BuildTargetView;

    open spec fn view(&self) -> BuildTargetView {
        match self {
            BuildTarget::Release => BuildTargetView::Release,
            BuildTarget::Debug => BuildTargetView::Debug,
            BuildTarget::ReleaseStudio => BuildTargetView::ReleaseStudio,
            BuildTarget::DebugStudio => BuildTargetView::DebugStudio,
            BuildTarget::Profiler => BuildTargetView::Profiler,
            BuildTarget::IosSim { org, app } => BuildTargetView::IosSim { org: org@, app: app@ },
            BuildTarget::IosDevice { org, app } => BuildTargetView::IosDevice {
                org: org@,
                app: app@,
            },
            BuildTarget::Android => BuildTargetView::Android,
            BuildTarget::WebAssembly => BuildTargetView::WebAssembly,
        }
    }
}

impl View for BuildProcess {
    type V = BuildProcessView;

    open spec fn view(&self) -> BuildProcessView {
        BuildProcessView { binary: self.binary@, target: self.target@ }
    }
}

impl BuildTarget {
    /// Equality by value.
    pub fn same_as(&self, other: &BuildTarget) -> (r: bool)
        ensures
            r == (self@ == other@),
    {
        match (self, other) {
            (BuildTarget::Release, BuildTarget::Release) => true,
            (BuildTarget::Debug, BuildTarget::Debug) => true,
            (BuildTarget::ReleaseStudio, BuildTarget::ReleaseStudio) => true,
            (BuildTarget::DebugStudio, BuildTarget::DebugStudio) => true,
            (BuildTarget::Profiler, BuildTarget::Profiler) => true,
            (
                BuildTarget::IosSim { org: o1, app: a1 },
                BuildTarget::IosSim { org: o2, app: a2 },
            ) => *o1 == *o2 && *a1 == *a2,
            (
                BuildTarget::IosDevice { org: o1, app: a1 },
                BuildTarget::IosDevice { org: o2, app: a2 },
            ) => *o1 == *o2 && *a1 == *a2,
            (BuildTarget::Android, BuildTarget::Android) => true,
            (BuildTarget::WebAssembly, BuildTarget::WebAssembly) => true,
            _ => false,
        }
    }
}

impl BuildProcess {
    /// Equality by value: process identity in the registry.
    pub fn same_as(&self, other: &BuildProcess) -> (r: bool)
        ensures
            r == (self@ == other@),
    {
        self.binary == other.binary && self.target.same_as(&other.target)
    }
}

/// A command from the host.
#[derive(Clone, Debug, Eq, PartialEq)]
pub enum BuildCmd {
    /// Start (or restart) the process for a descriptor, with a side-channel URL.
    Run(BuildProcess, String),
    /// Kill the process registered under the command id.
    Stop,
    /// Forward text to the standard input of the process under the command id.
    HostToStdin(String),
}

#[derive(Clone, Debug, Eq, PartialEq)]
pub struct BuildCmdWrap {
    pub cmd_id: BuildCmdId,
    pub cmd: BuildCmd,
}

/// A span of a compiler diagnostic.
#[derive(Clone, Debug, Eq, PartialEq)]
pub struct RustcSpan {
    pub file_name: String,
    pub is_primary: bool,
    pub start: Position,
    pub length: Length,
}

/// The diagnostic carried by a compiler message.
#[derive(Clone, Debug, Eq, PartialEq)]
pub struct RustcMessage {
    pub level: String,
    pub message: String,
    pub spans: Vec<RustcSpan>,
}

/// One decoded line of the toolchain's JSON output.
#[derive(Clone, Debug, Eq, PartialEq)]
pub struct RustcCompilerMessage {
    pub reason: String,
    pub message: Option<RustcMessage>,
    pub signal: Option<u64>,
    pub success: Option<bool>,
}

} // verus!
