//! The command line and environment each build target is launched with.
use vstd::prelude::*;
use crate::protocol::{BuildProcess, BuildProcessView, BuildTarget, BuildTargetView};

verus! {

/// The texts of a sequence of strings.
pub open spec fn texts(v: Seq<String>) -> Seq<Seq<char>> {
    v.map_values(|s: String| s@)
}

/// The texts of a sequence of name/value pairs.
pub open spec fn pair_texts(v: Seq<(String, String)>) -> Seq<(Seq<char>, Seq<char>)> {
    v.map_values(|p: (String, String)| (p.0@, p.1@))
}

/// Arguments handed to the toolchain launcher for a build target.
pub open spec fn launch_args(what: BuildProcessView) -> Seq<Seq<char>> {
    let bin = what.binary;
    let head = seq!["run"@, "nightly"@, "cargo"@];
    match what.target {
        BuildTargetView::ReleaseStudio => head + seq![
            "run"@,
            "-p"@,
            bin,
            "--message-format=json"@,
            "--release"@,
            "--"@,
            "--message-format=json"@,
            "--stdin-loop"@,
        ],
        BuildTargetView::DebugStudio => head + seq![
            "run"@,
            "-p"@,
            bin,
            "--message-format=json"@,
            "--"@,
            "--message-format=json"@,
            "--stdin-loop"@,
        ],
        BuildTargetView::Release => head + seq![
            "run"@,
            "-p"@,
            bin,
            "--message-format=json"@,
            "--release"@,
            "--"@,
            "--message-format=json"@,
        ],
        BuildTargetView::Debug => head + seq![
            "run"@,
            "-p"@,
            bin,
            "--message-format=json"@,
            "--"@,
            "--message-format=json"@,
        ],
        BuildTargetView::Profiler => head + seq![
            "instruments"@,
            "-t"@,
            "time"@,
            "-p"@,
            bin,
            "--release"@,
            "--message-format=json"@,
            "--"@,
            "--message-format=json"@,
        ],
        BuildTargetView::IosSim { org, app } => head + seq![
            "makepad"@,
            "ios"@,
            "--org="@ + org,
            "--app="@ + app,
            "run-sim"@,
            "-p"@,
            bin,
            "--release"@,
            "--message-format=json"@,
        ],
        BuildTargetView::IosDevice { org, app } => head + seq![
            "makepad"@,
            "ios"@,
            "--org="@ + org,
            "--app="@ + app,
            "run-device"@,
            "-p"@,
            bin,
            "--release"@,
            "--message-format=json"@,
        ],
        BuildTargetView::Android => head + seq![
            "makepad"@,
            "android"@,
            "run"@,
            "-p"@,
            bin,
            "--release"@,
            "--message-format=json"@,
        ],
        BuildTargetView::WebAssembly => head + seq![
            "makepad"@,
            "wasm"@,
            "build"@,
            "-p"@,
            bin,
            "--release"@,
            "--message-format=json"@,
        ],
    }
}

/// Environment of every launch: the side-channel URL and the output mode.
pub open spec fn launch_env_spec(http: Seq<char>) -> Seq<(Seq<char>, Seq<char>)> {
    seq![("MAKEPAD_STUDIO_HTTP"@, http), ("MAKEPAD"@, "lines"@)]
}

fn push_text(v: &mut Vec<String>, s: &str)
    ensures
        texts(final(v)@) == texts(old(v)@).push(s@),
{
    v.push(String::from_str(s));
    assert(texts(v@) =~= texts(old(v)@).push(s@));
}

fn push_owned(v: &mut Vec<String>, s: String)
    ensures
        texts(final(v)@) == texts(old(v)@).push(s@),
{
    let ghost t = s@;
    v.push(s);
    assert(texts(v@) =~= texts(old(v)@).push(t));
}

fn push_mobile(v: &mut Vec<String>, org: &String, app: &String)
    ensures
        texts(final(v)@) == texts(old(v)@).push("--org="@ + org@).push("--app="@ + app@),
{
    push_owned(v, String::from_str("--org=").concat(org.as_str()));
    push_owned(v, String::from_str("--app=").concat(app.as_str()));
}

/// The arguments for the toolchain launcher that build and run `what`.
pub fn build_args(what: &BuildProcess) -> (r: Vec<String>)
    ensures
        texts(r@) == launch_args(what@),
{
    let mut v: Vec<String> = Vec::new();
    assert(texts(v@) =~= Seq::empty());
    push_text(&mut v, "run");
    push_text(&mut v, "nightly");
    push_text(&mut v, "cargo");
    let bin = what.binary.as_str();
    match &what.target {
        BuildTarget::ReleaseStudio => {
            push_text(&mut v, "run");
            push_text(&mut v, "-p");
            push_text(&mut v, bin);
            push_text(&mut v, "--message-format=json");
            push_text(&mut v, "--release");
            push_text(&mut v, "--");
            push_text(&mut v, "--message-format=json");
            push_text(&mut v, "--stdin-loop");
        },
        BuildTarget::DebugStudio => {
            push_text(&mut v, "run");
            push_text(&mut v, "-p");
            push_text(&mut v, bin);
            push_text(&mut v, "--message-format=json");
            push_text(&mut v, "--");
            push_text(&mut v, "--message-format=json");
            push_text(&mut v, "--stdin-loop");
        },
        BuildTarget::Release => {
            push_text(&mut v, "run");
            push_text(&mut v, "-p");
            push_text(&mut v, bin);
            push_text(&mut v, "--message-format=json");
            push_text(&mut v, "--release");
            push_text(&mut v, "--");
            push_text(&mut v, "--message-format=json");
        },
        BuildTarget::Debug => {
            push_text(&mut v, "run");
            push_text(&mut v, "-p");
            push_text(&mut v, bin);
            push_text(&mut v, "--message-format=json");
            push_text(&mut v, "--");
            push_text(&mut v, "--message-format=json");
        },
        BuildTarget::Profiler => {
            push_text(&mut v, "instruments");
            push_text(&mut v, "-t");
            push_text(&mut v, "time");
            push_text(&mut v, "-p");
            push_text(&mut v, bin);
            push_text(&mut v, "--release");
            push_text(&mut v, "--message-format=json");
            push_text(&mut v, "--");
            push_text(&mut v, "--message-format=json");
        },
        BuildTarget::IosSim { org, app } => {
            push_text(&mut v, "makepad");
            push_text(&mut v, "ios");
            push_mobile(&mut v, org, app);
            push_text(&mut v, "run-sim");
            push_text(&mut v, "-p");
            push_text(&mut v, bin);
            push_text(&mut v, "--release");
            push_text(&mut v, "--message-format=json");
        },
        BuildTarget::IosDevice { org, app } => {
            push_text(&mut v, "makepad");
            push_text(&mut v, "ios");
            push_mobile(&mut v, org, app);
            push_text(&mut v, "run-device");
            push_text(&mut v, "-p");
            push_text(&mut v, bin);
            push_text(&mut v, "--release");
            push_text(&mut v, "--message-format=json");
        },
        BuildTarget::Android => {
            push_text(&mut v, "makepad");
            push_text(&mut v, "android");
            push_text(&mut v, "run");
            push_text(&mut v, "-p");
            push_text(&mut v, bin);
            push_text(&mut v, "--release");
            push_text(&mut v, "--message-format=json");
        },
        BuildTarget::WebAssembly => {
            push_text(&mut v, "makepad");
            push_text(&mut v, "wasm");
            push_text(&mut v, "build");
            push_text(&mut v, "-p");
            push_text(&mut v, bin);
            push_text(&mut v, "--release");
            push_text(&mut v, "--message-format=json");
        },
    }
    assert(texts(v@) =~= launch_args(what@));
    v
}

/// Program, arguments and environment of one launch.
#[derive(Clone, Debug, Eq, PartialEq)]
pub struct LaunchPlan {
    pub program: String,
    pub args: Vec<String>,
    pub env: Vec<(String, String)>,
}

/// How to launch `what`, with `http` as the side-channel URL.
pub fn launch_plan(what: &BuildProcess, http: &str) -> (r: LaunchPlan)
    ensures
        r.program@ == "rustup"@,
        texts(r.args@) == launch_args(what@),
        pair_texts(r.env@) == launch_env_spec(http@),
{
    let mut env: Vec<(String, String)> = Vec::new();
    env.push((String::from_str("MAKEPAD_STUDIO_HTTP"), String::from_str(http)));
    env.push((String::from_str("MAKEPAD"), String::from_str("lines")));
    assert(pair_texts(env@) =~= launch_env_spec(http@));
    LaunchPlan { program: String::from_str("rustup"), args: build_args(what), env }
}

} // verus!
