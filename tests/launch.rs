use studio_build::launch::{build_args, launch_plan};
use studio_build::protocol::{BuildProcess, BuildTarget};

fn args(target: BuildTarget) -> Vec<String> {
    build_args(&BuildProcess { binary: "demo".to_string(), target })
}

fn strs(v: &[&str]) -> Vec<String> {
    v.iter().map(|s| s.to_string()).collect()
}

#[test]
fn debug_and_release_args() {
    assert_eq!(
        args(BuildTarget::Debug),
        strs(&["run", "nightly", "cargo", "run", "-p", "demo", "--message-format=json", "--", "--message-format=json"])
    );
    assert_eq!(
        args(BuildTarget::Release),
        strs(&["run", "nightly", "cargo", "run", "-p", "demo", "--message-format=json", "--release", "--", "--message-format=json"])
    );
}

#[test]
fn studio_args_add_stdin_loop() {
    assert_eq!(
        args(BuildTarget::DebugStudio),
        strs(&["run", "nightly", "cargo", "run", "-p", "demo", "--message-format=json", "--", "--message-format=json", "--stdin-loop"])
    );
    assert_eq!(
        args(BuildTarget::ReleaseStudio),
        strs(&["run", "nightly", "cargo", "run", "-p", "demo", "--message-format=json", "--release", "--", "--message-format=json", "--stdin-loop"])
    );
}

#[test]
fn profiler_args() {
    assert_eq!(
        args(BuildTarget::Profiler),
        strs(&["run", "nightly", "cargo", "instruments", "-t", "time", "-p", "demo", "--release", "--message-format=json", "--", "--message-format=json"])
    );
}

#[test]
fn ios_args_carry_org_and_app() {
    let sim = BuildTarget::IosSim { org: "acme".to_string(), app: "demo_app".to_string() };
    assert_eq!(
        args(sim),
        strs(&["run", "nightly", "cargo", "makepad", "ios", "--org=acme", "--app=demo_app", "run-sim", "-p", "demo", "--release", "--message-format=json"])
    );
    let dev = BuildTarget::IosDevice { org: "o".to_string(), app: "a".to_string() };
    assert_eq!(
        args(dev),
        strs(&["run", "nightly", "cargo", "makepad", "ios", "--org=o", "--app=a", "run-device", "-p", "demo", "--release", "--message-format=json"])
    );
}

#[test]
fn android_and_wasm_args() {
    assert_eq!(
        args(BuildTarget::Android),
        strs(&["run", "nightly", "cargo", "makepad", "android", "run", "-p", "demo", "--release", "--message-format=json"])
    );
    assert_eq!(
        args(BuildTarget::WebAssembly),
        strs(&["run", "nightly", "cargo", "makepad", "wasm", "build", "-p", "demo", "--release", "--message-format=json"])
    );
}

#[test]
fn plan_has_program_and_environment() {
    let plan = launch_plan(&BuildProcess { binary: "demo".to_string(), target: BuildTarget::Debug }, "http://127.0.0.1:8001");
    assert_eq!(plan.program, "rustup");
    assert_eq!(plan.args, args(BuildTarget::Debug));
    assert_eq!(
        plan.env,
        vec![
            ("MAKEPAD_STUDIO_HTTP".to_string(), "http://127.0.0.1:8001".to_string()),
            ("MAKEPAD".to_string(), "lines".to_string()),
        ]
    );
}
