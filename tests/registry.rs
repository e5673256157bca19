use studio_build::protocol::{
    BuildCmd, BuildCmdId, BuildCmdWrap, BuildProcess, BuildTarget, LogItemWrap,
};
use studio_build::registry::Registry;
use studio_build::server::{BuildConnection, BuildServer, CmdAction, MsgSender};

#[derive(Clone, Debug, PartialEq)]
struct Handle(&'static str);

struct Sink {
    events: Vec<LogItemWrap>,
}

impl MsgSender for Sink {
    fn send_message(&mut self, wrap: LogItemWrap) {
        self.events.push(wrap);
    }
}

fn target(binary: &str, target: BuildTarget) -> BuildProcess {
    BuildProcess { binary: binary.to_string(), target }
}

fn setup() -> (BuildServer<Handle>, BuildConnection<Sink>) {
    let mut server = BuildServer::new("/tmp/p".to_string());
    let conn = server.connect(Sink { events: Vec::new() });
    (server, conn)
}

#[test]
fn stopping_one_target_leaves_the_other() {
    let (mut server, conn) = setup();
    conn.register(&mut server, target("app", BuildTarget::Debug), BuildCmdId(1), Handle("d1"));
    conn.register(&mut server, target("app", BuildTarget::Release), BuildCmdId(2), Handle("d2"));
    assert_eq!(conn.stop(&server, BuildCmdId(1)), Some(&Handle("d1")));
    assert_eq!(conn.stop(&server, BuildCmdId(2)), Some(&Handle("d2")));
    assert_eq!(conn.stop(&server, BuildCmdId(3)), None);
}

#[test]
fn registry_lookup_and_overwrite() {
    let mut reg = Registry::new();
    assert!(reg.insert(target("app", BuildTarget::Debug), BuildCmdId(1), Handle("a")).is_none());
    assert!(reg.insert(target("app", BuildTarget::Release), BuildCmdId(2), Handle("b")).is_none());
    assert_eq!(reg.find_by_cmd(BuildCmdId(2)), Some(1));
    assert_eq!(reg.find_handle(BuildCmdId(1)), Some(&Handle("a")));
    assert_eq!(reg.insert(target("app", BuildTarget::Debug), BuildCmdId(7), Handle("c")), Some(Handle("a")));
    assert_eq!(reg.len(), 2);
    assert_eq!(reg.find_by_cmd(BuildCmdId(1)), None);
    assert_eq!(reg.find_by_cmd(BuildCmdId(7)), Some(0));
}

#[test]
fn rerun_overwrites_the_entry() {
    let (mut server, conn) = setup();
    let first = conn.register(&mut server, target("app", BuildTarget::Debug), BuildCmdId(1), Handle("old"));
    assert_eq!(first, None);
    let replaced = conn.register(&mut server, target("app", BuildTarget::Debug), BuildCmdId(7), Handle("new"));
    assert_eq!(replaced, Some(Handle("old")));
    assert_eq!(conn.stop(&server, BuildCmdId(1)), None);
    assert_eq!(conn.stop(&server, BuildCmdId(7)), Some(&Handle("new")));
}

#[test]
fn targets_differ_by_every_field() {
    let mut reg = Registry::new();
    let sim = |org: &str| BuildTarget::IosSim { org: org.to_string(), app: "a".to_string() };
    reg.insert(target("app", sim("o1")), BuildCmdId(1), Handle("a"));
    reg.insert(target("app", sim("o2")), BuildCmdId(2), Handle("b"));
    reg.insert(target("lib", sim("o1")), BuildCmdId(3), Handle("c"));
    reg.insert(target("app", sim("o1")), BuildCmdId(4), Handle("d"));
    assert_eq!(reg.len(), 3);
    assert_eq!(reg.find_by_cmd(BuildCmdId(4)), Some(0));
}

#[test]
fn forward_to_unknown_command_does_nothing() {
    let (mut server, conn) = setup();
    assert_eq!(conn.forward_to_stdin(&server, BuildCmdId(9), "hi".to_string()), None);
    let action = conn.handle_cmd(&server, BuildCmdWrap { cmd_id: BuildCmdId(9), cmd: BuildCmd::HostToStdin("hello".to_string()) });
    assert!(matches!(action, CmdAction::Nothing));
    conn.register(&mut server, target("app", BuildTarget::Debug), BuildCmdId(1), Handle("p"));
    assert_eq!(conn.forward_to_stdin(&server, BuildCmdId(9), "hi".to_string()), None);
    assert!(conn.msg_sender().events.is_empty());
}

#[test]
fn forward_reaches_the_registered_process() {
    let (mut server, conn) = setup();
    conn.register(&mut server, target("app", BuildTarget::WebAssembly), BuildCmdId(5), Handle("w"));
    assert_eq!(
        conn.forward_to_stdin(&server, BuildCmdId(5), "ping".to_string()),
        Some((&Handle("w"), "ping".to_string()))
    );
    assert_eq!(server.path(), "/tmp/p");
}

#[test]
fn connections_share_the_server() {
    let mut server: BuildServer<Handle> = BuildServer::new("/work".to_string());
    let a = server.connect(Sink { events: Vec::new() });
    let b = server.connect(Sink { events: Vec::new() });
    a.register(&mut server, target("app", BuildTarget::Android), BuildCmdId(5), Handle("x"));
    assert_eq!(b.stop(&server, BuildCmdId(5)), Some(&Handle("x")));
    assert_eq!(b.stop(&server, BuildCmdId(5)), Some(&Handle("x")));
}

#[test]
fn handle_cmd_dispatches() {
    let (mut server, conn) = setup();
    let what = target("app", BuildTarget::Android);
    match conn.handle_cmd(&server, BuildCmdWrap { cmd_id: BuildCmdId(1), cmd: BuildCmd::Run(what.clone(), "http://x".to_string()) }) {
        CmdAction::Launch(w, http) => {
            assert_eq!(w, what);
            assert_eq!(http, "http://x");
        }
        _ => panic!("expected a launch"),
    }
    conn.register(&mut server, what, BuildCmdId(1), Handle("p"));
    match conn.handle_cmd(&server, BuildCmdWrap { cmd_id: BuildCmdId(1), cmd: BuildCmd::HostToStdin("data".to_string()) }) {
        CmdAction::Stdin(h, t) => {
            assert_eq!(*h, Handle("p"));
            assert_eq!(t, "data");
        }
        _ => panic!("expected a stdin forward"),
    }
    match conn.handle_cmd(&server, BuildCmdWrap { cmd_id: BuildCmdId(1), cmd: BuildCmd::Stop }) {
        CmdAction::Kill(h) => assert_eq!(*h, Handle("p")),
        _ => panic!("expected a kill"),
    }
    assert!(matches!(
        conn.handle_cmd(&server, BuildCmdWrap { cmd_id: BuildCmdId(2), cmd: BuildCmd::Stop }),
        CmdAction::Nothing
    ));
}
