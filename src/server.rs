//! The build server and its connections. The server owns the one registry;
//! callers serialise access to it (one owner, commands handled in turn), so
//! every command sees and leaves a well-formed registry.
use vstd::prelude::*;
use crate::classify::{bare_event, classify_diagnostic, classify_spec, delivered, LogItemView};
use crate::protocol::{
    BuildCmd, BuildCmdId, BuildCmdWrap, BuildProcess, BuildProcessView, Length, LogItem,
    LogItemLevel, LogItemLocation, LogItemWrap, Position, RustcCompilerMessage,
};
use crate::registry::{first_with_cmd, has_key, insert_spec, Registry};
use crate::text::trimmed_of;

verus! {

/// `after` is `before` with one more event, for `cmd_id`, whose value is `item`.
pub open spec fn sent_one(
    before: Seq<LogItemWrap>,
    after: Seq<LogItemWrap>,
    cmd_id: BuildCmdId,
    item: LogItemView,
) -> bool {
    &&& after.len() == before.len() + 1
    &&& after.subrange(0, before.len() as int) == before
    &&& after.last().cmd_id == cmd_id
    &&& after.last().item@ == item
}

/// The sink for events to the host. Implementors provide `send_message`;
/// `sent` is the sequence of events it has been handed.
pub trait MsgSender {
    /// The events handed to `send_message` so far. Default methods treat it
    /// abstractly; a verified implementor defines it, since the empty default
    /// cannot meet `send_message`'s contract.
    closed spec fn sent(&self) -> Seq<LogItemWrap> {
        Seq::empty()
    }

    fn send_message(&mut self, wrap: LogItemWrap)
        ensures
            final(self).sent() == old(self).sent().push(wrap),
    ;

    /// Sends a line at a level, with surrounding white space removed.
    fn send_bare_msg(&mut self, cmd_id: BuildCmdId, level: LogItemLevel, line: String)
        ensures
            sent_one(
                old(self).sent(),
                final(self).sent(),
                cmd_id,
                LogItemView::Bare { level, line: trimmed_of(line@) },
            ),
    {
        let wrap = bare_event(cmd_id, level, line.as_str());
        self.send_message(wrap);
        assert(final(self).sent().subrange(0, old(self).sent().len() as int) =~= old(self).sent());
    }

    /// Sends a line of the program's own output.
    fn send_stdin_to_host_msg(&mut self, cmd_id: BuildCmdId, line: String)
        ensures
            sent_one(old(self).sent(), final(self).sent(), cmd_id, LogItemView::StdinToHost(line@)),
    {
        let wrap = cmd_id.wrap_msg(LogItem::StdinToHost(line));
        self.send_message(wrap);
        assert(final(self).sent().subrange(0, old(self).sent().len() as int) =~= old(self).sent());
    }

    /// Sends a diagnostic at a place in a source file.
    fn send_location_msg(
        &mut self,
        cmd_id: BuildCmdId,
        level: LogItemLevel,
        file_name: String,
        start: Position,
        length: Length,
        msg: String,
    )
        ensures
            sent_one(
                old(self).sent(),
                final(self).sent(),
                cmd_id,
                LogItemView::Location { level, file_name: file_name@, start, length, msg: msg@ },
            ),
    {
        let wrap = cmd_id.wrap_msg(
            LogItem::Location(LogItemLocation { level, file_name, start, length, msg }),
        );
        self.send_message(wrap);
        assert(final(self).sent().subrange(0, old(self).sent().len() as int) =~= old(self).sent());
    }

    /// Classifies a compiler message and sends the one event it yields, if any.
    fn process_compiler_message(&mut self, cmd_id: BuildCmdId, msg: RustcCompilerMessage)
        ensures
            match msg.message {
                None => final(self).sent() == old(self).sent(),
                Some(d) => match classify_spec(d, trimmed_of(d.message@)) {
                    None => final(self).sent() == old(self).sent(),
                    Some(v) => sent_one(old(self).sent(), final(self).sent(), cmd_id, delivered(v)),
                },
            },
    {
        if let Some(diagnostic) = msg.message {
            match classify_diagnostic(&diagnostic) {
                Some(LogItem::Bare(b)) => self.send_bare_msg(cmd_id, b.level, b.line),
                Some(item) => {
                    let wrap = cmd_id.wrap_msg(item);
                    self.send_message(wrap);
                    assert(final(self).sent().subrange(0, old(self).sent().len() as int)
                        =~= old(self).sent());
                },
                None => {},
            }
        }
    }
}

/// Owns the registry of running processes of a build tool.
pub struct BuildServer<H> {
    path: String,
    processes: Registry<H>,
}

impl<H> BuildServer<H> {
    /// The directory processes are launched in.
    pub closed spec fn spec_path(&self) -> Seq<char> {
        self.path@
    }

    /// The registry: build targets with their command ids, in order of registration.
    pub closed spec fn registry(&self) -> Seq<(BuildProcessView, BuildCmdId)> {
        self.processes@
    }

    /// The handle of the registry entry at `i`.
    pub closed spec fn handle_of(&self, i: int) -> H {
        self.processes.spec_handle(i)
    }

    /// No build target is registered twice.
    pub closed spec fn wf(&self) -> bool {
        self.processes.wf()
    }

    /// A server over an empty registry, building in the directory `path`.
    pub fn new(path: String) -> (r: BuildServer<H>)
        ensures
            r.wf(),
            r.spec_path() == path@,
            r.registry() == Seq::<(BuildProcessView, BuildCmdId)>::empty(),
    {
        BuildServer { path, processes: Registry::new() }
    }

    /// The directory processes are launched in.
    pub fn path(&self) -> (r: &String)
        ensures
            r@ == self.spec_path(),
    {
        &self.path
    }

    /// A connection reporting to `msg_sender`; the server is left as it was.
    pub fn connect<S: MsgSender>(&mut self, msg_sender: S) -> (r: BuildConnection<S>)
        ensures
            r.spec_msg_sender() == msg_sender,
            *final(self) == *old(self),
    {
        BuildConnection { msg_sender }
    }
}

/// What the caller carries out for a command of the host.
pub enum CmdAction<'a, H> {
    /// Launch this target with this side-channel URL, then `register` it.
    Launch(BuildProcess, String),
    /// Send a kill request on this handle.
    Kill(&'a H),
    /// Hand this text to the standard input behind this handle.
    Stdin(&'a H, String),
    /// Nothing: the command id is not registered.
    Nothing,
}

/// One session of the host with the server.
pub struct BuildConnection<S> {
    msg_sender: S,
}

impl<S> BuildConnection<S> {
    pub closed spec fn spec_msg_sender(&self) -> S {
        self.msg_sender
    }
}

impl<S: MsgSender> BuildConnection<S> {
    /// The sink this connection reports to.
    pub fn msg_sender(&self) -> (r: &S)
        ensures
            *r == self.spec_msg_sender(),
    {
        &self.msg_sender
    }

    /// The handle to send a kill request to for `cmd_id`: that of the first
    /// entry registered under it. None for an unknown id, which is then ignored.
    /// The registry is only read.
    pub fn stop<'a, H>(&self, server: &'a BuildServer<H>, cmd_id: BuildCmdId) -> (r: Option<&'a H>)
        ensures
            match first_with_cmd(server.registry(), cmd_id, 0) {
                Some(i) => r is Some && *r->0 == server.handle_of(i),
                None => r is None,
            },
    {
        server.processes.find_handle(cmd_id)
    }

    /// The handle whose standard input receives `text` for `cmd_id`, with the
    /// text unchanged. None for an unknown id, which is then ignored.
    pub fn forward_to_stdin<'a, H>(
        &self,
        server: &'a BuildServer<H>,
        cmd_id: BuildCmdId,
        text: String,
    ) -> (r: Option<(&'a H, String)>)
        ensures
            match first_with_cmd(server.registry(), cmd_id, 0) {
                Some(i) => r is Some && *(r->0).0 == server.handle_of(i) && (r->0).1 == text,
                None => r is None,
            },
    {
        match server.processes.find_handle(cmd_id) {
            Some(h) => Some((h, text)),
            None => None,
        }
    }

    /// Registers a freshly launched process under `cmd_id`. An entry already
    /// there for `what` is replaced and handed back (its process is not killed).
    pub fn register<H>(
        &self,
        server: &mut BuildServer<H>,
        what: BuildProcess,
        cmd_id: BuildCmdId,
        handle: H,
    ) -> (r: Option<H>)
        requires
            old(server).wf(),
        ensures
            final(server).wf(),
            final(server).registry() == insert_spec(old(server).registry(), what@, cmd_id),
            final(server).spec_path() == old(server).spec_path(),
            r is Some <==> has_key(old(server).registry(), what@),
    {
        server.processes.insert(what, cmd_id, handle)
    }

    /// Dispatches a command of the host to what the caller carries out. The
    /// registry is only read, and no event is sent.
    pub fn handle_cmd<'a, H>(&self, server: &'a BuildServer<H>, cmd_wrap: BuildCmdWrap) -> (r:
        CmdAction<'a, H>)
        ensures
            match cmd_wrap.cmd {
                BuildCmd::Run(what, http) => r == CmdAction::<'a, H>::Launch(what, http),
                BuildCmd::Stop => match first_with_cmd(server.registry(), cmd_wrap.cmd_id, 0) {
                    Some(i) => r is Kill && *r->Kill_0 == server.handle_of(i),
                    None => r is Nothing,
                },
                BuildCmd::HostToStdin(text) => match first_with_cmd(
                    server.registry(),
                    cmd_wrap.cmd_id,
                    0,
                ) {
                    Some(i) => r is Stdin && *r->Stdin_0 == server.handle_of(i) && r->Stdin_1
                        == text,
                    None => r is Nothing,
                },
            },
    {
        match cmd_wrap.cmd {
            BuildCmd::Run(what, http) => CmdAction::Launch(what, http),
            BuildCmd::Stop => match self.stop(server, cmd_wrap.cmd_id) {
                Some(h) => CmdAction::Kill(h),
                None => CmdAction::Nothing,
            },
            BuildCmd::HostToStdin(text) => match self.forward_to_stdin(
                server,
                cmd_wrap.cmd_id,
                text,
            ) {
                Some((h, t)) => CmdAction::Stdin(h, t),
                None => CmdAction::Nothing,
            },
        }
    }
}

} // verus!
