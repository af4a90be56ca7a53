//! The per-connection request/response state machine.
//!
//! One [`Session`] belongs to the task that owns one accepted connection.
//! The embedding program alternates between asking the framing layer for the
//! next command and writing one response frame back; between those two pieces
//! of I/O it hands every outcome to the session, which dispatches commands
//! against the shared [`Store`], decides the reply, and tracks when and why
//! the connection ends. All per-connection faults stay inside the one
//! session: nothing here touches any other connection.
//!
//! Policy for the residual command variant (`Command::Other`): the connection
//! is closed with [`Fault::UnimplementedCommand`] and no response frame is
//! written for it; the store is untouched. Other connections go on unharmed.

use vstd::prelude::*;

use crate::protocol::{Command, CommandModel, Response, ResponseModel};
use crate::store::Store;

verus! {

/// Why a connection terminated, when it did not close cleanly.
#[derive(Debug, Clone, Copy, PartialEq, Eq, Structural)]
pub enum Fault {
    /// The framing layer reported a malformed frame.
    Framing,
    /// A read or write on the connection's stream failed.
    Io,
    /// A recognized-but-unhandled command variant arrived.
    UnimplementedCommand,
}

/// How a finished connection ended.
#[derive(Debug, Clone, Copy, PartialEq, Eq, Structural)]
pub enum CloseKind {
    /// The peer closed the stream with no partial frame pending.
    Clean,
    Faulted(Fault),
}

/// The lifecycle of one connection.
#[derive(Debug, Clone, Copy, PartialEq, Eq, Structural)]
pub enum ConnState {
    Accepted,
    Serving,
    Closed(CloseKind),
}

/// What the framing layer reports when asked for the next command on a
/// connection: a parsed command, a clean end of stream, a malformed frame,
/// or an I/O failure.
#[derive(Debug, Clone, PartialEq, Eq)]
pub enum ReadEvent {
    Command(Command),
    EndOfStream,
    FramingFault,
    IoFault,
}

/// What the handler task must do next: write one response frame, or stop
/// serving this connection.
#[derive(Debug, Clone, PartialEq, Eq)]
pub enum Action {
    Write(Response),
    Stop,
}

/// Spec-level picture of a read outcome.
#[verifier::ext_equal]
pub enum EventModel {
    Command(CommandModel),
    EndOfStream,
    FramingFault,
    IoFault,
}

/// Spec-level picture of the next step owed.
#[verifier::ext_equal]
pub enum ActionModel {
    Write(ResponseModel),
    Stop,
}

impl View for ReadEvent {
    type V = EventModel;

    open spec fn view(&self) -> EventModel {
        match self {
            ReadEvent::Command(c) => EventModel::Command(c@),
            ReadEvent::EndOfStream => EventModel::EndOfStream,
            ReadEvent::FramingFault => EventModel::FramingFault,
            ReadEvent::IoFault => EventModel::IoFault,
        }
    }
}

impl View for Action {
    type V = ActionModel;

    open spec fn view(&self) -> ActionModel {
        match self {
            Action::Write(r) => ActionModel::Write(r@),
            Action::Stop => ActionModel::Stop,
        }
    }
}

/// The status text acknowledging a completed `Put`.
pub open spec fn ok_text() -> Seq<char> {
    "OK"@
}

/// The store contents after one command is applied: `Put` inserts or
/// overwrites its key, every other command leaves the mapping alone.
pub open spec fn store_after(
    m: Map<Seq<char>, Seq<u8>>,
    c: CommandModel,
) -> Map<Seq<char>, Seq<u8>> {
    match c {
        CommandModel::Put { key, value } => m.insert(key, value),
        _ => m,
    }
}

/// The one response owed to a `Get` or `Put` command read against store
/// contents `m`.
pub open spec fn response_of(m: Map<Seq<char>, Seq<u8>>, c: CommandModel) -> ResponseModel
    recommends
        !(c is Other),
{
    match c {
        CommandModel::Put { .. } => ResponseModel::Simple(ok_text()),
        CommandModel::Get { key } => if m.contains_key(key) {
            ResponseModel::Bulk(m[key])
        } else {
            ResponseModel::Null
        },
        CommandModel::Other => ResponseModel::Null,
    }
}

/// Apply one command to the store and produce the reply owed for it.
///
/// Succeeds on exactly the `Get` and `Put` variants; the residual variant is
/// refused with `Fault::UnimplementedCommand` and the store is untouched.
/// The mutation for a `Put` happens exactly once, here, whatever later
/// becomes of the response.
pub fn dispatch(store: &mut Store, cmd: Command) -> (r: Result<Response, Fault>)
    requires
        old(store).wf(),
    ensures
        final(store).wf(),
        final(store)@ == store_after(old(store)@, cmd@),
        r is Ok <==> !(cmd is Other),
        r matches Ok(resp) ==> resp@ == response_of(old(store)@, cmd@),
        r matches Err(f) ==> f == Fault::UnimplementedCommand,
{
    match cmd {
        Command::Put { key, value } => {
            store.set(key, value);
            Ok(Response::Simple("OK".to_owned()))
        },
        Command::Get { key } => {
            match store.get(&key) {
                Some(v) => Ok(Response::Bulk(v)),
                None => Ok(Response::Null),
            }
        },
        Command::Other => Err(Fault::UnimplementedCommand),
    }
}

/// The connection state after the framing layer's answer to one read is
/// handled: commands keep the session serving (unless unhandled), end of
/// stream closes it cleanly, and faults close it with their cause.
pub open spec fn state_after_read(ev: EventModel) -> ConnState {
    match ev {
        EventModel::Command(c) => if c is Other {
            ConnState::Closed(CloseKind::Faulted(Fault::UnimplementedCommand))
        } else {
            ConnState::Serving
        },
        EventModel::EndOfStream => ConnState::Closed(CloseKind::Clean),
        EventModel::FramingFault => ConnState::Closed(CloseKind::Faulted(Fault::Framing)),
        EventModel::IoFault => ConnState::Closed(CloseKind::Faulted(Fault::Io)),
    }
}

/// The store contents after one read outcome is handled: only a handled
/// command can change the mapping.
pub open spec fn store_after_read(
    m: Map<Seq<char>, Seq<u8>>,
    ev: EventModel,
) -> Map<Seq<char>, Seq<u8>> {
    match ev {
        EventModel::Command(c) => if c is Other {
            m
        } else {
            store_after(m, c)
        },
        _ => m,
    }
}

/// The step owed after one read outcome: exactly one response frame per
/// handled command, before the next read; nothing is written after a fault
/// or at end of stream.
pub open spec fn action_after_read(m: Map<Seq<char>, Seq<u8>>, ev: EventModel) -> ActionModel {
    match ev {
        EventModel::Command(c) => if c is Other {
            ActionModel::Stop
        } else {
            ActionModel::Write(response_of(m, c))
        },
        _ => ActionModel::Stop,
    }
}

/// The handler task's view of one connection:
/// `Accepted -> Serving -> Closed(Clean | Faulted)`.
pub struct Session {
    pub state: ConnState,
}

impl Session {
    /// A session for a freshly accepted connection.
    pub fn new() -> (s: Session)
        ensures
            s.state == ConnState::Accepted,
    {
        Session { state: ConnState::Accepted }
    }

    /// Enter the request/response loop.
    pub fn start(&mut self)
        requires
            old(self).state == ConnState::Accepted,
        ensures
            final(self).state == ConnState::Serving,
    {
        self.state = ConnState::Serving;
    }

    /// Handle the framing layer's answer to one read: dispatch a command
    /// against the store and owe its one response, or close the session.
    /// Every outcome other than a handled command leaves the store
    /// untouched, and no fault here reaches past this session.
    pub fn on_read(&mut self, store: &mut Store, ev: ReadEvent) -> (a: Action)
        requires
            old(self).state == ConnState::Serving,
            old(store).wf(),
        ensures
            final(store).wf(),
            final(store)@ == store_after_read(old(store)@, ev@),
            final(self).state == state_after_read(ev@),
            a@ == action_after_read(old(store)@, ev@),
    {
        match ev {
            ReadEvent::Command(cmd) => {
                match dispatch(store, cmd) {
                    Ok(resp) => Action::Write(resp),
                    Err(f) => {
                        self.state = ConnState::Closed(CloseKind::Faulted(f));
                        Action::Stop
                    },
                }
            },
            ReadEvent::EndOfStream => {
                self.state = ConnState::Closed(CloseKind::Clean);
                Action::Stop
            },
            ReadEvent::FramingFault => {
                self.state = ConnState::Closed(CloseKind::Faulted(Fault::Framing));
                Action::Stop
            },
            ReadEvent::IoFault => {
                self.state = ConnState::Closed(CloseKind::Faulted(Fault::Io));
                Action::Stop
            },
        }
    }

    /// Record the outcome of writing the owed response frame. A failed write
    /// closes the session with an I/O fault; the store is not involved at
    /// all, so the command's mutation stays applied exactly once and is
    /// never retried.
    pub fn on_write(&mut self, ok: bool)
        requires
            old(self).state == ConnState::Serving,
        ensures
            final(self).state == if ok {
                ConnState::Serving
            } else {
                ConnState::Closed(CloseKind::Faulted(Fault::Io))
            },
    {
        if !ok {
            self.state = ConnState::Closed(CloseKind::Faulted(Fault::Io));
        }
    }
}

} // verus!
