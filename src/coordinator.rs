use vstd::prelude::*;
use vstd::string::*;
use vstd::utf8::*;

use crate::address::{address_text, Address};
use crate::render::{servers_dump, servers_text, views};
use crate::server::{Server, ServerView};

verus! {

/// A command for the coordinator.
#[derive(Debug)]
pub enum SendType {
    /// Send this text, as its UTF-8 bytes, to the service endpoint.
    SendServiceServer(String),
    /// Append this record to the coordinator's store.
    AddClientServer(Server),
}

/// What producers put on the command channel.
pub type Message = SendType;

/// An inbound datagram: the bytes that were received and the sender.
#[derive(Debug)]
pub struct Datagram {
    pub payload: Vec<u8>,
    pub source: Address,
}

/// What the coordinator reacts to.
#[derive(Debug)]
pub enum Event {
    /// A command was taken off the channel.
    Command(SendType),
    /// Every producer of commands is gone.
    Closed,
    /// A datagram arrived on the socket.
    Datagram(Datagram),
}

/// What the coordinator asks its driver to do after a step.
#[derive(Debug)]
pub enum Action {
    /// Send these bytes as one datagram to this address.
    Send { payload: Vec<u8>, to: Address },
    /// Publish the current log text to its readers.
    Publish,
    /// Nothing to do.
    Idle,
    /// Leave the loop.
    Stop,
}

/// The abstract value of an [`Event`].
pub ghost enum EventView {
    Notify(Seq<char>),
    Register(ServerView),
    Closed,
    Received(Seq<u8>, Address),
}

/// The abstract value of an [`Action`].
pub ghost enum ActionView {
    Send(Seq<u8>, Address),
    Publish,
    Idle,
    Stop,
}

impl View for Event {
    type V = EventView;

    open spec fn view(&self) -> EventView {
        match self {
            Event::Command(SendType::SendServiceServer(t)) => EventView::Notify(t@),
            Event::Command(SendType::AddClientServer(s)) => EventView::Register(s@),
            Event::Closed => EventView::Closed,
            Event::Datagram(d) => EventView::Received(d.payload@, d.source),
        }
    }
}

impl View for Action {
    type V = ActionView;

    open spec fn view(&self) -> ActionView {
        match self {
            Action::Send { payload, to } => ActionView::Send(payload@, *to),
            Action::Publish => ActionView::Publish,
            Action::Idle => ActionView::Idle,
            Action::Stop => ActionView::Stop,
        }
    }
}

/// The abstract state of a [`Coordinator`].
pub ghost struct CoordinatorView {
    pub remote: Address,
    pub servers: Seq<ServerView>,
    pub log: Seq<char>,
    pub stopped: bool,
}

/// The line that tags a received text with its sender.
pub open spec fn tag_line(source: Address, text: Seq<char>) -> Seq<char> {
    "["@ + address_text(source) + "]: "@ + text + "\n"@
}

/// The log entry for a text received from `source` while `servers` are registered.
pub open spec fn log_entry(source: Address, text: Seq<char>, servers: Seq<ServerView>) -> Seq<char> {
    tag_line(source, text) + "Current servers: "@ + servers_text(servers) + "\n"@
}

/// One step of the coordinator: the next state and the action, from a state and an event.
pub open spec fn next(s: CoordinatorView, e: EventView) -> (CoordinatorView, ActionView) {
    if s.stopped {
        (s, ActionView::Stop)
    } else {
        match e {
            EventView::Notify(t) => (s, ActionView::Send(encode_utf8(t), s.remote)),
            EventView::Register(r) => (
                CoordinatorView { servers: s.servers.push(r), ..s },
                ActionView::Idle,
            ),
            EventView::Closed => (CoordinatorView { stopped: true, ..s }, ActionView::Stop),
            EventView::Received(p, src) => {
                if valid_utf8(p) {
                    (
                        CoordinatorView {
                            log: s.log + log_entry(src, decode_utf8(p), s.servers),
                            ..s
                        },
                        ActionView::Publish,
                    )
                } else {
                    (s, ActionView::Idle)
                }
            },
        }
    }
}

/// Relies on `core::str::from_utf8`: it accepts exactly the well-formed
/// UTF-8 byte sequences, and the text it gives back has those bytes.
#[verifier::external_body]
fn decode_text(bytes: &[u8]) -> (r: Option<String>)
    ensures
        r is Some <==> valid_utf8(bytes@),
        r is Some ==> r->Some_0@ == decode_utf8(bytes@),
{
    match core::str::from_utf8(bytes) {
        Ok(s) => Some(s.to_string()),
        Err(_) => None,
    }
}

/// Writes the log entry for `text` received from `source`: a line tagging the
/// sender and the text, then a line that dumps the registered records.
pub fn log_entry_text(source: &Address, text: &str, servers: &Vec<Server>) -> (r: String)
    ensures
        r@ == log_entry(*source, text@, views(servers@)),
{
    let mut s = String::from_str("[");
    s.append(source.to_text().as_str());
    s.append("]: ");
    s.append(text);
    s.append("\n");
    s.append("Current servers: ");
    s.append(servers_dump(servers).as_str());
    s.append("\n");
    s
}

/// Picks the next event from what is ready: a command (or the closing of the
/// channel) goes before a datagram that is ready at the same time.
pub fn next_event(command: Option<Option<SendType>>, datagram: Option<Datagram>) -> (r: Option<Event>)
    ensures
        match command {
            Some(Some(c)) => r == Some(Event::Command(c)),
            Some(None) => r == Some(Event::Closed),
            None => match datagram {
                Some(d) => r == Some(Event::Datagram(d)),
                None => r is None,
            },
        },
{
    match command {
        Some(Some(c)) => Some(Event::Command(c)),
        Some(None) => Some(Event::Closed),
        None => match datagram {
            Some(d) => Some(Event::Datagram(d)),
            None => None,
        },
    }
}

/// The network coordinator: the store of registered records, the accumulated
/// log text, the address that notifications go to, and whether it has stopped.
pub struct Coordinator {
    remote: Address,
    servers: Vec<Server>,
    log: String,
    stopped: bool,
}

impl View for Coordinator {
    type V = CoordinatorView;

    closed spec fn view(&self) -> CoordinatorView {
        CoordinatorView {
            remote: self.remote,
            servers: views(self.servers@),
            log: self.log@,
            stopped: self.stopped,
        }
    }
}

impl Coordinator {
    /// A running coordinator with no records and an empty log, sending notifications to `remote`.
    pub fn new(remote: Address) -> (r: Coordinator)
        ensures
            r@.remote == remote,
            r@.servers == Seq::<ServerView>::empty(),
            r@.log == Seq::<char>::empty(),
            !r@.stopped,
    {
        let r = Coordinator { remote, servers: Vec::new(), log: String::new(), stopped: false };
        assert(views(r.servers@) =~= Seq::<ServerView>::empty());
        r
    }

    /// Reacts to one event: updates the store or the log and says what to do.
    pub fn step(&mut self, event: Event) -> (a: Action)
        ensures
            (final(self)@, a@) == next(old(self)@, event@),
    {
        if self.stopped {
            return Action::Stop;
        }
        match event {
            Event::Command(SendType::SendServiceServer(text)) => {
                let payload = text.as_str().as_bytes_vec();
                Action::Send { payload, to: self.remote }
            },
            Event::Command(SendType::AddClientServer(server)) => {
                let ghost before = self.servers@;
                self.servers.push(server);
                assert(views(self.servers@) =~= views(before).push(server@));
                Action::Idle
            },
            Event::Closed => {
                self.stopped = true;
                Action::Stop
            },
            Event::Datagram(d) => {
                match decode_text(d.payload.as_slice()) {
                    Some(text) => {
                        let entry = log_entry_text(&d.source, text.as_str(), &self.servers);
                        self.log.append(entry.as_str());
                        Action::Publish
                    },
                    None => Action::Idle,
                }
            },
        }
    }

    /// The accumulated log text.
    pub fn log(&self) -> (r: &str)
        ensures
            r@ == self@.log,
    {
        self.log.as_str()
    }

    /// The registered records, in the order they were registered.
    pub fn servers(&self) -> (r: &Vec<Server>)
        ensures
            views(r@) == self@.servers,
    {
        &self.servers
    }

    /// Whether the coordinator has stopped.
    pub fn is_stopped(&self) -> (r: bool)
        ensures
            r == self@.stopped,
    {
        self.stopped
    }

    /// The address that notifications are sent to.
    pub fn remote(&self) -> (r: Address)
        ensures
            r == self@.remote,
    {
        self.remote
    }
}

} // verus!
