//! What clients and the supervisor exchange: one message per connection.

use crate::config;
use crate::paths;
use vstd::prelude::*;

verus! {

/// A message from a client to the supervisor.
#[derive(Debug)]
pub enum Message {
    /// Start a new process with the given name and launch description.
    Start(String, config::Process),
    /// Stop the process with the given name.
    Stop(String),
    /// Leave the supervisor's loop.
    Quit,
    /// Ask whether the supervisor is there; nothing changes.
    Status,
}

/// The mathematical content of a [`Message`].
pub enum MessageView {
    Start(Seq<char>, config::ProcessView),
    Stop(Seq<char>),
    Quit,
    Status,
}

impl View for Message {
    type V = MessageView;

    open spec fn view(&self) -> MessageView {
        match self {
            Message::Start(name, process) => MessageView::Start(name@, process@),
            Message::Stop(name) => MessageView::Stop(name@),
            Message::Quit => MessageView::Quit,
            Message::Status => MessageView::Status,
        }
    }
}

/// What a list of messages holds.
pub open spec fn views(messages: Seq<Message>) -> Seq<MessageView> {
    Seq::new(messages.len(), |i: int| messages[i]@)
}

/// The start requests for `declarations`, one for each in their order.
pub open spec fn start_messages(declarations: Seq<(Seq<char>, config::ProcessView)>) -> Seq<
    MessageView,
> {
    Seq::new(
        declarations.len(),
        |i: int| MessageView::Start(declarations[i].0, declarations[i].1),
    )
}

/// The stop requests for `declarations`, one for each in their order.
pub open spec fn stop_messages(declarations: Seq<(Seq<char>, config::ProcessView)>) -> Seq<
    MessageView,
> {
    Seq::new(declarations.len(), |i: int| MessageView::Stop(declarations[i].0))
}

/// What a start command sends: a start request for every process that the
/// configuration declares, or for the one under `name`. Each carries a copy
/// of the process's description.
///
/// A name that the configuration does not declare is the caller's mistake.
pub fn start_requests(name: Option<&String>, config: &config::Config) -> (messages: Vec<Message>)
    requires
        name matches Some(name) ==> config::declares(config@, name@),
    ensures
        name is None ==> views(messages@) == start_messages(config@),
        name matches Some(name) ==> exists|i: int|
            0 <= i < config@.len() && config@[i].0 == name@ && (forall|j: int|
                0 <= j < i ==> config@[j].0 != name@) && views(messages@) == start_messages(
                seq![config@[i]],
            ),
{
    let selection = config::select_processes(name, config);
    let mut messages: Vec<Message> = Vec::new();
    let mut i: usize = 0;
    while i < selection.len()
        invariant
            i <= selection@.len(),
            messages@.len() == i,
            forall|j: int|
                0 <= j < i ==> (#[trigger] messages@[j])@ == MessageView::Start(
                    selection@[j].0@,
                    selection@[j].1@,
                ),
        decreases selection@.len() - i,
    {
        messages.push(Message::Start(selection[i].0.clone(), selection[i].1.clone()));
        i += 1;
    }
    assert(views(messages@) =~= start_messages(config::listed(selection@)));
    messages
}

/// What a stop command sends: a stop request for every process that the
/// configuration declares, or for the one under `name`.
///
/// A name that the configuration does not declare is the caller's mistake.
pub fn stop_requests(name: Option<&String>, config: &config::Config) -> (messages: Vec<Message>)
    requires
        name matches Some(name) ==> config::declares(config@, name@),
    ensures
        name is None ==> views(messages@) == stop_messages(config@),
        name matches Some(name) ==> exists|i: int|
            0 <= i < config@.len() && config@[i].0 == name@ && (forall|j: int|
                0 <= j < i ==> config@[j].0 != name@) && views(messages@) == stop_messages(
                seq![config@[i]],
            ),
{
    let selection = config::select_processes(name, config);
    let mut messages: Vec<Message> = Vec::new();
    let mut i: usize = 0;
    while i < selection.len()
        invariant
            i <= selection@.len(),
            messages@.len() == i,
            forall|j: int|
                0 <= j < i ==> (#[trigger] messages@[j])@ == MessageView::Stop(selection@[j].0@),
        decreases selection@.len() - i,
    {
        messages.push(Message::Stop(selection[i].0.clone()));
        i += 1;
    }
    assert(views(messages@) =~= stop_messages(config::listed(selection@)));
    messages
}

/// The path of the supervisor's socket for the configuration directory `dir`.
pub open spec fn socket_file(dir: Seq<char>) -> Seq<char> {
    paths::joined(dir, "daemon.socket"@)
}

/// Where the supervisor listens and clients connect: the file `daemon.socket`
/// in the configuration directory.
pub fn get_socket_file(config_dir: &str) -> (file: String)
    ensures
        file@ == socket_file(config_dir@),
{
    paths::join(config_dir, "daemon.socket")
}

/// What one attempt to take a message from the listening end came to.
#[derive(Debug)]
pub enum Arrival {
    /// Nobody is waiting: accepting would block.
    WouldBlock,
    /// Nobody turned up in time.
    TimedOut,
    /// Accepting failed for another reason.
    Refused,
    /// A connection was accepted, but its payload could not be read.
    Unreadable,
    /// The payload was read, but it is no message.
    Malformed,
    /// A message arrived.
    Delivered(Message),
}

/// A failure of the transport, as distinct from there being no message.
#[derive(Clone, Copy, Debug, PartialEq, Eq, Structural)]
pub enum TransportError {
    /// No connection could be accepted.
    Accept,
    /// An accepted connection could not be read.
    Read,
    /// What was read is unknown or malformed.
    Decode,
}

/// Sorts an arrival into a message, no message, or a failure. That nobody is
/// waiting is no failure.
pub fn try_receive(arrival: Arrival) -> (received: Result<Option<Message>, TransportError>)
    ensures
        received == (match arrival {
            Arrival::WouldBlock | Arrival::TimedOut => Ok::<Option<Message>, TransportError>(
                None,
            ),
            Arrival::Refused => Err(TransportError::Accept),
            Arrival::Unreadable => Err(TransportError::Read),
            Arrival::Malformed => Err(TransportError::Decode),
            Arrival::Delivered(message) => Ok(Some(message)),
        }),
{
    match arrival {
        Arrival::WouldBlock | Arrival::TimedOut => Ok(None),
        Arrival::Refused => Err(TransportError::Accept),
        Arrival::Unreadable => Err(TransportError::Read),
        Arrival::Malformed => Err(TransportError::Decode),
        Arrival::Delivered(message) => Ok(Some(message)),
    }
}

} // verus!
