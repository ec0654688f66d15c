//! The console session: what the client does with each line typed at its
//! console and with the outcome of each client operation it starts.
//!
//! The session is a state machine. The driver reads an event (a line, the
//! end of input, or the outcome of an operation), calls [`Session::step`],
//! and performs the returned actions in order: it forwards text to the
//! agent network, writes to the buffered console writer, prints lines, and
//! runs operations on the MLS client. An operation whose outcome decides
//! what is shown next (`UpdateClient`, `SendGroupMessage`, `ReadMessages`)
//! is always the last action of its step; its outcome is the next event.
use vstd::prelude::*;
use crate::text::{is_blank, decimal, line_is_blank, text, concat2, concat3, concat4, render_decimal};
use crate::command::{Command, GroupCommand, command_of, group_command_of, parse_command, parse_group_command};

verus! {

/// The help text that the `help` command writes.
pub const HELP: &'static str = "
>>> Available commands:
>>>     - update                                update the client state
>>>     - reset                                 reset the server
>>>     - register {client name}                register a new client
>>>     - save {client name}                    serialize and save the client state
>>>     - load {client name}                    load and deserialize the client state as a new client
>>>     - autosave                              enable automatic save of the current client state upon each update
>>>     - create kp                             create a new key package
>>>     - create group {group name}             create a new group
>>>     - group {group name}                    group operations
>>>         - send {message}                    send message to group
>>>         - invite {client name}              invite a user to the group
>>>         - read                              read messages sent to the group (max 100)
>>>         - update                            update the client state

";
/// A message that an update of the client delivered.
#[derive(Clone, Debug, PartialEq, Eq)]
pub struct ReceivedMessage {
    pub message: String,
    pub author: String,
}

/// Something for the driver to do. `S` is `String` for values and
/// `Seq<char>` for their meaning in contracts.
#[derive(Clone, Debug, PartialEq, Eq)]
pub enum Action<S> {
    /// Send the text to the agent network as a text frame.
    Forward(S),
    /// Write the text to the buffered console writer.
    Write(S),
    /// Flush the console writer.
    Flush,
    /// Print the text and a line break on standard output.
    Print(S),
    /// Make a new MLS client with this name, the current client from now
    /// on, and print its identity.
    CreateClient(S),
    /// Add a key package to the current client.
    AddKeyPackage,
    /// Register the current client with the delivery service.
    RegisterClient,
    /// Create a new key package for the current client.
    CreateKeyPackage,
    /// Create a group with this name.
    CreateGroup(S),
    /// Update the client state (for one group, or all); the messages it
    /// delivers come back as [`Event::Updated`].
    UpdateClient(Option<S>),
    /// Send a message to a group; the outcome comes back as
    /// [`Event::MessageSent`].
    SendGroupMessage { message: S, group: S },
    /// Invite a client to a group.
    Invite { client: S, group: S },
    /// Remove a client from a group.
    Remove { client: S, group: S },
    /// Read the messages of a group; how many there are comes back as
    /// [`Event::MessagesRead`].
    ReadMessages(S),
    /// Reset the delivery service (`GET reset`), and drop the current
    /// client.
    ResetServer,
    /// Load the saved state of the client with this name, which becomes
    /// the current client on success; the outcome comes back as
    /// [`Event::Loaded`].
    LoadClient(S),
    /// Save the state of the current client; its identity comes back as
    /// [`Event::Identity`].
    SaveClient,
    /// Make the current client save its state on each update; its identity
    /// comes back as [`Event::Identity`].
    EnableAutoSave,
}

/// An operation whose outcome the session waits for.
#[derive(Clone, Debug, PartialEq, Eq)]
pub enum Pending<S> {
    /// An update, of a group or of all state.
    Update(Option<S>),
    /// A message sent to a group.
    Send(S),
    /// Messages read from a group.
    Read(S),
    /// Loading the client with this name.
    Load(S),
    /// Saving the current client.
    Save,
    /// Turning on automatic saving.
    AutoSave,
}

/// Where the session is.
#[derive(Clone, Debug, PartialEq, Eq)]
pub enum Mode<S> {
    /// Reading top-level commands.
    TopLevel,
    /// Reading commands for the named group.
    InGroup(S),
    /// Waiting for the outcome of an operation.
    Awaiting(Pending<S>),
    /// Input has ended.
    Finished,
}

/// What the driver hands to the session.
#[derive(Debug, PartialEq, Eq)]
pub enum Event {
    /// A line read from the console, without its line break.
    Line(String),
    /// The console input has ended.
    EndOfInput,
    /// The messages that an update delivered.
    Updated(Vec<ReceivedMessage>),
    /// The outcome of sending a group message; an error as its debug text.
    MessageSent(Result<(), String>),
    /// How many messages a read returned, `None` when it returned none.
    MessagesRead(Option<usize>),
    /// The outcome of loading a client; an error as its display text.
    Loaded(Result<(), String>),
    /// The identity of the current client, as text.
    Identity(String),
}

/// The meaning of an [`Event`].
pub enum EventView {
    Line(Seq<char>),
    EndOfInput,
    Updated(Seq<(Seq<char>, Seq<char>)>),
    MessageSent(Result<(), Seq<char>>),
    MessagesRead(Option<usize>),
    Loaded(Result<(), Seq<char>>),
    Identity(Seq<char>),
}

/// The console session.
pub struct Session {
    client: Option<String>,
    mode: Mode<String>,
}

/// The meaning of a [`Session`]: the name of the current client, if any,
/// and where the session is.
pub struct SessionView {
    pub client: Option<Seq<char>>,
    pub mode: Mode<Seq<char>>,
}

pub open spec fn opt_view(o: Option<String>) -> Option<Seq<char>> {
    match o {
        Some(s) => Some(s@),
        None => None,
    }
}

impl View for Action<String> {
    type V = Action<Seq<char>>;

    open spec fn view(&self) -> Action<Seq<char>> {
        match self {
            Action::Forward(t) => Action::Forward(t@),
            Action::Write(t) => Action::Write(t@),
            Action::Flush => Action::Flush,
            Action::Print(t) => Action::Print(t@),
            Action::CreateClient(n) => Action::CreateClient(n@),
            Action::AddKeyPackage => Action::AddKeyPackage,
            Action::RegisterClient => Action::RegisterClient,
            Action::CreateKeyPackage => Action::CreateKeyPackage,
            Action::CreateGroup(g) => Action::CreateGroup(g@),
            Action::UpdateClient(g) => Action::UpdateClient(opt_view(*g)),
            Action::SendGroupMessage { message, group } => Action::SendGroupMessage {
                message: message@,
                group: group@,
            },
            Action::Invite { client, group } => Action::Invite { client: client@, group: group@ },
            Action::Remove { client, group } => Action::Remove { client: client@, group: group@ },
            Action::ReadMessages(g) => Action::ReadMessages(g@),
            Action::ResetServer => Action::ResetServer,
            Action::LoadClient(n) => Action::LoadClient(n@),
            Action::SaveClient => Action::SaveClient,
            Action::EnableAutoSave => Action::EnableAutoSave,
        }
    }
}

impl View for Pending<String> {
    type V = Pending<Seq<char>>;

    open spec fn view(&self) -> Pending<Seq<char>> {
        match self {
            Pending::Update(g) => Pending::Update(opt_view(*g)),
            Pending::Send(g) => Pending::Send(g@),
            Pending::Read(g) => Pending::Read(g@),
            Pending::Load(n) => Pending::Load(n@),
            Pending::Save => Pending::Save,
            Pending::AutoSave => Pending::AutoSave,
        }
    }
}

impl View for Mode<String> {
    type V = Mode<Seq<char>>;

    open spec fn view(&self) -> Mode<Seq<char>> {
        match self {
            Mode::TopLevel => Mode::TopLevel,
            Mode::InGroup(g) => Mode::InGroup(g@),
            Mode::Awaiting(p) => Mode::Awaiting(p@),
            Mode::Finished => Mode::Finished,
        }
    }
}

pub open spec fn messages_view(msgs: Seq<ReceivedMessage>) -> Seq<(Seq<char>, Seq<char>)> {
    msgs.map_values(|m: ReceivedMessage| (m.message@, m.author@))
}

impl View for Event {
    type V = EventView;

    open spec fn view(&self) -> EventView {
        match self {
            Event::Line(l) => EventView::Line(l@),
            Event::EndOfInput => EventView::EndOfInput,
            Event::Updated(msgs) => EventView::Updated(messages_view(msgs@)),
            Event::MessageSent(r) => EventView::MessageSent(
                match r {
                    Ok(_) => Ok(()),
                    Err(e) => Err(e@),
                },
            ),
            Event::MessagesRead(c) => EventView::MessagesRead(*c),
            Event::Loaded(r) => EventView::Loaded(
                match r {
                    Ok(_) => Ok(()),
                    Err(e) => Err(e@),
                },
            ),
            Event::Identity(i) => EventView::Identity(i@),
        }
    }
}

impl View for Session {
    type V = SessionView;

    closed spec fn view(&self) -> SessionView {
        SessionView { client: opt_view(self.client), mode: self.mode@ }
    }
}

pub open spec fn view_actions(v: Seq<Action<String>>) -> Seq<Action<Seq<char>>> {
    v.map_values(|a: Action<String>| a@)
}

// ---------------------------------------------------------------------------
// The protocol
// ---------------------------------------------------------------------------

/// The prompt written before each line read inside a group.
pub open spec fn prompt() -> Seq<Action<Seq<char>>> {
    seq![Action::Write(" > "@), Action::Flush]
}

/// A top-level line is forwarded to the agent network unless it is blank.
pub open spec fn forwarding(line: Seq<char>) -> Seq<Action<Seq<char>>> {
    if is_blank(line) {
        seq![]
    } else {
        seq![Action::Forward(line)]
    }
}

pub open spec fn at(client: Option<Seq<char>>, mode: Mode<Seq<char>>) -> SessionView {
    SessionView { client, mode }
}

/// What a top-level command does, given the current client.
pub open spec fn command_step(client: Option<Seq<char>>, cmd: Command<Seq<char>>) -> (
    SessionView,
    Seq<Action<Seq<char>>>,
) {
    match cmd {
        Command::Help => (at(client, Mode::TopLevel), seq![Action::Write(HELP@), Action::Flush]),
        Command::Register(name) => (
            at(Some(name), Mode::TopLevel),
            seq![
                Action::CreateClient(name),
                Action::AddKeyPackage,
                Action::AddKeyPackage,
                Action::RegisterClient,
                Action::Write("registered new client "@ + name + "\n\n"@),
            ],
        ),
        Command::CreateKeyPackage => if client is Some {
            (
                at(client, Mode::TopLevel),
                seq![
                    Action::CreateKeyPackage,
                    Action::Write(" >>> New key package created\n\n"@),
                    Action::Flush,
                ],
            )
        } else {
            (
                at(client, Mode::TopLevel),
                seq![Action::Write(" >>> No client to update :(\n\n"@), Action::Flush],
            )
        },
        Command::CreateGroup(g) => if client is Some {
            (
                at(client, Mode::TopLevel),
                seq![
                    Action::CreateGroup(g),
                    Action::Write(" >>> Created group "@ + g + " :)\n\n"@),
                    Action::Flush,
                ],
            )
        } else {
            (
                at(client, Mode::TopLevel),
                seq![Action::Write(" >>> No client to create a group :(\n\n"@), Action::Flush],
            )
        },
        Command::Update => if client is Some {
            (at(client, Mode::Awaiting(Pending::Update(None))), seq![Action::UpdateClient(None)])
        } else {
            (at(client, Mode::TopLevel), seq![Action::Write(" >>> No client to update :(\n\n"@)])
        },
        Command::Group(g) => if client is Some {
            (at(client, Mode::InGroup(g)), prompt())
        } else {
            (
                at(client, Mode::TopLevel),
                seq![Action::Write(" >>> No client :(\n\n"@), Action::Flush],
            )
        },
        Command::Reset => (
            at(None, Mode::TopLevel),
            seq![Action::ResetServer, Action::Write(" >>> Reset server :)\n\n"@), Action::Flush],
        ),
        Command::Load(n) => (at(client, Mode::Awaiting(Pending::Load(n))), seq![Action::LoadClient(n)]),
        Command::Save => if client is Some {
            (at(client, Mode::Awaiting(Pending::Save)), seq![Action::SaveClient])
        } else {
            (
                at(client, Mode::TopLevel),
                seq![Action::Write(" >>> No client to update :(\n\n"@), Action::Flush],
            )
        },
        Command::AutoSave => if client is Some {
            (at(client, Mode::Awaiting(Pending::AutoSave)), seq![Action::EnableAutoSave])
        } else {
            (
                at(client, Mode::TopLevel),
                seq![Action::Write(" >>> No client to update :(\n\n"@), Action::Flush],
            )
        },
        Command::Other => (at(client, Mode::TopLevel), seq![]),
    }
}

/// What a top-level line does: it is forwarded unless blank, then run as a
/// command.
pub open spec fn top_step(client: Option<Seq<char>>, line: Seq<char>) -> (
    SessionView,
    Seq<Action<Seq<char>>>,
) {
    let (s, acts) = command_step(client, command_of(line));
    (s, forwarding(line) + acts)
}

/// What a line typed inside `group` does.
pub open spec fn group_step(client: Option<Seq<char>>, group: Seq<char>, line: Seq<char>) -> (
    SessionView,
    Seq<Action<Seq<char>>>,
) {
    match group_command_of(line) {
        GroupCommand::Send(m) => (
            at(client, Mode::Awaiting(Pending::Send(group))),
            seq![Action::SendGroupMessage { message: m, group }],
        ),
        GroupCommand::Invite(c) => (
            at(client, Mode::InGroup(group)),
            seq![
                Action::Invite { client: c, group },
                Action::Write("added "@ + c + " to group "@ + group + "\n\n"@),
                Action::Flush,
            ] + prompt(),
        ),
        GroupCommand::Remove(c) => (
            at(client, Mode::InGroup(group)),
            seq![
                Action::Remove { client: c, group },
                Action::Write("Removed "@ + c + " from group "@ + group + "\n\n"@),
                Action::Flush,
            ] + prompt(),
        ),
        GroupCommand::Read => (
            at(client, Mode::Awaiting(Pending::Read(group))),
            seq![Action::ReadMessages(group)],
        ),
        GroupCommand::Update => (
            at(client, Mode::Awaiting(Pending::Update(Some(group)))),
            seq![Action::Print("Updating client"@), Action::UpdateClient(Some(group))],
        ),
        GroupCommand::Exit => (
            at(client, Mode::TopLevel),
            seq![Action::Write(" >>> Leaving group \n\n"@), Action::Flush],
        ),
        GroupCommand::Unknown => (
            at(client, Mode::InGroup(group)),
            seq![Action::Write(" >>> Unknown group command :(\n\n"@), Action::Flush] + prompt(),
        ),
    }
}

/// The lines that list delivered messages, each `{message} from {author}`.
pub open spec fn message_lines(msgs: Seq<(Seq<char>, Seq<char>)>) -> Seq<Action<Seq<char>>>
    decreases msgs.len(),
{
    if msgs.len() == 0 {
        seq![]
    } else {
        let m = msgs.last();
        message_lines(msgs.drop_last()) + seq![
            Action::Write("         "@ + m.0 + " from "@ + m.1 + "\n"@),
            Action::Flush,
        ]
    }
}

/// What is shown after an update that delivered `msgs`.
pub open spec fn update_report_actions(msgs: Seq<(Seq<char>, Seq<char>)>) -> Seq<
    Action<Seq<char>>,
> {
    seq![Action::Write(" >>> Updated client :)\n"@), Action::Flush] + (if msgs.len() > 0 {
        seq![Action::Write("     New messages:\n\n"@), Action::Flush]
    } else {
        seq![]
    }) + message_lines(msgs) + seq![Action::Write("\n"@)]
}

/// What is shown after sending a message to `group`.
pub open spec fn send_report_actions(group: Seq<char>, r: Result<(), Seq<char>>) -> Seq<
    Action<Seq<char>>,
> {
    match r {
        Ok(_) => seq![Action::Write("sent message to "@ + group + "\n\n"@), Action::Flush],
        Err(e) => seq![Action::Print("Error sending group message: "@ + e)],
    }
}

/// What is shown after reading the messages of `group`.
pub open spec fn read_report_actions(group: Seq<char>, count: Option<usize>) -> Seq<
    Action<Seq<char>>,
> {
    match count {
        Some(n) => seq![
            Action::Write(group + " has received "@ + decimal(n as nat) + " messages\n\n"@),
            Action::Flush,
        ],
        None => seq![Action::Write(group + " has no messages\n\n"@), Action::Flush],
    }
}

/// What the outcome of the pending operation does; any other event is
/// ignored.
pub open spec fn outcome_step(s: SessionView, p: Pending<Seq<char>>, e: EventView) -> (
    SessionView,
    Seq<Action<Seq<char>>>,
) {
    match (p, e) {
        (Pending::Update(Some(g)), EventView::Updated(msgs)) => (
            at(s.client, Mode::InGroup(g)),
            update_report_actions(msgs) + prompt(),
        ),
        (Pending::Update(None), EventView::Updated(msgs)) => (
            at(s.client, Mode::TopLevel),
            update_report_actions(msgs),
        ),
        (Pending::Send(g), EventView::MessageSent(r)) => (
            at(s.client, Mode::InGroup(g)),
            send_report_actions(g, r) + prompt(),
        ),
        (Pending::Read(g), EventView::MessagesRead(c)) => (
            at(s.client, Mode::InGroup(g)),
            read_report_actions(g, c) + prompt(),
        ),
        (Pending::Load(n), EventView::Loaded(Ok(_))) => (
            at(Some(n), Mode::TopLevel),
            seq![Action::Write("recovered client "@ + n + "\n\n"@), Action::Flush],
        ),
        (Pending::Load(n), EventView::Loaded(Err(e))) => (
            at(s.client, Mode::TopLevel),
            seq![
                Action::Write("Error recovering client "@ + n + " : "@ + e + "\n\n"@),
                Action::Flush,
            ],
        ),
        (Pending::Save, EventView::Identity(id)) => (
            at(s.client, Mode::TopLevel),
            seq![Action::Write(" >>> client "@ + id + " state saved\n\n"@), Action::Flush],
        ),
        (Pending::AutoSave, EventView::Identity(id)) => (
            at(s.client, Mode::TopLevel),
            seq![
                Action::Write(" >>> autosave enabled for client "@ + id + " \n\n"@),
                Action::Flush,
            ],
        ),
        _ => (s, seq![]),
    }
}

/// The session's next state and the actions of one step.
pub open spec fn next(s: SessionView, e: EventView) -> (SessionView, Seq<Action<Seq<char>>>) {
    match s.mode {
        Mode::Finished => (s, seq![]),
        Mode::TopLevel => match e {
            EventView::Line(l) => top_step(s.client, l),
            EventView::EndOfInput => (at(s.client, Mode::Finished), seq![]),
            _ => (s, seq![]),
        },
        Mode::InGroup(g) => match e {
            EventView::Line(l) => group_step(s.client, g, l),
            EventView::EndOfInput => (s, seq![Action::Flush] + prompt()),
            _ => (s, seq![]),
        },
        Mode::Awaiting(p) => outcome_step(s, p, e),
    }
}

// ---------------------------------------------------------------------------
// The implementation
// ---------------------------------------------------------------------------

proof fn lemma_view_actions_add(a: Seq<Action<String>>, b: Seq<Action<String>>)
    ensures
        view_actions(a + b) == view_actions(a) + view_actions(b),
{
    assert(view_actions(a + b) =~= view_actions(a) + view_actions(b));
}

fn emit(out: &mut Vec<Action<String>>, a: Action<String>)
    ensures
        view_actions(final(out)@) == view_actions(old(out)@).push(a@),
{
    let ghost av = a@;
    out.push(a);
    proof {
        assert(view_actions(out@) =~= view_actions(old(out)@).push(av));
    }
}

fn emit_prompt(out: &mut Vec<Action<String>>)
    ensures
        view_actions(final(out)@) == view_actions(old(out)@) + prompt(),
{
    emit(out, Action::Write(text(" > ")));
    emit(out, Action::Flush);
}

fn emit_all(out: &mut Vec<Action<String>>, more: Vec<Action<String>>)
    ensures
        view_actions(final(out)@) == view_actions(old(out)@) + view_actions(more@),
{
    let mut more = more;
    let ghost m = more@;
    out.append(&mut more);
    proof {
        lemma_view_actions_add(old(out)@, m);
    }
}

/// What is shown after an update of the client that delivered `messages`:
/// a notice, a heading when there are messages, one line per message, and
/// an empty line.
pub fn update_report(messages: &Vec<ReceivedMessage>) -> (r: Vec<Action<String>>)
    ensures
        view_actions(r@) == update_report_actions(messages_view(messages@)),
{
    let ghost msgs = messages_view(messages@);
    let mut out: Vec<Action<String>> = Vec::new();
    emit(&mut out, Action::Write(text(" >>> Updated client :)\n")));
    emit(&mut out, Action::Flush);
    if messages.len() > 0 {
        emit(&mut out, Action::Write(text("     New messages:\n\n")));
        emit(&mut out, Action::Flush);
    }
    let ghost head = view_actions(out@);
    assert(msgs.take(0) =~= Seq::<(Seq<char>, Seq<char>)>::empty());
    let mut i: usize = 0;
    while i < messages.len()
        invariant
            i <= messages.len(),
            msgs == messages_view(messages@),
            view_actions(out@) == head + message_lines(msgs.take(i as int)),
        decreases messages.len() - i,
    {
        let m = &messages[i];
        let mut line = concat4("         ", m.message.as_str(), " from ", m.author.as_str());
        line.append("\n");
        emit(&mut out, Action::Write(line));
        emit(&mut out, Action::Flush);
        proof {
            assert(msgs.take(i + 1).drop_last() =~= msgs.take(i as int));
            assert(msgs.take(i + 1).last() == msgs[i as int]);
        }
        i = i + 1;
    }
    assert(msgs.take(messages.len() as int) =~= msgs);
    emit(&mut out, Action::Write(text("\n")));
    out
}

fn command_step_exec(client: Option<String>, cmd: Command<String>) -> (r: (Session, Vec<Action<String>>))
    ensures
        r.0@ == command_step(opt_view(client), cmd@).0,
        view_actions(r.1@) == command_step(opt_view(client), cmd@).1,
{
    let mut out: Vec<Action<String>> = Vec::new();
    match cmd {
        Command::Help => {
            emit(&mut out, Action::Write(text(HELP)));
            emit(&mut out, Action::Flush);
            (Session { client, mode: Mode::TopLevel }, out)
        },
        Command::Register(name) => {
            emit(&mut out, Action::CreateClient(name.clone()));
            emit(&mut out, Action::AddKeyPackage);
            emit(&mut out, Action::AddKeyPackage);
            emit(&mut out, Action::RegisterClient);
            emit(&mut out, Action::Write(concat3("registered new client ", name.as_str(), "\n\n")));
            (Session { client: Some(name), mode: Mode::TopLevel }, out)
        },
        Command::CreateKeyPackage => {
            if client.is_some() {
                emit(&mut out, Action::CreateKeyPackage);
                emit(&mut out, Action::Write(text(" >>> New key package created\n\n")));
                emit(&mut out, Action::Flush);
            } else {
                emit(&mut out, Action::Write(text(" >>> No client to update :(\n\n")));
                emit(&mut out, Action::Flush);
            }
            (Session { client, mode: Mode::TopLevel }, out)
        },
        Command::CreateGroup(g) => {
            if client.is_some() {
                emit(&mut out, Action::CreateGroup(g.clone()));
                emit(&mut out, Action::Write(concat3(" >>> Created group ", g.as_str(), " :)\n\n")));
                emit(&mut out, Action::Flush);
            } else {
                emit(&mut out, Action::Write(text(" >>> No client to create a group :(\n\n")));
                emit(&mut out, Action::Flush);
            }
            (Session { client, mode: Mode::TopLevel }, out)
        },
        Command::Update => {
            if client.is_some() {
                emit(&mut out, Action::UpdateClient(None));
                (Session { client, mode: Mode::Awaiting(Pending::Update(None)) }, out)
            } else {
                emit(&mut out, Action::Write(text(" >>> No client to update :(\n\n")));
                (Session { client, mode: Mode::TopLevel }, out)
            }
        },
        Command::Group(g) => {
            if client.is_some() {
                emit_prompt(&mut out);
                (Session { client, mode: Mode::InGroup(g) }, out)
            } else {
                emit(&mut out, Action::Write(text(" >>> No client :(\n\n")));
                emit(&mut out, Action::Flush);
                (Session { client, mode: Mode::TopLevel }, out)
            }
        },
        Command::Load(n) => {
            emit(&mut out, Action::LoadClient(n.clone()));
            (Session { client, mode: Mode::Awaiting(Pending::Load(n)) }, out)
        },
        Command::Save => {
            if client.is_some() {
                emit(&mut out, Action::SaveClient);
                (Session { client, mode: Mode::Awaiting(Pending::Save) }, out)
            } else {
                emit(&mut out, Action::Write(text(" >>> No client to update :(\n\n")));
                emit(&mut out, Action::Flush);
                (Session { client, mode: Mode::TopLevel }, out)
            }
        },
        Command::AutoSave => {
            if client.is_some() {
                emit(&mut out, Action::EnableAutoSave);
                (Session { client, mode: Mode::Awaiting(Pending::AutoSave) }, out)
            } else {
                emit(&mut out, Action::Write(text(" >>> No client to update :(\n\n")));
                emit(&mut out, Action::Flush);
                (Session { client, mode: Mode::TopLevel }, out)
            }
        },
        Command::Reset => {
            emit(&mut out, Action::ResetServer);
            emit(&mut out, Action::Write(text(" >>> Reset server :)\n\n")));
            emit(&mut out, Action::Flush);
            (Session { client: None, mode: Mode::TopLevel }, out)
        },
        Command::Other => (Session { client, mode: Mode::TopLevel }, out),
    }
}

fn top_step_exec(client: Option<String>, line: String) -> (r: (Session, Vec<Action<String>>))
    ensures
        r.0@ == top_step(opt_view(client), line@).0,
        view_actions(r.1@) == top_step(opt_view(client), line@).1,
{
    let mut out: Vec<Action<String>> = Vec::new();
    if !line_is_blank(line.as_str()) {
        emit(&mut out, Action::Forward(line.clone()));
    }
    assert(view_actions(out@) == forwarding(line@));
    let cmd = parse_command(line.as_str());
    let (session, acts) = command_step_exec(client, cmd);
    emit_all(&mut out, acts);
    (session, out)
}

fn group_step_exec(client: Option<String>, group: String, line: String) -> (r: (
    Session,
    Vec<Action<String>>,
))
    ensures
        r.0@ == group_step(opt_view(client), group@, line@).0,
        view_actions(r.1@) == group_step(opt_view(client), group@, line@).1,
{
    let mut out: Vec<Action<String>> = Vec::new();
    match parse_group_command(line.as_str()) {
        GroupCommand::Send(m) => {
            emit(&mut out, Action::SendGroupMessage { message: m, group: group.clone() });
            (Session { client, mode: Mode::Awaiting(Pending::Send(group)) }, out)
        },
        GroupCommand::Invite(c) => {
            let note = concat4("added ", c.as_str(), " to group ", group.as_str());
            let mut note = note;
            note.append("\n\n");
            emit(&mut out, Action::Invite { client: c, group: group.clone() });
            emit(&mut out, Action::Write(note));
            emit(&mut out, Action::Flush);
            emit_prompt(&mut out);
            (Session { client, mode: Mode::InGroup(group) }, out)
        },
        GroupCommand::Remove(c) => {
            let note = concat4("Removed ", c.as_str(), " from group ", group.as_str());
            let mut note = note;
            note.append("\n\n");
            emit(&mut out, Action::Remove { client: c, group: group.clone() });
            emit(&mut out, Action::Write(note));
            emit(&mut out, Action::Flush);
            emit_prompt(&mut out);
            (Session { client, mode: Mode::InGroup(group) }, out)
        },
        GroupCommand::Read => {
            emit(&mut out, Action::ReadMessages(group.clone()));
            (Session { client, mode: Mode::Awaiting(Pending::Read(group)) }, out)
        },
        GroupCommand::Update => {
            emit(&mut out, Action::Print(text("Updating client")));
            emit(&mut out, Action::UpdateClient(Some(group.clone())));
            (Session { client, mode: Mode::Awaiting(Pending::Update(Some(group))) }, out)
        },
        GroupCommand::Exit => {
            emit(&mut out, Action::Write(text(" >>> Leaving group \n\n")));
            emit(&mut out, Action::Flush);
            (Session { client, mode: Mode::TopLevel }, out)
        },
        GroupCommand::Unknown => {
            emit(&mut out, Action::Write(text(" >>> Unknown group command :(\n\n")));
            emit(&mut out, Action::Flush);
            emit_prompt(&mut out);
            (Session { client, mode: Mode::InGroup(group) }, out)
        },
    }
}

/// What is shown after sending a message to `group`: a confirmation, or
/// the error.
pub fn send_report(group: &str, outcome: &Result<(), String>) -> (r: Vec<Action<String>>)
    ensures
        view_actions(r@) == send_report_actions(
            group@,
            match outcome {
                Ok(_) => Ok(()),
                Err(e) => Err(e@),
            },
        ),
{
    let mut out: Vec<Action<String>> = Vec::new();
    match outcome {
        Ok(_) => {
            emit(&mut out, Action::Write(concat3("sent message to ", group, "\n\n")));
            emit(&mut out, Action::Flush);
        },
        Err(e) => {
            emit(&mut out, Action::Print(concat2("Error sending group message: ", e.as_str())));
        },
    }
    out
}

/// What is shown after reading the messages of `group`: how many arrived,
/// or that there are none.
pub fn read_report(group: &str, count: Option<usize>) -> (r: Vec<Action<String>>)
    ensures
        view_actions(r@) == read_report_actions(group@, count),
{
    let mut out: Vec<Action<String>> = Vec::new();
    match count {
        Some(n) => {
            let number = render_decimal(n);
            let note = concat4(group, " has received ", number.as_str(), " messages\n\n");
            emit(&mut out, Action::Write(note));
            emit(&mut out, Action::Flush);
        },
        None => {
            emit(&mut out, Action::Write(concat2(group, " has no messages\n\n")));
            emit(&mut out, Action::Flush);
        },
    }
    out
}

impl Session {
    /// A session at the top level, with no client.
    pub fn new() -> (s: Session)
        ensures
            s@ == (SessionView { client: None, mode: Mode::TopLevel }),
    {
        Session { client: None, mode: Mode::TopLevel }
    }

    /// Whether input has ended.
    pub fn is_finished(&self) -> (b: bool)
        ensures
            b == (self@.mode is Finished),
    {
        match self.mode {
            Mode::Finished => true,
            _ => false,
        }
    }

    /// Whether a client has been registered in this session.
    pub fn has_client(&self) -> (b: bool)
        ensures
            b == (self@.client is Some),
    {
        self.client.is_some()
    }

    /// One step of the session: the next session and the actions to perform,
    /// in order.
    pub fn step(self, event: Event) -> (r: (Session, Vec<Action<String>>))
        ensures
            r.0@ == next(self@, event@).0,
            view_actions(r.1@) == next(self@, event@).1,
    {
        let client = self.client;
        match self.mode {
            Mode::Finished => (Session { client, mode: Mode::Finished }, Vec::new()),
            Mode::TopLevel => match event {
                Event::Line(l) => top_step_exec(client, l),
                Event::EndOfInput => (Session { client, mode: Mode::Finished }, Vec::new()),
                _ => (Session { client, mode: Mode::TopLevel }, Vec::new()),
            },
            Mode::InGroup(g) => match event {
                Event::Line(l) => group_step_exec(client, g, l),
                Event::EndOfInput => {
                    let mut out: Vec<Action<String>> = Vec::new();
                    emit(&mut out, Action::Flush);
                    emit_prompt(&mut out);
                    (Session { client, mode: Mode::InGroup(g) }, out)
                },
                _ => (Session { client, mode: Mode::InGroup(g) }, Vec::new()),
            },
            Mode::Awaiting(p) => match (p, event) {
                (Pending::Update(Some(g)), Event::Updated(msgs)) => {
                    let mut out = update_report(&msgs);
                    emit_prompt(&mut out);
                    (Session { client, mode: Mode::InGroup(g) }, out)
                },
                (Pending::Update(None), Event::Updated(msgs)) => {
                    let out = update_report(&msgs);
                    (Session { client, mode: Mode::TopLevel }, out)
                },
                (Pending::Send(g), Event::MessageSent(outcome)) => {
                    let mut out = send_report(g.as_str(), &outcome);
                    emit_prompt(&mut out);
                    (Session { client, mode: Mode::InGroup(g) }, out)
                },
                (Pending::Read(g), Event::MessagesRead(count)) => {
                    let mut out = read_report(g.as_str(), count);
                    emit_prompt(&mut out);
                    (Session { client, mode: Mode::InGroup(g) }, out)
                },
                (Pending::Load(n), Event::Loaded(outcome)) => {
                    let mut out: Vec<Action<String>> = Vec::new();
                    match outcome {
                        Ok(_) => {
                            emit(&mut out, Action::Write(concat3("recovered client ", n.as_str(), "\n\n")));
                            emit(&mut out, Action::Flush);
                            (Session { client: Some(n), mode: Mode::TopLevel }, out)
                        },
                        Err(e) => {
                            let mut note = concat4("Error recovering client ", n.as_str(), " : ", e.as_str());
                            note.append("\n\n");
                            emit(&mut out, Action::Write(note));
                            emit(&mut out, Action::Flush);
                            (Session { client, mode: Mode::TopLevel }, out)
                        },
                    }
                },
                (Pending::Save, Event::Identity(id)) => {
                    let mut out: Vec<Action<String>> = Vec::new();
                    emit(&mut out, Action::Write(concat3(" >>> client ", id.as_str(), " state saved\n\n")));
                    emit(&mut out, Action::Flush);
                    (Session { client, mode: Mode::TopLevel }, out)
                },
                (Pending::AutoSave, Event::Identity(id)) => {
                    let mut out: Vec<Action<String>> = Vec::new();
                    emit(
                        &mut out,
                        Action::Write(concat3(" >>> autosave enabled for client ", id.as_str(), " \n\n")),
                    );
                    emit(&mut out, Action::Flush);
                    (Session { client, mode: Mode::TopLevel }, out)
                },
                (p, _) => (Session { client, mode: Mode::Awaiting(p) }, Vec::new()),
            },
        }
    }
}

// ---------------------------------------------------------------------------
// Laws
// ---------------------------------------------------------------------------

/// The states a session can be in: it is inside a group, or waits for an
/// operation other than loading a client, only when it has a client.
pub open spec fn well_formed(s: SessionView) -> bool {
    (s.mode is InGroup || (s.mode is Awaiting && !(s.mode->Awaiting_0 is Load))) ==> s.client
        is Some
}

/// An operation on the MLS client.
pub open spec fn is_client_operation(a: Action<Seq<char>>) -> bool {
    ||| a is AddKeyPackage
    ||| a is RegisterClient
    ||| a is CreateKeyPackage
    ||| a is CreateGroup
    ||| a is UpdateClient
    ||| a is SendGroupMessage
    ||| a is Invite
    ||| a is Remove
    ||| a is ReadMessages
}

pub open spec fn no_forward(acts: Seq<Action<Seq<char>>>) -> bool {
    forall|i: int| 0 <= i < acts.len() ==> !(#[trigger] acts[i] is Forward)
}

pub open spec fn ends_with_prompt(acts: Seq<Action<Seq<char>>>) -> bool {
    acts.len() >= 2 && acts.subrange(acts.len() - 2, acts.len() as int) == prompt()
}

proof fn lemma_message_lines_no_forward(msgs: Seq<(Seq<char>, Seq<char>)>)
    ensures
        no_forward(message_lines(msgs)),
        forall|i: int|
            0 <= i < message_lines(msgs).len() ==> !is_client_operation(
                #[trigger] message_lines(msgs)[i],
            ),
    decreases msgs.len(),
{
    if msgs.len() > 0 {
        lemma_message_lines_no_forward(msgs.drop_last());
    }
}

proof fn lemma_reports_quiet(msgs: Seq<(Seq<char>, Seq<char>)>)
    ensures
        no_forward(update_report_actions(msgs)),
        forall|i: int|
            0 <= i < update_report_actions(msgs).len() ==> !is_client_operation(
                #[trigger] update_report_actions(msgs)[i],
            ),
{
    lemma_message_lines_no_forward(msgs);
}

proof fn lemma_add_ends_with_prompt(a: Seq<Action<Seq<char>>>)
    ensures
        ends_with_prompt(a + prompt()),
{
    let b = a + prompt();
    assert(b.subrange(b.len() - 2, b.len() as int) =~= prompt());
}

/// Only lines typed at the top level reach the agent network: a line typed
/// there is forwarded verbatim, before anything else, exactly when it is
/// not blank, and no step forwards anything else.
pub proof fn law_forwarding(s: SessionView, e: EventView)
    ensures
        forall|i: int|
            0 <= i < next(s, e).1.len() && (#[trigger] next(s, e).1[i]) is Forward ==> {
                &&& i == 0
                &&& s.mode is TopLevel
                &&& e == EventView::Line(next(s, e).1[i]->Forward_0)
                &&& !is_blank(next(s, e).1[i]->Forward_0)
            },
        forall|l: Seq<char>|
            s.mode is TopLevel && e == EventView::Line(l) && !is_blank(l) ==> {
                &&& next(s, e).1.len() > 0
                &&& #[trigger] next(s, e).1[0] == Action::Forward(l)
            },
{
    let acts = next(s, e).1;
    match s.mode {
        Mode::TopLevel => {
            if let EventView::Line(l) = e {
                let c = command_step(s.client, command_of(l));
                assert(no_forward(c.1));
                assert(acts == forwarding(l) + c.1);
                assert forall|i: int| 0 <= i < acts.len() && (#[trigger] acts[i]) is Forward implies {
                    &&& i == 0
                    &&& s.mode is TopLevel
                    &&& e == EventView::Line(acts[i]->Forward_0)
                    &&& !is_blank(acts[i]->Forward_0)
                } by {
                    if i >= forwarding(l).len() {
                        assert(acts[i] == c.1[i - forwarding(l).len()]);
                    }
                }
            }
        },
        Mode::InGroup(g) => {
            if let EventView::Line(l) = e {
                assert(no_forward(group_step(s.client, g, l).1));
            }
        },
        Mode::Awaiting(p) => {
            match (p, e) {
                (Pending::Update(_), EventView::Updated(msgs)) => {
                    lemma_reports_quiet(msgs);
                    assert(no_forward(acts));
                },
                _ => {},
            }
        },
        Mode::Finished => {},
    }
}

/// Every step keeps sessions well formed, and a new session is well formed:
/// group mode and pending operations (but for loading a client) exist only
/// with a client.
pub proof fn law_well_formed_preserved(s: SessionView, e: EventView)
    requires
        well_formed(s),
    ensures
        well_formed(next(s, e).0),
        well_formed(SessionView { client: None, mode: Mode::TopLevel }),
{
}

/// How one event sets the client, if it does: `register {name}` at the top
/// level makes a client with that name current, `reset` there drops it,
/// and a successful load makes the loaded client current.
pub open spec fn client_set_by(s: SessionView, e: EventView) -> Option<Option<Seq<char>>> {
    match (s.mode, e) {
        (Mode::TopLevel, EventView::Line(l)) => match command_of(l) {
            Command::Register(n) => Some(Some(n)),
            Command::Reset => Some(None),
            _ => None,
        },
        (Mode::Awaiting(Pending::Load(n)), EventView::Loaded(Ok(_))) => Some(Some(n)),
        _ => None,
    }
}

/// The client changes only by `register`, `reset` and a successful load,
/// to what they set; every other step, inside a group or not, keeps it.
pub proof fn law_client_set_only_by_register_reset_load(s: SessionView, e: EventView)
    ensures
        next(s, e).0.client == (match client_set_by(s, e) {
            Some(c) => c,
            None => s.client,
        }),
{
}

/// `reset` at the top level resets the delivery service, drops the current
/// client and says so; the session stays at the top level.
pub proof fn law_reset(s: SessionView)
    requires
        s.mode is TopLevel,
    ensures
        next(s, EventView::Line("reset"@)).0 == at(None, Mode::TopLevel),
        next(s, EventView::Line("reset"@)).1 == forwarding("reset"@) + seq![
            Action::ResetServer,
            Action::Write(" >>> Reset server :)\n\n"@),
            Action::Flush,
        ],
{
    reveal_strlit("reset");
    reveal_strlit("help");
    reveal_strlit("register ");
    reveal_strlit("create kp");
    reveal_strlit("create group ");
    reveal_strlit("update");
    reveal_strlit("group ");
    let l = "reset"@;
    assert(l != "help"@) by {
        if l == "help"@ {
            assert(l.len() == "help"@.len());
        }
    }
    assert(!"register "@.is_prefix_of(l));
    assert(l != "create kp"@) by {
        if l == "create kp"@ {
            assert(l.len() == "create kp"@.len());
        }
    }
    assert(!"create group "@.is_prefix_of(l));
    assert(l != "update"@) by {
        if l == "update"@ {
            assert(l.len() == "update"@.len());
        }
    }
    assert(!"group "@.is_prefix_of(l)) by {
        if "group "@.is_prefix_of(l) {
            assert(l[0] == "group "@[0]);
        }
    }
}

/// Without a client, a well-formed session performs no client operation
/// except as part of `register {name}`, which makes one.
pub proof fn law_no_operation_without_client(s: SessionView, e: EventView)
    requires
        well_formed(s),
        s.client is None,
    ensures
        forall|i: int|
            0 <= i < next(s, e).1.len() && is_client_operation(#[trigger] next(s, e).1[i]) ==> {
                &&& e is Line
                &&& command_of(e->Line_0) is Register
            },
{
    let acts = next(s, e).1;
    if let EventView::Line(l) = e {
        if !(command_of(l) is Register) {
            let c = command_step(s.client, command_of(l));
            assert forall|i: int| 0 <= i < acts.len() implies !is_client_operation(
                #[trigger] acts[i],
            ) by {
                if i >= forwarding(l).len() {
                    assert(acts[i] == c.1[i - forwarding(l).len()]);
                }
            }
        }
    }
}

/// `register {name}` at the top level makes a new client with that name,
/// adds two key packages to it, registers it with the delivery service and
/// says so; the session stays at the top level.
pub proof fn law_register(s: SessionView, line: Seq<char>, name: Seq<char>)
    requires
        s.mode is TopLevel,
        line == "register "@ + name,
    ensures
        next(s, EventView::Line(line)).0 == at(Some(name), Mode::TopLevel),
        next(s, EventView::Line(line)).1 == forwarding(line) + seq![
            Action::CreateClient(name),
            Action::AddKeyPackage,
            Action::AddKeyPackage,
            Action::RegisterClient,
            Action::Write("registered new client "@ + name + "\n\n"@),
        ],
{
    reveal_strlit("register ");
    reveal_strlit("help");
    assert("register "@.is_prefix_of(line));
    assert(line.skip(9) =~= name);
    assert(line != "help"@) by {
        if line == "help"@ {
            assert(line[0] == "register "@[0]);
        }
    }
}

/// `exit` inside a group leaves the group: the session is back at the top
/// level with the same client, after a notice.
pub proof fn law_exit_group(s: SessionView, g: Seq<char>)
    requires
        s.mode == Mode::InGroup(g),
    ensures
        next(s, EventView::Line("exit"@)).0 == at(s.client, Mode::TopLevel),
        next(s, EventView::Line("exit"@)).1 == seq![
            Action::Write(" >>> Leaving group \n\n"@),
            Action::Flush,
        ],
{
    reveal_strlit("exit");
    reveal_strlit("send ");
    reveal_strlit("invite ");
    reveal_strlit("remove ");
    reveal_strlit("read");
    reveal_strlit("update");
    let l = "exit"@;
    assert(!"send "@.is_prefix_of(l));
    assert(!"invite "@.is_prefix_of(l));
    assert(!"remove "@.is_prefix_of(l));
    assert(l != "read"@) by {
        if l == "read"@ {
            assert(l[0] == "read"@[0]);
        }
    }
    assert(l != "update"@) by {
        if l == "update"@ {
            assert(l.len() == "update"@.len());
        }
    }
}

/// Whenever a step that does something leaves the session inside a group,
/// its last actions write the prompt ` > ` and flush it, so the console
/// always asks for the next group command.
pub proof fn law_group_prompt(s: SessionView, e: EventView)
    ensures
        next(s, e).0.mode is InGroup && next(s, e).1.len() > 0 ==> ends_with_prompt(next(s, e).1),
{
    match s.mode {
        Mode::TopLevel => {
            if let EventView::Line(l) = e {
                lemma_add_ends_with_prompt(forwarding(l));
            }
        },
        Mode::InGroup(g) => {
            match e {
                EventView::Line(l) => {
                    let c = group_command_of(l);
                    match c {
                        GroupCommand::Invite(x) => {
                            lemma_add_ends_with_prompt(
                                seq![
                                    Action::Invite { client: x, group: g },
                                    Action::Write("added "@ + x + " to group "@ + g + "\n\n"@),
                                    Action::Flush,
                                ],
                            );
                        },
                        GroupCommand::Remove(x) => {
                            lemma_add_ends_with_prompt(
                                seq![
                                    Action::Remove { client: x, group: g },
                                    Action::Write("Removed "@ + x + " from group "@ + g + "\n\n"@),
                                    Action::Flush,
                                ],
                            );
                        },
                        GroupCommand::Unknown => {
                            lemma_add_ends_with_prompt(
                                seq![
                                    Action::Write(" >>> Unknown group command :(\n\n"@),
                                    Action::Flush,
                                ],
                            );
                        },
                        _ => {},
                    }
                },
                EventView::EndOfInput => {
                    lemma_add_ends_with_prompt(seq![Action::Flush]);
                },
                _ => {},
            }
        },
        Mode::Awaiting(p) => {
            match (p, e) {
                (Pending::Update(Some(g)), EventView::Updated(msgs)) => {
                    lemma_add_ends_with_prompt(update_report_actions(msgs));
                },
                (Pending::Send(g), EventView::MessageSent(r)) => {
                    lemma_add_ends_with_prompt(send_report_actions(g, r));
                },
                (Pending::Read(g), EventView::MessagesRead(c)) => {
                    lemma_add_ends_with_prompt(read_report_actions(g, c));
                },
                _ => {},
            }
        },
        Mode::Finished => {},
    }
}

/// A pending operation is settled by its outcome and by nothing else: lines
/// and the end of input are ignored while waiting, and the outcome brings
/// the session back to the group it came from, or to the top level.
pub proof fn law_pending_settled_by_outcome(s: SessionView, e: EventView)
    requires
        s.mode is Awaiting,
    ensures
        (e is Line || e is EndOfInput) ==> next(s, e) == (s, Seq::<Action<Seq<char>>>::empty()),
        (match (s.mode->Awaiting_0, e) {
            (Pending::Update(Some(g)), EventView::Updated(_)) => next(s, e).0.mode == Mode::InGroup(g),
            (Pending::Update(None), EventView::Updated(_)) => next(s, e).0.mode is TopLevel,
            (Pending::Send(g), EventView::MessageSent(_)) => next(s, e).0.mode == Mode::InGroup(g),
            (Pending::Read(g), EventView::MessagesRead(_)) => next(s, e).0.mode == Mode::InGroup(g),
            (Pending::Load(_), EventView::Loaded(_)) => next(s, e).0.mode is TopLevel,
            (Pending::Save, EventView::Identity(_)) => next(s, e).0.mode is TopLevel,
            (Pending::AutoSave, EventView::Identity(_)) => next(s, e).0.mode is TopLevel,
            _ => next(s, e) == (s, Seq::<Action<Seq<char>>>::empty()),
        }),
{
}

/// The end of input at the top level ends the session, and an ended session
/// stays ended and does nothing.
pub proof fn law_end_of_input(s: SessionView, e: EventView)
    ensures
        s.mode is TopLevel ==> next(s, EventView::EndOfInput) == (
            at(s.client, Mode::Finished),
            Seq::<Action<Seq<char>>>::empty(),
        ),
        s.mode is Finished ==> next(s, e) == (s, Seq::<Action<Seq<char>>>::empty()),
{
}

// ---------------------------------------------------------------------------
// Laws over whole runs
// ---------------------------------------------------------------------------

/// The state after a sequence of events, and all the actions, in order.
pub open spec fn run(s: SessionView, events: Seq<EventView>) -> (
    SessionView,
    Seq<Action<Seq<char>>>,
)
    decreases events.len(),
{
    if events.len() == 0 {
        (s, seq![])
    } else {
        let first = next(s, events[0]);
        let rest = run(first.0, events.drop_first());
        (rest.0, first.1 + rest.1)
    }
}

/// The texts that actions forward to the agent network, in order.
pub open spec fn forwarded(acts: Seq<Action<Seq<char>>>) -> Seq<Seq<char>>
    decreases acts.len(),
{
    if acts.len() == 0 {
        seq![]
    } else {
        match acts.last() {
            Action::Forward(t) => forwarded(acts.drop_last()).push(t),
            _ => forwarded(acts.drop_last()),
        }
    }
}

/// The non-blank lines of a run that are read at the top level, in order.
pub open spec fn top_level_text(s: SessionView, events: Seq<EventView>) -> Seq<Seq<char>>
    decreases events.len(),
{
    if events.len() == 0 {
        seq![]
    } else {
        let here = match (s.mode, events[0]) {
            (Mode::TopLevel, EventView::Line(l)) => if is_blank(l) {
                seq![]
            } else {
                seq![l]
            },
            _ => seq![],
        };
        here + top_level_text(next(s, events[0]).0, events.drop_first())
    }
}

/// The client after a run, starting from `client` in state `s`: the one
/// that the last `register`, `reset` or successful load set, or `client`
/// when none did.
pub open spec fn client_after_run(client: Option<Seq<char>>, s: SessionView, events: Seq<
    EventView,
>) -> Option<Seq<char>>
    decreases events.len(),
{
    if events.len() == 0 {
        client
    } else {
        let c = match client_set_by(s, events[0]) {
            Some(c) => c,
            None => client,
        };
        client_after_run(c, next(s, events[0]).0, events.drop_first())
    }
}

proof fn lemma_forwarded_add(a: Seq<Action<Seq<char>>>, b: Seq<Action<Seq<char>>>)
    ensures
        forwarded(a + b) == forwarded(a) + forwarded(b),
    decreases b.len(),
{
    if b.len() == 0 {
        assert(a + b =~= a);
    } else {
        lemma_forwarded_add(a, b.drop_last());
        assert((a + b).drop_last() =~= a + b.drop_last());
        assert((a + b).last() == b.last());
    }
}

proof fn lemma_no_forward_forwards_nothing(a: Seq<Action<Seq<char>>>)
    requires
        no_forward(a),
    ensures
        forwarded(a) == Seq::<Seq<char>>::empty(),
    decreases a.len(),
{
    if a.len() > 0 {
        assert(no_forward(a.drop_last())) by {
            assert forall|i: int| 0 <= i < a.drop_last().len() implies !(
            #[trigger] a.drop_last()[i] is Forward) by {
                assert(a.drop_last()[i] == a[i]);
            }
        }
        lemma_no_forward_forwards_nothing(a.drop_last());
        assert(!(a[a.len() - 1] is Forward));
    }
}

proof fn lemma_step_forwards(s: SessionView, e: EventView)
    ensures
        forwarded(next(s, e).1) == (match (s.mode, e) {
            (Mode::TopLevel, EventView::Line(l)) => if is_blank(l) {
                Seq::<Seq<char>>::empty()
            } else {
                seq![l]
            },
            _ => Seq::<Seq<char>>::empty(),
        }),
{
    let acts = next(s, e).1;
    match s.mode {
        Mode::TopLevel => {
            if let EventView::Line(l) = e {
                let c = command_step(s.client, command_of(l));
                assert(no_forward(c.1));
                lemma_no_forward_forwards_nothing(c.1);
                lemma_forwarded_add(forwarding(l), c.1);
                if !is_blank(l) {
                    let f = seq![Action::Forward(l)];
                    assert(f.drop_last() =~= Seq::<Action<Seq<char>>>::empty());
                    assert(forwarded(Seq::<Action<Seq<char>>>::empty()) == Seq::<
                        Seq<char>,
                    >::empty());
                    assert(f.last() == Action::Forward(l));
                    assert(forwarded(f) == forwarded(f.drop_last()).push(l));
                    assert(forwarded(f) =~= seq![l]);
                } else {
                    assert(forwarding(l) =~= Seq::<Action<Seq<char>>>::empty());
                    assert(forwarded(forwarding(l)) == Seq::<Seq<char>>::empty());
                }
            }
        },
        Mode::InGroup(g) => {
            if let EventView::Line(l) = e {
                assert(no_forward(group_step(s.client, g, l).1));
                lemma_no_forward_forwards_nothing(acts);
            } else {
                assert(no_forward(acts));
                lemma_no_forward_forwards_nothing(acts);
            }
        },
        Mode::Awaiting(p) => {
            match (p, e) {
                (Pending::Update(_), EventView::Updated(msgs)) => {
                    lemma_reports_quiet(msgs);
                },
                _ => {},
            }
            assert(no_forward(acts));
            lemma_no_forward_forwards_nothing(acts);
        },
        Mode::Finished => {},
    }
}

/// Over a whole run, exactly the non-blank lines read at the top level are
/// forwarded to the agent network, each once, verbatim and in input order;
/// no line read inside a group, and nothing else, is forwarded.
pub proof fn law_run_forwards_top_level_text(s: SessionView, events: Seq<EventView>)
    ensures
        forwarded(run(s, events).1) == top_level_text(s, events),
    decreases events.len(),
{
    if events.len() > 0 {
        let first = next(s, events[0]);
        law_run_forwards_top_level_text(first.0, events.drop_first());
        lemma_step_forwards(s, events[0]);
        lemma_forwarded_add(first.1, run(first.0, events.drop_first()).1);
    }
}

/// Over a whole run, the client at the end is the one that the last
/// `register`, `reset` or successful load set (the starting client when
/// none did). So a command that needs a client is refused with a "No
/// client" notice exactly when no `register` or successful load has come
/// since the start or the last `reset`.
pub proof fn law_run_client(s: SessionView, events: Seq<EventView>)
    ensures
        run(s, events).0.client == client_after_run(s.client, s, events),
    decreases events.len(),
{
    if events.len() > 0 {
        let first = next(s, events[0]);
        law_client_set_only_by_register_reset_load(s, events[0]);
        law_run_client(first.0, events.drop_first());
    }
}

proof fn lemma_run_push(s: SessionView, events: Seq<EventView>, e: EventView)
    ensures
        run(s, events.push(e)).0 == next(run(s, events).0, e).0,
        run(s, events.push(e)).1 == run(s, events).1 + next(run(s, events).0, e).1,
    decreases events.len(),
{
    let es = events.push(e);
    if events.len() == 0 {
        assert(es.drop_first() =~= Seq::<EventView>::empty());
        assert(es[0] == e);
        let n = next(s, e);
        assert(run(n.0, es.drop_first()) == (n.0, Seq::<Action<Seq<char>>>::empty()));
        assert(run(s, events) == (s, Seq::<Action<Seq<char>>>::empty()));
        assert(n.1 + Seq::<Action<Seq<char>>>::empty() =~= n.1);
        assert(Seq::<Action<Seq<char>>>::empty() + n.1 =~= n.1);
    } else {
        let first = next(s, events[0]);
        assert(es.drop_first() =~= events.drop_first().push(e));
        assert(es[0] == events[0]);
        lemma_run_push(first.0, events.drop_first(), e);
        let inner = run(first.0, events.drop_first());
        let last = next(inner.0, e);
        assert(first.1 + (inner.1 + last.1) =~= (first.1 + inner.1) + last.1);
    }
}

/// A run that ends its input at the top level ends the session, and
/// nothing that comes after changes it or does anything: the console loop,
/// reading a finite input whose group visits all end with `exit` (and whose
/// pending operations all got their outcomes), stops once input ends.
pub proof fn law_run_ends(s: SessionView, events: Seq<EventView>, later: Seq<EventView>)
    requires
        run(s, events).0.mode is TopLevel,
    ensures
        run(s, events.push(EventView::EndOfInput)).0 == at(run(s, events).0.client, Mode::Finished),
        run(run(s, events.push(EventView::EndOfInput)).0, later) == (
            run(s, events.push(EventView::EndOfInput)).0,
            Seq::<Action<Seq<char>>>::empty(),
        ),
    decreases later.len(),
{
    lemma_run_push(s, events, EventView::EndOfInput);
    let f = run(s, events.push(EventView::EndOfInput)).0;
    if later.len() > 0 {
        law_run_ends(s, events, later.drop_first());
        assert(next(f, later[0]) == (f, Seq::<Action<Seq<char>>>::empty()));
        assert(Seq::<Action<Seq<char>>>::empty() + Seq::<Action<Seq<char>>>::empty()
            =~= Seq::<Action<Seq<char>>>::empty());
    }
}

/// Where a session is during a visit to `group`: reading the group's
/// commands, or waiting for an operation on the group.
pub open spec fn in_visit(s: SessionView, group: Seq<char>) -> bool {
    ||| s.mode == Mode::InGroup(group)
    ||| s.mode == Mode::Awaiting(Pending::Send(group))
    ||| s.mode == Mode::Awaiting(Pending::Read(group))
    ||| s.mode == Mode::Awaiting(Pending::Update(Some(group)))
}

/// No event of `events` is the line `exit`.
pub open spec fn no_exit_line(events: Seq<EventView>) -> bool {
    forall|i: int| 0 <= i < events.len() ==> #[trigger] events[i] != EventView::Line("exit"@)
}

proof fn lemma_visit_step(s: SessionView, g: Seq<char>, e: EventView)
    requires
        in_visit(s, g),
        e != EventView::Line("exit"@),
    ensures
        in_visit(next(s, e).0, g),
        next(s, e).0.client == s.client,
{
}

/// A visit to a group lasts until `exit`: from inside a visit, a run
/// without an `exit` line stays inside the visit and keeps the client, and
/// when it ends reading the group's commands, `exit` brings the session back
/// to the top level with that client. With the end-of-input law, a finite
/// input whose group visits all end with `exit` (and whose operations all
/// got their outcomes) finishes.
pub proof fn law_visit_until_exit(s: SessionView, g: Seq<char>, events: Seq<EventView>)
    requires
        in_visit(s, g),
        no_exit_line(events),
    ensures
        in_visit(run(s, events).0, g),
        run(s, events).0.client == s.client,
        run(s, events).0.mode == Mode::InGroup(g) ==> run(
            s,
            events.push(EventView::Line("exit"@)),
        ).0 == at(s.client, Mode::TopLevel),
    decreases events.len(),
{
    if events.len() > 0 {
        assert(events[0] != EventView::Line("exit"@));
        lemma_visit_step(s, g, events[0]);
        let first = next(s, events[0]);
        assert(no_exit_line(events.drop_first())) by {
            assert forall|i: int| 0 <= i < events.drop_first().len() implies #[trigger] events.drop_first()[i]
                != EventView::Line("exit"@) by {
                assert(events.drop_first()[i] == events[i + 1]);
            }
        }
        law_visit_until_exit(first.0, g, events.drop_first());
    }
    lemma_run_push(s, events, EventView::Line("exit"@));
    if run(s, events).0.mode == Mode::InGroup(g) {
        law_exit_group(run(s, events).0, g);
    }
}

} // verus!
