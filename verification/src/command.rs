//! The console's command language: how an input line is read as a
//! top-level command or as a command inside a group.
use vstd::prelude::*;
use crate::text::{after_prefix, strip_prefix, str_equal, text};

verus! {

/// A top-level command. `S` is `String` for values and `Seq<char>` for
/// their meaning in contracts.
#[derive(Clone, Debug, PartialEq, Eq)]
pub enum Command<S> {
    /// `help`
    Help,
    /// `register {client name}`
    Register(S),
    /// `create kp`
    CreateKeyPackage,
    /// `create group {group name}`
    CreateGroup(S),
    /// `update`
    Update,
    /// `group {group name}`
    Group(S),
    /// `reset`
    Reset,
    /// `load {client name}`
    Load(S),
    /// `save`: the exact word, as the handler that saves the current
    /// client reads it; the help text's `save {client name}` names no other
    /// client than the current one, so a name after `save` makes the line
    /// no command.
    Save,
    /// `autosave`
    AutoSave,
    /// Any other line.
    Other,
}

/// A command typed while inside a group.
#[derive(Clone, Debug, PartialEq, Eq)]
pub enum GroupCommand<S> {
    /// `send {message}`
    Send(S),
    /// `invite {client name}`
    Invite(S),
    /// `remove {client name}`
    Remove(S),
    /// `read`
    Read,
    /// `update`
    Update,
    /// `exit`
    Exit,
    /// Any other line.
    Unknown,
}

impl View for Command<String> {
    type V = Command<Seq<char>>;

    open spec fn view(&self) -> Command<Seq<char>> {
        match self {
            Command::Help => Command::Help,
            Command::Register(n) => Command::Register(n@),
            Command::CreateKeyPackage => Command::CreateKeyPackage,
            Command::CreateGroup(g) => Command::CreateGroup(g@),
            Command::Update => Command::Update,
            Command::Group(g) => Command::Group(g@),
            Command::Reset => Command::Reset,
            Command::Load(n) => Command::Load(n@),
            Command::Save => Command::Save,
            Command::AutoSave => Command::AutoSave,
            Command::Other => Command::Other,
        }
    }
}

impl View for GroupCommand<String> {
    type V = GroupCommand<Seq<char>>;

    open spec fn view(&self) -> GroupCommand<Seq<char>> {
        match self {
            GroupCommand::Send(m) => GroupCommand::Send(m@),
            GroupCommand::Invite(c) => GroupCommand::Invite(c@),
            GroupCommand::Remove(c) => GroupCommand::Remove(c@),
            GroupCommand::Read => GroupCommand::Read,
            GroupCommand::Update => GroupCommand::Update,
            GroupCommand::Exit => GroupCommand::Exit,
            GroupCommand::Unknown => GroupCommand::Unknown,
        }
    }
}

/// The meaning of a top-level line. The forms are tried in this order:
/// `help`, `register `, `create kp`, `create group `, `update`, `group `,
/// `reset`, `load `, `save`, `autosave`;
/// the argument of a prefixed form is the rest of the line, verbatim.
pub open spec fn command_of(line: Seq<char>) -> Command<Seq<char>> {
    if line == "help"@ {
        Command::Help
    } else if after_prefix(line, "register "@) is Some {
        Command::Register(after_prefix(line, "register "@)->0)
    } else if line == "create kp"@ {
        Command::CreateKeyPackage
    } else if after_prefix(line, "create group "@) is Some {
        Command::CreateGroup(after_prefix(line, "create group "@)->0)
    } else if line == "update"@ {
        Command::Update
    } else if after_prefix(line, "group "@) is Some {
        Command::Group(after_prefix(line, "group "@)->0)
    } else if line == "reset"@ {
        Command::Reset
    } else if after_prefix(line, "load "@) is Some {
        Command::Load(after_prefix(line, "load "@)->0)
    } else if line == "save"@ {
        Command::Save
    } else if line == "autosave"@ {
        Command::AutoSave
    } else {
        Command::Other
    }
}

/// The meaning of a line typed inside a group. The forms are tried in this
/// order: `send `, `invite `, `remove `, `read`, `update`, `exit`.
pub open spec fn group_command_of(line: Seq<char>) -> GroupCommand<Seq<char>> {
    if after_prefix(line, "send "@) is Some {
        GroupCommand::Send(after_prefix(line, "send "@)->0)
    } else if after_prefix(line, "invite "@) is Some {
        GroupCommand::Invite(after_prefix(line, "invite "@)->0)
    } else if after_prefix(line, "remove "@) is Some {
        GroupCommand::Remove(after_prefix(line, "remove "@)->0)
    } else if line == "read"@ {
        GroupCommand::Read
    } else if line == "update"@ {
        GroupCommand::Update
    } else if line == "exit"@ {
        GroupCommand::Exit
    } else {
        GroupCommand::Unknown
    }
}

/// Reads a top-level line as a command.
pub fn parse_command(line: &str) -> (c: Command<String>)
    ensures
        c@ == command_of(line@),
{
    if str_equal(line, "help") {
        return Command::Help;
    }
    if let Some(name) = strip_prefix(line, "register ") {
        return Command::Register(text(name));
    }
    if str_equal(line, "create kp") {
        return Command::CreateKeyPackage;
    }
    if let Some(group) = strip_prefix(line, "create group ") {
        return Command::CreateGroup(text(group));
    }
    if str_equal(line, "update") {
        return Command::Update;
    }
    if let Some(group) = strip_prefix(line, "group ") {
        return Command::Group(text(group));
    }
    if str_equal(line, "reset") {
        return Command::Reset;
    }
    if let Some(name) = strip_prefix(line, "load ") {
        return Command::Load(text(name));
    }
    if str_equal(line, "save") {
        return Command::Save;
    }
    if str_equal(line, "autosave") {
        return Command::AutoSave;
    }
    Command::Other
}

/// Reads a line typed inside a group as a group command.
pub fn parse_group_command(line: &str) -> (c: GroupCommand<String>)
    ensures
        c@ == group_command_of(line@),
{
    if let Some(message) = strip_prefix(line, "send ") {
        return GroupCommand::Send(text(message));
    }
    if let Some(client) = strip_prefix(line, "invite ") {
        return GroupCommand::Invite(text(client));
    }
    if let Some(client) = strip_prefix(line, "remove ") {
        return GroupCommand::Remove(text(client));
    }
    if str_equal(line, "read") {
        return GroupCommand::Read;
    }
    if str_equal(line, "update") {
        return GroupCommand::Update;
    }
    if str_equal(line, "exit") {
        return GroupCommand::Exit;
    }
    GroupCommand::Unknown
}

} // verus!
