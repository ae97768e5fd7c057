//! What the text commands of the chat ask for, and how their answers are worded.

use vstd::prelude::*;
use vstd::string::StringExecFns;
use crate::roles::{Role, RoleExt};

verus! {

/// A command that is given as a whole message.
#[derive(Clone, Copy, Debug, PartialEq, Eq, Structural)]
pub enum Command {
    /// Answer, to show that the program is there.
    Ping,
    /// Store a record, read it back and delete it.
    Database,
    /// List the tenant's roles.
    Roles,
    /// List the permissions of the sender.
    Permissions,
}

/// The command that a message is, if it is one: the message is the command's word
/// and nothing else.
pub open spec fn command_of(content: Seq<char>) -> Option<Command> {
    if content == "!ping"@ {
        Some(Command::Ping)
    } else if content == "!database"@ {
        Some(Command::Database)
    } else if content == "!roles"@ {
        Some(Command::Roles)
    } else if content == "!permissions"@ {
        Some(Command::Permissions)
    } else {
        None
    }
}

/// Whether two texts are the same.
pub fn same_text(left: &str, right: &str) -> (same: bool)
    ensures
        same == (left@ == right@),
{
    String::from_str(left) == String::from_str(right)
}

/// Reads a message as a command.
pub fn parse(content: &str) -> (command: Option<Command>)
    ensures
        command == command_of(content@),
{
    if same_text(content, "!ping") {
        Some(Command::Ping)
    } else if same_text(content, "!database") {
        Some(Command::Database)
    } else if same_text(content, "!roles") {
        Some(Command::Roles)
    } else if same_text(content, "!permissions") {
        Some(Command::Permissions)
    } else {
        None
    }
}

/// Texts put one after the other, with `separator` between each two of them.
pub open spec fn joined(parts: Seq<Seq<char>>, separator: Seq<char>) -> Seq<char>
    decreases parts.len(),
{
    if parts.len() == 0 {
        Seq::empty()
    } else if parts.len() == 1 {
        parts[0]
    } else {
        joined(parts.drop_last(), separator) + separator + parts.last()
    }
}

/// The models of the texts of a sequence, in its order.
pub open spec fn part_views(parts: Seq<String>) -> Seq<Seq<char>> {
    Seq::new(parts.len(), |i: int| parts[i]@)
}

/// Puts texts one after the other, with `separator` between each two of them.
pub fn join(parts: &Vec<String>, separator: &str) -> (text: String)
    ensures
        text@ == joined(part_views(parts@), separator@),
{
    let mut text = String::new();
    let mut at: usize = 0;
    while at < parts.len()
        invariant
            at <= parts.len(),
            text@ == joined(part_views(parts@).take(at as int), separator@),
        decreases parts.len() - at,
    {
        assert(part_views(parts@).take(at + 1).drop_last() =~= part_views(parts@).take(
            at as int,
        ));
        if at > 0 {
            text.append(separator);
        }
        text.append(parts[at].as_str());
        at += 1;
    }
    assert(part_views(parts@).take(parts@.len() as int) =~= part_views(parts@));
    text
}

/// The query that the words after a play command make: the words with one space
/// between each two of them. Without any character there is no query.
pub fn play_query(words: &Vec<String>) -> (query: Option<String>)
    ensures
        match query {
            Some(text) => text@ == joined(part_views(words@), " "@) && text@.len() > 0,
            None => joined(part_views(words@), " "@).len() == 0,
        },
{
    let text = join(words, " ");
    if text.as_str().is_empty() {
        None
    } else {
        Some(text)
    }
}

/// The mentions of the roles of a sequence, in its order.
pub open spec fn mentions(roles: Seq<Role>) -> Seq<Seq<char>> {
    Seq::new(roles.len(), |i: int| roles[i]@.mention())
}

/// The answer to the command that lists roles: its heading, then the mention of
/// each role on a line of its own.
pub fn format_roles(roles: &Vec<Role>) -> (text: String)
    ensures
        text@ == "Roles: "@ + joined(mentions(roles@), "\n"@),
{
    let mut lines: Vec<String> = Vec::new();
    let mut at: usize = 0;
    while at < roles.len()
        invariant
            at <= roles.len(),
            part_views(lines@) == mentions(roles@).take(at as int),
        decreases roles.len() - at,
    {
        lines.push(roles[at].as_mention());
        assert(mentions(roles@).take(at + 1) =~= mentions(roles@).take(at as int).push(
            roles@[at as int]@.mention(),
        ));
        at += 1;
    }
    assert(mentions(roles@).take(roles@.len() as int) =~= mentions(roles@));
    let mut text = String::from_str("Roles: ");
    text.append(join(&lines, "\n").as_str());
    text
}

/// How a line of the permission list reads: the name, a colon, and whether the
/// permission is held.
pub open spec fn permission_line(entry: (String, bool)) -> Seq<char> {
    entry.0@ + ": "@ + if entry.1 {
        "true"@
    } else {
        "false"@
    }
}

/// The lines of a permission list, in its order.
pub open spec fn permission_lines(table: Seq<(String, bool)>) -> Seq<Seq<char>> {
    Seq::new(table.len(), |i: int| permission_line(table[i]))
}

/// The answer to the command that lists permissions: its heading, then each
/// permission on a line of its own.
pub fn format_permissions(table: &Vec<(String, bool)>) -> (text: String)
    ensures
        text@ == "Roles:\n "@ + joined(permission_lines(table@), "\n"@),
{
    let mut lines: Vec<String> = Vec::new();
    let mut at: usize = 0;
    while at < table.len()
        invariant
            at <= table.len(),
            part_views(lines@) == permission_lines(table@).take(at as int),
        decreases table.len() - at,
    {
        let mut line = table[at].0.clone();
        line.append(": ");
        if table[at].1 {
            line.append("true");
        } else {
            line.append("false");
        }
        lines.push(line);
        assert(permission_lines(table@).take(at + 1) =~= permission_lines(table@).take(
            at as int,
        ).push(permission_line(table@[at as int])));
        at += 1;
    }
    assert(permission_lines(table@).take(table@.len() as int) =~= permission_lines(table@));
    let mut text = String::from_str("Roles:\n ");
    text.append(join(&lines, "\n").as_str());
    text
}

} // verus!
