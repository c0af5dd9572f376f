//! What the menus offer: sessions read from desktop entries, users read
//! from the password file.

use vstd::prelude::*;
use crate::config::parser::{lines, lines_of};
use crate::greeter::state::{SessionEntry, SessionEntryView};
use crate::text::{
    list_text, parse_u32, parse_unsigned, split, split_on, split_once, split_once_at, str_eq, trim,
    trimmed,
};

verus! {

/// The value that the first line of the form `key=value` gives `key`,
/// white space around key and value left out.
pub open spec fn entry_value(lines: Seq<Seq<char>>, key: Seq<char>) -> Option<Seq<char>>
    decreases lines.len(),
{
    if lines.len() == 0 {
        None
    } else {
        match split_once_at(lines[0], '=') {
            Some((k, v)) => if trimmed(k) == key {
                Some(trimmed(v))
            } else {
                entry_value(lines.drop_first(), key)
            },
            None => entry_value(lines.drop_first(), key),
        }
    }
}

fn find_entry_value(lines: &Vec<String>, key: &str) -> (r: Option<String>)
    ensures
        match r {
            Some(v) => entry_value(list_text(lines@), key@) == Some(v@),
            None => entry_value(list_text(lines@), key@) is None,
        },
{
    let ghost all = list_text(lines@);
    let mut i: usize = 0;
    assert(all.skip(0) =~= all);
    while i < lines.len()
        invariant
            i <= lines.len(),
            all == list_text(lines@),
            entry_value(all, key@) == entry_value(all.skip(i as int), key@),
        decreases lines.len() - i,
    {
        assert(all.skip(i as int)[0] == lines@[i as int]@);
        assert(all.skip(i as int).drop_first() =~= all.skip(i as int + 1));
        if let Some((k, v)) = split_once(lines[i].as_str(), '=') {
            if str_eq(trim(k), key) {
                return Some(String::from_str(trim(v)));
            }
        }
        i += 1;
    }
    assert(all.skip(lines.len() as int).len() == 0);
    None
}

/// The session that a desktop entry describes: its `Name` is what the
/// list shows, its `Exec` line is the command. An entry that lacks either,
/// or whose command is empty, describes none.
pub open spec fn session_of(content: Seq<char>, environment: Seq<Seq<char>>) -> Option<
    SessionEntryView,
> {
    let lines = lines_of(content);
    match (entry_value(lines, "Name"@), entry_value(lines, "Exec"@)) {
        (Some(name), Some(exec)) => if exec.len() > 0 {
            Some(SessionEntryView { name, command: seq![exec], environment })
        } else {
            None
        },
        _ => None,
    }
}

/// Read the session that a desktop entry describes, to be launched in
/// `environment`.
pub fn session_from_desktop_entry(content: &str, environment: Vec<String>) -> (r: Option<
    SessionEntry,
>)
    ensures
        match r {
            Some(entry) => session_of(content@, list_text(environment@)) == Some(entry@),
            None => session_of(content@, list_text(environment@)) is None,
        },
{
    let all = lines(content);
    let name = find_entry_value(&all, "Name");
    let exec = find_entry_value(&all, "Exec");
    match (name, exec) {
        (Some(name), Some(exec)) => {
            if exec.as_str().is_empty() {
                None
            } else {
                let mut command: Vec<String> = Vec::new();
                command.push(exec);
                assert(list_text(command@) =~= seq![exec@]);
                Some(SessionEntry { name, command, environment })
            }
        },
        _ => None,
    }
}

/// The user that a line of the password file names, if the line has a
/// name and a user id between `min_uid` and `max_uid`. The fields of a
/// line stand between colons: the name is the first, the id the third.
pub open spec fn user_of(line: Seq<char>, min_uid: u32, max_uid: u32) -> Option<Seq<char>> {
    let fields = split_on(line, ':');
    if fields.len() >= 3 && fields[0].len() > 0 {
        match parse_unsigned(fields[2], u32::MAX as nat) {
            Some(uid) => if min_uid <= uid <= max_uid {
                Some(fields[0])
            } else {
                None
            },
            None => None,
        }
    } else {
        None
    }
}

/// Read the user that a line of the password file names, if the user menu
/// is to show that user.
pub fn user_from_passwd_line(line: &str, min_uid: u32, max_uid: u32) -> (r: Option<String>)
    ensures
        match r {
            Some(name) => user_of(line@, min_uid, max_uid) == Some(name@),
            None => user_of(line@, min_uid, max_uid) is None,
        },
{
    let fields = split(line, ':');
    if fields.len() < 3 || fields[0].as_str().is_empty() {
        return None;
    }
    assert(list_text(fields@)[0] == fields@[0]@);
    assert(list_text(fields@)[2] == fields@[2]@);
    match parse_u32(fields[2].as_str()) {
        Some(uid) => {
            if min_uid <= uid && uid <= max_uid {
                Some(fields[0].clone())
            } else {
                None
            }
        },
        None => None,
    }
}

} // verus!
