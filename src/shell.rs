use vstd::prelude::*;

use crate::render::{list_lines, list_todos, report_text, texts};
use crate::todo::{
    add_todo, added, complete_todo, completed, delete_todo, deleted, edit_todo, edited, has_id,
    index_of, lemma_index_of, Report, Todo,
};

verus! {

/// An entry of the numbered menu.
pub enum MenuChoice {
    List,
    Add,
    Edit,
    Complete,
    Delete,
    Exit,
    Unknown,
}

/// Maps a menu number to its entry: 1 to 6 in menu order, anything else unknown.
pub fn menu_choice(n: u32) -> (r: MenuChoice)
    ensures
        n == 1 <==> r is List,
        n == 2 <==> r is Add,
        n == 3 <==> r is Edit,
        n == 4 <==> r is Complete,
        n == 5 <==> r is Delete,
        n == 6 <==> r is Exit,
        !(1 <= n <= 6) <==> r is Unknown,
{
    if n == 1 {
        MenuChoice::List
    } else if n == 2 {
        MenuChoice::Add
    } else if n == 3 {
        MenuChoice::Edit
    } else if n == 4 {
        MenuChoice::Complete
    } else if n == 5 {
        MenuChoice::Delete
    } else if n == 6 {
        MenuChoice::Exit
    } else {
        MenuChoice::Unknown
    }
}

/// A menu entry together with the arguments it asked for.
pub enum Command {
    List,
    Add(String),
    Edit(u32, String),
    Complete(u32),
    Delete(u32),
    Exit,
    Unknown,
}

/// Whether the session goes on after a command.
pub enum ShellState {
    Running,
    Exiting,
}

/// The reply to a menu number that names no entry.
pub open spec fn unknown_choice_text() -> Seq<char> {
    "Invalid choice. Try again."@
}

/// The farewell after the last save.
pub open spec fn exit_text() -> Seq<char> {
    "Exiting. Todos saved."@
}

/// Carries out one command on the list and returns the next state with the lines to show.
/// The caller saves the list after every command.
pub fn run_command(todos: &mut Vec<Todo>, cmd: Command) -> (r: (ShellState, Vec<String>))
    requires
        old(todos)@.len() < u32::MAX,
    ensures
        (r.0 is Exiting) <==> (cmd is Exit),
        cmd is List ==> final(todos).deep_view() == old(todos).deep_view() && texts(r.1@)
            == list_lines(old(todos).deep_view()),
        cmd is Add ==> final(todos).deep_view() == added(old(todos).deep_view(), cmd->Add_0@)
            && texts(r.1@) == seq![
            report_text(Report::Added { id: (old(todos)@.len() + 1) as u32, title: cmd->Add_0 }),
        ],
        cmd is Edit ==> final(todos).deep_view() == edited(
            old(todos).deep_view(),
            cmd->Edit_0 as nat,
            cmd->Edit_1@,
        ) && texts(r.1@) == seq![
            if has_id(old(todos).deep_view(), cmd->Edit_0 as nat) {
                report_text(Report::Edited { id: cmd->Edit_0, title: cmd->Edit_1 })
            } else {
                report_text(Report::NotFound { id: cmd->Edit_0 })
            },
        ],
        cmd is Complete ==> final(todos).deep_view() == completed(
            old(todos).deep_view(),
            cmd->Complete_0 as nat,
        ) && texts(r.1@) == seq![
            if has_id(old(todos).deep_view(), cmd->Complete_0 as nat) {
                report_text(
                    Report::Completed {
                        id: cmd->Complete_0,
                        title: old(todos)@[index_of(
                            old(todos).deep_view(),
                            cmd->Complete_0 as nat,
                        )].title,
                    },
                )
            } else {
                report_text(Report::NotFound { id: cmd->Complete_0 })
            },
        ],
        cmd is Delete ==> final(todos).deep_view() == deleted(
            old(todos).deep_view(),
            cmd->Delete_0 as nat,
        ) && texts(r.1@) == seq![
            if has_id(old(todos).deep_view(), cmd->Delete_0 as nat) {
                report_text(
                    Report::Deleted {
                        id: cmd->Delete_0,
                        title: old(todos)@[index_of(
                            old(todos).deep_view(),
                            cmd->Delete_0 as nat,
                        )].title,
                    },
                )
            } else {
                report_text(Report::NotFound { id: cmd->Delete_0 })
            },
        ],
        cmd is Exit ==> final(todos).deep_view() == old(todos).deep_view() && texts(r.1@) == seq![
            exit_text(),
        ],
        cmd is Unknown ==> final(todos).deep_view() == old(todos).deep_view() && texts(r.1@)
            == seq![unknown_choice_text()],
{
    match cmd {
        Command::List => {
            let lines = list_todos(&*todos);
            (ShellState::Running, lines)
        },
        Command::Add(title) => {
            let rep = add_todo(todos, title);
            (ShellState::Running, one_line(rep.message()))
        },
        Command::Edit(id, title) => {
            let rep = edit_todo(todos, id, title);
            (ShellState::Running, one_line(rep.message()))
        },
        Command::Complete(id) => {
            proof {
                lemma_index_of(todos.deep_view(), id as nat);
            }
            let rep = complete_todo(todos, id);
            (ShellState::Running, one_line(rep.message()))
        },
        Command::Delete(id) => {
            proof {
                lemma_index_of(todos.deep_view(), id as nat);
            }
            let rep = delete_todo(todos, id);
            (ShellState::Running, one_line(rep.message()))
        },
        Command::Exit => {
            proof {
                reveal_strlit("Exiting. Todos saved.");
            }
            (ShellState::Exiting, one_line(String::from_str("Exiting. Todos saved.")))
        },
        Command::Unknown => {
            proof {
                reveal_strlit("Invalid choice. Try again.");
            }
            (ShellState::Running, one_line(String::from_str("Invalid choice. Try again.")))
        },
    }
}

fn one_line(s: String) -> (r: Vec<String>)
    ensures
        texts(r@) == seq![s@],
{
    let mut r: Vec<String> = Vec::new();
    r.push(s);
    assert(texts(r@) =~= seq![s@]);
    r
}

/// What reading the backing file gave.
pub enum Stored {
    /// There is no file.
    Missing,
    /// The file is there but does not hold a list of tasks.
    Malformed,
    /// The file held these tasks.
    Parsed(Vec<Todo>),
}

/// The list a session starts from: what the file held, or an empty list when it
/// is missing or malformed.
pub fn todos_from_stored(stored: Stored) -> (r: Vec<Todo>)
    ensures
        match stored {
            Stored::Parsed(v) => r.deep_view() == v.deep_view(),
            _ => r@.len() == 0,
        },
{
    match stored {
        Stored::Parsed(v) => v,
        _ => Vec::new(),
    }
}

} // verus!
