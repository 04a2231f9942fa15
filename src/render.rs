use vstd::prelude::*;

use crate::text::{decimal, decimal_text};
use crate::todo::{Report, Todo, TodoModel};

verus! {

/// The mark shown for a task's state.
pub open spec fn glyph(completed: bool) -> Seq<char> {
    if completed {
        "✔"@
    } else {
        "❌"@
    }
}

/// The row that shows one task.
pub open spec fn todo_line(t: TodoModel) -> Seq<char> {
    "ID: "@ + decimal(t.id) + " | "@ + glyph(t.completed) + " | Title: "@ + t.title
}

/// The lines that show a list: a single notice when it is empty, else a heading
/// followed by one row per task in list order.
pub open spec fn list_lines(s: Seq<TodoModel>) -> Seq<Seq<char>> {
    if s.len() == 0 {
        seq!["No todos found."@]
    } else {
        seq!["Todos:"@] + s.map_values(|t: TodoModel| todo_line(t))
    }
}

/// The text of the views of some strings.
pub open spec fn texts(v: Seq<String>) -> Seq<Seq<char>> {
    v.map_values(|l: String| l@)
}

fn todo_row(t: &Todo) -> (r: String)
    ensures
        r@ == todo_line(t@),
{
    proof {
        reveal_strlit("ID: ");
        reveal_strlit(" | ");
        reveal_strlit(" | Title: ");
        reveal_strlit("✔");
        reveal_strlit("❌");
    }
    let mut r = String::from_str("ID: ");
    let id = decimal_text(t.id);
    r.append(id.as_str());
    r.append(" | ");
    if t.completed {
        r.append("✔");
    } else {
        r.append("❌");
    }
    r.append(" | Title: ");
    r.append(t.title.as_str());
    r
}

/// Renders the list for display, one string per line.
pub fn list_todos(todos: &Vec<Todo>) -> (r: Vec<String>)
    ensures
        texts(r@) == list_lines(todos.deep_view()),
{
    let mut r: Vec<String> = Vec::new();
    if todos.len() == 0 {
        proof {
            reveal_strlit("No todos found.");
        }
        r.push(String::from_str("No todos found."));
        assert(texts(r@) =~= list_lines(todos.deep_view()));
        return r;
    }
    proof {
        reveal_strlit("Todos:");
    }
    r.push(String::from_str("Todos:"));
    let mut i: usize = 0;
    while i < todos.len()
        invariant
            0 <= i <= todos.len(),
            texts(r@) =~= seq!["Todos:"@] + todos.deep_view().take(i as int).map_values(
                |t: TodoModel| todo_line(t),
            ),
        decreases todos.len() - i,
    {
        let row = todo_row(&todos[i]);
        let ghost before = r@;
        r.push(row);
        assert(texts(r@) =~= texts(before).push(row@));
        assert(todos.deep_view()[i as int] == todos@[i as int]@);
        assert(todos.deep_view().take(i + 1).map_values(|t: TodoModel| todo_line(t))
            =~= todos.deep_view().take(i as int).map_values(|t: TodoModel| todo_line(t)).push(
            todo_line(todos.deep_view()[i as int]),
        ));
        i = i + 1;
    }
    assert(todos.deep_view().take(i as int) =~= todos.deep_view());
    r
}

/// The message that tells the user what an operation did.
pub open spec fn report_text(r: Report) -> Seq<char> {
    match r {
        Report::Added { id, title } => "Added todo: "@ + title@,
        Report::Edited { id, title } => "Edited todo ID "@ + decimal(id as nat) + " to: "@
            + title@,
        Report::Completed { id, title } => "Completed todo ID "@ + decimal(id as nat) + ": "@
            + title@,
        Report::Deleted { id, title } => "Deleted todo ID "@ + decimal(id as nat) + ": "@
            + title@,
        Report::NotFound { id } => "Todo with ID "@ + decimal(id as nat) + " not found."@,
    }
}

impl Report {
    /// The message for this report.
    pub fn message(&self) -> (r: String)
        ensures
            r@ == report_text(*self),
    {
        proof {
            reveal_strlit("Added todo: ");
            reveal_strlit("Edited todo ID ");
            reveal_strlit(" to: ");
            reveal_strlit("Completed todo ID ");
            reveal_strlit(": ");
            reveal_strlit("Deleted todo ID ");
            reveal_strlit("Todo with ID ");
            reveal_strlit(" not found.");
        }
        match self {
            Report::Added { id: _, title } => {
                let mut r = String::from_str("Added todo: ");
                r.append(title.as_str());
                r
            },
            Report::Edited { id, title } => {
                let mut r = String::from_str("Edited todo ID ");
                let n = decimal_text(*id);
                r.append(n.as_str());
                r.append(" to: ");
                r.append(title.as_str());
                r
            },
            Report::Completed { id, title } => {
                let mut r = String::from_str("Completed todo ID ");
                let n = decimal_text(*id);
                r.append(n.as_str());
                r.append(": ");
                r.append(title.as_str());
                r
            },
            Report::Deleted { id, title } => {
                let mut r = String::from_str("Deleted todo ID ");
                let n = decimal_text(*id);
                r.append(n.as_str());
                r.append(": ");
                r.append(title.as_str());
                r
            },
            Report::NotFound { id } => {
                let mut r = String::from_str("Todo with ID ");
                let n = decimal_text(*id);
                r.append(n.as_str());
                r.append(" not found.");
                r
            },
        }
    }
}

} // verus!
