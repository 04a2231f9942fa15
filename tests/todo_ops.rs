use todo_list::render::list_todos;
use todo_list::shell::{menu_choice, run_command, todos_from_stored, Command, MenuChoice, ShellState, Stored};
use todo_list::text::{decimal_text, parse_u32};
use todo_list::todo::{add_todo, complete_todo, delete_todo, edit_todo, Report, Todo};

fn task(id: u32, title: &str, completed: bool) -> Todo {
    Todo { id, title: title.to_string(), completed }
}

fn rows(todos: &Vec<Todo>) -> Vec<(u32, String, bool)> {
    todos.iter().map(|t| (t.id, t.title.clone(), t.completed)).collect()
}

fn abc() -> Vec<Todo> {
    vec![task(1, "A", false), task(2, "B", false), task(3, "C", false)]
}

#[test]
fn add_to_empty_gives_id_one() {
    let mut todos: Vec<Todo> = Vec::new();
    let rep = add_todo(&mut todos, "Buy milk".to_string());
    assert_eq!(rows(&todos), vec![(1, "Buy milk".to_string(), false)]);
    assert_eq!(rep.message(), "Added todo: Buy milk");
}

#[test]
fn nth_add_gets_id_n() {
    let mut todos: Vec<Todo> = Vec::new();
    for (n, title) in ["a", "b", "c", "d", "e"].iter().enumerate() {
        add_todo(&mut todos, title.to_string());
        assert_eq!(todos[n].id, (n + 1) as u32);
        assert_eq!(todos[n].title, *title);
        assert!(!todos[n].completed);
    }
    assert_eq!(todos.len(), 5);
}

#[test]
fn add_after_loaded_list_uses_length() {
    let mut todos = vec![task(7, "x", true)];
    add_todo(&mut todos, "y".to_string());
    assert_eq!(rows(&todos), vec![(7, "x".to_string(), true), (2, "y".to_string(), false)]);
}

#[test]
fn delete_middle_renumbers() {
    let mut todos = abc();
    let rep = delete_todo(&mut todos, 2);
    assert_eq!(rows(&todos), vec![(1, "A".to_string(), false), (2, "C".to_string(), false)]);
    assert_eq!(rep.message(), "Deleted todo ID 2: B");
}

#[test]
fn delete_first_and_last() {
    let mut todos = abc();
    delete_todo(&mut todos, 1);
    assert_eq!(rows(&todos), vec![(1, "B".to_string(), false), (2, "C".to_string(), false)]);
    delete_todo(&mut todos, 2);
    assert_eq!(rows(&todos), vec![(1, "B".to_string(), false)]);
    delete_todo(&mut todos, 1);
    assert!(todos.is_empty());
}

#[test]
fn delete_renumbers_sparse_ids_densely() {
    let mut todos = vec![task(4, "p", true), task(9, "q", false), task(12, "r", true)];
    delete_todo(&mut todos, 9);
    assert_eq!(rows(&todos), vec![(1, "p".to_string(), true), (2, "r".to_string(), true)]);
}

#[test]
fn delete_takes_first_of_equal_ids() {
    let mut todos = vec![task(1, "first", false), task(1, "second", false)];
    let rep = delete_todo(&mut todos, 1);
    assert_eq!(rows(&todos), vec![(1, "second".to_string(), false)]);
    assert_eq!(rep.message(), "Deleted todo ID 1: first");
}

#[test]
fn complete_marks_task_done() {
    let mut todos = vec![task(1, "A", false)];
    let rep = complete_todo(&mut todos, 1);
    assert_eq!(rows(&todos), vec![(1, "A".to_string(), true)]);
    assert_eq!(rep.message(), "Completed todo ID 1: A");
}

#[test]
fn edit_missing_id_reports_not_found() {
    let mut todos = vec![task(1, "A", false), task(2, "B", true)];
    let rep = edit_todo(&mut todos, 5, "X".to_string());
    assert_eq!(rows(&todos), vec![(1, "A".to_string(), false), (2, "B".to_string(), true)]);
    assert!(matches!(rep, Report::NotFound { id: 5 }));
    assert_eq!(rep.message(), "Todo with ID 5 not found.");
}

#[test]
fn edit_existing_id_retitles() {
    let mut todos = abc();
    let rep = edit_todo(&mut todos, 3, "Z".to_string());
    assert_eq!(rows(&todos)[2], (3, "Z".to_string(), false));
    assert_eq!(rows(&todos)[..2], rows(&abc())[..2]);
    assert_eq!(rep.message(), "Edited todo ID 3 to: Z");
}

#[test]
fn missing_id_leaves_list_unchanged() {
    let mut todos = abc();
    assert!(matches!(complete_todo(&mut todos, 0), Report::NotFound { id: 0 }));
    assert!(matches!(delete_todo(&mut todos, 4), Report::NotFound { id: 4 }));
    assert!(matches!(edit_todo(&mut todos, u32::MAX, "n".to_string()), Report::NotFound { .. }));
    assert_eq!(rows(&todos), rows(&abc()));
}

#[test]
fn operations_on_empty_list_find_nothing() {
    let mut todos: Vec<Todo> = Vec::new();
    assert!(matches!(complete_todo(&mut todos, 1), Report::NotFound { id: 1 }));
    assert!(matches!(delete_todo(&mut todos, 1), Report::NotFound { id: 1 }));
    assert!(todos.is_empty());
}

#[test]
fn list_empty_is_one_notice() {
    let todos: Vec<Todo> = Vec::new();
    assert_eq!(list_todos(&todos), vec!["No todos found.".to_string()]);
}

#[test]
fn list_shows_rows_in_order() {
    let todos = vec![task(1, "A", true), task(2, "B", false), task(10, "Ten", false)];
    assert_eq!(
        list_todos(&todos),
        vec![
            "Todos:".to_string(),
            "ID: 1 | ✔ | Title: A".to_string(),
            "ID: 2 | ❌ | Title: B".to_string(),
            "ID: 10 | ❌ | Title: Ten".to_string(),
        ]
    );
}

#[test]
fn decimal_spelling() {
    assert_eq!(decimal_text(0), "0");
    assert_eq!(decimal_text(7), "7");
    assert_eq!(decimal_text(10), "10");
    assert_eq!(decimal_text(305), "305");
    assert_eq!(decimal_text(u32::MAX), "4294967295");
}

#[test]
fn parse_accepts_numbers() {
    assert_eq!(parse_u32("0"), Some(0));
    assert_eq!(parse_u32("42"), Some(42));
    assert_eq!(parse_u32("+6"), Some(6));
    assert_eq!(parse_u32("007"), Some(7));
    assert_eq!(parse_u32("4294967295"), Some(u32::MAX));
}

#[test]
fn parse_rejects_other_text() {
    assert_eq!(parse_u32(""), None);
    assert_eq!(parse_u32("+"), None);
    assert_eq!(parse_u32("-1"), None);
    assert_eq!(parse_u32("1a"), None);
    assert_eq!(parse_u32(" 1"), None);
    assert_eq!(parse_u32("4294967296"), None);
    assert_eq!(parse_u32("99999999999x"), None);
}

#[test]
fn parse_agrees_with_std() {
    for s in ["", "+", "-0", "12", "+12", "0012", "4294967295", "4294967296", "1 2", "x", "٣"] {
        assert_eq!(parse_u32(s), s.parse::<u32>().ok(), "{}", s);
    }
}

#[test]
fn menu_numbers_map_to_entries() {
    assert!(matches!(menu_choice(1), MenuChoice::List));
    assert!(matches!(menu_choice(2), MenuChoice::Add));
    assert!(matches!(menu_choice(3), MenuChoice::Edit));
    assert!(matches!(menu_choice(4), MenuChoice::Complete));
    assert!(matches!(menu_choice(5), MenuChoice::Delete));
    assert!(matches!(menu_choice(6), MenuChoice::Exit));
    assert!(matches!(menu_choice(0), MenuChoice::Unknown));
    assert!(matches!(menu_choice(7), MenuChoice::Unknown));
}

#[test]
fn commands_run_in_a_session() {
    let mut todos: Vec<Todo> = Vec::new();
    let (st, out) = run_command(&mut todos, Command::List);
    assert!(matches!(st, ShellState::Running));
    assert_eq!(out, vec!["No todos found.".to_string()]);
    let (_, out) = run_command(&mut todos, Command::Add("A".to_string()));
    assert_eq!(out, vec!["Added todo: A".to_string()]);
    run_command(&mut todos, Command::Add("B".to_string()));
    let (_, out) = run_command(&mut todos, Command::Complete(2));
    assert_eq!(out, vec!["Completed todo ID 2: B".to_string()]);
    let (_, out) = run_command(&mut todos, Command::Edit(1, "AA".to_string()));
    assert_eq!(out, vec!["Edited todo ID 1 to: AA".to_string()]);
    let (_, out) = run_command(&mut todos, Command::Delete(1));
    assert_eq!(out, vec!["Deleted todo ID 1: AA".to_string()]);
    assert_eq!(rows(&todos), vec![(1, "B".to_string(), true)]);
    let (st, out) = run_command(&mut todos, Command::Unknown);
    assert!(matches!(st, ShellState::Running));
    assert_eq!(out, vec!["Invalid choice. Try again.".to_string()]);
    let (st, out) = run_command(&mut todos, Command::Exit);
    assert!(matches!(st, ShellState::Exiting));
    assert_eq!(out, vec!["Exiting. Todos saved.".to_string()]);
    assert_eq!(rows(&todos), vec![(1, "B".to_string(), true)]);
}

#[test]
fn command_on_missing_id_reports_not_found() {
    let mut todos = abc();
    let (_, out) = run_command(&mut todos, Command::Delete(9));
    assert_eq!(out, vec!["Todo with ID 9 not found.".to_string()]);
    assert_eq!(rows(&todos), rows(&abc()));
}

#[test]
fn missing_or_malformed_store_gives_empty_list() {
    assert!(todos_from_stored(Stored::Missing).is_empty());
    assert!(todos_from_stored(Stored::Malformed).is_empty());
    let kept = todos_from_stored(Stored::Parsed(abc()));
    assert_eq!(rows(&kept), rows(&abc()));
}
