use vstd::prelude::*;

verus! {

/// One entry of the to-do list.
pub struct Todo {
    pub id: u32,
    pub title: String,
    pub completed: bool,
}

/// What a task is, seen from the contracts.
pub struct TodoModel {
    pub id: nat,
    pub title: Seq<char>,
    pub completed: bool,
}

impl View for Todo {
    type V = TodoModel;

    open spec fn view(&self) -> TodoModel {
        TodoModel { id: self.id as nat, title: self.title@, completed: self.completed }
    }
}

impl DeepView for Todo {
    type V = TodoModel;

    open spec fn deep_view(&self) -> TodoModel {
        self@
    }
}

/// The ids run 1, 2, ..., n in list order.
pub open spec fn is_dense(s: Seq<TodoModel>) -> bool {
    forall|j: int| 0 <= j < s.len() ==> #[trigger] s[j].id == j + 1
}

/// Whether some task carries `id`.
pub open spec fn has_id(s: Seq<TodoModel>, id: nat) -> bool {
    exists|j: int| 0 <= j < s.len() && #[trigger] s[j].id == id
}

/// Position of the first task carrying `id`, or the length when there is none.
pub open spec fn index_of(s: Seq<TodoModel>, id: nat) -> int
    decreases s.len(),
{
    if s.len() == 0 {
        0
    } else if s[0].id == id {
        0
    } else {
        1 + index_of(s.drop_first(), id)
    }
}

/// The list after appending a new open task.
pub open spec fn added(s: Seq<TodoModel>, title: Seq<char>) -> Seq<TodoModel> {
    s.push(TodoModel { id: s.len() + 1, title, completed: false })
}

/// The list after retitling the first task carrying `id`, if any.
pub open spec fn edited(s: Seq<TodoModel>, id: nat, title: Seq<char>) -> Seq<TodoModel> {
    let i = index_of(s, id);
    if i < s.len() {
        s.update(i, TodoModel { title, ..s[i] })
    } else {
        s
    }
}

/// The list after marking the first task carrying `id` as done, if any.
pub open spec fn completed(s: Seq<TodoModel>, id: nat) -> Seq<TodoModel> {
    let i = index_of(s, id);
    if i < s.len() {
        s.update(i, TodoModel { completed: true, ..s[i] })
    } else {
        s
    }
}

/// Every task keeps its place and gets its position plus one as id.
pub open spec fn renumbered(s: Seq<TodoModel>) -> Seq<TodoModel> {
    Seq::new(s.len(), |j: int| TodoModel { id: (j + 1) as nat, ..s[j] })
}

/// The list after removing the first task carrying `id`, if any, and renumbering the rest.
pub open spec fn deleted(s: Seq<TodoModel>, id: nat) -> Seq<TodoModel> {
    let i = index_of(s, id);
    if i < s.len() {
        renumbered(s.remove(i))
    } else {
        s
    }
}

/// `index_of` is the first position holding `id`, or the length when none does.
pub proof fn lemma_index_of(s: Seq<TodoModel>, id: nat)
    ensures
        0 <= index_of(s, id) <= s.len(),
        forall|j: int| 0 <= j < index_of(s, id) ==> s[j].id != id,
        index_of(s, id) < s.len() ==> s[index_of(s, id)].id == id,
        index_of(s, id) < s.len() <==> has_id(s, id),
    decreases s.len(),
{
    if s.len() > 0 && s[0].id != id {
        lemma_index_of(s.drop_first(), id);
        assert forall|j: int| 0 <= j < index_of(s, id) implies s[j].id != id by {
            if j > 0 {
                assert(s[j] == s.drop_first()[j - 1]);
            }
        }
        if has_id(s, id) {
            let k = choose|k: int| 0 <= k < s.len() && #[trigger] s[k].id == id;
            assert(s.drop_first()[k - 1].id == id);
        }
        if index_of(s, id) < s.len() {
            assert(s[index_of(s, id)] == s.drop_first()[index_of(s.drop_first(), id)]);
        }
    }
}

/// Finds the position of the first task carrying `id`, scanning from the front.
fn position_of(todos: &Vec<Todo>, id: u32) -> (r: usize)
    ensures
        r as int == index_of(todos.deep_view(), id as nat),
{
    proof {
        lemma_index_of(todos.deep_view(), id as nat);
    }
    let mut i: usize = 0;
    while i < todos.len()
        invariant
            0 <= i <= todos.len(),
            forall|j: int| 0 <= j < i ==> todos.deep_view()[j].id != id as nat,
            0 <= index_of(todos.deep_view(), id as nat) <= todos.len(),
            forall|j: int|
                0 <= j < index_of(todos.deep_view(), id as nat) ==> todos.deep_view()[j].id
                    != id as nat,
            index_of(todos.deep_view(), id as nat) < todos.len() ==> todos.deep_view()[index_of(
                todos.deep_view(),
                id as nat,
            )].id == id as nat,
        decreases todos.len() - i,
    {
        if todos[i].id == id {
            assert(todos.deep_view()[i as int].id == id as nat);
            return i;
        }
        i = i + 1;
    }
    i
}

/// What an operation reports back to the user.
pub enum Report {
    Added { id: u32, title: String },
    Edited { id: u32, title: String },
    Completed { id: u32, title: String },
    Deleted { id: u32, title: String },
    NotFound { id: u32 },
}

/// Appends an open task whose id is one more than the current length.
pub fn add_todo(todos: &mut Vec<Todo>, title: String) -> (r: Report)
    requires
        old(todos)@.len() < u32::MAX,
    ensures
        final(todos).deep_view() == added(old(todos).deep_view(), title@),
        match r {
            Report::Added { id, title: t } => id == old(todos)@.len() + 1 && t@ == title@,
            _ => false,
        },
{
    let id = todos.len() as u32 + 1;
    let shown = title.clone();
    todos.push(Todo { id, title, completed: false });
    assert(final(todos).deep_view() =~= added(old(todos).deep_view(), title@));
    Report::Added { id, title: shown }
}

/// Gives the first task carrying `id` the title `new_title`.
pub fn edit_todo(todos: &mut Vec<Todo>, id: u32, new_title: String) -> (r: Report)
    ensures
        final(todos).deep_view() == edited(old(todos).deep_view(), id as nat, new_title@),
        match r {
            Report::Edited { id: rid, title } => has_id(old(todos).deep_view(), id as nat)
                && rid == id && title@ == new_title@,
            Report::NotFound { id: rid } => !has_id(old(todos).deep_view(), id as nat) && rid
                == id,
            _ => false,
        },
{
    proof {
        lemma_index_of(todos.deep_view(), id as nat);
    }
    let i = position_of(todos, id);
    if i < todos.len() {
        let shown = new_title.clone();
        let t = Todo { id: todos[i].id, title: new_title, completed: todos[i].completed };
        todos.set(i, t);
        assert(final(todos).deep_view() =~= edited(old(todos).deep_view(), id as nat, new_title@));
        Report::Edited { id, title: shown }
    } else {
        Report::NotFound { id }
    }
}

/// Marks the first task carrying `id` as done.
pub fn complete_todo(todos: &mut Vec<Todo>, id: u32) -> (r: Report)
    ensures
        final(todos).deep_view() == completed(old(todos).deep_view(), id as nat),
        match r {
            Report::Completed { id: rid, title } => has_id(old(todos).deep_view(), id as nat)
                && rid == id && title@ == old(todos).deep_view()[index_of(
                old(todos).deep_view(),
                id as nat,
            )].title,
            Report::NotFound { id: rid } => !has_id(old(todos).deep_view(), id as nat) && rid
                == id,
            _ => false,
        },
{
    proof {
        lemma_index_of(todos.deep_view(), id as nat);
    }
    let i = position_of(todos, id);
    if i < todos.len() {
        let shown = todos[i].title.clone();
        let t = Todo { id: todos[i].id, title: todos[i].title.clone(), completed: true };
        todos.set(i, t);
        assert(final(todos).deep_view() =~= completed(old(todos).deep_view(), id as nat));
        Report::Completed { id, title: shown }
    } else {
        Report::NotFound { id }
    }
}

/// Removes the first task carrying `id` and renumbers the rest 1, 2, ..., n.
pub fn delete_todo(todos: &mut Vec<Todo>, id: u32) -> (r: Report)
    requires
        old(todos)@.len() <= u32::MAX,
    ensures
        final(todos).deep_view() == deleted(old(todos).deep_view(), id as nat),
        match r {
            Report::Deleted { id: rid, title } => has_id(old(todos).deep_view(), id as nat)
                && rid == id && title@ == old(todos).deep_view()[index_of(
                old(todos).deep_view(),
                id as nat,
            )].title,
            Report::NotFound { id: rid } => !has_id(old(todos).deep_view(), id as nat) && rid
                == id,
            _ => false,
        },
{
    proof {
        lemma_index_of(todos.deep_view(), id as nat);
    }
    let pos = position_of(todos, id);
    if pos < todos.len() {
        let removed = todos.remove(pos);
        let ghost rest = todos.deep_view();
        assert(rest =~= old(todos).deep_view().remove(pos as int));
        let mut i: usize = 0;
        while i < todos.len()
            invariant
                0 <= i <= todos.len(),
                todos.len() == rest.len(),
                rest.len() < u32::MAX,
                forall|j: int|
                    0 <= j < i ==> #[trigger] todos.deep_view()[j] == (TodoModel {
                        id: (j + 1) as nat,
                        ..rest[j]
                    }),
                forall|j: int| i <= j < todos.len() ==> #[trigger] todos.deep_view()[j] == rest[j],
            decreases todos.len() - i,
        {
            let t = Todo { id: (i + 1) as u32, title: todos[i].title.clone(), completed: todos[i].completed };
            let ghost before = todos.deep_view();
            assert(before[i as int] == rest[i as int]);
            assert(t@ == (TodoModel { id: (i + 1) as nat, ..rest[i as int] }));
            todos.set(i, t);
            assert(todos.deep_view() =~= before.update(i as int, t@));
            i = i + 1;
        }
        assert(final(todos).deep_view() =~= renumbered(rest));
        Report::Deleted { id, title: removed.title }
    } else {
        Report::NotFound { id }
    }
}

} // verus!
