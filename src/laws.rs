use vstd::prelude::*;

use crate::todo::{
    added, completed, deleted, edited, has_id, index_of, is_dense, lemma_index_of, TodoModel,
};

verus! {

/// The list after adding each of `titles` in turn.
pub open spec fn added_all(s: Seq<TodoModel>, titles: Seq<Seq<char>>) -> Seq<TodoModel>
    decreases titles.len(),
{
    if titles.len() == 0 {
        s
    } else {
        added(added_all(s, titles.drop_last()), titles.last())
    }
}

/// Starting from an empty list, the task made by the n-th add carries id n,
/// the n-th title, and is open.
pub proof fn law_nth_add_gets_id_n(titles: Seq<Seq<char>>)
    ensures
        added_all(Seq::empty(), titles).len() == titles.len(),
        forall|k: int|
            0 <= k < titles.len() ==> #[trigger] added_all(Seq::empty(), titles)[k] == (
            TodoModel { id: (k + 1) as nat, title: titles[k], completed: false }),
    decreases titles.len(),
{
    if titles.len() > 0 {
        law_nth_add_gets_id_n(titles.drop_last());
    }
}

/// After a delete of an id that is present, the ids run 1, 2, ..., n again and the
/// other tasks keep their titles, flags and relative order. A delete of a missing
/// id changes nothing, so the ids are then dense exactly when they were before.
pub proof fn law_delete_leaves_dense_ids(s: Seq<TodoModel>, id: nat)
    requires
        has_id(s, id) || is_dense(s),
    ensures
        is_dense(deleted(s, id)),
        has_id(s, id) ==> deleted(s, id).len() == s.len() - 1,
        has_id(s, id) ==> forall|j: int|
            0 <= j < deleted(s, id).len() ==> #[trigger] deleted(s, id)[j].title == s.remove(
                index_of(s, id),
            )[j].title && deleted(s, id)[j].completed == s.remove(index_of(s, id))[j].completed,
{
    lemma_index_of(s, id);
}

/// Editing, completing or deleting an id that no task carries leaves the list as it was.
pub proof fn law_missing_id_changes_nothing(s: Seq<TodoModel>, id: nat, title: Seq<char>)
    requires
        !has_id(s, id),
    ensures
        edited(s, id, title) == s,
        completed(s, id) == s,
        deleted(s, id) == s,
{
    lemma_index_of(s, id);
}

/// Editing and completing keep the length and every id, so they do not change the
/// id that the next add assigns.
pub proof fn law_edit_and_complete_keep_ids(s: Seq<TodoModel>, id: nat, title: Seq<char>)
    ensures
        edited(s, id, title).len() == s.len(),
        completed(s, id).len() == s.len(),
        forall|j: int| 0 <= j < s.len() ==> #[trigger] edited(s, id, title)[j].id == s[j].id,
        forall|j: int| 0 <= j < s.len() ==> #[trigger] completed(s, id)[j].id == s[j].id,
{
    lemma_index_of(s, id);
}

/// Every operation keeps the ids dense.
pub proof fn law_operations_keep_dense(s: Seq<TodoModel>, id: nat, title: Seq<char>)
    requires
        is_dense(s),
    ensures
        is_dense(added(s, title)),
        is_dense(edited(s, id, title)),
        is_dense(completed(s, id)),
        is_dense(deleted(s, id)),
{
    lemma_index_of(s, id);
    assert(is_dense(added(s, title))) by {
        assert forall|j: int| 0 <= j < added(s, title).len() implies #[trigger] added(s, title)[j].id
            == j + 1 by {
            if j < s.len() {
                assert(added(s, title)[j] == s[j]);
            }
        }
    }
}

} // verus!
