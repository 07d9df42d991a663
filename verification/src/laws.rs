//! Properties of the store, stated over its model and proved for all inputs.
//!
//! Each law here relates the contracts of the operations in
//! [`crate::store`]: what a load returns after an insert, what a partial
//! update leaves alone, and what the silent no-op cases amount to.

use vstd::prelude::*;

use crate::model::apply_patch;
use crate::model::tasks_match_table;
use crate::task::TaskView;

verus! {

/// Round trip: a task just inserted is among the tasks a load returns,
/// field for field. `s` is any listing of the table after the insert, as
/// [`crate::store::load_tasks`] ensures of its result, and `m` the table
/// before, as [`crate::store::add_task`] relates it to the table after.
pub proof fn lemma_round_trip(s: Seq<TaskView>, m: Map<Seq<char>, TaskView>, t: TaskView)
    requires
        tasks_match_table(s, m.insert(t.id, t)),
    ensures
        exists|i: int| 0 <= i < s.len() && s[i] == t,
{
    let m1 = m.insert(t.id, t);
    assert(m1.contains_key(t.id));
    let i = choose|i: int| 0 <= i < s.len() && s[i].id == t.id;
    assert(s[i] == m1[t.id]);
}

/// A partial update touches exactly the row it names and exactly the fields
/// it supplies: the id and timestamp always stay, every absent field keeps
/// its value, every supplied field takes the given value, and every other
/// row — and the set of rows itself — is left as it was.
pub proof fn lemma_patch_preserves_untouched(
    m: Map<Seq<char>, TaskView>,
    id: Seq<char>,
    title: Option<Seq<char>>,
    category: Option<Seq<char>>,
    content: Option<Seq<char>>,
    done: Option<bool>,
)
    requires
        m.contains_key(id),
    ensures
        ({
            let p = apply_patch(m, id, title, category, content, done);
            let t0 = m[id];
            let t1 = p[id];
            &&& p.contains_key(id)
            &&& t1.id == t0.id
            &&& t1.created_at == t0.created_at
            &&& title is None ==> t1.title == t0.title
            &&& title matches Some(x) ==> t1.title == x
            &&& category is None ==> t1.category == t0.category
            &&& category matches Some(x) ==> t1.category == Some(x)
            &&& content is None ==> t1.content == t0.content
            &&& content matches Some(x) ==> t1.content == Some(x)
            &&& done is None ==> t1.done == t0.done
            &&& done matches Some(x) ==> t1.done == x
            &&& forall|k: Seq<char>| #[trigger] p.contains_key(k) <==> m.contains_key(k)
            &&& forall|k: Seq<char>|
                m.contains_key(k) && k != id ==> #[trigger] p[k] == m[k]
        }),
{
}

/// Updating an id the table does not hold changes nothing, whatever fields
/// the patch supplies: the silent no-op the store promises.
pub proof fn lemma_patch_absent_id(
    m: Map<Seq<char>, TaskView>,
    id: Seq<char>,
    title: Option<Seq<char>>,
    category: Option<Seq<char>>,
    content: Option<Seq<char>>,
    done: Option<bool>,
)
    requires
        !m.contains_key(id),
    ensures
        apply_patch(m, id, title, category, content, done) == m,
{
}

/// Deleting an id the table does not hold changes nothing: removal is
/// idempotent.
pub proof fn lemma_remove_absent_id(m: Map<Seq<char>, TaskView>, id: Seq<char>)
    requires
        !m.contains_key(id),
    ensures
        m.remove(id) == m,
{
    assert(m.remove(id) =~= m);
}

} // verus!
