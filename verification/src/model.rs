//! Spec-level model of the table and of the store's operations.
//!
//! The table is a map from task id to [`TaskView`]; the functions here say
//! what each store operation does to that map, and what shape the sequence
//! returned by a load has.

use vstd::prelude::*;

use crate::task::TaskView;

verus! {

/// The empty table.
pub open spec fn empty_table() -> Map<Seq<char>, TaskView> {
    Map::empty()
}

/// Lexicographic order on character sequences: `a` is at or before `b`.
/// The engine sorts text bytewise over its UTF-8 encoding, which orders
/// exactly as the characters' code points do.
pub open spec fn str_le(a: Seq<char>, b: Seq<char>) -> bool
    decreases a.len(),
{
    if a.len() == 0 {
        true
    } else if b.len() == 0 {
        false
    } else if a[0] == b[0] {
        str_le(a.drop_first(), b.drop_first())
    } else {
        (a[0] as int) < (b[0] as int)
    }
}

/// The views of a sequence of loaded rows or tasks, one per element.
pub open spec fn views_of<T: View<V = TaskView>>(s: Seq<T>) -> Seq<TaskView> {
    s.map_values(|t: T| t@)
}

/// `s` lists exactly the rows of table `m`: every element is a row of `m`,
/// every row of `m` appears, and no id appears twice.
pub open spec fn tasks_match_table(s: Seq<TaskView>, m: Map<Seq<char>, TaskView>) -> bool {
    &&& forall|i: int|
        0 <= i < s.len() ==> m.contains_key(#[trigger] s[i].id) && m[s[i].id] == s[i]
    &&& forall|k: Seq<char>|
        #[trigger] m.contains_key(k) ==> exists|i: int| 0 <= i < s.len() && s[i].id == k
    &&& distinct_ids(s)
}

/// No two elements of `s` share an id.
pub open spec fn distinct_ids(s: Seq<TaskView>) -> bool {
    forall|i: int, j: int| 0 <= i < j < s.len() ==> s[i].id != s[j].id
}

/// `s` is ordered newest `created_at` first (non-strictly, since equal
/// timestamps may stand in any order).
pub open spec fn sorted_newest_first(s: Seq<TaskView>) -> bool {
    forall|i: int, j: int|
        0 <= i <= j < s.len() ==> str_le(#[trigger] s[j].created_at, #[trigger] s[i].created_at)
}

/// The table after setting the title of the row at `id`, when there is one.
pub open spec fn with_title(m: Map<Seq<char>, TaskView>, id: Seq<char>, x: Seq<char>) -> Map<
    Seq<char>,
    TaskView,
> {
    if m.contains_key(id) {
        m.insert(id, TaskView { title: x, ..m[id] })
    } else {
        m
    }
}

/// The table after setting the category of the row at `id`, when there is one.
pub open spec fn with_category(m: Map<Seq<char>, TaskView>, id: Seq<char>, x: Seq<char>) -> Map<
    Seq<char>,
    TaskView,
> {
    if m.contains_key(id) {
        m.insert(id, TaskView { category: Some(x), ..m[id] })
    } else {
        m
    }
}

/// The table after setting the content of the row at `id`, when there is one.
pub open spec fn with_content(m: Map<Seq<char>, TaskView>, id: Seq<char>, x: Seq<char>) -> Map<
    Seq<char>,
    TaskView,
> {
    if m.contains_key(id) {
        m.insert(id, TaskView { content: Some(x), ..m[id] })
    } else {
        m
    }
}

/// The table after setting the done flag of the row at `id`, when there is one.
pub open spec fn with_done(m: Map<Seq<char>, TaskView>, id: Seq<char>, x: bool) -> Map<
    Seq<char>,
    TaskView,
> {
    if m.contains_key(id) {
        m.insert(id, TaskView { done: x, ..m[id] })
    } else {
        m
    }
}

/// One optional step of a patch, for each field in turn.
pub open spec fn with_title_opt(
    m: Map<Seq<char>, TaskView>,
    id: Seq<char>,
    x: Option<Seq<char>>,
) -> Map<Seq<char>, TaskView> {
    match x {
        Some(v) => with_title(m, id, v),
        None => m,
    }
}

pub open spec fn with_category_opt(
    m: Map<Seq<char>, TaskView>,
    id: Seq<char>,
    x: Option<Seq<char>>,
) -> Map<Seq<char>, TaskView> {
    match x {
        Some(v) => with_category(m, id, v),
        None => m,
    }
}

pub open spec fn with_content_opt(
    m: Map<Seq<char>, TaskView>,
    id: Seq<char>,
    x: Option<Seq<char>>,
) -> Map<Seq<char>, TaskView> {
    match x {
        Some(v) => with_content(m, id, v),
        None => m,
    }
}

pub open spec fn with_done_opt(
    m: Map<Seq<char>, TaskView>,
    id: Seq<char>,
    x: Option<bool>,
) -> Map<Seq<char>, TaskView> {
    match x {
        Some(v) => with_done(m, id, v),
        None => m,
    }
}

/// The table after a partial update at `id`: each supplied field is set, each
/// absent field left as it is; a table without the id is left unchanged.
pub open spec fn apply_patch(
    m: Map<Seq<char>, TaskView>,
    id: Seq<char>,
    title: Option<Seq<char>>,
    category: Option<Seq<char>>,
    content: Option<Seq<char>>,
    done: Option<bool>,
) -> Map<Seq<char>, TaskView> {
    with_done_opt(
        with_content_opt(with_category_opt(with_title_opt(m, id, title), id, category), id, content),
        id,
        done,
    )
}

/// The table holding exactly the tasks of `s`, inserted in order.
pub open spec fn batch_map(s: Seq<TaskView>) -> Map<Seq<char>, TaskView>
    decreases s.len(),
{
    if s.len() == 0 {
        Map::empty()
    } else {
        batch_map(s.drop_last()).insert(s.last().id, s.last())
    }
}

/// `batch_map` holds an id exactly when some element of the batch carries it.
pub proof fn lemma_batch_map_contains(s: Seq<TaskView>, k: Seq<char>)
    ensures
        batch_map(s).contains_key(k) <==> exists|i: int| 0 <= i < s.len() && s[i].id == k,
    decreases s.len(),
{
    if s.len() > 0 {
        lemma_batch_map_contains(s.drop_last(), k);
        if s.last().id == k {
            assert(s[s.len() - 1].id == k);
        } else if batch_map(s.drop_last()).contains_key(k) {
            let i = choose|i: int| 0 <= i < s.drop_last().len() && s.drop_last()[i].id == k;
            assert(s[i].id == k);
        } else if exists|i: int| 0 <= i < s.len() && s[i].id == k {
            let i = choose|i: int| 0 <= i < s.len() && s[i].id == k;
            assert(s.drop_last()[i].id == k);
        }
    }
}

} // verus!
