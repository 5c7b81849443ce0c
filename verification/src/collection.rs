//! What the store's operations mean on a collection, stated over sequences of
//! memo views.
//!
//! A collection is an ordered sequence of memos. Nothing here asks that its
//! identifiers are unique: a file may hold any sequence, and every operation is
//! defined on all of them. `unique_ids` and `ascending_ids` name the two
//! orderly shapes, and the module `laws` shows which operations keep them.

use vstd::prelude::*;
use crate::memo::MemoView;

verus! {

/// Some memo of `c` carries `id`.
pub open spec fn contains_id(c: Seq<MemoView>, id: u32) -> bool {
    exists|i: int| 0 <= i < c.len() && c[i].id == id
}

/// `i` is the first position of `c` whose memo carries `id`.
pub open spec fn is_first(c: Seq<MemoView>, id: u32, i: int) -> bool {
    &&& 0 <= i < c.len()
    &&& c[i].id == id
    &&& forall|j: int| 0 <= j < i ==> c[j].id != id
}

/// The first position of `c` whose memo carries `id`; meaningful when there is one.
pub open spec fn first_index(c: Seq<MemoView>, id: u32) -> int {
    choose|i: int| is_first(c, id, i)
}

/// The first memo of `c` that carries `id`, if any does.
pub open spec fn lookup(c: Seq<MemoView>, id: u32) -> Option<MemoView> {
    if contains_id(c, id) {
        Some(c[first_index(c, id)])
    } else {
        None
    }
}

/// `answer` is what a search of `c` for `id` has to give: the memo at the first
/// position that carries `id`, or nothing where no position does.
pub open spec fn is_answer(c: Seq<MemoView>, id: u32, answer: Option<MemoView>) -> bool {
    match answer {
        Some(m) => exists|i: int| is_first(c, id, i) && c[i] == m,
        None => forall|i: int| 0 <= i < c.len() ==> c[i].id != id,
    }
}

/// At most one position of `c` carries `id`.
pub open spec fn at_most_once(c: Seq<MemoView>, id: u32) -> bool {
    forall|i: int, j: int|
        0 <= i < c.len() && 0 <= j < c.len() && c[i].id == id && c[j].id == id ==> i == j
}

/// The identifier that the next new memo gets: one more than that of the last
/// memo, whatever the others carry, and 1 in an empty collection.
pub open spec fn next_id(c: Seq<MemoView>) -> int {
    if c.len() == 0 {
        1
    } else {
        c.last().id + 1
    }
}

/// The memo that is appended for a new title and content.
pub open spec fn fresh(c: Seq<MemoView>, title: Seq<char>, content: Seq<char>) -> MemoView {
    MemoView { id: next_id(c) as u32, title, content }
}

/// `m` with the title and the content replaced where a new one is given.
pub open spec fn revise(
    m: MemoView,
    title: Option<Seq<char>>,
    content: Option<Seq<char>>,
) -> MemoView {
    MemoView {
        id: m.id,
        title: match title {
            Some(t) => t,
            None => m.title,
        },
        content: match content {
            Some(t) => t,
            None => m.content,
        },
    }
}

/// `c` with its first memo that carries `id` revised; `c` itself where none does.
pub open spec fn updated(
    c: Seq<MemoView>,
    id: u32,
    title: Option<Seq<char>>,
    content: Option<Seq<char>>,
) -> Seq<MemoView> {
    if contains_id(c, id) {
        let i = first_index(c, id);
        c.update(i, revise(c[i], title, content))
    } else {
        c
    }
}

/// The test that a memo does not carry `id`.
pub open spec fn other_than(id: u32) -> spec_fn(MemoView) -> bool {
    |m: MemoView| m.id != id
}

/// `c` without the memos that carry `id`, the others in their order.
pub open spec fn without(c: Seq<MemoView>, id: u32) -> Seq<MemoView> {
    c.filter(other_than(id))
}

/// No identifier occurs twice in `c`.
pub open spec fn unique_ids(c: Seq<MemoView>) -> bool {
    forall|i: int, j: int| 0 <= i < j < c.len() ==> c[i].id != c[j].id
}

/// The identifiers of `c` grow strictly from each memo to the next.
pub open spec fn ascending_ids(c: Seq<MemoView>) -> bool {
    forall|i: int, j: int| 0 <= i < j < c.len() ==> c[i].id < c[j].id
}

/// Among the positions up to `k` that carry `id` there is a first one.
proof fn lemma_least_position(c: Seq<MemoView>, id: u32, k: int)
    requires
        0 <= k < c.len(),
        c[k].id == id,
    ensures
        exists|i: int| is_first(c, id, i),
    decreases k,
{
    if forall|j: int| 0 <= j < k ==> c[j].id != id {
        assert(is_first(c, id, k));
    } else {
        let j = choose|j: int| 0 <= j < k && c[j].id == id;
        lemma_least_position(c, id, j);
    }
}

/// Where some memo carries `id`, `first_index` is the first position that does.
pub proof fn lemma_first_index(c: Seq<MemoView>, id: u32)
    requires
        contains_id(c, id),
    ensures
        is_first(c, id, first_index(c, id)),
{
    let k = choose|i: int| 0 <= i < c.len() && c[i].id == id;
    lemma_least_position(c, id, k);
}

/// There is one first position only, and `lookup` gives the memo that stands there.
pub proof fn lemma_first_is_unique(c: Seq<MemoView>, id: u32, i: int)
    requires
        is_first(c, id, i),
    ensures
        contains_id(c, id),
        first_index(c, id) == i,
        lookup(c, id) == Some(c[i]),
{
}

/// Removing by identifier goes memo by memo: the last memo stays or leaves, and
/// the rest is removed from alike.
pub proof fn lemma_without_push(c: Seq<MemoView>, m: MemoView, id: u32)
    ensures
        without(c.push(m), id) == if m.id != id {
            without(c, id).push(m)
        } else {
            without(c, id)
        },
{
    c.lemma_filter_push(m, other_than(id));
}

/// What removing by identifier leaves: no memo that carries `id`, never more
/// memos than before, fewer exactly when some memo carried `id`, and the very
/// same collection when none did.
pub proof fn lemma_without_len(c: Seq<MemoView>, id: u32)
    ensures
        without(c, id).len() <= c.len(),
        contains_id(c, id) <==> without(c, id).len() < c.len(),
        !contains_id(c, id) ==> without(c, id) == c,
        !contains_id(without(c, id), id),
    decreases c.len(),
{
    if c.len() > 0 {
        let front = c.drop_last();
        lemma_without_len(front, id);
        lemma_without_push(front, c.last(), id);
        assert(front.push(c.last()) == c);
    }
}

} // verus!
