//! Laws of the store: what holds of the operations' meaning on every
//! collection, proved from the definitions in `collection`.

use vstd::prelude::*;
use crate::collection::{
    ascending_ids, at_most_once, contains_id, first_index, fresh, is_answer, is_first,
    lemma_first_index, lemma_first_is_unique, lemma_without_len, lemma_without_push, lookup,
    next_id, revise, unique_ids, updated, without,
};
use crate::memo::MemoView;
use crate::store::{stored, FileContent};

verus! {

/// A search gives the memo at the first position that carries the identifier,
/// and nothing where no position carries it.
pub proof fn law_lookup_is_answer(c: Seq<MemoView>, id: u32)
    ensures
        is_answer(c, id, lookup(c, id)),
        lookup(c, id) matches Some(m) ==> m.id == id,
{
    if contains_id(c, id) {
        lemma_first_index(c, id);
    }
}

/// A search for an identifier that no memo carries finds nothing.
pub proof fn law_absent_is_not_found(c: Seq<MemoView>, id: u32)
    requires
        !contains_id(c, id),
    ensures
        lookup(c, id) is None,
{
}

/// A search has one answer only: two searches of the same collection for the
/// same identifier agree.
pub proof fn law_answer_is_unique(
    c: Seq<MemoView>,
    id: u32,
    first: Option<MemoView>,
    second: Option<MemoView>,
)
    requires
        is_answer(c, id, first),
        is_answer(c, id, second),
    ensures
        first == second,
        first == lookup(c, id),
{
    law_lookup_is_answer(c, id);
    if let Some(m) = first {
        let i = choose|i: int| is_first(c, id, i) && c[i] == m;
        lemma_first_is_unique(c, id, i);
    }
    if let Some(m) = second {
        let i = choose|i: int| is_first(c, id, i) && c[i] == m;
        lemma_first_is_unique(c, id, i);
    }
}

/// The first memo gets the identifier 1, every later one the identifier of
/// the last memo and one more.
pub proof fn law_assigned_id(c: Seq<MemoView>, title: Seq<char>, content: Seq<char>)
    requires
        next_id(c) <= u32::MAX,
    ensures
        c.len() == 0 ==> fresh(c, title, content).id == 1,
        c.len() > 0 ==> fresh(c, title, content).id == c[c.len() - 1].id + 1,
{
}

/// After a memo was created, a search for its identifier finds a memo with the
/// title and the content that it was created with. This holds wherever the
/// search of the collection before did not already find a memo with another
/// title or content under that identifier; in particular wherever the new
/// identifier was not in use.
pub proof fn law_created_is_found(c: Seq<MemoView>, title: Seq<char>, content: Seq<char>)
    requires
        next_id(c) <= u32::MAX,
        lookup(c, next_id(c) as u32) matches Some(m) ==> m.title == title && m.content == content,
    ensures
        lookup(c.push(fresh(c, title, content)), next_id(c) as u32) matches Some(m) && m.id
            == next_id(c) && m.title == title && m.content == content,
        !contains_id(c, next_id(c) as u32) ==> lookup(
            c.push(fresh(c, title, content)),
            next_id(c) as u32,
        ) == Some(fresh(c, title, content)),
{
    let id = next_id(c) as u32;
    let after = c.push(fresh(c, title, content));
    if contains_id(c, id) {
        lemma_first_index(c, id);
        lemma_first_is_unique(after, id, first_index(c, id));
    } else {
        lemma_first_is_unique(after, id, c.len() as int);
    }
}

/// An update that gives a title and no content changes the title of the first
/// memo that carries the identifier and nothing else: not its content, not its
/// identifier, not its place, and no other memo. The answer is the memo as it
/// then is.
pub proof fn law_update_title_only(c: Seq<MemoView>, id: u32, title: Seq<char>)
    requires
        contains_id(c, id),
    ensures
        updated(c, id, Some(title), None) == c.update(
            first_index(c, id),
            MemoView { id, title, content: c[first_index(c, id)].content },
        ),
        lookup(updated(c, id, Some(title), None), id) == Some(
            MemoView { id, title, content: c[first_index(c, id)].content },
        ),
{
    lemma_first_index(c, id);
    law_update_answer(c, id, Some(title), None);
}

/// An update for an identifier that no memo carries changes nothing and finds
/// nothing.
pub proof fn law_update_absent(
    c: Seq<MemoView>,
    id: u32,
    title: Option<Seq<char>>,
    content: Option<Seq<char>>,
)
    requires
        !contains_id(c, id),
    ensures
        updated(c, id, title, content) == c,
        lookup(updated(c, id, title, content), id) is None,
{
}

/// An update keeps the number of memos, every identifier in its place, and
/// every memo but the first that carries the identifier; the answer of the
/// update is that memo, revised.
pub proof fn law_update_answer(
    c: Seq<MemoView>,
    id: u32,
    title: Option<Seq<char>>,
    content: Option<Seq<char>>,
)
    ensures
        updated(c, id, title, content).len() == c.len(),
        forall|k: int|
            0 <= k < c.len() ==> (#[trigger] updated(c, id, title, content)[k]).id == c[k].id,
        forall|k: int|
            0 <= k < c.len() && !is_first(c, id, k) ==> #[trigger] updated(c, id, title, content)[k]
                == c[k],
        contains_id(c, id) ==> lookup(updated(c, id, title, content), id) == Some(
            revise(c[first_index(c, id)], title, content),
        ),
        !contains_id(c, id) ==> lookup(updated(c, id, title, content), id) is None,
{
    if contains_id(c, id) {
        lemma_first_index(c, id);
        lemma_first_is_unique(updated(c, id, title, content), id, first_index(c, id));
    }
}

/// An update leaves the identifiers as orderly as they were.
pub proof fn law_update_keeps_order(
    c: Seq<MemoView>,
    id: u32,
    title: Option<Seq<char>>,
    content: Option<Seq<char>>,
)
    ensures
        unique_ids(c) ==> unique_ids(updated(c, id, title, content)),
        ascending_ids(c) ==> ascending_ids(updated(c, id, title, content)),
{
    law_update_answer(c, id, title, content);
}

/// A delete removes something exactly when some memo carries the identifier,
/// and then the collection is shorter; else the collection is unchanged.
/// Afterwards no memo carries the identifier.
pub proof fn law_delete_answer(c: Seq<MemoView>, id: u32)
    ensures
        contains_id(c, id) <==> without(c, id).len() < c.len(),
        !contains_id(c, id) ==> without(c, id) == c,
        !contains_id(without(c, id), id),
        lookup(without(c, id), id) is None,
{
    lemma_without_len(c, id);
}

/// Where at most one memo carries the identifier, a delete removes exactly that
/// memo: the collection is shorter by one, and the others keep their order.
pub proof fn law_delete_removes_one(c: Seq<MemoView>, id: u32)
    requires
        at_most_once(c, id),
        contains_id(c, id),
    ensures
        without(c, id) == c.remove(first_index(c, id)),
        without(c, id).len() == c.len() - 1,
    decreases c.len(),
{
    let front = c.drop_last();
    let last = c.len() - 1;
    assert(front.push(c.last()) == c);
    lemma_without_push(front, c.last(), id);
    if c.last().id == id {
        // The last memo is the one: the memos before it all stay.
        assert(!contains_id(front, id)) by {
            if contains_id(front, id) {
                let k = choose|k: int| 0 <= k < front.len() && front[k].id == id;
                assert(c[k].id == id && c[last].id == id);
            }
        }
        lemma_without_len(front, id);
        lemma_first_is_unique(c, id, last);
        assert(c.remove(last) == front);
    } else {
        // The one is among the memos before the last, which stays.
        let k = choose|k: int| 0 <= k < c.len() && c[k].id == id;
        assert(front[k].id == id);
        assert(at_most_once(front, id)) by {
            assert forall|i: int, j: int|
                0 <= i < front.len() && 0 <= j < front.len() && front[i].id == id
                    && front[j].id == id implies i == j by {
                assert(c[i].id == id && c[j].id == id);
            }
        }
        law_delete_removes_one(front, id);
        lemma_first_index(front, id);
        let i = first_index(front, id);
        lemma_first_is_unique(c, id, i);
        assert(front.remove(i).push(c.last()) == c.remove(i));
    }
}

/// For each memo that a delete leaves, the position at which it stood before:
/// these positions grow from each memo to the next.
proof fn lemma_without_sources(c: Seq<MemoView>, id: u32) -> (src: Seq<int>)
    ensures
        src.len() == without(c, id).len(),
        forall|k: int|
            0 <= k < src.len() ==> 0 <= #[trigger] src[k] < c.len() && c[src[k]] == without(
                c,
                id,
            )[k],
        forall|k: int, l: int| 0 <= k < l < src.len() ==> src[k] < src[l],
    decreases c.len(),
{
    if c.len() == 0 {
        Seq::empty()
    } else {
        let front = c.drop_last();
        assert(front.push(c.last()) == c);
        lemma_without_push(front, c.last(), id);
        let src = lemma_without_sources(front, id);
        if c.last().id != id {
            src.push(c.len() - 1)
        } else {
            src
        }
    }
}

/// A delete leaves the identifiers as orderly as they were.
pub proof fn law_delete_keeps_order(c: Seq<MemoView>, id: u32)
    ensures
        unique_ids(c) ==> unique_ids(without(c, id)),
        ascending_ids(c) ==> ascending_ids(without(c, id)),
{
    let after = without(c, id);
    let src = lemma_without_sources(c, id);
    if unique_ids(c) {
        assert forall|i: int, j: int| 0 <= i < j < after.len() implies after[i].id
            != after[j].id by {
            assert(c[src[i]].id != c[src[j]].id);
        }
    }
    if ascending_ids(c) {
        assert forall|i: int, j: int| 0 <= i < j < after.len() implies after[i].id
            < after[j].id by {
            assert(c[src[i]].id < c[src[j]].id);
        }
    }
}

/// Where no identifier occurs twice, each occurs at most once.
pub proof fn law_unique_occurs_once(c: Seq<MemoView>, id: u32)
    requires
        unique_ids(c),
    ensures
        at_most_once(c, id),
{
    assert forall|i: int, j: int|
        0 <= i < c.len() && 0 <= j < c.len() && c[i].id == id && c[j].id == id implies i
        == j by {
        if i != j {
            assert(c[i].id != c[j].id);
        }
    }
}

/// A store that starts on a missing or a malformed file starts on the empty
/// collection, whose identifiers ascend.
pub proof fn law_new_store_is_orderly(found: FileContent)
    requires
        !(found is Records),
    ensures
        stored(found).len() == 0,
        ascending_ids(stored(found)),
        unique_ids(stored(found)),
{
}

/// Identifiers that ascend are unique, and the next identifier is then above
/// all of them, so that no memo carries it.
pub proof fn law_ascending_is_unique(c: Seq<MemoView>)
    requires
        ascending_ids(c),
    ensures
        unique_ids(c),
        forall|i: int| 0 <= i < c.len() ==> (#[trigger] c[i]).id < next_id(c),
        next_id(c) <= u32::MAX ==> !contains_id(c, next_id(c) as u32),
{
    assert forall|i: int| 0 <= i < c.len() implies (#[trigger] c[i]).id < next_id(c) by {
        if i < c.len() - 1 {
            assert(c[i].id < c[c.len() - 1].id);
        }
    }
}

/// Creating a memo keeps ascending identifiers ascending, and keeps unique
/// identifiers unique where the new identifier was not in use.
pub proof fn law_create_keeps_order(c: Seq<MemoView>, title: Seq<char>, content: Seq<char>)
    requires
        next_id(c) <= u32::MAX,
    ensures
        ascending_ids(c) ==> ascending_ids(c.push(fresh(c, title, content))),
        unique_ids(c) && !contains_id(c, next_id(c) as u32) ==> unique_ids(
            c.push(fresh(c, title, content)),
        ),
{
    if ascending_ids(c) {
        law_ascending_is_unique(c);
    }
}

} // verus!
