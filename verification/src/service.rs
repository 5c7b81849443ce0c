//! The four operations of the store.
//!
//! Each takes what was found at the path, loads the collection from it, and
//! answers with the reply for the caller and with what is to be done to the
//! file: creating and updating always write the collection back, deleting
//! writes it when a memo was removed, and getting never writes.

use vstd::prelude::*;
use crate::collection::{
    contains_id, fresh, is_answer, is_first, lemma_first_is_unique, lemma_without_len,
    lemma_without_push, lookup, next_id, updated, without,
};
use crate::memo::Memo;
use crate::store::{read_data, stored, FileContent, Outcome};

verus! {

/// The identifier that `create_memo` would assign, or `None` where that
/// identifier does not fit the identifier type.
pub fn upcoming_id(found: &FileContent) -> (id: Option<u32>)
    ensures
        id == if next_id(stored(*found)) <= u32::MAX {
            Some(next_id(stored(*found)) as u32)
        } else {
            None
        },
{
    match found {
        FileContent::Records(data) => {
            let n = data.len();
            if n == 0 {
                Some(1)
            } else {
                data[n - 1].id.checked_add(1)
            }
        },
        _ => Some(1),
    }
}

/// Appends a new memo with the given title and content and answers with a copy
/// of it. Its identifier is one more than that of the last memo, or 1 in an
/// empty collection. The collection is written back.
pub fn create_memo(found: FileContent, title: String, content: String) -> (out: Outcome<Memo>)
    requires
        next_id(stored(found)) <= u32::MAX,
    ensures
        out.reply@ == fresh(stored(found), title@, content@),
        out.create_file == (found is Missing),
        out.write matches Some(data) && data.deep_view() == stored(found).push(out.reply@),
{
    let loaded = read_data(found);
    let mut data = loaded.data;
    let n = data.len();
    let id: u32 = if n == 0 {
        1
    } else {
        data[n - 1].id + 1
    };
    let memo = Memo { id, title, content };
    data.push(memo.clone());
    Outcome { reply: memo, create_file: loaded.create_file, write: Some(data) }
}

/// The first position whose memo carries `id`, found by scanning from the front.
fn position(data: &Vec<Memo>, id: u32) -> (at: Option<usize>)
    ensures
        match at {
            Some(i) => is_first(data.deep_view(), id, i as int),
            None => !contains_id(data.deep_view(), id),
        },
{
    let mut i: usize = 0;
    while i < data.len()
        invariant
            i <= data.len(),
            forall|j: int| 0 <= j < i ==> data.deep_view()[j].id != id,
        decreases data.len() - i,
    {
        if data[i].id == id {
            return Some(i);
        }
        i += 1;
    }
    None
}

/// Answers with a copy of the first memo that carries `id`, or with `None`
/// where no memo does. Nothing is written.
pub fn get_memo(found: FileContent, id: u32) -> (out: Outcome<Option<Memo>>)
    ensures
        out.reply.deep_view() == lookup(stored(found), id),
        is_answer(stored(found), id, out.reply.deep_view()),
        out.create_file == (found is Missing),
        out.write is None,
{
    let loaded = read_data(found);
    let data = loaded.data;
    let reply = match position(&data, id) {
        Some(i) => Some(data[i].clone()),
        None => None,
    };
    Outcome { reply, create_file: loaded.create_file, write: None }
}

/// Gives the first memo that carries `id` the new title and the new content,
/// each only where one is given, and answers with a copy of the memo as it
/// then is; where no memo carries `id`, the collection stays as it is and the
/// answer is `Ok(None)`. No input is refused: the answer is always `Ok`. The
/// collection is written back, changed or not.
pub fn update_memo(
    found: FileContent,
    id: u32,
    title: Option<String>,
    content: Option<String>,
) -> (out: Outcome<Result<Option<Memo>, String>>)
    ensures
        out.write matches Some(data) && data.deep_view() == updated(
            stored(found),
            id,
            title.deep_view(),
            content.deep_view(),
        ),
        out.reply matches Ok(memo) && memo.deep_view() == lookup(
            updated(stored(found), id, title.deep_view(), content.deep_view()),
            id,
        ),
        out.create_file == (found is Missing),
{
    let loaded = read_data(found);
    let mut data = loaded.data;
    let reply = match position(&data, id) {
        Some(i) => {
            if let Some(new_title) = title {
                data[i].title = new_title;
            }
            if let Some(new_content) = content {
                data[i].content = new_content;
            }
            proof {
                // The memo is revised in its place, and is still the first
                // that carries the identifier.
                assert(data.deep_view() =~= updated(
                    stored(found),
                    id,
                    title.deep_view(),
                    content.deep_view(),
                ));
                lemma_first_is_unique(data.deep_view(), id, i as int);
            }
            Some(data[i].clone())
        },
        None => None,
    };
    Outcome { reply: Ok(reply), create_file: loaded.create_file, write: Some(data) }
}

/// Removes every memo that carries `id` and answers whether any was removed.
/// The collection is written back only where one was.
pub fn delete_memo(found: FileContent, id: u32) -> (out: Outcome<bool>)
    ensures
        out.reply == contains_id(stored(found), id),
        out.create_file == (found is Missing),
        match out.write {
            Some(data) => out.reply && data.deep_view() == without(stored(found), id),
            None => !out.reply,
        },
{
    let loaded = read_data(found);
    let all = loaded.data;
    let len_before = all.len();
    let ghost before = all.deep_view();
    let ghost items = all@;
    let mut data: Vec<Memo> = Vec::new();
    assert(data.deep_view() =~= without(before.take(0), id));
    for memo in it: all
        invariant
            it.seq() == items,
            items.len() == before.len(),
            forall|k: int| 0 <= k < items.len() ==> items[k]@ == before[k],
            data.deep_view() == without(before.take(it.index() as int), id),
    {
        proof {
            let k = it.index() as int;
            assert(before.take(k + 1) =~= before.take(k).push(before[k]));
            lemma_without_push(before.take(k), before[k], id);
        }
        if memo.id != id {
            data.push(memo);
        }
    }
    proof {
        assert(before.take(before.len() as int) =~= before);
        lemma_without_len(before, id);
    }
    if data.len() < len_before {
        Outcome { reply: true, create_file: loaded.create_file, write: Some(data) }
    } else {
        Outcome { reply: false, create_file: loaded.create_file, write: None }
    }
}

} // verus!
