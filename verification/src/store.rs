//! The backing file, as far as the store decides about it.
//!
//! The program around this library looks at the file and says what it
//! found, as a `FileContent`. Every operation answers with an `Outcome`, which
//! says what the program then has to do to the file.

use vstd::prelude::*;
use crate::memo::{Memo, MemoView};

verus! {

/// What was found where the backing file should stand.
#[derive(Debug)]
pub enum FileContent {
    /// No file stands at the path.
    Missing,
    /// A file stands there, and its text is not a serialized collection. An
    /// empty file is of this kind.
    Malformed,
    /// A file stands there, and its text is the serialized form of these memos.
    Records(Vec<Memo>),
}

/// What a load yields.
#[derive(Debug)]
pub struct Loaded {
    /// The collection to work on.
    pub data: Vec<Memo>,
    /// Whether an empty file is to be created at the path.
    pub create_file: bool,
}

/// What an operation yields.
#[derive(Debug)]
pub struct Outcome<T> {
    /// The answer for the caller.
    pub reply: T,
    /// Whether an empty file is to be created at the path, before anything is
    /// written.
    pub create_file: bool,
    /// The collection that is to be written over the file, whole; `None` where
    /// the operation does not write.
    pub write: Option<Vec<Memo>>,
}

/// The collection that stands for what was found: the memos of a well-formed
/// file, and no memo at all for a missing or a malformed one.
pub open spec fn stored(found: FileContent) -> Seq<MemoView> {
    match found {
        FileContent::Records(memos) => memos.deep_view(),
        _ => Seq::empty(),
    }
}

/// Turns what was found at the path into the collection to work on. A missing
/// file gives the empty collection and asks for an empty file to be created; a
/// malformed file gives the empty collection too, silently; a well-formed one
/// gives its memos in their order.
pub fn read_data(found: FileContent) -> (loaded: Loaded)
    ensures
        loaded.data.deep_view() == stored(found),
        loaded.create_file == (found is Missing),
{
    match found {
        FileContent::Missing => {
            let data: Vec<Memo> = Vec::new();
            Loaded { data, create_file: true }
        },
        FileContent::Malformed => {
            let data: Vec<Memo> = Vec::new();
            Loaded { data, create_file: false }
        },
        FileContent::Records(data) => Loaded { data, create_file: false },
    }
}

} // verus!
