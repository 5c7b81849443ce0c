//! The memo record and its mathematical view.

use vstd::prelude::*;

verus! {

/// What a memo is, as a mathematical value.
pub struct MemoView {
    pub id: u32,
    pub title: Seq<char>,
    pub content: Seq<char>,
}

/// One record of the store.
#[derive(Debug)]
pub struct Memo {
    /// Identifier, assigned by the store.
    pub id: u32,
    /// Title, free text.
    pub title: String,
    /// Content, free text.
    pub content: String,
}

impl View for Memo {
    type V = MemoView;

    open spec fn view(&self) -> MemoView {
        MemoView { id: self.id, title: self.title@, content: self.content@ }
    }
}

impl DeepView for Memo {
    type V = MemoView;

    open spec fn deep_view(&self) -> MemoView {
        self@
    }
}

impl Clone for Memo {
    /// A detached copy: same identifier, same title, same content.
    fn clone(&self) -> (copy: Self)
        ensures
            copy == *self,
    {
        Memo { id: self.id, title: self.title.clone(), content: self.content.clone() }
    }
}

} // verus!
