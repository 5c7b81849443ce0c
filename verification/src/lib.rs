//! A verified record store for memos.
//!
//! A memo has an identifier, a title and a content. A collection of memos is an
//! ordered sequence, kept in one file. Every operation of the store is a
//! function from what was found in the file to the answer for the caller and
//! to what is to be done to the file. Reading and writing the file itself is
//! left to the program around this library.

pub mod collection;
pub mod greeting;
pub mod laws;
pub mod memo;
pub mod service;
pub mod store;

pub use greeting::greet;
pub use memo::{Memo, MemoView};
pub use service::{create_memo, delete_memo, get_memo, update_memo, upcoming_id};
pub use store::{read_data, FileContent, Loaded, Outcome};
