//! The books routes.

pub mod get_book;

use vstd::prelude::*;

verus! {

/// A book.
#[derive(Debug)]
pub struct Book {
    pub title: String,
    pub author: String,
    pub isbn: String,
    pub year: u16,
    pub id: i64,
}

} // verus!
