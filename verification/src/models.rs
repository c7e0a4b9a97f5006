//! The three shapes a book takes on its way through the service: the
//! persisted document, the inbound request payload, and the outbound
//! response body.

use vstd::prelude::*;
use crate::oid::{hex_of, BookId};

verus! {

/// A persisted book. The identifier is absent only before the store has
/// assigned one; every stored document carries it.
#[derive(Debug)]
pub struct Book {
    pub id: Option<BookId>,
    pub name: String,
    pub author: String,
    pub year: i32,
}

/// The inbound request payload: clients never choose identifiers.
#[derive(Debug)]
pub struct NewBook {
    pub name: String,
    pub author: String,
    pub year: i32,
}

/// The outbound response body, with the identifier in its string form.
#[derive(Debug)]
pub struct BookDto {
    pub id: String,
    pub name: String,
    pub author: String,
    pub year: i32,
}

/// The mathematical value of a persisted book.
#[verifier::ext_equal]
pub struct BookView {
    pub id: Option<Seq<u8>>,
    pub name: Seq<char>,
    pub author: Seq<char>,
    pub year: int,
}

/// The mathematical value of a request payload.
#[verifier::ext_equal]
pub struct NewBookView {
    pub name: Seq<char>,
    pub author: Seq<char>,
    pub year: int,
}

/// The mathematical value of a response body.
#[verifier::ext_equal]
pub struct BookDtoView {
    pub id: Seq<char>,
    pub name: Seq<char>,
    pub author: Seq<char>,
    pub year: int,
}

impl View for Book {
    type V = BookView;

    open spec fn view(&self) -> BookView {
        BookView {
            id: match self.id {
                Some(id) => Some(id@),
                None => None,
            },
            name: self.name@,
            author: self.author@,
            year: self.year as int,
        }
    }
}

impl View for NewBook {
    type V = NewBookView;

    open spec fn view(&self) -> NewBookView {
        NewBookView { name: self.name@, author: self.author@, year: self.year as int }
    }
}

impl View for BookDto {
    type V = BookDtoView;

    open spec fn view(&self) -> BookDtoView {
        BookDtoView { id: self.id@, name: self.name@, author: self.author@, year: self.year as int }
    }
}

/// The response body for a persisted book: the identifier rendered in its
/// canonical string form, or empty when the store never assigned one, and
/// the other fields copied unchanged.
pub open spec fn dto_of(b: BookView) -> BookDtoView {
    BookDtoView {
        id: match b.id {
            Some(bytes) => hex_of(bytes),
            None => Seq::empty(),
        },
        name: b.name,
        author: b.author,
        year: b.year,
    }
}

impl BookDto {
    /// Converts a borrowed persisted book to its response form.
    pub fn from_book(book: &Book) -> (r: BookDto)
        ensures
            r@ == dto_of(book@),
    {
        let id = match &book.id {
            Some(oid) => oid.to_hex(),
            None => String::new(),
        };
        BookDto { id, name: book.name.clone(), author: book.author.clone(), year: book.year }
    }

    /// Converts a persisted book to its response form.
    pub fn from(book: Book) -> (r: BookDto)
        ensures
            r@ == dto_of(book@),
    {
        BookDto::from_book(&book)
    }
}

} // verus!
