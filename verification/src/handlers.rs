//! Per-endpoint decision logic.
//!
//! Each handler of the service performs at most two store operations and
//! otherwise only decides: which status to answer, with which body, for
//! which store outcome. Those decisions live here as pure functions over
//! outcome values; the shell around the library performs the store calls
//! and feeds the outcomes in. Statuses are plain HTTP codes; error bodies
//! carry the message verbatim.

use vstd::prelude::*;
use crate::models::{dto_of, Book, BookDto};
use crate::oid::{decoded_id, valid_object_id, BookId};

verus! {

/// What a lookup for a single document came back with.
pub enum FindOutcome {
    /// A document matched the filter.
    Found(Book),
    /// No document matched the filter.
    Missing,
    /// The store call itself failed, with its message.
    Failed(String),
}

/// What reading the whole collection came back with.
pub enum ListOutcome {
    /// Every document, in store order.
    Listed(Vec<Book>),
    /// The read or the cursor failed, with its message.
    Failed(String),
}

/// What an insert came back with.
pub enum InsertOutcome {
    /// The store assigned this identifier.
    Inserted(BookId),
    /// The store assigned an identifier of some other shape, already
    /// rendered as text.
    InsertedOther(String),
    /// The insert failed, with its message.
    Failed(String),
}

/// What an update-by-id came back with: how many documents matched, or a
/// failure message.
pub enum UpdateOutcome {
    Matched(u64),
    Failed(String),
}

/// What a delete-by-id came back with: how many documents were removed, or
/// a failure message.
pub enum DeleteOutcome {
    Removed(u64),
    Failed(String),
}

/// The fixed greeting of the root route.
pub fn greeting() -> (r: &'static str)
    ensures
        r@ == "Hello, world!"@,
{
    "Hello, world!"
}

/// The list endpoint's answer: 200 with every book in response form, or
/// 500 with the store's message.
pub fn get_books_response(outcome: ListOutcome) -> (r: Result<(u16, Vec<BookDto>), (u16, String)>)
    ensures
        match outcome {
            ListOutcome::Listed(books) => match r {
                Ok(p) => p.0 == 200 && p.1@.len() == books@.len() && forall|i: int|
                    0 <= i < books@.len() ==> p.1@[i]@ == dto_of(#[trigger] books@[i]@),
                Err(_) => false,
            },
            ListOutcome::Failed(m) => r matches Err(e) && e.0 == 500 && e.1@ == m@,
        },
{
    match outcome {
        ListOutcome::Listed(books) => {
            let mut dtos: Vec<BookDto> = Vec::new();
            let mut i: usize = 0;
            while i < books.len()
                invariant
                    i <= books.len(),
                    dtos@.len() == i as int,
                    forall|j: int| 0 <= j < i ==> dtos@[j]@ == dto_of(#[trigger] books@[j]@),
                decreases books@.len() - i,
            {
                dtos.push(BookDto::from_book(&books[i]));
                i = i + 1;
            }
            Ok((200, dtos))
        },
        ListOutcome::Failed(m) => Err((500, m)),
    }
}

/// The duplicate-name check before an insert: a hit is a conflict, a failed
/// check is a server error, and only a clean miss lets the insert proceed.
pub fn create_duplicate_check(outcome: FindOutcome) -> (r: Result<(), (u16, String)>)
    ensures
        match outcome {
            FindOutcome::Found(_) => r matches Err(e) && e.0 == 409 && e.1@
                == "Book name already exists"@,
            FindOutcome::Missing => r is Ok,
            FindOutcome::Failed(m) => r matches Err(e) && e.0 == 500 && e.1@ == m@,
        },
{
    match outcome {
        FindOutcome::Found(_) => Err((409, "Book name already exists".to_owned())),
        FindOutcome::Missing => Ok(()),
        FindOutcome::Failed(m) => Err((500, m)),
    }
}

/// The create endpoint's answer once the insert ran: 201 with the assigned
/// identifier in string form, or 500 with the store's message.
pub fn create_book_response(outcome: InsertOutcome) -> (r: Result<(u16, String), (u16, String)>)
    ensures
        match outcome {
            InsertOutcome::Inserted(id) => r matches Ok(p) && p.0 == 201 && p.1@ == crate::oid::hex_of(
                id@,
            ),
            InsertOutcome::InsertedOther(s) => r matches Ok(p) && p.0 == 201 && p.1@ == s@,
            InsertOutcome::Failed(m) => r matches Err(e) && e.0 == 500 && e.1@ == m@,
        },
{
    match outcome {
        InsertOutcome::Inserted(id) => Ok((201, id.to_hex())),
        InsertOutcome::InsertedOther(s) => Ok((201, s)),
        InsertOutcome::Failed(m) => Err((500, m)),
    }
}

/// Parses the raw path segment into an identifier; a malformed segment is
/// answered 400 before any store call is made.
pub fn parse_book_id(raw: &str) -> (r: Result<BookId, (u16, String)>)
    ensures
        r is Ok <==> valid_object_id(raw@),
        match r {
            Ok(id) => id@ == decoded_id(raw@),
            Err(e) => e.0 == 400 && e.1@ == "Invalid ID"@,
        },
{
    match BookId::parse_str(raw) {
        Some(id) => Ok(id),
        None => Err((400, "Invalid ID".to_owned())),
    }
}

/// The get endpoint's answer: 200 with the found book in response form,
/// 404 for a clean miss, 500 with the store's message.
pub fn get_book_response(outcome: FindOutcome) -> (r: Result<(u16, BookDto), (u16, String)>)
    ensures
        match outcome {
            FindOutcome::Found(b) => r matches Ok(p) && p.0 == 200 && p.1@ == dto_of(b@),
            FindOutcome::Missing => r matches Err(e) && e.0 == 404 && e.1@ == "Book not found"@,
            FindOutcome::Failed(m) => r matches Err(e) && e.0 == 500 && e.1@ == m@,
        },
{
    match outcome {
        FindOutcome::Found(b) => Ok((200, BookDto::from(b))),
        FindOutcome::Missing => Err((404, "Book not found".to_owned())),
        FindOutcome::Failed(m) => Err((500, m)),
    }
}

/// The existence pre-check of the update endpoint: a miss is 404, a failed
/// check is 500, and only a hit lets the write proceed.
pub fn update_precheck(outcome: FindOutcome) -> (r: Result<(), (u16, String)>)
    ensures
        match outcome {
            FindOutcome::Found(_) => r is Ok,
            FindOutcome::Missing => r matches Err(e) && e.0 == 404 && e.1@ == "Book not found"@,
            FindOutcome::Failed(m) => r matches Err(e) && e.0 == 500 && e.1@ == m@,
        },
{
    match outcome {
        FindOutcome::Found(_) => Ok(()),
        FindOutcome::Missing => Err((404, "Book not found".to_owned())),
        FindOutcome::Failed(m) => Err((500, m)),
    }
}

/// The update endpoint's answer once the write ran: 404 when nothing
/// matched any more, 200 with a confirmation otherwise, 500 on failure.
pub fn update_book_response(outcome: UpdateOutcome) -> (r: Result<(u16, String), (u16, String)>)
    ensures
        match outcome {
            UpdateOutcome::Matched(n) => if n == 0 {
                r matches Err(e) && e.0 == 404 && e.1@ == "Book not found"@
            } else {
                r matches Ok(p) && p.0 == 200 && p.1@ == "Updated"@
            },
            UpdateOutcome::Failed(m) => r matches Err(e) && e.0 == 500 && e.1@ == m@,
        },
{
    match outcome {
        UpdateOutcome::Matched(n) => {
            if n == 0 {
                Err((404, "Book not found".to_owned()))
            } else {
                Ok((200, "Updated".to_owned()))
            }
        },
        UpdateOutcome::Failed(m) => Err((500, m)),
    }
}

/// The delete endpoint's answer: 404 when nothing was removed, 200 with a
/// confirmation otherwise, 500 on failure.
pub fn delete_book_response(outcome: DeleteOutcome) -> (r: Result<(u16, String), (u16, String)>)
    ensures
        match outcome {
            DeleteOutcome::Removed(n) => if n == 0 {
                r matches Err(e) && e.0 == 404 && e.1@ == "Book not found"@
            } else {
                r matches Ok(p) && p.0 == 200 && p.1@ == "Deleted"@
            },
            DeleteOutcome::Failed(m) => r matches Err(e) && e.0 == 500 && e.1@ == m@,
        },
{
    match outcome {
        DeleteOutcome::Removed(n) => {
            if n == 0 {
                Err((404, "Book not found".to_owned()))
            } else {
                Ok((200, "Deleted".to_owned()))
            }
        },
        DeleteOutcome::Failed(m) => Err((500, m)),
    }
}

} // verus!
