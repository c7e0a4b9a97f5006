//! The collection of books, modelled in memory.
//!
//! `BookStore` runs each endpoint's decision logic end to end against an
//! in-memory collection: every operation states exactly which status and
//! body it answers and how the collection changes. The spec functions here
//! are the vocabulary both for those contracts and for the laws proved in
//! the `laws` module.

use vstd::prelude::*;
use crate::handlers::{
    create_duplicate_check, delete_book_response, get_book_response, parse_book_id,
    update_book_response, DeleteOutcome, FindOutcome, UpdateOutcome,
};
use crate::models::{dto_of, Book, BookDto, BookView, NewBook, NewBookView};
use crate::oid::{decoded_id, hex_of, valid_object_id, BookId};

verus! {

/// Whether some stored book carries this name.
pub open spec fn has_name(s: Seq<BookView>, name: Seq<char>) -> bool {
    exists|i: int| 0 <= i < s.len() && (#[trigger] s[i]).name == name
}

/// Whether some stored book carries this identifier.
pub open spec fn has_id(s: Seq<BookView>, id: Seq<u8>) -> bool {
    exists|i: int| 0 <= i < s.len() && (#[trigger] s[i]).id == Some(id)
}

/// The position of the first book carrying this identifier, or the length
/// of the collection when none does.
pub open spec fn find_idx(s: Seq<BookView>, id: Seq<u8>) -> int
    decreases s.len(),
{
    if s.len() == 0 {
        0
    } else if s[0].id == Some(id) {
        0
    } else {
        1 + find_idx(s.drop_first(), id)
    }
}

/// What the store itself guarantees of the collection: every document has
/// an identifier, and no identifier occurs twice. Names are not covered:
/// only the create pre-check guards them, and an update may reuse one.
pub open spec fn store_inv(s: Seq<BookView>) -> bool {
    &&& forall|i: int| 0 <= i < s.len() ==> (#[trigger] s[i]).id is Some
    &&& forall|i: int, j: int|
        0 <= i < s.len() && 0 <= j < s.len() && i != j ==> (#[trigger] s[i]).id != (
        #[trigger] s[j]).id
}

/// The document a create stores: the payload's fields under the assigned
/// identifier.
pub open spec fn stored_book(p: NewBookView, id: Seq<u8>) -> BookView {
    BookView { id: Some(id), name: p.name, author: p.author, year: p.year }
}

/// The document an update leaves: the payload's fields under the old
/// identifier.
pub open spec fn updated_book(b: BookView, p: NewBookView) -> BookView {
    BookView { id: b.id, name: p.name, author: p.author, year: p.year }
}

/// Where `find_idx` points: at the first book carrying the identifier when
/// there is one, past the end otherwise.
pub proof fn lemma_find_idx(s: Seq<BookView>, id: Seq<u8>)
    ensures
        0 <= find_idx(s, id) <= s.len(),
        find_idx(s, id) < s.len() <==> has_id(s, id),
        find_idx(s, id) < s.len() ==> s[find_idx(s, id)].id == Some(id),
        forall|j: int| 0 <= j < find_idx(s, id) ==> (#[trigger] s[j]).id != Some(id),
    decreases s.len(),
{
    if s.len() == 0 {
    } else if s[0].id == Some(id) {
    } else {
        let rest = s.drop_first();
        lemma_find_idx(rest, id);
        assert(forall|k: int| 0 <= k < rest.len() ==> #[trigger] rest[k] == s[k + 1]);
        if has_id(s, id) {
            let w = choose|i: int| 0 <= i < s.len() && (#[trigger] s[i]).id == Some(id);
            assert(w != 0);
            assert(rest[w - 1].id == Some(id));
            assert(has_id(rest, id));
        }
        if has_id(rest, id) {
            let w = choose|i: int| 0 <= i < rest.len() && (#[trigger] rest[i]).id == Some(id);
            assert(s[w + 1].id == Some(id));
            assert(has_id(s, id));
        }
        assert forall|j: int| 0 <= j < find_idx(s, id) implies (#[trigger] s[j]).id != Some(
            id,
        ) by {
            if j > 0 {
                assert(rest[j - 1] == s[j]);
                assert(rest[j - 1].id != Some(id));
            }
        }
    }
}

/// `find_idx` reads only the identifiers: collections that agree on them
/// agree on it.
pub proof fn lemma_find_idx_same_ids(s1: Seq<BookView>, s2: Seq<BookView>, id: Seq<u8>)
    requires
        s1.len() == s2.len(),
        forall|i: int| 0 <= i < s1.len() ==> (#[trigger] s1[i]).id == (#[trigger] s2[i]).id,
    ensures
        find_idx(s1, id) == find_idx(s2, id),
    decreases s1.len(),
{
    if s1.len() != 0 {
        let r1 = s1.drop_first();
        let r2 = s2.drop_first();
        assert(forall|k: int| 0 <= k < r1.len() ==> #[trigger] r1[k] == s1[k + 1]);
        assert(forall|k: int| 0 <= k < r2.len() ==> #[trigger] r2[k] == s2[k + 1]);
        lemma_find_idx_same_ids(r1, r2, id);
    }
}

/// The collection, held in memory.
pub struct BookStore {
    books: Vec<Book>,
}

impl View for BookStore {
    type V = Seq<BookView>;

    closed spec fn view(&self) -> Seq<BookView> {
        self.books@.map_values(|b: Book| b@)
    }
}

impl BookStore {
    /// The store's guarantee, as it holds of this collection.
    pub open spec fn wf(&self) -> bool {
        store_inv(self@)
    }

    /// An empty collection.
    pub fn new() -> (r: BookStore)
        ensures
            r@ == Seq::<BookView>::empty(),
            r.wf(),
    {
        let s = BookStore { books: Vec::new() };
        proof {
            assert(s@ =~= Seq::<BookView>::empty());
        }
        s
    }

    /// How many books are stored.
    pub fn len(&self) -> (r: usize)
        ensures
            r as int == self@.len(),
    {
        self.books.len()
    }

    /// The position of the first book with this identifier.
    fn index_of_id(&self, id: &BookId) -> (r: Option<usize>)
        ensures
            match r {
                Some(i) => has_id(self@, id@) && i as int == find_idx(self@, id@) && i
                    < self@.len(),
                None => !has_id(self@, id@),
            },
    {
        let mut i: usize = 0;
        while i < self.books.len()
            invariant
                i <= self@.len(),
                self@.len() == self.books@.len(),
                forall|j: int| 0 <= j < i ==> (#[trigger] self@[j]).id != Some(id@),
            decreases self@.len() - i,
        {
            let hit = match &self.books[i].id {
                Some(bid) => bid.same_as(id),
                None => false,
            };
            if hit {
                proof {
                    lemma_find_idx(self@, id@);
                    assert(self@[i as int].id == Some(id@));
                    assert(has_id(self@, id@));
                    let fi = find_idx(self@, id@);
                    if fi < i as int {
                        assert(self@[fi].id != Some(id@));
                    }
                    if fi > i as int {
                        assert(self@[i as int].id != Some(id@));
                    }
                }
                return Some(i);
            }
            i = i + 1;
        }
        None
    }

    /// A copy of the first book with this identifier, if any.
    fn find_by_id(&self, id: &BookId) -> (o: FindOutcome)
        ensures
            match o {
                FindOutcome::Found(b) => has_id(self@, id@) && b@ == self@[find_idx(self@, id@)],
                FindOutcome::Missing => !has_id(self@, id@),
                FindOutcome::Failed(_) => false,
            },
    {
        match self.index_of_id(id) {
            Some(i) => FindOutcome::Found(clone_book(&self.books[i])),
            None => FindOutcome::Missing,
        }
    }

    /// A copy of the first book with this name, if any.
    fn find_by_name(&self, name: &String) -> (o: FindOutcome)
        ensures
            match o {
                FindOutcome::Found(_) => has_name(self@, name@),
                FindOutcome::Missing => !has_name(self@, name@),
                FindOutcome::Failed(_) => false,
            },
    {
        let mut i: usize = 0;
        while i < self.books.len()
            invariant
                i <= self@.len(),
                self@.len() == self.books@.len(),
                forall|j: int| 0 <= j < i ==> (#[trigger] self@[j]).name != name@,
            decreases self@.len() - i,
        {
            if self.books[i].name == *name {
                proof {
                    assert(self@[i as int].name == name@);
                }
                return FindOutcome::Found(clone_book(&self.books[i]));
            }
            i = i + 1;
        }
        FindOutcome::Missing
    }

    /// Reads the whole collection: always 200, every book in response
    /// form, in store order.
    pub fn get_books(&self) -> (r: Result<(u16, Vec<BookDto>), (u16, String)>)
        ensures
            match r {
                Ok(p) => p.0 == 200 && p.1@.len() == self@.len() && forall|i: int|
                    0 <= i < self@.len() ==> p.1@[i]@ == dto_of(#[trigger] self@[i]),
                Err(_) => false,
            },
    {
        let mut dtos: Vec<BookDto> = Vec::new();
        let mut i: usize = 0;
        while i < self.books.len()
            invariant
                i <= self@.len(),
                self@.len() == self.books@.len(),
                dtos@.len() == i as int,
                forall|j: int| 0 <= j < i ==> dtos@[j]@ == dto_of(#[trigger] self@[j]),
            decreases self@.len() - i,
        {
            dtos.push(BookDto::from_book(&self.books[i]));
            i = i + 1;
        }
        Ok((200, dtos))
    }

    /// Creates a book under a fresh identifier of the store's choosing:
    /// 409 and no change when the name is already taken, otherwise 201
    /// with the identifier's string form and the book appended.
    pub fn create_book(&mut self, payload: NewBook, id: BookId) -> (r: Result<
        (u16, String),
        (u16, String),
    >)
        requires
            !has_id(old(self)@, id@),
        ensures
            r is Ok <==> !has_name(old(self)@, payload@.name),
            match r {
                Ok(p) => p.0 == 201 && p.1@ == hex_of(id@) && final(self)@ == old(self)@.push(
                    stored_book(payload@, id@),
                ),
                Err(e) => e.0 == 409 && e.1@ == "Book name already exists"@ && final(self)@ == old(
                    self,
                )@,
            },
            old(self).wf() ==> final(self).wf(),
    {
        let outcome = self.find_by_name(&payload.name);
        match create_duplicate_check(outcome) {
            Ok(()) => (),
            Err(e) => {
                return Err(e);
            },
        }
        let hex = id.to_hex();
        let book = Book { id: Some(id), name: payload.name, author: payload.author, year: payload.year };
        self.books.push(book);
        proof {
            assert(self@ =~= old(self)@.push(stored_book(payload@, id@)));
            if old(self).wf() {
                lemma_find_idx(old(self)@, id@);
                assert forall|i: int, j: int|
                    0 <= i < self@.len() && 0 <= j < self@.len() && i != j implies (
                #[trigger] self@[i]).id != (#[trigger] self@[j]).id by {
                    if i < old(self)@.len() && j < old(self)@.len() {
                        assert(old(self)@[i].id != old(self)@[j].id);
                    }
                }
            }
        }
        Ok((201, hex))
    }

    /// Reads one book by its raw path identifier: 400 for a malformed
    /// identifier, 404 when no book carries it, otherwise 200 with the
    /// book in response form.
    pub fn get_book_by_id(&self, id_str: &str) -> (r: Result<(u16, BookDto), (u16, String)>)
        ensures
            if !valid_object_id(id_str@) {
                r matches Err(e) && e.0 == 400 && e.1@ == "Invalid ID"@
            } else if !has_id(self@, decoded_id(id_str@)) {
                r matches Err(e) && e.0 == 404 && e.1@ == "Book not found"@
            } else {
                r matches Ok(p) && p.0 == 200 && p.1@ == dto_of(
                    self@[find_idx(self@, decoded_id(id_str@))],
                )
            },
    {
        let id = match parse_book_id(id_str) {
            Ok(id) => id,
            Err(e) => {
                return Err(e);
            },
        };
        get_book_response(self.find_by_id(&id))
    }

    /// Overwrites one book's fields by its raw path identifier: 400 for a
    /// malformed identifier, 404 when no book carries it, otherwise 200
    /// with a confirmation and exactly that book rewritten.
    pub fn update_book(&mut self, id_str: &str, payload: NewBook) -> (r: Result<
        (u16, String),
        (u16, String),
    >)
        ensures
            if !valid_object_id(id_str@) {
                r matches Err(e) && e.0 == 400 && e.1@ == "Invalid ID"@ && final(self)@ == old(
                    self,
                )@
            } else if !has_id(old(self)@, decoded_id(id_str@)) {
                r matches Err(e) && e.0 == 404 && e.1@ == "Book not found"@ && final(self)@ == old(
                    self,
                )@
            } else {
                r matches Ok(p) && p.0 == 200 && p.1@ == "Updated"@ && final(self)@ == old(
                    self,
                )@.update(
                    find_idx(old(self)@, decoded_id(id_str@)),
                    updated_book(old(self)@[find_idx(old(self)@, decoded_id(id_str@))], payload@),
                )
            },
            old(self).wf() ==> final(self).wf(),
    {
        let id = match parse_book_id(id_str) {
            Ok(id) => id,
            Err(e) => {
                return Err(e);
            },
        };
        let idx = match self.index_of_id(&id) {
            Some(i) => i,
            None => {
                return Err((404, "Book not found".to_owned()));
            },
        };
        proof {
            lemma_find_idx(self@, id@);
        }
        let book = Book {
            id: Some(id),
            name: payload.name,
            author: payload.author,
            year: payload.year,
        };
        self.books[idx] = book;
        proof {
            assert(self@ =~= old(self)@.update(
                idx as int,
                updated_book(old(self)@[idx as int], payload@),
            ));
            if old(self).wf() {
                assert forall|i: int, j: int|
                    0 <= i < self@.len() && 0 <= j < self@.len() && i != j implies (
                #[trigger] self@[i]).id != (#[trigger] self@[j]).id by {
                    assert(self@[i].id == old(self)@[i].id);
                    assert(self@[j].id == old(self)@[j].id);
                }
            }
        }
        update_book_response(UpdateOutcome::Matched(1))
    }

    /// Removes one book by its raw path identifier: 400 for a malformed
    /// identifier, 404 when no book carries it, otherwise 200 with a
    /// confirmation and exactly that book gone.
    pub fn delete_book(&mut self, id_str: &str) -> (r: Result<(u16, String), (u16, String)>)
        ensures
            if !valid_object_id(id_str@) {
                r matches Err(e) && e.0 == 400 && e.1@ == "Invalid ID"@ && final(self)@ == old(
                    self,
                )@
            } else if !has_id(old(self)@, decoded_id(id_str@)) {
                r matches Err(e) && e.0 == 404 && e.1@ == "Book not found"@ && final(self)@ == old(
                    self,
                )@
            } else {
                r matches Ok(p) && p.0 == 200 && p.1@ == "Deleted"@ && final(self)@ == old(
                    self,
                )@.remove(find_idx(old(self)@, decoded_id(id_str@)))
            },
            old(self).wf() ==> final(self).wf(),
    {
        let id = match parse_book_id(id_str) {
            Ok(id) => id,
            Err(e) => {
                return Err(e);
            },
        };
        let idx = match self.index_of_id(&id) {
            Some(i) => i,
            None => {
                return Err((404, "Book not found".to_owned()));
            },
        };
        self.books.remove(idx);
        proof {
            assert(self@ =~= old(self)@.remove(idx as int));
            if old(self).wf() {
                assert forall|i: int, j: int|
                    0 <= i < self@.len() && 0 <= j < self@.len() && i != j implies (
                #[trigger] self@[i]).id != (#[trigger] self@[j]).id by {
                    let oi: int = if i < idx as int {
                        i
                    } else {
                        i + 1
                    };
                    let oj: int = if j < idx as int {
                        j
                    } else {
                        j + 1
                    };
                    assert(self@[i].id == old(self)@[oi].id);
                    assert(self@[j].id == old(self)@[oj].id);
                }
            }
        }
        delete_book_response(DeleteOutcome::Removed(1))
    }
}

/// A field-for-field copy of a persisted book.
fn clone_book(b: &Book) -> (r: Book)
    ensures
        r@ == b@,
{
    let id = match &b.id {
        Some(i) => Some(i.clone()),
        None => None,
    };
    Book { id, name: b.name.clone(), author: b.author.clone(), year: b.year }
}

} // verus!
