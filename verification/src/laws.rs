//! Laws of the service, proved over the same spec functions its
//! operations are specified with.

use vstd::prelude::*;
use crate::models::{dto_of, BookDtoView, BookView, NewBookView};
use crate::oid::{decoded_id, hex_of, lemma_hex_round_trip, valid_object_id};
use crate::store::{
    find_idx, has_id, has_name, lemma_find_idx, lemma_find_idx_same_ids, store_inv, stored_book,
    updated_book,
};

verus! {

/// A book created under a fresh name is readable back: the identifier the
/// create answers with is well formed, parsing it finds exactly the stored
/// book, and that book's response form carries the created identifier and
/// the payload's name, author and year unchanged.
pub proof fn lemma_create_then_get(s: Seq<BookView>, p: NewBookView, id: Seq<u8>)
    requires
        id.len() == 12,
        !has_name(s, p.name),
        !has_id(s, id),
    ensures
        ({
            let s2 = s.push(stored_book(p, id));
            let rendered = hex_of(id);
            &&& valid_object_id(rendered)
            &&& has_id(s2, decoded_id(rendered))
            &&& dto_of(s2[find_idx(s2, decoded_id(rendered))]) == (BookDtoView {
                id: rendered,
                name: p.name,
                author: p.author,
                year: p.year,
            })
        }),
{
    let s2 = s.push(stored_book(p, id));
    lemma_hex_round_trip(id);
    assert(s2[s.len() as int].id == Some(id));
    assert(has_id(s2, id));
    lemma_find_idx(s2, id);
    let fi = find_idx(s2, id);
    if fi < s.len() {
        assert(s2[fi] == s[fi]);
        assert(has_id(s, id));
    }
    assert(fi == s.len());
    assert(dto_of(s2[fi]) =~= (BookDtoView {
        id: hex_of(id),
        name: p.name,
        author: p.author,
        year: p.year,
    }));
}

/// A name can be created only once: after a create under a fresh name
/// succeeds, the collection holds that name, so a second create under the
/// same name takes the conflict branch and changes nothing.
pub proof fn lemma_create_duplicate_name(
    s: Seq<BookView>,
    p1: NewBookView,
    p2: NewBookView,
    id: Seq<u8>,
)
    requires
        !has_name(s, p1.name),
        p2.name == p1.name,
    ensures
        has_name(s.push(stored_book(p1, id)), p2.name),
{
    let s2 = s.push(stored_book(p1, id));
    assert(s2[s.len() as int].name == p2.name);
}

/// Update is idempotent: a successful update leaves the identifier in
/// place and at the same position, so repeating it succeeds again and
/// leaves the collection exactly as after the first time.
pub proof fn lemma_update_idempotent(s: Seq<BookView>, id: Seq<u8>, p: NewBookView)
    requires
        has_id(s, id),
    ensures
        ({
            let i = find_idx(s, id);
            let s1 = s.update(i, updated_book(s[i], p));
            &&& has_id(s1, id)
            &&& find_idx(s1, id) == i
            &&& s1.update(i, updated_book(s1[i], p)) == s1
        }),
{
    lemma_find_idx(s, id);
    let i = find_idx(s, id);
    let s1 = s.update(i, updated_book(s[i], p));
    assert(forall|k: int| 0 <= k < s1.len() ==> (#[trigger] s1[k]).id == s[k].id);
    lemma_find_idx_same_ids(s1, s, id);
    lemma_find_idx(s1, id);
    assert(s1[i].id == Some(id));
    assert(has_id(s1, id));
    assert(updated_book(s1[i], p) =~= s1[i]);
    assert(s1.update(i, s1[i]) =~= s1);
}

/// Delete removes exactly one book: the collection shrinks by one, the
/// identifier is gone afterwards — so deleting it a second time answers
/// 404 — and the store's guarantee still holds.
pub proof fn lemma_delete_then_delete(s: Seq<BookView>, id: Seq<u8>)
    requires
        store_inv(s),
        has_id(s, id),
    ensures
        ({
            let s1 = s.remove(find_idx(s, id));
            &&& s1.len() == s.len() - 1
            &&& !has_id(s1, id)
            &&& store_inv(s1)
        }),
{
    lemma_find_idx(s, id);
    let i = find_idx(s, id);
    let s1 = s.remove(i);
    assert forall|k: int| 0 <= k < s1.len() implies (#[trigger] s1[k]).id != Some(id) by {
        if k < i {
            assert(s1[k] == s[k]);
            assert(s[k].id != s[i].id);
        } else {
            assert(s1[k] == s[k + 1]);
            assert(s[k + 1].id != s[i].id);
        }
    }
    if has_id(s1, id) {
        let w = choose|k: int| 0 <= k < s1.len() && (#[trigger] s1[k]).id == Some(id);
        assert(s1[w].id != Some(id));
    }
    assert forall|a: int, b: int|
        0 <= a < s1.len() && 0 <= b < s1.len() && a != b implies (#[trigger] s1[a]).id != (
    #[trigger] s1[b]).id by {
        let oa: int = if a < i {
            a
        } else {
            a + 1
        };
        let ob: int = if b < i {
            b
        } else {
            b + 1
        };
        assert(s1[a] == s[oa]);
        assert(s1[b] == s[ob]);
        assert(s[oa].id != s[ob].id);
    }
    assert forall|a: int| 0 <= a < s1.len() implies (#[trigger] s1[a]).id is Some by {
        let oa: int = if a < i {
            a
        } else {
            a + 1
        };
        assert(s1[a] == s[oa]);
    }
}

} // verus!
