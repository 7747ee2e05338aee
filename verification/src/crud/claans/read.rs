//! Reading claans: one by id, or all of them in listing order.

use vstd::prelude::*;
use vstd::relations::{sorted_by, total_ordering};
use crate::crud::db_error::{is_fatal, DbError};
use crate::models::claans::{claan_leq, claan_order, lemma_claan_order_total, Claan};
use crate::models::response_models::{is_message, message_response, Response};
use crate::text::{append_i32, chars_le, int_decimal};

verus! {

/// The message of a lookup by id that found no claan.
pub open spec fn select_failed_message(claan_id: int, error: Seq<char>) -> Seq<char> {
    "Error selecting claan with id "@ + int_decimal(claan_id) + " - "@ + error
}

/// The answer to a lookup of the claan `claan_id`, given what the database
/// gave for it: the claan, or a not-found response naming the id.
pub fn list_claan(claan_id: i32, found: Result<Claan, DbError>) -> (res: Result<Claan, Response>)
    requires
        !(found matches Err(e) && is_fatal(e)),
    ensures
        found matches Ok(c) ==> res == Ok::<Claan, Response>(c),
        found matches Err(DbError::NotFound(m)) ==> res matches Err(r) && is_message(
            r,
            select_failed_message(claan_id as int, m@),
        ),
{
    match found {
        Ok(claan) => Ok(claan),
        Err(DbError::NotFound(error)) => {
            let mut message = String::from_str("Error selecting claan with id ");
            append_i32(&mut message, claan_id);
            message.append(" - ");
            message.append(error.as_str());
            Err(message_response(message))
        },
        Err(DbError::Other(_)) => {
            proof {
                assert(false);
            }
            Err(message_response(String::new()))
        },
    }
}

/// The listing view of a sequence of claans.
pub open spec fn claan_views(claans: Seq<Claan>) -> Seq<(int, Seq<char>)> {
    claans.map_values(|c: Claan| c@)
}

/// All claans in listing order: by id, then by name.
pub fn list_claans(claans: Vec<Claan>) -> (sorted: Vec<Claan>)
    ensures
        claan_views(sorted@) == claan_views(claans@).sort_by(claan_order()),
        sorted_by(claan_views(sorted@), claan_order()),
        claan_views(sorted@).to_multiset() == claan_views(claans@).to_multiset(),
        forall|i: int, j: int|
            0 <= i < j < sorted@.len() ==> #[trigger] sorted@[i].id <= #[trigger] sorted@[j].id,
        forall|i: int, j: int|
            0 <= i < j < sorted@.len() && sorted@[i].id == sorted@[j].id ==> chars_le(
                #[trigger] sorted@[i].name@,
                #[trigger] sorted@[j].name@,
            ),
{
    let ghost input = claans@;
    let mut rest = claans;
    let mut sorted: Vec<Claan> = Vec::new();
    proof {
        broadcast use vstd::multiset::group_multiset_axioms, vstd::seq_lib::group_to_multiset_ensures;
        lemma_claan_order_total();
        assert(claan_views(sorted@) =~= Seq::<(int, Seq<char>)>::empty());
        assert(claan_views(sorted@).to_multiset() =~= vstd::multiset::Multiset::empty());
        assert(claan_views(sorted@).to_multiset().add(claan_views(rest@).to_multiset())
            =~= claan_views(input).to_multiset());
    }
    while rest.len() > 0
        invariant
            total_ordering(claan_order()),
            sorted_by(claan_views(sorted@), claan_order()),
            claan_views(sorted@).to_multiset().add(claan_views(rest@).to_multiset())
                == claan_views(input).to_multiset(),
        decreases rest@.len(),
    {
        let ghost before = rest@;
        let claan = rest.pop().unwrap();
        proof {
            assert(before =~= rest@.push(claan));
            assert(claan_views(before) =~= claan_views(rest@).push(claan@));
            vstd::seq_lib::to_multiset_build(claan_views(rest@), claan@);
        }
        let mut pos: usize = 0;
        while pos < sorted.len() && sorted[pos].listed_no_later_than(&claan)
            invariant
                pos <= sorted@.len(),
                forall|j: int| 0 <= j < pos ==> claan_leq(#[trigger] sorted@[j]@, claan@),
            decreases sorted@.len() - pos,
        {
            pos = pos + 1;
        }
        let ghost old_sorted = claan_views(sorted@);
        sorted.insert(pos, claan);
        proof {
            assert(claan_views(sorted@) =~= old_sorted.insert(pos as int, claan@));
            vstd::seq_lib::to_multiset_insert(old_sorted, pos as int, claan@);
            let s = claan_views(sorted@);
            assert forall|i: int, j: int| 0 <= i < j < s.len() implies #[trigger] claan_order()(
                s[i],
                s[j],
            ) by {
                if j < pos {
                    assert(s[i] == old_sorted[i] && s[j] == old_sorted[j]);
                } else if j == pos {
                    assert(s[i] == old_sorted[i]);
                    assert(claan_leq(sorted@[i]@, claan@));
                } else if i > pos {
                    assert(s[i] == old_sorted[i - 1] && s[j] == old_sorted[j - 1]);
                } else if i == pos {
                    // claan comes before the element that stopped the search,
                    // and that element before every later one
                    assert(!claan_order()(old_sorted[pos as int], claan@));
                    assert(claan_order()(claan@, old_sorted[pos as int]));
                    if j - 1 > pos {
                        assert(claan_order()(old_sorted[pos as int], old_sorted[j - 1]));
                    }
                    assert(s[j] == old_sorted[j - 1]);
                } else {
                    assert(s[i] == old_sorted[i] && s[j] == old_sorted[j - 1]);
                    assert(claan_order()(old_sorted[i], old_sorted[j - 1]));
                }
            }
        }
    }
    proof {
        broadcast use vstd::multiset::group_multiset_axioms, vstd::seq_lib::group_to_multiset_ensures;
        assert forall|i: int, j: int| 0 <= i < j < sorted@.len() implies #[trigger] sorted@[i].id
            <= #[trigger] sorted@[j].id && (sorted@[i].id == sorted@[j].id ==> chars_le(
            sorted@[i].name@,
            sorted@[j].name@,
        )) by {
            assert(claan_order()(claan_views(sorted@)[i], claan_views(sorted@)[j]));
        }
        assert(claan_views(rest@) =~= Seq::<(int, Seq<char>)>::empty());
        assert(claan_views(rest@).to_multiset() =~= vstd::multiset::Multiset::empty());
        assert(claan_views(sorted@).to_multiset() =~= claan_views(input).to_multiset());
        claan_views(input).lemma_sort_by_ensures(claan_order());
        vstd::seq_lib::lemma_sorted_unique(
            claan_views(sorted@),
            claan_views(input).sort_by(claan_order()),
            claan_order(),
        );
    }
    sorted
}

/// Listing claans that are already listed gives them back unchanged.
pub proof fn lemma_listing_idempotent(claans: Seq<(int, Seq<char>)>)
    ensures
        claans.sort_by(claan_order()).sort_by(claan_order()) == claans.sort_by(claan_order()),
{
    lemma_claan_order_total();
    let once = claans.sort_by(claan_order());
    claans.lemma_sort_by_ensures(claan_order());
    once.lemma_sort_by_ensures(claan_order());
    vstd::seq_lib::lemma_sorted_unique(once.sort_by(claan_order()), once, claan_order());
}

/// The listing does not depend on the order in which the database returned
/// the claans: the same claans in any order are listed alike.
pub proof fn lemma_listing_ignores_load_order(a: Seq<(int, Seq<char>)>, b: Seq<(int, Seq<char>)>)
    requires
        a.to_multiset() == b.to_multiset(),
    ensures
        a.sort_by(claan_order()) == b.sort_by(claan_order()),
{
    lemma_claan_order_total();
    a.lemma_sort_by_ensures(claan_order());
    b.lemma_sort_by_ensures(claan_order());
    vstd::seq_lib::lemma_sorted_unique(a.sort_by(claan_order()), b.sort_by(claan_order()), claan_order());
}

} // verus!
