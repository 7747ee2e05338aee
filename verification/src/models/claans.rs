//! Claans, the teams that users belong to, and the order in which they are listed.

use vstd::prelude::*;
use vstd::relations::total_ordering;
use crate::text::{
    chars_le, chars_le_exec, chars_of, lemma_chars_le_antisymmetric, lemma_chars_le_reflexive,
    lemma_chars_le_total, lemma_chars_le_transitive,
};

verus! {

/// A claan as the database stores it.
#[derive(Debug, Clone, PartialEq, Eq, PartialOrd, Ord)]
pub struct Claan {
    pub id: i32,
    pub name: String,
}

/// A claan that is yet to be stored, and so has no id yet.
#[derive(Debug, Clone, PartialEq, Eq)]
pub struct NewClaan {
    pub name: String,
}

impl View for Claan {
    type V = (int, Seq<char>);

    open spec fn view(&self) -> (int, Seq<char>) {
        (self.id as int, self.name@)
    }
}

/// The order in which claans are listed: by id, then by name, as the
/// derived `Ord` of `Claan` orders them.
pub open spec fn claan_leq(a: (int, Seq<char>), b: (int, Seq<char>)) -> bool {
    a.0 < b.0 || (a.0 == b.0 && chars_le(a.1, b.1))
}

/// The listing order as a relation.
pub open spec fn claan_order() -> spec_fn((int, Seq<char>), (int, Seq<char>)) -> bool {
    |a: (int, Seq<char>), b: (int, Seq<char>)| claan_leq(a, b)
}

/// The listing order is a total order on claans.
pub proof fn lemma_claan_order_total()
    ensures
        total_ordering(claan_order()),
{
    assert forall|a: (int, Seq<char>)| #[trigger] claan_order()(a, a) by {
        lemma_chars_le_reflexive(a.1);
    }
    assert forall|a: (int, Seq<char>), b: (int, Seq<char>)|
        #[trigger] claan_order()(a, b) && #[trigger] claan_order()(b, a) implies a == b by {
        if a.0 == b.0 {
            lemma_chars_le_antisymmetric(a.1, b.1);
        }
    }
    assert forall|a: (int, Seq<char>), b: (int, Seq<char>), c: (int, Seq<char>)|
        #[trigger] claan_order()(a, b) && #[trigger] claan_order()(b, c) implies claan_order()(a, c) by {
        if a.0 == b.0 && b.0 == c.0 {
            lemma_chars_le_transitive(a.1, b.1, c.1);
        }
    }
    assert forall|a: (int, Seq<char>), b: (int, Seq<char>)|
        #[trigger] claan_order()(a, b) || #[trigger] claan_order()(b, a) by {
        lemma_chars_le_total(a.1, b.1);
    }
}

/// Claans are listed by the integer order of their ids: a smaller id comes
/// first, and a larger one after; only equal ids are ordered by name.
pub proof fn lemma_claan_order_by_id(a: (int, Seq<char>), b: (int, Seq<char>))
    ensures
        a.0 < b.0 ==> claan_leq(a, b) && !claan_leq(b, a),
        a.0 == b.0 ==> (claan_leq(a, b) <==> chars_le(a.1, b.1)),
{
}

impl Claan {
    /// Whether `self` is listed before `other`, or with it.
    pub fn listed_no_later_than(&self, other: &Claan) -> (le: bool)
        ensures
            le == claan_leq(self@, other@),
            self.id < other.id ==> le,
            self.id > other.id ==> !le,
            self.id == other.id ==> (le <==> chars_le(self.name@, other.name@)),
    {
        if self.id != other.id {
            self.id < other.id
        } else {
            let a = chars_of(self.name.as_str());
            let b = chars_of(other.name.as_str());
            chars_le_exec(&a, &b)
        }
    }
}

} // verus!
