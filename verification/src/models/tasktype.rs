//! The kinds of task, and their database encoding.

use vstd::prelude::*;
use crate::bytes::{ascii, bytes_eq, literal_bytes};

verus! {

/// Whether a task is a one-off quest or a repeatable activity.
#[derive(Debug, PartialEq, Eq, Structural, PartialOrd, Ord, Clone, Copy)]
pub enum Tasktype {
    Quest,
    Activity,
}

impl Tasktype {
    /// The bytes that encoding writes: `quest` or `activity`.
    pub open spec fn label(self) -> Seq<u8> {
        match self {
            Tasktype::Quest => ascii("quest"@),
            Tasktype::Activity => ascii("activity"@),
        }
    }

    /// The kind that decoding gives for `bytes`. Decoding accepts `quest`
    /// and `activty` (sic); it does not accept the encoding of `Activity`.
    pub open spec fn decoded(bytes: Seq<u8>) -> Option<Tasktype> {
        if bytes == ascii("quest"@) {
            Some(Tasktype::Quest)
        } else if bytes == ascii("activty"@) {
            Some(Tasktype::Activity)
        } else {
            None
        }
    }

    /// Encodes the kind as the bytes that the database stores.
    pub fn to_sql(&self) -> (out: Vec<u8>)
        ensures
            out@ == self.label(),
            self is Quest ==> out@ == ascii("quest"@),
            self is Activity ==> out@ == ascii("activity"@),
    {
        proof {
            reveal_strlit("quest");
            reveal_strlit("activity");
        }
        match self {
            Tasktype::Quest => literal_bytes("quest"),
            Tasktype::Activity => literal_bytes("activity"),
        }
    }

    /// Decodes the bytes that the database stores; any other bytes are refused.
    pub fn from_sql(bytes: &[u8]) -> (res: Result<Tasktype, String>)
        ensures
            match Tasktype::decoded(bytes@) {
                Some(t) => res == Ok::<Tasktype, String>(t),
                None => res is Err && res->Err_0@ == crate::models::dice::unrecognized_variant(),
            },
            bytes@ == ascii("quest"@) ==> res == Ok::<Tasktype, String>(Tasktype::Quest),
            bytes@ == ascii("activty"@) ==> res == Ok::<Tasktype, String>(Tasktype::Activity),
    {
        proof {
            reveal_strlit("quest");
            reveal_strlit("activty");
            lemma_tasktype_label_table(bytes@);
        }
        if bytes_eq(bytes, literal_bytes("quest").as_slice()) {
            Ok(Tasktype::Quest)
        } else if bytes_eq(bytes, literal_bytes("activty").as_slice()) {
            Ok(Tasktype::Activity)
        } else {
            Err(String::from_str("Unrecognized enum variant"))
        }
    }
}

/// The fixed table: `quest` and `activity` are written; `quest` and
/// `activty` are read, and exactly those bytes decode to each kind.
pub proof fn lemma_tasktype_label_table(bytes: Seq<u8>)
    ensures
        Tasktype::Quest.label() == ascii("quest"@),
        Tasktype::Activity.label() == ascii("activity"@),
        Tasktype::decoded(bytes) == Some(Tasktype::Quest) <==> bytes == ascii("quest"@),
        Tasktype::decoded(bytes) == Some(Tasktype::Activity) <==> bytes == ascii("activty"@),
{
    reveal_strlit("quest");
    reveal_strlit("activty");
    assert(ascii("quest"@).len() != ascii("activty"@).len());
}

/// Decoding gives back the quest that encoding wrote.
pub proof fn lemma_tasktype_quest_round_trip()
    ensures
        Tasktype::decoded(Tasktype::Quest.label()) == Some(Tasktype::Quest),
{
}

/// The encoding of an activity, `activity`, is not one that decoding accepts:
/// decoding expects `activty`.
pub proof fn lemma_tasktype_activity_not_decoded()
    ensures
        Tasktype::decoded(Tasktype::Activity.label()) == None::<Tasktype>,
{
    reveal_strlit("quest");
    reveal_strlit("activity");
    reveal_strlit("activty");
    assert(ascii("activity"@).len() != ascii("quest"@).len());
    assert(ascii("activity"@).len() != ascii("activty"@).len());
}

/// Distinct byte strings never decode to the same kind.
pub proof fn lemma_tasktype_decode_injective(a: Seq<u8>, b: Seq<u8>)
    requires
        Tasktype::decoded(a) is Some,
        Tasktype::decoded(a) == Tasktype::decoded(b),
    ensures
        a == b,
{
}

} // verus!
