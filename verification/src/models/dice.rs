//! The dice that a task is scored with, and their database encoding.

use vstd::prelude::*;
use crate::bytes::{ascii, bytes_eq, literal_bytes};

verus! {

/// A die of the given number of faces.
#[derive(Debug, PartialEq, Eq, Structural, PartialOrd, Ord, Clone, Copy)]
pub enum Dice {
    D4,
    D6,
    D8,
    D10,
    D12,
}

/// The message that a decoder gives for bytes that name no variant.
pub open spec fn unrecognized_variant() -> Seq<char> {
    "Unrecognized enum variant"@
}

impl Dice {
    /// The label under which the database stores a die: the ASCII text
    /// `d4`, `d6`, `d8`, `d10` or `d12`.
    pub open spec fn label(self) -> Seq<u8> {
        match self {
            Dice::D4 => ascii("d4"@),
            Dice::D6 => ascii("d6"@),
            Dice::D8 => ascii("d8"@),
            Dice::D10 => ascii("d10"@),
            Dice::D12 => ascii("d12"@),
        }
    }

    /// The die whose label is `bytes`, if there is one.
    pub open spec fn from_label(bytes: Seq<u8>) -> Option<Dice> {
        if bytes == Dice::D4.label() {
            Some(Dice::D4)
        } else if bytes == Dice::D6.label() {
            Some(Dice::D6)
        } else if bytes == Dice::D8.label() {
            Some(Dice::D8)
        } else if bytes == Dice::D10.label() {
            Some(Dice::D10)
        } else if bytes == Dice::D12.label() {
            Some(Dice::D12)
        } else {
            None
        }
    }

    /// Encodes the die as the bytes that the database stores.
    pub fn to_sql(&self) -> (out: Vec<u8>)
        ensures
            out@ == self.label(),
            self is D4 ==> out@ == ascii("d4"@),
            self is D6 ==> out@ == ascii("d6"@),
            self is D8 ==> out@ == ascii("d8"@),
            self is D10 ==> out@ == ascii("d10"@),
            self is D12 ==> out@ == ascii("d12"@),
    {
        proof {
            lemma_dice_label_table(Seq::empty());
            reveal_strlit("d4");
            reveal_strlit("d6");
            reveal_strlit("d8");
            reveal_strlit("d10");
            reveal_strlit("d12");
        }
        let out = match self {
            Dice::D4 => literal_bytes("d4"),
            Dice::D6 => literal_bytes("d6"),
            Dice::D8 => literal_bytes("d8"),
            Dice::D10 => literal_bytes("d10"),
            Dice::D12 => literal_bytes("d12"),
        };
        out
    }

    /// Decodes the bytes that the database stores; any other bytes are refused.
    pub fn from_sql(bytes: &[u8]) -> (res: Result<Dice, String>)
        ensures
            match Dice::from_label(bytes@) {
                Some(d) => res == Ok::<Dice, String>(d),
                None => res is Err && res->Err_0@ == unrecognized_variant(),
            },
            bytes@ == ascii("d4"@) ==> res == Ok::<Dice, String>(Dice::D4),
            bytes@ == ascii("d6"@) ==> res == Ok::<Dice, String>(Dice::D6),
            bytes@ == ascii("d8"@) ==> res == Ok::<Dice, String>(Dice::D8),
            bytes@ == ascii("d10"@) ==> res == Ok::<Dice, String>(Dice::D10),
            bytes@ == ascii("d12"@) ==> res == Ok::<Dice, String>(Dice::D12),
    {
        proof {
            lemma_dice_label_table(bytes@);
        }
        if bytes_eq(bytes, Dice::D4.to_sql().as_slice()) {
            Ok(Dice::D4)
        } else if bytes_eq(bytes, Dice::D6.to_sql().as_slice()) {
            Ok(Dice::D6)
        } else if bytes_eq(bytes, Dice::D8.to_sql().as_slice()) {
            Ok(Dice::D8)
        } else if bytes_eq(bytes, Dice::D10.to_sql().as_slice()) {
            Ok(Dice::D10)
        } else if bytes_eq(bytes, Dice::D12.to_sql().as_slice()) {
            Ok(Dice::D12)
        } else {
            Err(String::from_str("Unrecognized enum variant"))
        }
    }
}

/// Decoding gives back every die that was encoded.
pub proof fn lemma_dice_round_trip(d: Dice)
    ensures
        Dice::from_label(d.label()) == Some(d),
{
    reveal_strlit("d4");
    reveal_strlit("d6");
    reveal_strlit("d8");
    reveal_strlit("d10");
    reveal_strlit("d12");
    assert(ascii("d4"@)[1] != ascii("d6"@)[1]);
    assert(ascii("d4"@)[1] != ascii("d8"@)[1]);
    assert(ascii("d6"@)[1] != ascii("d8"@)[1]);
    assert(ascii("d10"@)[2] != ascii("d12"@)[2]);
    assert(ascii("d4"@).len() != ascii("d10"@).len());
}

/// The fixed table of labels: each die is stored as `d` and its number of
/// faces, and exactly those bytes decode to it.
pub proof fn lemma_dice_label_table(bytes: Seq<u8>)
    ensures
        Dice::D4.label() == ascii("d4"@),
        Dice::D6.label() == ascii("d6"@),
        Dice::D8.label() == ascii("d8"@),
        Dice::D10.label() == ascii("d10"@),
        Dice::D12.label() == ascii("d12"@),
        Dice::from_label(bytes) == Some(Dice::D4) <==> bytes == ascii("d4"@),
        Dice::from_label(bytes) == Some(Dice::D6) <==> bytes == ascii("d6"@),
        Dice::from_label(bytes) == Some(Dice::D8) <==> bytes == ascii("d8"@),
        Dice::from_label(bytes) == Some(Dice::D10) <==> bytes == ascii("d10"@),
        Dice::from_label(bytes) == Some(Dice::D12) <==> bytes == ascii("d12"@),
{
    lemma_dice_round_trip(Dice::D4);
    lemma_dice_round_trip(Dice::D6);
    lemma_dice_round_trip(Dice::D8);
    lemma_dice_round_trip(Dice::D10);
    lemma_dice_round_trip(Dice::D12);
}

/// Only the label of a die decodes to it: the encoding is the one inverse of decoding.
pub proof fn lemma_dice_decode_canonical(bytes: Seq<u8>)
    ensures
        Dice::from_label(bytes) matches Some(d) ==> d.label() == bytes,
{
}

} // verus!
