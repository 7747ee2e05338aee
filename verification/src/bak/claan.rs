//! The four fixed claans of the earlier schema, and their database encoding.

use vstd::prelude::*;
use crate::bytes::{ascii, bytes_eq, literal_bytes};

verus! {

/// One of the four claans that the earlier schema stored as an enumeration.
#[derive(Debug, PartialEq, Eq, Structural, Clone, Copy)]
pub enum Claan {
    EarthStriders,
    FireDancers,
    ThunderWalkers,
    WaveRiders,
}

/// The message that decoding gives for bytes that name no claan.
pub open spec fn unrecognized_claan() -> Seq<char> {
    "Unrecognized enum variant for Claan"@
}

impl Claan {
    /// The label under which the database stores a claan.
    pub open spec fn label(self) -> Seq<u8> {
        match self {
            Claan::EarthStriders => ascii("EARTH_STRIDERS"@),
            Claan::FireDancers => ascii("FIRE_DANCERS"@),
            Claan::ThunderWalkers => ascii("THUNDER_WALKERS"@),
            Claan::WaveRiders => ascii("WAVE_RIDERS"@),
        }
    }

    /// The claan whose label is `bytes`, if there is one.
    pub open spec fn from_label(bytes: Seq<u8>) -> Option<Claan> {
        if bytes == Claan::EarthStriders.label() {
            Some(Claan::EarthStriders)
        } else if bytes == Claan::FireDancers.label() {
            Some(Claan::FireDancers)
        } else if bytes == Claan::ThunderWalkers.label() {
            Some(Claan::ThunderWalkers)
        } else if bytes == Claan::WaveRiders.label() {
            Some(Claan::WaveRiders)
        } else {
            None
        }
    }

    /// Encodes the claan as the bytes that the database stores.
    pub fn to_sql(&self) -> (out: Vec<u8>)
        ensures
            out@ == self.label(),
            self is EarthStriders ==> out@ == ascii("EARTH_STRIDERS"@),
            self is FireDancers ==> out@ == ascii("FIRE_DANCERS"@),
            self is ThunderWalkers ==> out@ == ascii("THUNDER_WALKERS"@),
            self is WaveRiders ==> out@ == ascii("WAVE_RIDERS"@),
    {
        proof {
            lemma_claan_label_table(Seq::empty());
            reveal_strlit("EARTH_STRIDERS");
            reveal_strlit("FIRE_DANCERS");
            reveal_strlit("THUNDER_WALKERS");
            reveal_strlit("WAVE_RIDERS");
        }
        match self {
            Claan::EarthStriders => literal_bytes("EARTH_STRIDERS"),
            Claan::FireDancers => literal_bytes("FIRE_DANCERS"),
            Claan::ThunderWalkers => literal_bytes("THUNDER_WALKERS"),
            Claan::WaveRiders => literal_bytes("WAVE_RIDERS"),
        }
    }

    /// Decodes the bytes that the database stores; any other bytes are refused.
    pub fn from_sql(bytes: &[u8]) -> (res: Result<Claan, String>)
        ensures
            match Claan::from_label(bytes@) {
                Some(c) => res == Ok::<Claan, String>(c),
                None => res is Err && res->Err_0@ == unrecognized_claan(),
            },
            bytes@ == ascii("EARTH_STRIDERS"@) ==> res == Ok::<Claan, String>(Claan::EarthStriders),
            bytes@ == ascii("FIRE_DANCERS"@) ==> res == Ok::<Claan, String>(Claan::FireDancers),
            bytes@ == ascii("THUNDER_WALKERS"@) ==> res == Ok::<Claan, String>(Claan::ThunderWalkers),
            bytes@ == ascii("WAVE_RIDERS"@) ==> res == Ok::<Claan, String>(Claan::WaveRiders),
    {
        proof {
            lemma_claan_label_table(bytes@);
        }
        if bytes_eq(bytes, Claan::EarthStriders.to_sql().as_slice()) {
            Ok(Claan::EarthStriders)
        } else if bytes_eq(bytes, Claan::FireDancers.to_sql().as_slice()) {
            Ok(Claan::FireDancers)
        } else if bytes_eq(bytes, Claan::ThunderWalkers.to_sql().as_slice()) {
            Ok(Claan::ThunderWalkers)
        } else if bytes_eq(bytes, Claan::WaveRiders.to_sql().as_slice()) {
            Ok(Claan::WaveRiders)
        } else {
            Err(String::from_str("Unrecognized enum variant for Claan"))
        }
    }
}

/// Decoding gives back every claan that was encoded.
pub proof fn lemma_claan_round_trip(c: Claan)
    ensures
        Claan::from_label(c.label()) == Some(c),
{
    reveal_strlit("EARTH_STRIDERS");
    reveal_strlit("FIRE_DANCERS");
    reveal_strlit("THUNDER_WALKERS");
    reveal_strlit("WAVE_RIDERS");
    assert(Claan::EarthStriders.label()[0] != Claan::FireDancers.label()[0]);
    assert(Claan::EarthStriders.label()[0] != Claan::ThunderWalkers.label()[0]);
    assert(Claan::EarthStriders.label()[0] != Claan::WaveRiders.label()[0]);
    assert(Claan::FireDancers.label()[0] != Claan::ThunderWalkers.label()[0]);
    assert(Claan::FireDancers.label()[0] != Claan::WaveRiders.label()[0]);
    assert(Claan::ThunderWalkers.label()[0] != Claan::WaveRiders.label()[0]);
}

/// The fixed table of labels: each claan is stored under the upper-case
/// name of its own, and exactly those bytes decode to it.
pub proof fn lemma_claan_label_table(bytes: Seq<u8>)
    ensures
        Claan::EarthStriders.label() == ascii("EARTH_STRIDERS"@),
        Claan::FireDancers.label() == ascii("FIRE_DANCERS"@),
        Claan::ThunderWalkers.label() == ascii("THUNDER_WALKERS"@),
        Claan::WaveRiders.label() == ascii("WAVE_RIDERS"@),
        Claan::from_label(bytes) == Some(Claan::EarthStriders) <==> bytes == ascii("EARTH_STRIDERS"@),
        Claan::from_label(bytes) == Some(Claan::FireDancers) <==> bytes == ascii("FIRE_DANCERS"@),
        Claan::from_label(bytes) == Some(Claan::ThunderWalkers) <==> bytes == ascii("THUNDER_WALKERS"@),
        Claan::from_label(bytes) == Some(Claan::WaveRiders) <==> bytes == ascii("WAVE_RIDERS"@),
{
    lemma_claan_round_trip(Claan::EarthStriders);
    lemma_claan_round_trip(Claan::FireDancers);
    lemma_claan_round_trip(Claan::ThunderWalkers);
    lemma_claan_round_trip(Claan::WaveRiders);
}

/// Only the label of a claan decodes to it.
pub proof fn lemma_claan_decode_canonical(bytes: Seq<u8>)
    ensures
        Claan::from_label(bytes) matches Some(c) ==> c.label() == bytes,
{
}

} // verus!
