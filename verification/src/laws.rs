//! What holds of the registry as a whole, proved once for every biome and
//! every 32-bit code.

use crate::registry::{decoded, is_known_code, Biome, UnknownBiomeCode};
use vstd::prelude::*;

verus! {

/// The published codes: 0 to 50 without a gap, then 127 and seven short runs
/// up to 169.
pub open spec fn is_published_code(code: i32) -> bool {
    ||| 0 <= code <= 50
    ||| code == 127
    ||| 129 <= code <= 134
    ||| code == 140
    ||| code == 149
    ||| code == 151
    ||| 155 <= code <= 158
    ||| 160 <= code <= 169
}

/// Distinct biomes have distinct codes.
pub proof fn lemma_codes_distinct(b1: Biome, b2: Biome)
    requires
        b1 != b2,
    ensures
        b1.code() != b2.code(),
{
}

/// Decoding the code of a biome gives that biome back.
pub proof fn lemma_decode_encode(b: Biome)
    ensures
        is_known_code(b.code()),
        decoded(b.code()) == Ok::<Biome, UnknownBiomeCode>(b),
{
}

/// Encoding what a code decodes to gives that code back. A code decodes
/// exactly when it is the code of a biome; any other code comes back in the
/// error.
pub proof fn lemma_encode_decode(code: i32)
    ensures
        decoded(code) is Ok <==> is_known_code(code),
        decoded(code) matches Ok(b) ==> b.code() == code,
        decoded(code) matches Err(e) ==> e == UnknownBiomeCode(code),
{
    match decoded(code) {
        Ok(b) => {
            assert(b.code() == code);
        },
        Err(_) => {
            assert forall|b: Biome| b.code() != code by {
                lemma_decode_encode(b);
            }
        },
    }
}

/// The registry knows exactly the published codes: each of them is the code
/// of a biome, and no biome has any other code.
pub proof fn lemma_known_codes(code: i32)
    ensures
        is_known_code(code) <==> is_published_code(code),
{
    lemma_encode_decode(code);
}

} // verus!
