//! The numeric parts of a patch label such as `15.6`.
use vstd::prelude::*;

use crate::text::{lemma_parse_unsigned_bound, parse_unsigned, parse_unsigned_str, split_char, split_on};

verus! {

/// The largest part a patch label can carry, as for a `u32`.
pub const PATCH_PART_MAX: u64 = 4294967295;

/// The number a part of a patch label stands for: its decimal value when it
/// reads as a `u32`, zero otherwise.
pub open spec fn patch_part(text: Seq<char>) -> nat {
    match parse_unsigned(text, PATCH_PART_MAX as nat) {
        Ok(n) => n,
        Err(_) => 0,
    }
}

/// The numbers of the dot-separated parts of a patch label.
pub open spec fn patch_parts(text: Seq<char>) -> Seq<nat> {
    split_on(text, '.').map_values(|p: Seq<char>| patch_part(p))
}

/// A position as an integer.
pub open spec fn position(i: usize) -> int {
    i as int
}

/// The values of a list of numbers.
pub open spec fn nat_parts(values: Seq<u32>) -> Seq<nat> {
    values.map_values(|v: u32| v as nat)
}

/// The numbers of the dot-separated parts of a patch label.
pub fn patch_numbers(text: &str) -> (r: Vec<u32>)
    ensures
        nat_parts(r@) == patch_parts(text@),
{
    let pieces = split_char(text, '.');
    let ghost texts = pieces@.map_values(|p: String| p@);
    let mut r: Vec<u32> = Vec::new();
    for i in 0..pieces.len()
        invariant
            texts == pieces@.map_values(|p: String| p@),
            r.len() == i,
            forall|k: int| 0 <= k < i ==> (#[trigger] r@[k]) as nat == patch_part(texts[k]),
    {
        proof { lemma_parse_unsigned_bound(texts[i as int], PATCH_PART_MAX as nat); }
        let value: u32 = match parse_unsigned_str(pieces[i].as_str(), PATCH_PART_MAX) {
            Ok(n) => n as u32,
            Err(_) => 0,
        };
        r.push(value);
    }
    assert(nat_parts(r@) =~= patch_parts(text@));
    r
}

} // verus!
