//! The order of patch labels.
use std::cmp::Ordering;

use vstd::prelude::*;

use super::patch_numbers::{nat_parts, patch_numbers, patch_parts, position};

verus! {

/// The part at `i`, zero past the end.
pub open spec fn part_or_zero(parts: Seq<nat>, i: int) -> nat {
    if 0 <= i < parts.len() {
        parts[i]
    } else {
        0
    }
}

/// The longer of two lengths.
pub open spec fn longest(left: Seq<nat>, right: Seq<nat>) -> int {
    if left.len() > right.len() {
        left.len() as int
    } else {
        right.len() as int
    }
}

/// Compares two lists of parts from position `i` on, the first differing
/// part deciding; a missing part counts as zero.
pub open spec fn parts_order_from(left: Seq<nat>, right: Seq<nat>, i: int) -> Ordering
    decreases longest(left, right) - i,
{
    if i >= longest(left, right) || i < 0 {
        Ordering::Equal
    } else if part_or_zero(left, i) < part_or_zero(right, i) {
        Ordering::Less
    } else if part_or_zero(left, i) > part_or_zero(right, i) {
        Ordering::Greater
    } else {
        parts_order_from(left, right, i + 1)
    }
}

/// The order of two patch labels: part by part, numerically.
pub open spec fn patch_order(left: Seq<char>, right: Seq<char>) -> Ordering {
    parts_order_from(patch_parts(left), patch_parts(right), 0)
}

/// The reverse of an ordering.
pub open spec fn flipped(o: Ordering) -> Ordering {
    match o {
        Ordering::Less => Ordering::Greater,
        Ordering::Equal => Ordering::Equal,
        Ordering::Greater => Ordering::Less,
    }
}

/// One step of the comparison holds at every position, also past both ends,
/// where all parts are zero.
proof fn lemma_parts_step(left: Seq<nat>, right: Seq<nat>, i: int)
    requires
        i >= 0,
    ensures
        parts_order_from(left, right, i) == if part_or_zero(left, i) < part_or_zero(right, i) {
            Ordering::Less
        } else if part_or_zero(left, i) > part_or_zero(right, i) {
            Ordering::Greater
        } else {
            parts_order_from(left, right, i + 1)
        },
{
    if i >= longest(left, right) {
        assert(parts_order_from(left, right, i + 1) == Ordering::Equal);
    }
}

proof fn lemma_parts_flip(left: Seq<nat>, right: Seq<nat>, i: int)
    requires
        i >= 0,
    ensures
        parts_order_from(right, left, i) == flipped(parts_order_from(left, right, i)),
    decreases longest(left, right) - i,
{
    if i < longest(left, right) {
        lemma_parts_flip(left, right, i + 1);
    }
}

/// The longest of three lists of parts.
pub open spec fn longest3(a: Seq<nat>, b: Seq<nat>, c: Seq<nat>) -> int {
    if longest(a, b) > longest(b, c) {
        longest(a, b)
    } else {
        longest(b, c)
    }
}

proof fn lemma_parts_trans(a: Seq<nat>, b: Seq<nat>, c: Seq<nat>, i: int)
    requires
        i >= 0,
    ensures
        parts_order_from(a, b, i) != Ordering::Greater && parts_order_from(b, c, i) != Ordering::Greater
            ==> parts_order_from(a, c, i) != Ordering::Greater,
        parts_order_from(a, b, i) == Ordering::Less && parts_order_from(b, c, i) != Ordering::Greater
            ==> parts_order_from(a, c, i) == Ordering::Less,
        parts_order_from(a, b, i) != Ordering::Greater && parts_order_from(b, c, i) == Ordering::Less
            ==> parts_order_from(a, c, i) == Ordering::Less,
    decreases longest3(a, b, c) - i,
{
    lemma_parts_step(a, b, i);
    lemma_parts_step(b, c, i);
    lemma_parts_step(a, c, i);
    if i < longest3(a, b, c) {
        lemma_parts_trans(a, b, c, i + 1);
    } else {
        assert(parts_order_from(a, b, i) == Ordering::Equal);
        assert(parts_order_from(b, c, i) == Ordering::Equal);
        assert(parts_order_from(a, c, i) == Ordering::Equal);
    }
}

/// Patch labels are totally preordered: every label equals itself, swapping
/// two labels reverses their order, and the order is transitive (also when
/// one of the two steps is strict).
pub proof fn lemma_patch_order_is_total(a: Seq<char>, b: Seq<char>, c: Seq<char>)
    ensures
        patch_order(a, a) == Ordering::Equal,
        patch_order(b, a) == flipped(patch_order(a, b)),
        patch_order(a, b) != Ordering::Greater && patch_order(b, c) != Ordering::Greater
            ==> patch_order(a, c) != Ordering::Greater,
        patch_order(a, b) == Ordering::Less && patch_order(b, c) != Ordering::Greater
            ==> patch_order(a, c) == Ordering::Less,
        patch_order(a, b) != Ordering::Greater && patch_order(b, c) == Ordering::Less
            ==> patch_order(a, c) == Ordering::Less,
{
    lemma_parts_flip(patch_parts(a), patch_parts(a), 0);
    lemma_parts_flip(patch_parts(a), patch_parts(b), 0);
    lemma_parts_trans(patch_parts(a), patch_parts(b), patch_parts(c), 0);
}

/// Compares two patch labels part by part, numerically; a part that is
/// missing or does not read as a number counts as zero.
pub fn compare_patch(left: &str, right: &str) -> (r: Ordering)
    ensures
        r == patch_order(left@, right@),
{
    let left_parts = patch_numbers(left);
    let right_parts = patch_numbers(right);
    let ghost l = nat_parts(left_parts@);
    let ghost rt = nat_parts(right_parts@);
    let n = if left_parts.len() > right_parts.len() {
        left_parts.len()
    } else {
        right_parts.len()
    };
    let mut index: usize = 0;
    while index < n
        invariant
            l == nat_parts(left_parts@),
            rt == nat_parts(right_parts@),
            l == patch_parts(left@),
            rt == patch_parts(right@),
            n == longest(l, rt),
            index <= n,
            parts_order_from(l, rt, 0) == parts_order_from(l, rt, position(index)),
        decreases n - index,
    {
        let a: u32 = if index < left_parts.len() {
            left_parts[index]
        } else {
            0
        };
        let b: u32 = if index < right_parts.len() {
            right_parts[index]
        } else {
            0
        };
        assert(a == part_or_zero(l, position(index)));
        assert(b == part_or_zero(rt, position(index)));
        assert(position(index) < longest(l, rt));
        if a < b {
            assert(parts_order_from(l, rt, position(index)) == Ordering::Less);
            return Ordering::Less;
        }
        if a > b {
            assert(parts_order_from(l, rt, position(index)) == Ordering::Greater);
            return Ordering::Greater;
        }
        index = index + 1;
    }
    Ordering::Equal
}

} // verus!
