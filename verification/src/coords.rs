//! Saturating arithmetic on canvas coordinates.
//!
//! Node positions are plain `i64` canvas coordinates. Moving a node or
//! placing its label shifts a coordinate by a small constant; the shift
//! saturates at the representable bounds instead of wrapping or faulting.

use vstd::prelude::*;

verus! {

/// The value `v` clamped into the range of `i64`.
pub open spec fn clamp_i64(v: int) -> int {
    if v < i64::MIN {
        i64::MIN as int
    } else if v > i64::MAX {
        i64::MAX as int
    } else {
        v
    }
}

/// `a + b`, saturating at the bounds of `i64`.
pub fn sat_add_i64(a: i64, b: i64) -> (r: i64)
    ensures
        r as int == clamp_i64(a + b),
{
    if b >= 0 {
        if a <= i64::MAX - b {
            a + b
        } else {
            i64::MAX
        }
    } else {
        if a >= i64::MIN - b {
            a + b
        } else {
            i64::MIN
        }
    }
}

/// `a - b`, saturating at the bounds of `i64`.
pub fn sat_sub_i64(a: i64, b: i64) -> (r: i64)
    ensures
        r as int == clamp_i64(a - b),
{
    if b <= 0 {
        if a <= i64::MAX + b {
            a - b
        } else {
            i64::MAX
        }
    } else {
        if a >= i64::MIN + b {
            a - b
        } else {
            i64::MIN
        }
    }
}

/// Where a node's name label is anchored horizontally: the node position
/// shifted by `-(name length) + 1` canvas units, evaluated as two
/// saturating steps.
pub open spec fn label_x_spec(x: i64, len: nat) -> int {
    clamp_i64(clamp_i64(x - len) + 1)
}

/// Where a node's name label is anchored vertically: the node position
/// shifted down by 5 canvas units, saturating.
pub open spec fn label_y_spec(y: i64) -> int {
    clamp_i64(y - 5)
}

/// The anchor of a node's name label, offset from the node position by
/// `(-(name length) + 1, -5)` canvas units.
pub fn label_pos(x: i64, y: i64, name_len: usize) -> (p: (i64, i64))
    requires
        name_len <= i64::MAX as usize,
    ensures
        p.0 as int == label_x_spec(x, name_len as nat),
        p.1 as int == label_y_spec(y),
{
    let lx = sat_add_i64(sat_sub_i64(x, name_len as i64), 1);
    let ly = sat_sub_i64(y, 5);
    (lx, ly)
}

} // verus!

