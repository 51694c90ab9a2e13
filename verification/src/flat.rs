//! Row-major flattening of two and three coordinates, with the facts that
//! make it a layout: offsets stay inside the box, and distinct coordinates
//! get distinct offsets.
use vstd::prelude::*;

verus! {

/// The offset of coordinate `(a, b)` where the faster axis has `extent_a`
/// positions.
pub open spec fn flat2(a: nat, b: nat, extent_a: nat) -> nat {
    a + b * extent_a
}

/// The offset of coordinate `(x, y, z)` where X has `extent_x` and Y has
/// `extent_y` positions.
pub open spec fn flat3(x: nat, y: nat, z: nat, extent_x: nat, extent_y: nat) -> nat {
    x + y * extent_x + z * extent_x * extent_y
}

/// Computes `a + b * extent_a` when the caller knows that it fits.
pub fn flatten2(a: u64, b: u64, extent_a: u64) -> (r: u64)
    requires
        a + b * extent_a <= u64::MAX,
    ensures
        r == a + b * extent_a,
{
    a + b * extent_a
}

/// Computes `a + b * extent_a`, or `None` exactly when that exceeds 64 bits.
pub fn try_flatten2(a: u64, b: u64, extent_a: u64) -> (r: Option<u64>)
    ensures
        a + b * extent_a <= u64::MAX ==> r == Some((a + b * extent_a) as u64),
        a + b * extent_a > u64::MAX ==> r.is_none(),
{
    match b.checked_mul(extent_a) {
        Some(step) => a.checked_add(step),
        None => None,
    }
}

/// Computes `x + y * extent_x + z * extent_x * extent_y` when the caller
/// knows that it fits.
pub fn flatten3(x: u64, y: u64, z: u64, extent_x: u64, extent_y: u64) -> (r: u64)
    requires
        x + y * extent_x + z * extent_x * extent_y <= u64::MAX,
    ensures
        r == x + y * extent_x + z * extent_x * extent_y,
{
    if extent_y == 0 {
        // An empty Y axis leaves no plane to skip; `z * extent_x` alone may
        // still be too wide to form.
        assert(z * extent_x * extent_y == 0) by (nonlinear_arith)
            requires
                extent_y == 0,
        ;
        x + y * extent_x
    } else {
        assert(z * extent_x <= z * extent_x * extent_y) by (nonlinear_arith)
            requires
                extent_y >= 1,
        ;
        x + y * extent_x + z * extent_x * extent_y
    }
}

/// Computes `x + y * extent_x + z * extent_x * extent_y`, or `None` exactly
/// when that exceeds 64 bits.
pub fn try_flatten3(x: u64, y: u64, z: u64, extent_x: u64, extent_y: u64) -> (r: Option<u64>)
    ensures
        x + y * extent_x + z * extent_x * extent_y <= u64::MAX ==> r == Some(
            (x + y * extent_x + z * extent_x * extent_y) as u64,
        ),
        x + y * extent_x + z * extent_x * extent_y > u64::MAX ==> r.is_none(),
{
    let low = match try_flatten2(x, y, extent_x) {
        Some(low) => low,
        None => {
            return None;
        },
    };
    if extent_y == 0 {
        assert(z * extent_x * extent_y == 0) by (nonlinear_arith)
            requires
                extent_y == 0,
        ;
        return Some(low);
    }
    assert(z * extent_x <= z * extent_x * extent_y) by (nonlinear_arith)
        requires
            extent_y >= 1,
    ;
    let plane = match z.checked_mul(extent_x) {
        Some(plane) => plane,
        None => {
            return None;
        },
    };
    match plane.checked_mul(extent_y) {
        Some(top) => low.checked_add(top),
        None => None,
    }
}

/// A coordinate pair inside a `extent_a` by `extent_b` rectangle flattens to
/// an offset below the rectangle's area.
pub proof fn lemma_flat2_bound(a: nat, b: nat, extent_a: nat, extent_b: nat)
    requires
        a < extent_a,
        b < extent_b,
    ensures
        flat2(a, b, extent_a) < extent_a * extent_b,
{
    assert(a + b * extent_a < extent_a * extent_b) by (nonlinear_arith)
        requires
            a < extent_a,
            b + 1 <= extent_b,
    ;
}

/// A coordinate triple inside a box flattens to an offset below the box's
/// volume.
pub proof fn lemma_flat3_bound(
    x: nat,
    y: nat,
    z: nat,
    extent_x: nat,
    extent_y: nat,
    extent_z: nat,
)
    requires
        x < extent_x,
        y < extent_y,
        z < extent_z,
    ensures
        flat3(x, y, z, extent_x, extent_y) < extent_x * extent_y * extent_z,
{
    lemma_flat2_bound(x, y, extent_x, extent_y);
    let area = extent_x * extent_y;
    let low = flat2(x, y, extent_x);
    assert(z * extent_x * extent_y == z * area) by (nonlinear_arith)
        requires
            area == extent_x * extent_y,
    ;
    assert(low + z * area < area * extent_z) by (nonlinear_arith)
        requires
            low < area,
            z + 1 <= extent_z,
    ;
}

/// Within one row length, equal offsets come from equal coordinate pairs.
pub proof fn lemma_flat2_injective(a1: nat, b1: nat, a2: nat, b2: nat, extent_a: nat)
    requires
        a1 < extent_a,
        a2 < extent_a,
        flat2(a1, b1, extent_a) == flat2(a2, b2, extent_a),
    ensures
        a1 == a2,
        b1 == b2,
{
    if b1 < b2 {
        assert(a1 + b1 * extent_a < a2 + b2 * extent_a) by (nonlinear_arith)
            requires
                a1 < extent_a,
                b1 + 1 <= b2,
        ;
    }
    if b2 < b1 {
        assert(a2 + b2 * extent_a < a1 + b1 * extent_a) by (nonlinear_arith)
            requires
                a2 < extent_a,
                b2 + 1 <= b1,
        ;
    }
}

/// Within one row length and one column length, equal offsets come from
/// equal coordinate triples.
pub proof fn lemma_flat3_injective(
    x1: nat,
    y1: nat,
    z1: nat,
    x2: nat,
    y2: nat,
    z2: nat,
    extent_x: nat,
    extent_y: nat,
)
    requires
        x1 < extent_x,
        x2 < extent_x,
        y1 < extent_y,
        y2 < extent_y,
        flat3(x1, y1, z1, extent_x, extent_y) == flat3(x2, y2, z2, extent_x, extent_y),
    ensures
        x1 == x2,
        y1 == y2,
        z1 == z2,
{
    let area = extent_x * extent_y;
    let low1 = flat2(x1, y1, extent_x);
    let low2 = flat2(x2, y2, extent_x);
    lemma_flat2_bound(x1, y1, extent_x, extent_y);
    lemma_flat2_bound(x2, y2, extent_x, extent_y);
    assert(z1 * extent_x * extent_y == z1 * area) by (nonlinear_arith)
        requires
            area == extent_x * extent_y,
    ;
    assert(z2 * extent_x * extent_y == z2 * area) by (nonlinear_arith)
        requires
            area == extent_x * extent_y,
    ;
    assert(flat2(low1, z1, area) == flat2(low2, z2, area));
    lemma_flat2_injective(low1, z1, low2, z2, area);
    lemma_flat2_injective(x1, y1, x2, y2, extent_x);
}

} // verus!
