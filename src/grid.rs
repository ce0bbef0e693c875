//! Hex-grid layouts: the cells within a radius of the origin, centre first,
//! then ring after ring.

use vstd::prelude::*;
use crate::hex::HexAxial;

verus! {

/// Largest radius that `spiral` accepts.
pub const MAX_RADIUS: u32 = 1000;

/// Axial direction from the origin to corner `side` of a ring, for sides
/// 0 to 5 going counter-clockwise from `(1, 0)`.
pub open spec fn corner(side: int) -> (int, int) {
    if side == 0 {
        (1, 0)
    } else if side == 1 {
        (0, 1)
    } else if side == 2 {
        (-1, 1)
    } else if side == 3 {
        (-1, 0)
    } else if side == 4 {
        (0, -1)
    } else {
        (1, -1)
    }
}

/// Cell `j` of ring `k` (`0 <= j < 6k`): the ring is walked from `(k, 0)`,
/// `k` cells along each side, a side running from one corner towards the
/// next.
pub open spec fn ring_cell(k: int, j: int) -> (int, int) {
    let side = j / k;
    let step = j % k;
    let c = corner(side);
    let n = corner((side + 1) % 6);
    (k * c.0 + step * (n.0 - c.0), k * c.1 + step * (n.1 - c.1))
}

/// The cells within `radius` of the origin: the origin, then rings 1 to
/// `radius` in order.
pub open spec fn spiral_cells(radius: nat) -> Seq<(int, int)>
    decreases radius,
{
    if radius == 0 {
        seq![(0int, 0int)]
    } else {
        spiral_cells((radius - 1) as nat) + Seq::new(6 * radius, |j: int| ring_cell(radius as int, j))
    }
}

fn corner_of(side: usize) -> (c: (i32, i32))
    requires
        side < 6,
    ensures
        (c.0 as int, c.1 as int) == corner(side as int),
{
    if side == 0 {
        (1, 0)
    } else if side == 1 {
        (0, 1)
    } else if side == 2 {
        (-1, 1)
    } else if side == 3 {
        (-1, 0)
    } else if side == 4 {
        (0, -1)
    } else {
        (1, -1)
    }
}

proof fn lemma_spiral_len(radius: nat)
    ensures
        spiral_cells(radius).len() == 1 + 3 * radius * (radius + 1),
    decreases radius,
{
    if radius > 0 {
        let r1 = (radius - 1) as nat;
        lemma_spiral_len(r1);
        assert(spiral_cells(radius).len() == spiral_cells(r1).len() + 6 * radius);
        assert(1 + 3 * r1 * (r1 + 1) + 6 * radius == 1 + 3 * radius * (radius + 1))
            by (nonlinear_arith)
            requires
                radius == r1 + 1,
        ;
    } else {
        assert(spiral_cells(0).len() == 1);
        assert(3 * radius * (radius + 1) == 0) by (nonlinear_arith)
            requires
                radius == 0,
        ;
    }
}

/// The cells within `radius` of the origin, centre first and then ring by
/// ring; `1 + 3r(r + 1)` cells in all.
pub fn spiral(radius: u32) -> (cells: Vec<HexAxial>)
    requires
        radius <= MAX_RADIUS,
    ensures
        cells@.map_values(|h: HexAxial| h@) == spiral_cells(radius as nat),
        cells@.len() == 1 + 3 * radius * (radius + 1),
{
    let mut cells: Vec<HexAxial> = Vec::new();
    cells.push(HexAxial::new(0, 0));
    proof {
        assert(cells@.map_values(|h: HexAxial| h@) =~= spiral_cells(0));
    }
    let mut k: u32 = 1;
    while k <= radius
        invariant
            radius <= MAX_RADIUS,
            1 <= k <= radius + 1,
            cells@.map_values(|h: HexAxial| h@) == spiral_cells((k - 1) as nat),
        decreases radius + 1 - k,
    {
        let ghost base = cells@.map_values(|h: HexAxial| h@);
        let mut side: usize = 0;
        while side < 6
            invariant
                radius <= MAX_RADIUS,
                1 <= k <= radius,
                0 <= side <= 6,
                base == spiral_cells((k - 1) as nat),
                cells@.map_values(|h: HexAxial| h@) == base + Seq::new(
                    (side * k) as nat,
                    |j: int| ring_cell(k as int, j),
                ),
            decreases 6 - side,
        {
            let (cq, cr) = corner_of(side);
            let (nq, nr) = corner_of((side + 1) % 6);
            let mut step: u32 = 0;
            while step < k
                invariant
                    radius <= MAX_RADIUS,
                    1 <= k <= radius,
                    0 <= side < 6,
                    0 <= step <= k,
                    (cq as int, cr as int) == corner(side as int),
                    (nq as int, nr as int) == corner((side as int + 1) % 6),
                    base == spiral_cells((k - 1) as nat),
                    cells@.map_values(|h: HexAxial| h@) == base + Seq::new(
                        (side * k + step) as nat,
                        |j: int| ring_cell(k as int, j),
                    ),
                decreases k - step,
            {
                let ghost j = side * k + step;
                let ghost old_cells = cells@;
                proof {
                    vstd::arithmetic::div_mod::lemma_fundamental_div_mod_converse(
                        j as int,
                        k as int,
                        side as int,
                        step as int,
                    );
                    assert(-1000 <= k * cq <= 1000) by (nonlinear_arith)
                        requires
                            k <= 1000,
                            -1 <= cq <= 1,
                    ;
                    assert(-1000 <= k * cr <= 1000) by (nonlinear_arith)
                        requires
                            k <= 1000,
                            -1 <= cr <= 1,
                    ;
                    assert(-2000 <= step * (nq - cq) <= 2000) by (nonlinear_arith)
                        requires
                            step <= 1000,
                            -2 <= nq - cq <= 2,
                    ;
                    assert(-2000 <= step * (nr - cr) <= 2000) by (nonlinear_arith)
                        requires
                            step <= 1000,
                            -2 <= nr - cr <= 2,
                    ;
                }
                let ki = k as i32;
                let si = step as i32;
                let cell = HexAxial::new(ki * cq + si * (nq - cq), ki * cr + si * (nr - cr));
                cells.push(cell);
                proof {
                    let ring = |j: int| ring_cell(k as int, j);
                    assert(cell@ == ring(j as int));
                    assert(cells@ == old_cells.push(cell));
                    assert(cells@.map_values(|h: HexAxial| h@) =~= old_cells.map_values(
                        |h: HexAxial| h@,
                    ).push(cell@));
                    assert(Seq::new((j + 1) as nat, ring) =~= Seq::new(j as nat, ring).push(
                        ring(j as int),
                    ));
                    assert(cells@.map_values(|h: HexAxial| h@) =~= base + Seq::new(
                        (j + 1) as nat,
                        ring,
                    ));
                }
                step = step + 1;
            }
            proof {
                assert(side * k + k == (side + 1) * k) by (nonlinear_arith);
            }
            side = side + 1;
        }
        proof {
            assert(cells@.map_values(|h: HexAxial| h@) =~= spiral_cells(k as nat));
        }
        k = k + 1;
    }
    proof {
        lemma_spiral_len(radius as nat);
    }
    cells
}

} // verus!
