use vstd::prelude::*;

verus! {

/// Whether the point `(px, py)` lies inside or on the circle of radius `r`
/// centered at `(cx, cy)`. A negative radius holds no point at all.
pub open spec fn in_circle(cx: int, cy: int, px: int, py: int, r: int) -> bool {
    r >= 0 && (cx - px) * (cx - px) + (cy - py) * (cy - py) <= r * r
}

/// Runtime test for `in_circle`, exact for integer coordinates. The bounds
/// keep the squares below the machine's integer limits.
pub fn circle_contains(cx: i64, cy: i64, px: i64, py: i64, r: i64) -> (b: bool)
    requires
        -0x100000000 <= cx <= 0x100000000,
        -0x100000000 <= cy <= 0x100000000,
        -0x100000000 <= px <= 0x100000000,
        -0x100000000 <= py <= 0x100000000,
        -0x100000000 <= r <= 0x100000000,
    ensures
        b == in_circle(cx as int, cy as int, px as int, py as int, r as int),
{
    if r < 0 {
        return false;
    }
    let dx: i128 = cx as i128 - px as i128;
    let dy: i128 = cy as i128 - py as i128;
    let rr: i128 = r as i128;
    proof {
        assert((-0x200000000 <= dx <= 0x200000000 && -0x200000000 <= dy <= 0x200000000
            && 0 <= rr <= 0x100000000) ==> (0 <= dx * dx <= 0x40000000000000000
            && 0 <= dy * dy <= 0x40000000000000000 && 0 <= rr * rr <= 0x10000000000000000))
            by (nonlinear_arith);
    }
    dx * dx + dy * dy <= rr * rr
}

} // verus!
