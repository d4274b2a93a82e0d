use vstd::prelude::*;

verus! {

/// Largest magnitude a coordinate or a velocity component may have.
pub const COORD_LIMIT: i64 = 1099511627776;

/// A point or a displacement in the plane, in a fixed length unit chosen by the host.
#[derive(Clone, Copy, Debug, PartialEq, Eq, Structural)]
pub struct Vec2 {
    pub x: i64,
    pub y: i64,
}

impl Vec2 {
    pub open spec fn in_range(self) -> bool {
        -COORD_LIMIT <= self.x <= COORD_LIMIT && -COORD_LIMIT <= self.y <= COORD_LIMIT
    }

    pub fn new(x: i64, y: i64) -> (r: Vec2)
        ensures
            r.x == x,
            r.y == y,
    {
        Vec2 { x, y }
    }

    pub fn zero() -> (r: Vec2)
        ensures
            r.x == 0,
            r.y == 0,
    {
        Vec2 { x: 0, y: 0 }
    }

    /// Whether both components lie within `COORD_LIMIT`.
    pub fn is_in_range(&self) -> (r: bool)
        ensures
            r == self.in_range(),
    {
        -COORD_LIMIT <= self.x && self.x <= COORD_LIMIT && -COORD_LIMIT <= self.y && self.y
            <= COORD_LIMIT
    }
}

/// A non-negative fraction `num / den`; a zero denominator marks an invalid value.
#[derive(Clone, Copy, Debug, PartialEq, Eq, Structural)]
pub struct Ratio {
    pub num: u32,
    pub den: u32,
}

impl Ratio {
    pub fn new(num: u32, den: u32) -> (r: Ratio)
        ensures
            r.num == num,
            r.den == den,
    {
        Ratio { num, den }
    }

    pub open spec fn is_proper(self) -> bool {
        self.den > 0 && self.num <= self.den
    }
}

/// `v * r`, rounded toward zero.
pub open spec fn scale_toward_zero(v: int, r: Ratio) -> int {
    if v >= 0 {
        (v * r.num) / (r.den as int)
    } else {
        -(((-v) * r.num) / (r.den as int))
    }
}

/// Scaling a magnitude by a proper fraction never makes it larger.
pub proof fn lemma_scale_proper(m: nat, r: Ratio)
    requires
        r.is_proper(),
    ensures
        0 <= (m * r.num) / (r.den as int) <= m,
{
    let d = r.den as int;
    assert(m * r.num <= m * d) by (nonlinear_arith)
        requires
            r.num <= d,
    ;
    assert(0 <= m * r.num) by (nonlinear_arith);
    vstd::arithmetic::div_mod::lemma_div_is_ordered(m * r.num, m * d, d);
    vstd::arithmetic::div_mod::lemma_div_by_multiple(m as int, d);
    vstd::arithmetic::div_mod::lemma_div_pos_is_pos(m * r.num, d);
}

/// `v * r` rounded toward zero, for `|v| <= COORD_LIMIT`.
pub fn scale_component(v: i64, r: Ratio) -> (out: i128)
    requires
        -COORD_LIMIT <= v <= COORD_LIMIT,
        r.den > 0,
    ensures
        out == scale_toward_zero(v as int, r),
        -0x100_0000_0000_0000_0000 <= out <= 0x100_0000_0000_0000_0000,
{
    let m: u128 = if v >= 0 {
        v as u128
    } else {
        (-v) as u128
    };
    assert(m * r.num <= 1099511627776 * 4294967295) by (nonlinear_arith)
        requires
            m <= 1099511627776,
            r.num <= 4294967295,
    ;
    let q: u128 = (m * (r.num as u128)) / (r.den as u128);
    assert(q <= m * r.num) by {
        vstd::arithmetic::div_mod::lemma_div_is_ordered_by_denominator(
            (m * r.num) as int,
            1,
            r.den as int,
        );
    }
    if v >= 0 {
        q as i128
    } else {
        -(q as i128)
    }
}

} // verus!
