use vstd::prelude::*;

verus! {

/// A signed fixed point number: a whole part in one signed byte and a
/// fractional part counted in 360ths of a unit.
///
/// The fractional part may carry either sign; `new(1, -180)` and `new(0, 180)`
/// both stand for one half.
#[derive(Copy, Clone, PartialEq, Eq, Debug, Structural)]
pub struct FixedPoint {
    /// The whole part.
    pub value: i8,
    /// The fractional part, in 360ths.
    pub fractional: i16,
}

/// The number counted in 360ths of a unit.
pub open spec fn scaled(f: FixedPoint) -> int {
    f.value as int * 360 + f.fractional as int
}

/// Whole part and fractional part after a sum of whole parts `v` and of
/// fractional parts `s` has its fractional part brought back into
/// `[-359, 359]`, the excess carried into the whole part.
pub open spec fn renormalized(v: int, s: int) -> (int, int) {
    if s >= 360 {
        (v + 1, s - 360)
    } else if s <= -360 {
        (v - 1, s + 360)
    } else {
        (v, s)
    }
}

/// The exact result of `a + b`, before it is stored in the fields' types.
pub open spec fn sum_of(a: FixedPoint, b: FixedPoint) -> (int, int) {
    renormalized(a.value + b.value, a.fractional + b.fractional)
}

/// The exact result of `a - b`, before it is stored in the fields' types.
pub open spec fn difference_of(a: FixedPoint, b: FixedPoint) -> (int, int) {
    renormalized(a.value - b.value, a.fractional - b.fractional)
}

/// `a + b` as the `+` operator computes it.
pub open spec fn plus(a: FixedPoint, b: FixedPoint) -> FixedPoint {
    FixedPoint { value: sum_of(a, b).0 as i8, fractional: sum_of(a, b).1 as i16 }
}

/// `a - b` as the `-` operator computes it.
pub open spec fn minus(a: FixedPoint, b: FixedPoint) -> FixedPoint {
    FixedPoint { value: difference_of(a, b).0 as i8, fractional: difference_of(a, b).1 as i16 }
}

/// Whether a whole part and a fractional part can be stored.
pub open spec fn representable(p: (int, int)) -> bool {
    i8::MIN <= p.0 <= i8::MAX && -359 <= p.1 <= 359
}

/// Integer division rounding toward zero.
pub open spec fn div_toward_zero(a: int, b: int) -> int {
    if a >= 0 {
        a / b
    } else {
        -((-a) / b)
    }
}

/// The product that `map_to_i16` divides: offset from `from_min` in 360ths
/// times the width of the output range.
pub open spec fn map_numerator(f: FixedPoint, from_min: FixedPoint, to_min: i16, to_max: i16) -> int {
    (scaled(f) - scaled(from_min)) * (to_max - to_min)
}

/// The linear map of `f` from `[from_min, from_max]` onto
/// `[to_min, to_max]`, computed in 360ths with division rounding toward zero.
pub open spec fn linear_map(
    f: FixedPoint,
    from_min: FixedPoint,
    from_max: FixedPoint,
    to_min: i16,
    to_max: i16,
) -> int {
    to_min + div_toward_zero(
        map_numerator(f, from_min, to_min, to_max),
        scaled(from_max) - scaled(from_min),
    )
}

impl FixedPoint {
    /// The fractional part lies in `[-359, 359]`.
    pub open spec fn wf(self) -> bool {
        -359 <= self.fractional <= 359
    }

    /// Creates a fixed point value from its whole and fractional parts.
    pub fn new(value: i8, fractional: i16) -> (r: FixedPoint)
        ensures
            r.value == value,
            r.fractional == fractional,
    {
        FixedPoint { value, fractional }
    }

    /// True when the whole part differs from that of `copy`: the value has
    /// crossed into another unit since `copy` was taken.
    pub fn did_overflow(self, copy: Self) -> (r: bool)
        ensures
            r == (self.value != copy.value),
    {
        self.value != copy.value
    }

    /// The whole part: 1.5 gives 1 and -1.5 gives -1.
    pub fn integer_part(self) -> (r: i8)
        ensures
            r == self.value,
    {
        self.value
    }

    /// The fractional part, in 360ths.
    pub fn fractional_part(self) -> (r: i16)
        ensures
            r == self.fractional,
    {
        self.fractional
    }

    /// Maps the value linearly from `[from_min, from_max]` onto
    /// `[to_min, to_max]`. Values outside the input range map outside the
    /// output range.
    pub fn map_to_i16(self, from_min: FixedPoint, from_max: FixedPoint, to_min: i16, to_max: i16) -> (r: i16)
        requires
            scaled(from_min) != scaled(from_max),
            i16::MIN <= to_max - to_min <= i16::MAX,
            i32::MIN < map_numerator(self, from_min, to_min, to_max) <= i32::MAX,
            i16::MIN <= linear_map(self, from_min, from_max, to_min, to_max) <= i16::MAX,
        ensures
            r == linear_map(self, from_min, from_max, to_min, to_max),
    {
        let to_delta = (to_max - to_min) as i32;
        let from_min_scaled = from_min.fractional as i32 + from_min.value as i32 * 360;
        let from_max_scaled = from_max.fractional as i32 + from_max.value as i32 * 360;
        let from_delta_scaled = from_max_scaled - from_min_scaled;
        let self_scaled = self.fractional as i32 + self.value as i32 * 360;
        let numerator = (self_scaled - from_min_scaled) * to_delta;
        let quotient = numerator / from_delta_scaled;
        assert(-0x8000_0000 <= div_toward_zero(numerator as int, from_delta_scaled as int)
            <= 0x7fff_ffff) by (nonlinear_arith)
            requires
                -0x8000_0000 < numerator <= 0x7fff_ffff,
                from_delta_scaled != 0,
        {
            if numerator >= 0 {
                if from_delta_scaled > 0 {
                    assert(numerator / from_delta_scaled <= numerator);
                } else {
                    assert(numerator / from_delta_scaled <= 0);
                }
            }
        }
        (to_min as i32 + quotient) as i16
    }
}

impl core::ops::Add for FixedPoint {
    type Output = FixedPoint;

    /// Adds two values, carrying fractional overflow into the whole part.
    fn add(self, other: FixedPoint) -> (r: FixedPoint) {
        let fractional_sum = self.fractional as i32 + other.fractional as i32;
        let integral_sum = self.value as i32 + other.value as i32;
        if fractional_sum >= 360 {
            FixedPoint { value: (integral_sum + 1) as i8, fractional: (fractional_sum - 360) as i16 }
        } else if fractional_sum <= -360 {
            FixedPoint { value: (integral_sum - 1) as i8, fractional: (fractional_sum + 360) as i16 }
        } else {
            FixedPoint { value: integral_sum as i8, fractional: fractional_sum as i16 }
        }
    }
}

impl vstd::std_specs::ops::AddSpecImpl for FixedPoint {
    open spec fn obeys_add_spec() -> bool {
        true
    }

    open spec fn add_req(self, rhs: FixedPoint) -> bool {
        self.wf() && rhs.wf() && representable(sum_of(self, rhs))
    }

    open spec fn add_spec(self, rhs: FixedPoint) -> FixedPoint {
        plus(self, rhs)
    }
}

impl core::ops::Sub for FixedPoint {
    type Output = FixedPoint;

    /// Subtracts two values, borrowing fractional underflow from the whole part.
    fn sub(self, other: FixedPoint) -> (r: FixedPoint) {
        let fractional_diff = self.fractional as i32 - other.fractional as i32;
        let integral_diff = self.value as i32 - other.value as i32;
        if fractional_diff >= 360 {
            FixedPoint { value: (integral_diff + 1) as i8, fractional: (fractional_diff - 360) as i16 }
        } else if fractional_diff <= -360 {
            FixedPoint { value: (integral_diff - 1) as i8, fractional: (fractional_diff + 360) as i16 }
        } else {
            FixedPoint { value: integral_diff as i8, fractional: fractional_diff as i16 }
        }
    }
}

impl vstd::std_specs::ops::SubSpecImpl for FixedPoint {
    open spec fn obeys_sub_spec() -> bool {
        true
    }

    open spec fn sub_req(self, rhs: FixedPoint) -> bool {
        self.wf() && rhs.wf() && representable(difference_of(self, rhs))
    }

    open spec fn sub_spec(self, rhs: FixedPoint) -> FixedPoint {
        minus(self, rhs)
    }
}

/// Addition and subtraction keep the represented number exact: the sum in
/// 360ths is the sum of the operands in 360ths, and the result is well formed.
pub proof fn lemma_arithmetic_is_exact(a: FixedPoint, b: FixedPoint)
    requires
        a.wf(),
        b.wf(),
    ensures
        sum_of(a, b).0 * 360 + sum_of(a, b).1 == scaled(a) + scaled(b),
        difference_of(a, b).0 * 360 + difference_of(a, b).1 == scaled(a) - scaled(b),
        -359 <= sum_of(a, b).1 <= 359,
        -359 <= difference_of(a, b).1 <= 359,
{
}

} // verus!
