//! Integers that carry a closed interval `[lower, upper]` known to hold them.
//!
//! The interval of a sum or a product is computed from the operands'
//! intervals alone, so an operation whose upper bound could overflow is
//! refused by its precondition before any value flows through it.
use vstd::prelude::*;

verus! {

/// What a `BoundedInt` stands for: its bounds and its value.
pub struct IntervalModel {
    pub lower: nat,
    pub upper: nat,
    pub value: nat,
}

impl IntervalModel {
    /// The value lies inside the bounds.
    pub open spec fn sound(self) -> bool {
        self.lower <= self.value <= self.upper
    }
}

/// The interval `[n, n]` holding `n`.
pub open spec fn exact_model(n: nat) -> IntervalModel {
    IntervalModel { lower: n, upper: n, value: n }
}

/// Bounds add, and so do values.
pub open spec fn add_model(a: IntervalModel, b: IntervalModel) -> IntervalModel {
    IntervalModel {
        lower: a.lower + b.lower,
        upper: a.upper + b.upper,
        value: a.value + b.value,
    }
}

/// Bounds multiply, and so do values.
pub open spec fn mul_model(a: IntervalModel, b: IntervalModel) -> IntervalModel {
    IntervalModel {
        lower: a.lower * b.lower,
        upper: a.upper * b.upper,
        value: a.value * b.value,
    }
}

/// The same value under the bounds `[lower, upper]`.
pub open spec fn rebound_model(a: IntervalModel, lower: nat, upper: nat) -> IntervalModel {
    IntervalModel { lower, upper, value: a.value }
}

/// `[lower, upper]` contains the interval of `a`.
pub open spec fn widens(a: IntervalModel, lower: nat, upper: nat) -> bool {
    lower <= a.lower && a.upper <= upper
}

/// A sum of two values up to these upper bounds fits in a `usize`.
pub open spec fn add_fits(upper_a: nat, upper_b: nat) -> bool {
    upper_a + upper_b <= usize::MAX
}

/// A product of two values up to these upper bounds fits in a `usize`.
pub open spec fn mul_fits(upper_a: nat, upper_b: nat) -> bool {
    upper_a * upper_b <= usize::MAX
}

/// The same value under `[lower, upper]` if it lies there, else nothing.
pub open spec fn narrow_model(a: IntervalModel, lower: nat, upper: nat) -> Option<IntervalModel> {
    if lower <= a.value <= upper {
        Some(rebound_model(a, lower, upper))
    } else {
        None
    }
}

/// Sums and products of sound intervals are sound, and so is a sound
/// interval under any bounds that contain it: every value reached from `new`
/// by `add`, `mul` and `widen` lies within its bounds.
pub proof fn lemma_operations_keep_soundness(
    a: IntervalModel,
    b: IntervalModel,
    lower: nat,
    upper: nat,
)
    requires
        a.sound(),
        b.sound(),
    ensures
        exact_model(a.value).sound(),
        add_model(a, b).sound(),
        mul_model(a, b).sound(),
        widens(a, lower, upper) ==> rebound_model(a, lower, upper).sound(),
{
    assert(a.lower * b.lower <= a.value * b.value <= a.upper * b.upper) by (nonlinear_arith)
        requires
            a.lower <= a.value <= a.upper,
            b.lower <= b.value <= b.upper,
    ;
}

/// Adding the exact integers `a` and `b` gives the exact integer `a + b`.
pub proof fn lemma_add_exact(a: nat, b: nat)
    ensures
        add_model(exact_model(a), exact_model(b)) == exact_model(a + b),
{
}

/// Multiplying the exact integers `a` and `b` gives the exact integer `a * b`.
pub proof fn lemma_mul_exact(a: nat, b: nat)
    ensures
        mul_model(exact_model(a), exact_model(b)) == exact_model(a * b),
{
}

/// Widening keeps the value, and a checked narrowing back to the original
/// bounds gives the original integer back.
pub proof fn lemma_widen_then_narrow(a: IntervalModel, lower: nat, upper: nat)
    requires
        a.sound(),
        widens(a, lower, upper),
    ensures
        rebound_model(a, lower, upper).value == a.value,
        narrow_model(rebound_model(a, lower, upper), a.lower, a.upper) == Some(a),
{
}

/// Whether the sum of two values with these upper bounds fits in a `usize`.
pub fn is_overflow_safe(upper_a: usize, upper_b: usize) -> (r: bool)
    ensures
        r == add_fits(upper_a as nat, upper_b as nat),
{
    upper_a.checked_add(upper_b).is_some()
}

/// Whether the product of two values with these upper bounds fits in a `usize`.
pub fn is_overflow_safe_mul(upper_a: usize, upper_b: usize) -> (r: bool)
    ensures
        r == mul_fits(upper_a as nat, upper_b as nat),
{
    upper_a.checked_mul(upper_b).is_some()
}

/// An integer known to lie in `[lower, upper]`.
///
/// The only way in is `new`, which gives the exact interval of its argument;
/// every other value comes out of `add`, `mul` or `widen`.
pub struct BoundedInt {
    lower: usize,
    upper: usize,
    n: usize,
}

impl View for BoundedInt {
    type V = IntervalModel;

    closed spec fn view(&self) -> IntervalModel {
        IntervalModel { lower: self.lower as nat, upper: self.upper as nat, value: self.n as nat }
    }
}

impl BoundedInt {
    #[verifier::type_invariant]
    spec fn inv(self) -> bool {
        self.lower <= self.n <= self.upper
    }

    /// The exact integer `n`, bounded by `[n, n]`.
    pub fn new(n: usize) -> (r: BoundedInt)
        ensures
            r@ == exact_model(n as nat),
    {
        BoundedInt { lower: n, upper: n, n }
    }

    /// The runtime value, which always lies within the bounds.
    pub fn value(&self) -> (r: usize)
        ensures
            r == self@.value,
            self@.lower <= r <= self@.upper,
    {
        proof {
            use_type_invariant(self);
        }
        self.n
    }

    /// The lower bound.
    pub fn lower(&self) -> (r: usize)
        ensures
            r == self@.lower,
    {
        self.lower
    }

    /// The upper bound.
    pub fn upper(&self) -> (r: usize)
        ensures
            r == self@.upper,
    {
        self.upper
    }

    /// Sum of two bounded integers, bounded by the sums of the bounds.
    ///
    /// Admitted only where the upper bounds' sum fits in a `usize`.
    pub fn add(self, rhs: BoundedInt) -> (r: BoundedInt)
        requires
            add_fits(self@.upper, rhs@.upper),
        ensures
            r@ == add_model(self@, rhs@),
    {
        proof {
            use_type_invariant(&self);
            use_type_invariant(&rhs);
        }
        BoundedInt {
            lower: self.lower + rhs.lower,
            upper: self.upper + rhs.upper,
            n: self.n + rhs.n,
        }
    }

    /// Product of two bounded integers, bounded by the products of the bounds.
    ///
    /// Admitted only where the upper bounds' product fits in a `usize`.
    pub fn mul(self, rhs: BoundedInt) -> (r: BoundedInt)
        requires
            mul_fits(self@.upper, rhs@.upper),
        ensures
            r@ == mul_model(self@, rhs@),
    {
        proof {
            use_type_invariant(&self);
            use_type_invariant(&rhs);
            lemma_operations_keep_soundness(self@, rhs@, self@.lower, self@.upper);
        }
        BoundedInt {
            lower: self.lower * rhs.lower,
            upper: self.upper * rhs.upper,
            n: self.n * rhs.n,
        }
    }

    /// The same value under the wider bounds `[lower, upper]`.
    ///
    /// Admitted only where the new interval contains the old one.
    pub fn widen(self, lower: usize, upper: usize) -> (r: BoundedInt)
        requires
            widens(self@, lower as nat, upper as nat),
        ensures
            r@ == rebound_model(self@, lower as nat, upper as nat),
    {
        proof {
            use_type_invariant(&self);
        }
        BoundedInt { lower, upper, n: self.n }
    }

    /// The same value under the bounds `[lower, upper]`, checked at run
    /// time: nothing where the value lies outside them.
    pub fn narrow(self, lower: usize, upper: usize) -> (r: Option<BoundedInt>)
        ensures
            r matches Some(b) ==> narrow_model(self@, lower as nat, upper as nat) == Some(b@),
            r is None ==> narrow_model(self@, lower as nat, upper as nat) is None,
    {
        if lower <= self.n && self.n <= upper {
            Some(BoundedInt { lower, upper, n: self.n })
        } else {
            None
        }
    }
}

} // verus!
