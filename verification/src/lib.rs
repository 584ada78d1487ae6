//! Validation and classification of triangles given by three side lengths.
//!
//! A [`Triangle`] can only be obtained through [`Triangle::build`], which
//! rejects any triple with a zero side or with a side longer than the sum
//! of the other two. A constructed triangle is immutable and is classified
//! by three predicates — equilateral, isosceles, scalene — of which exactly
//! one holds for every triangle.

use vstd::prelude::*;

verus! {

/// Three side lengths describe a geometrically valid triangle when every
/// side is strictly positive and the triangle inequality holds for every
/// pairing of sides.
pub open spec fn valid_sides(a: int, b: int, c: int) -> bool {
    &&& 0 < a
    &&& 0 < b
    &&& 0 < c
    &&& a + b >= c
    &&& a + c >= b
    &&& b + c >= a
}

/// All three sides are pairwise equal.
pub open spec fn equilateral(a: int, b: int, c: int) -> bool {
    a == b && b == c
}

/// At least one unordered pair of sides is equal, but not all three.
pub open spec fn isosceles(a: int, b: int, c: int) -> bool {
    !equilateral(a, b, c) && (a == b || b == c || a == c)
}

/// All three sides are pairwise distinct.
pub open spec fn scalene(a: int, b: int, c: int) -> bool {
    a != b && b != c && a != c
}

/// A geometrically valid triangle. Values exist only by way of
/// [`Triangle::build`], so every live `Triangle` satisfies [`valid_sides`];
/// there is no way to mutate one afterwards.
pub struct Triangle {
    a: u64,
    b: u64,
    c: u64,
}

impl View for Triangle {
    type V = (int, int, int);

    /// The three side lengths, in the order they were given to `build`.
    closed spec fn view(&self) -> (int, int, int) {
        (self.a as int, self.b as int, self.c as int)
    }
}

impl Triangle {
    #[verifier::type_invariant]
    spec fn inv(self) -> bool {
        valid_sides(self.a as int, self.b as int, self.c as int)
    }

    /// Validates a triple of side lengths. Returns `None` exactly when some
    /// side is zero or some side is longer than the sum of the other two;
    /// otherwise returns a triangle holding the three values unchanged, in
    /// their original order.
    pub fn build(sides: [u64; 3]) -> (r: Option<Triangle>)
        ensures
            r is Some <==> valid_sides(sides[0] as int, sides[1] as int, sides[2] as int),
            r matches Some(t) ==> t@ == (sides[0] as int, sides[1] as int, sides[2] as int),
            r matches Some(t) ==> valid_sides(t@.0, t@.1, t@.2),
    {
        let a: u64 = sides[0];
        let b: u64 = sides[1];
        let c: u64 = sides[2];
        if a == 0 || b == 0 || c == 0 {
            return None;
        }
        // The sums are taken in u128 so that no pair of u64 sides can overflow.
        if (a as u128) + (b as u128) < (c as u128) || (a as u128) + (c as u128) < (b as u128)
            || (b as u128) + (c as u128) < (a as u128) {
            return None;
        }
        Some(Triangle { a, b, c })
    }

    /// True iff all three sides are equal.
    pub fn is_equilateral(&self) -> (r: bool)
        ensures
            r == equilateral(self@.0, self@.1, self@.2),
    {
        self.a == self.b && self.b == self.c
    }

    /// True iff exactly one unordered pair of sides is equal.
    pub fn is_isosceles(&self) -> (r: bool)
        ensures
            r == isosceles(self@.0, self@.1, self@.2),
    {
        !self.is_equilateral()
            && ((self.a == self.b && self.a != self.c)
                || (self.b == self.c && self.b != self.a)
                || (self.a == self.c && self.a != self.b))
    }

    /// True iff no two sides are equal.
    pub fn is_scalene(&self) -> (r: bool)
        ensures
            r == scalene(self@.0, self@.1, self@.2),
    {
        !self.is_equilateral() && !self.is_isosceles()
    }
}

/// The three classifications are mutually exclusive and collectively
/// exhaustive: of any triangle, exactly one of equilateral, isosceles and
/// scalene holds.
pub proof fn lemma_one_classification(t: &Triangle)
    ensures
        equilateral(t@.0, t@.1, t@.2) || isosceles(t@.0, t@.1, t@.2) || scalene(t@.0, t@.1, t@.2),
        !(equilateral(t@.0, t@.1, t@.2) && isosceles(t@.0, t@.1, t@.2)),
        !(equilateral(t@.0, t@.1, t@.2) && scalene(t@.0, t@.1, t@.2)),
        !(isosceles(t@.0, t@.1, t@.2) && scalene(t@.0, t@.1, t@.2)),
{
}

} // verus!
