//! Small integer functions and a rectangle.

use vstd::prelude::*;

verus! {

/// The sum of `a` and `b`, which has to fit.
pub fn add(a: i32, b: i32) -> (sum: i32)
    requires
        i32::MIN <= a + b <= i32::MAX,
    ensures
        sum == a + b,
{
    a + b
}

/// The larger of two integers.
pub fn get_max(a: i32, b: i32) -> (max: i32)
    ensures
        max == if a > b { a } else { b },
{
    if a > b {
        return a;
    }
    b
}

/// The sum of the elements of `s`.
pub open spec fn total(s: Seq<i32>) -> int
    decreases s.len(),
{
    if s.len() == 0 {
        0
    } else {
        total(s.drop_last()) + s.last()
    }
}

/// Summing `s` from the left never leaves the range of `i32`.
pub open spec fn sums_fit(s: Seq<i32>) -> bool {
    forall|k: int| 0 <= k <= s.len() ==> i32::MIN <= #[trigger] total(s.take(k)) <= i32::MAX
}

/// Taking one more element adds it to the sum.
pub proof fn lemma_total_step(s: Seq<i32>, k: int)
    requires
        0 <= k < s.len(),
    ensures
        total(s.take(k + 1)) == total(s.take(k)) + s[k],
{
    assert(s.take(k + 1).drop_last() =~= s.take(k));
}

/// For five elements: the sum written out, and what it takes for the sums
/// from the left to fit.
pub proof fn lemma_total_of_five(s: Seq<i32>)
    requires
        s.len() == 5,
    ensures
        total(s) == s[0] + s[1] + s[2] + s[3] + s[4],
        sums_fit(s) <==> {
            &&& i32::MIN <= s[0] + s[1] <= i32::MAX
            &&& i32::MIN <= s[0] + s[1] + s[2] <= i32::MAX
            &&& i32::MIN <= s[0] + s[1] + s[2] + s[3] <= i32::MAX
            &&& i32::MIN <= s[0] + s[1] + s[2] + s[3] + s[4] <= i32::MAX
        },
{
    lemma_total_step(s, 0);
    lemma_total_step(s, 1);
    lemma_total_step(s, 2);
    lemma_total_step(s, 3);
    lemma_total_step(s, 4);
}

/// Hands `arr` to `f` and returns what `f` makes of it.
pub fn apply_to_array<F: Fn([i32; 5]) -> i32>(arr: [i32; 5], f: F) -> (out: i32)
    requires
        call_requires(f, (arr,)),
    ensures
        call_ensures(f, (arr,), out),
{
    f(arr)
}

/// The sum of the five elements, added up from the left.
pub fn sum_array(arr: [i32; 5]) -> (sum: i32)
    requires
        sums_fit(arr@),
    ensures
        sum == total(arr@),
{
    let mut sum: i32 = 0;
    for i in 0..5
        invariant
            sum == total(arr@.take(i as int)),
            sums_fit(arr@),
    {
        proof {
            lemma_total_step(arr@, i as int);
        }
        sum += arr[i];
    }
    proof {
        assert(arr@.take(5) =~= arr@);
    }
    sum
}

/// A rectangle with sides of whole length.
#[derive(Clone, Copy, Debug, PartialEq, Eq, Structural)]
pub struct Rectangle {
    pub width: u32,
    pub height: u32,
}

impl Rectangle {
    /// Width times height, as a number without bounds.
    pub open spec fn spec_area(&self) -> int {
        self.width * self.height
    }

    /// Both sides are of one length.
    pub open spec fn spec_is_square(&self) -> bool {
        self.width == self.height
    }

    /// Width times height, where that fits.
    pub fn area(&self) -> (area: u32)
        requires
            self.spec_area() <= u32::MAX,
        ensures
            area == self.spec_area(),
    {
        self.width * self.height
    }

    /// Whether both sides are of one length.
    #[verifier::when_used_as_spec(spec_is_square)]
    pub fn is_square(&self) -> (square: bool)
        ensures
            square == self.spec_is_square(),
    {
        self.width == self.height
    }

    /// The square with sides of length `size`.
    pub fn create_square(size: u32) -> (square: Rectangle)
        ensures
            square == (Rectangle { width: size, height: size }),
    {
        Rectangle { width: size, height: size }
    }
}

} // verus!
