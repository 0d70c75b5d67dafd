//! The computations behind the renderer: the width of the line-number
//! gutter. Putting characters on the screen is left to the program
//! around the core; it reads the buffer lines, the display cursor and
//! the scroll offset through the state's accessors.

use vstd::prelude::*;

verus! {

/// How the renderer is configured: whether the line-number gutter is
/// drawn.
pub struct EditorDraw {
    pub number: bool,
}

/// The number of decimal digits of `n`, at least 1.
pub open spec fn spec_digits(n: nat) -> nat
    decreases n,
{
    if n < 10 {
        1
    } else {
        1 + spec_digits(n / 10)
    }
}

proof fn lemma_digits_bound(n: nat)
    ensures
        spec_digits(n) >= 1,
        n < 10 ==> spec_digits(n) == 1,
        n >= 10 ==> spec_digits(n) <= n,
    decreases n,
{
    if n >= 10 {
        lemma_digits_bound(n / 10);
    }
}

impl EditorDraw {
    /// The width of the line-number gutter: the number of decimal
    /// digits of the line count.
    pub fn line_number_width(count: usize) -> (r: usize)
        ensures
            r == spec_digits(count as nat),
    {
        let mut n = count;
        let mut w: usize = 1;
        while n >= 10
            invariant
                w >= 1,
                n <= count,
                w + spec_digits(n as nat) == 1 + spec_digits(count as nat),
            decreases n,
    {
            proof {
                lemma_digits_bound(count as nat);
                lemma_digits_bound(n as nat);
                lemma_digits_bound((n / 10) as nat);
            }
            n = n / 10;
            w = w + 1;
        }
        w
    }
}

} // verus!
