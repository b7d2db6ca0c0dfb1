use vstd::prelude::*;
use crate::value::{Scm, ScmView, FIXNUM_MAX, lemma_integer_in_range};

verus! {

/// The Fibonacci sequence starting 1, 1, 2, 3, 5, ...; every index below 2 gives 1.
pub open spec fn fib(n: int) -> nat
    decreases n,
{
    if n < 2 {
        1
    } else {
        fib(n - 1) + fib(n - 2)
    }
}

/// Computes the Fibonacci number of an integer value by naive recursion,
/// decoding and encoding an immediate at every step.
pub fn fibonacci(n: Scm) -> (r: Scm)
    requires
        n@ is Integer,
        fib(n@->Integer_0) <= FIXNUM_MAX,
    ensures
        r@ == ScmView::Integer(fib(n@->Integer_0) as int),
    decreases n@->Integer_0,
{
    let k = n.as_integer().unwrap();
    proof {
        lemma_integer_in_range(n);
    }
    if k < 2 {
        Scm::from_int(1)
    } else {
        let a = fibonacci(Scm::from_int(k - 1)).as_integer().unwrap();
        let b = fibonacci(Scm::from_int(k - 2)).as_integer().unwrap();
        Scm::from_int(a + b)
    }
}

} // verus!
