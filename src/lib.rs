use vstd::prelude::*;

pub mod bits;
pub mod gic;
pub mod hw;
pub mod init;

use vstd::arithmetic::div_mod::{lemma_fundamental_div_mod, lemma_fundamental_div_mod_converse_div};

verus! {

/// Rounds the quotient `dividend / divisor` up to the next whole number.
pub fn div_ceil(dividend: u32, divisor: u32) -> (r: u32)
    requires
        divisor > 0,
    ensures
        r as int == (dividend as int + divisor as int - 1) / divisor as int,
{
    let x: u32 = dividend / divisor;
    proof {
        let (d, q) = (dividend as int, divisor as int);
        lemma_fundamental_div_mod(d, q);
        let r = d % q;
        if r == 0 {
            lemma_fundamental_div_mod_converse_div(d + q - 1, q, x as int, q - 1);
        } else {
            assert(d + q - 1 == (x as int + 1) * q + (r - 1)) by (nonlinear_arith)
                requires d == q * x + r;
            lemma_fundamental_div_mod_converse_div(d + q - 1, q, x as int + 1, r - 1);
            assert(x as int * 2 <= d) by (nonlinear_arith)
                requires d == q * x + r, q >= 2, r >= 0, x >= 0;
        }
    }
    if dividend % divisor != 0 {
        x + 1
    } else {
        x
    }
}

} // verus!
