//! Wraparound arithmetic on the index space `[0, LIMIT)`.
use vstd::arithmetic::div_mod::{lemma_mod_add_multiples_vanish, lemma_small_mod};
use num::Integer;
use vstd::prelude::*;

verus! {

/// `(a + b) mod limit`, the value every forward-moving counter takes.
pub open spec fn wrap(a: int, b: int, limit: int) -> int {
    (a + b) % limit
}

/// Relies on num's `Integer::mod_floor` for `usize`, which returns `a % m` and panics
/// when `m` is zero.
#[verifier::external_body]
fn mod_floor(a: usize, m: usize) -> (r: usize)
    requires
        m > 0,
    ensures
        r == a % m,
{
    a.mod_floor(&m)
}

/// Adds `b` to `a`, wrapping around at `LIMIT`.
pub fn safe_add<const LIMIT: usize>(a: usize, b: usize) -> (r: usize)
    requires
        LIMIT > 0,
        a + b <= usize::MAX,
    ensures
        r == wrap(a as int, b as int, LIMIT as int),
        r < LIMIT,
{
    mod_floor(a + b, LIMIT)
}

/// One step forward on the ring.
pub fn add1<const LIMIT: usize>(value: usize) -> (r: usize)
    requires
        LIMIT > 0,
        value < usize::MAX,
    ensures
        r == wrap(value as int, 1, LIMIT as int),
        r < LIMIT,
{
    safe_add::<LIMIT>(value, 1)
}

/// One step backward on the ring.
pub fn sub1<const LIMIT: usize>(value: usize) -> (r: usize)
    requires
        LIMIT > 0,
        value + LIMIT - 1 <= usize::MAX,
    ensures
        r == wrap(value as int, LIMIT - 1, LIMIT as int),
        r < LIMIT,
        value < LIMIT ==> r == if value == 0 { LIMIT - 1 } else { (value - 1) as int },
{
    proof {
        if 0 < value < LIMIT {
            let v = (value - 1) as int;
            lemma_mod_add_multiples_vanish(v, LIMIT as int);
            lemma_small_mod(v as nat, LIMIT as nat);
        } else if value == 0 {
            lemma_small_mod((LIMIT - 1) as nat, LIMIT as nat);
        }
    }
    safe_add::<LIMIT>(value, LIMIT - 1)
}

} // verus!
