//! Prime-factor histograms: the update rule behind the factorization demo.
//!
//! Each value is decomposed into prime-power exponents with the help of an
//! outside prime sieve; the exponents become columns of bricks sized to the
//! canvas. Only the primality test itself is delegated to the sieve — the
//! factorization loop, and everything it claims about its output, lives
//! here.

use vstd::arithmetic::div_mod::{lemma_fundamental_div_mod, lemma_mod_multiples_basic};
use vstd::arithmetic::power::{lemma_pow_positive, pow};
use vstd::prelude::*;

use crate::size::{usize_to_u32, SizeU32};

verus! {

/// Whether `n` is prime: at least two, with no divisor strictly between
/// one and itself.
pub open spec fn is_prime_spec(n: int) -> bool {
    n >= 2 && forall|d: int| 2 <= d < n ==> #[trigger] (n % d) != 0
}

/// `ps` lists, in increasing order, exactly the primes smaller than
/// `bound`.
pub open spec fn primes_below(ps: Seq<u32>, bound: int) -> bool {
    &&& (forall|k: int|
        0 <= k < ps.len() ==> is_prime_spec(#[trigger] ps[k] as int) && (ps[k] as int) < bound)
    &&& (forall|k1: int, k2: int| 0 <= k1 < k2 < ps.len() ==> ps[k1] < ps[k2])
    &&& (forall|p: int| 2 <= p < bound && is_prime_spec(p) ==> ps.contains(p as u32))
}

/// The product of `ps[k]` raised to `es[k]`, over the shorter length.
pub open spec fn pow_product(ps: Seq<u32>, es: Seq<u32>) -> int
    decreases es.len(),
{
    if es.len() == 0 || ps.len() == 0 {
        1
    } else {
        pow(ps[0] as int, es[0] as nat) * pow_product(ps.drop_first(), es.drop_first())
    }
}

/// `es` records, prime by prime in increasing order up to `bound`, the
/// exponents of a factorization of `n`.
pub open spec fn factorization(ps: Seq<u32>, bound: int, es: Seq<u32>, n: int) -> bool {
    &&& primes_below(ps, bound)
    &&& ps.len() == es.len()
    &&& pow_product(ps, es) == n
}

/// No candidate from two up to (but not including) `d` divides `m`.
pub open spec fn no_divisor_below(m: int, d: int) -> bool {
    forall|k: int| 2 <= k < d ==> #[trigger] (m % k) != 0
}

/// The sieve can grow only so far; beyond this many values its primality
/// test would never return.
pub const SIEVE_LIMIT: u32 = 100_000_000;

/// An incrementally growing prime sieve from the outside crate.
#[verifier::external_type_specification]
#[verifier::external_body]
pub struct ExSieve(rk_primes::Sieve);

/// Relies on rk_primes::Sieve::is_prime: grows the bit sieve past `value`
/// and reads off whether `value` is prime. The sieve caps its own growth at
/// 128 million values, so queries are kept below [`SIEVE_LIMIT`], where the
/// growth loop always terminates.
#[verifier::external_body]
fn sieve_is_prime(sieve: &mut rk_primes::Sieve, value: u32) -> (r: bool)
    requires
        value < SIEVE_LIMIT,
    ensures
        r == is_prime_spec(value as int),
{
    sieve.is_prime(value)
}

/// Divisibility carries across a chain: if `a` divides `b` and `b` divides
/// `c`, then `a` divides `c`.
proof fn lemma_divides_trans(a: int, b: int, c: int)
    requires
        a >= 1,
        b >= 1,
        c >= 0,
        b % a == 0,
        c % b == 0,
    ensures
        c % a == 0,
{
    lemma_fundamental_div_mod(b, a);
    lemma_fundamental_div_mod(c, b);
    let q1 = b / a;
    let q2 = c / b;
    assert(b == a * q1);
    assert(c == b * q2);
    assert(c == (q2 * q1) * a) by (nonlinear_arith)
        requires
            b == a * q1,
            c == b * q2,
    ;
    lemma_mod_multiples_basic(q2 * q1, a);
}

/// A power of a base of at least two exceeds its exponent.
proof fn lemma_pow_at_least_exp(b: int, e: nat)
    requires
        b >= 2,
    ensures
        pow(b, e) >= e + 1,
    decreases e,
{
    if e == 0 {
        assert(pow(b, 0) == 1) by {
            reveal(pow);
        }
    } else {
        lemma_pow_at_least_exp(b, (e - 1) as nat);
        assert(pow(b, e) == b * pow(b, (e - 1) as nat)) by {
            reveal(pow);
        }
        assert(b * pow(b, (e - 1) as nat) >= e + 1) by (nonlinear_arith)
            requires
                b >= 2,
                e >= 1,
                pow(b, (e - 1) as nat) >= e,
        ;
    }
}

/// Appending one prime and its exponent multiplies the product by that
/// prime power.
proof fn lemma_pow_product_push(ps: Seq<u32>, es: Seq<u32>, p: u32, e: u32)
    requires
        ps.len() == es.len(),
    ensures
        pow_product(ps.push(p), es.push(e)) == pow_product(ps, es) * pow(p as int, e as nat),
    decreases es.len(),
{
    if es.len() == 0 {
        assert(ps.push(p).drop_first() =~= Seq::<u32>::empty());
        assert(es.push(e).drop_first() =~= Seq::<u32>::empty());
        assert(pow_product(Seq::<u32>::empty(), Seq::<u32>::empty()) == 1);
        assert(pow_product(ps, es) == 1);
        assert(pow_product(ps.push(p), es.push(e)) == pow(p as int, e as nat) * 1);
    } else {
        assert(ps.push(p).drop_first() =~= ps.drop_first().push(p));
        assert(es.push(e).drop_first() =~= es.drop_first().push(e));
        lemma_pow_product_push(ps.drop_first(), es.drop_first(), p, e);
        assert(pow_product(ps.push(p), es.push(e)) == pow(ps[0] as int, es[0] as nat) * (
        pow_product(ps.drop_first(), es.drop_first()) * pow(p as int, e as nat)));
        assert(pow(ps[0] as int, es[0] as nat) * (pow_product(ps.drop_first(), es.drop_first())
            * pow(p as int, e as nat)) == (pow(ps[0] as int, es[0] as nat) * pow_product(
            ps.drop_first(),
            es.drop_first(),
        )) * pow(p as int, e as nat)) by (nonlinear_arith);
    }
}

/// What one round of dividing the prime `d` out of the residue
/// establishes: the prime list stays sorted and complete one candidate
/// further, the recorded product still multiplies back to `n`, and no
/// candidate up to and including `d` divides the new residue.
proof fn lemma_prime_step(
    ps: Seq<u32>,
    es: Seq<u32>,
    d: u32,
    e: u32,
    m0: int,
    m: int,
    n: int,
)
    requires
        primes_below(ps, d as int),
        is_prime_spec(d as int),
        ps.len() == es.len(),
        pow_product(ps, es) * m0 == n,
        pow(d as int, e as nat) * m == m0,
        m >= 1,
        m0 >= 1,
        m % (d as int) != 0,
        no_divisor_below(m0, d as int),
    ensures
        primes_below(ps.push(d), d as int + 1),
        pow_product(ps.push(d), es.push(e)) * m == n,
        1 <= m <= m0,
        no_divisor_below(m, d as int + 1),
        m == 1 ==> e >= 1 || m0 == 1,
{
    let psx = ps.push(d);
    let esx = es.push(e);
    lemma_pow_product_push(ps, es, d, e);
    assert(pow_product(psx, esx) * m == n) by (nonlinear_arith)
        requires
            pow_product(psx, esx) == pow_product(ps, es) * pow(d as int, e as nat),
            pow_product(ps, es) * m0 == n,
            pow(d as int, e as nat) * m == m0,
    ;
    lemma_pow_positive(d as int, e as nat);
    assert(m <= m0) by (nonlinear_arith)
        requires
            pow(d as int, e as nat) >= 1,
            pow(d as int, e as nat) * m == m0,
            m >= 1,
    ;
    assert forall|k: int| 2 <= k < d as int + 1 implies #[trigger] (m % k) != 0 by {
        if k < d as int {
            if m % k == 0 {
                lemma_mod_multiples_basic(pow(d as int, e as nat), m);
                assert(m0 % m == 0) by (nonlinear_arith)
                    requires
                        pow(d as int, e as nat) * m == m0,
                        m >= 1,
                        (pow(d as int, e as nat) * m) % m == 0,
                ;
                lemma_divides_trans(k, m, m0);
            }
        }
    }
    assert forall|k1: int, k2: int| 0 <= k1 < k2 < psx.len() implies psx[k1] < psx[k2] by {
        if k2 < psx.len() - 1 {
            assert(ps[k1] < ps[k2]);
        } else {
            assert(psx[k2] == d);
            assert((ps[k1] as int) < d as int);
        }
    }
    assert forall|p: int| 2 <= p < d as int + 1 && is_prime_spec(p) implies psx.contains(
        p as u32,
    ) by {
        if p < d as int {
            assert(ps.contains(p as u32));
            let k = choose|k: int| 0 <= k < ps.len() && ps[k] == p as u32;
            assert(psx[k] == p as u32);
        } else {
            assert(psx[psx.len() - 1] == d);
        }
    }
    if m == 1 && m0 != 1 {
        assert(e >= 1) by {
            if e == 0 {
                assert(pow(d as int, 0) == 1) by {
                    reveal(pow);
                }
            }
        }
    }
}

/// A composite candidate cannot divide a residue that none of the
/// candidates before it divides, and skipping it keeps the prime list
/// complete.
proof fn lemma_composite_step(ps: Seq<u32>, d: u32, m: int)
    requires
        d >= 2,
        m >= 1,
        primes_below(ps, d as int),
        !is_prime_spec(d as int),
        no_divisor_below(m, d as int),
    ensures
        primes_below(ps, d as int + 1),
        no_divisor_below(m, d as int + 1),
{
    let k = choose|k: int| 2 <= k < d as int && #[trigger] ((d as int) % k) == 0;
    assert(2 <= k < d as int && (d as int) % k == 0);
    assert forall|j: int| 2 <= j < d as int + 1 implies #[trigger] (m % j) != 0 by {
        if j == d as int {
            if m % j == 0 {
                lemma_divides_trans(k, d as int, m);
            }
        }
    }
    assert forall|p: int| 2 <= p < d as int + 1 && is_prime_spec(p) implies ps.contains(
        p as u32,
    ) by {
        assert(p != d as int);
    }
}

/// A residue of at least two that no candidate below `d` divides is itself
/// at least `d`: it divides itself.
proof fn lemma_residue_large(m: int, d: int)
    requires
        m >= 2,
        no_divisor_below(m, d),
    ensures
        m >= d,
{
    assert(m % m == 0) by (nonlinear_arith)
        requires
            m >= 1,
    ;
    if m < d {
        assert((m % m) != 0);
    }
}

/// Replaces `powers` with the exponents of all prime factors of `n`,
/// including zeroes, up to the largest prime factor: the primes below some
/// bound, taken in order, raised to these exponents, multiply back to `n`.
pub fn prime_factor(sieve: &mut rk_primes::Sieve, powers: &mut Vec<u32>, n: u32)
    requires
        n < SIEVE_LIMIT,
    ensures
        n < 2 ==> final(powers)@.len() == 0,
        n >= 2 ==> {
            &&& (exists|ps: Seq<u32>, bound: int|
                #[trigger] factorization(ps, bound, final(powers)@, n as int))
            &&& final(powers)@.len() > 0
            &&& final(powers)@.last() > 0
        },
{
    powers.clear();
    if n < 2 {
        return ;
    }
    let mut m: u32 = n;
    let mut d: u32 = 2;
    let ghost mut ps: Seq<u32> = Seq::empty();
    while m >= 2
        invariant
            2 <= d <= n + 1,
            1 <= m <= n,
            2 <= n < SIEVE_LIMIT,
            m >= 2 ==> d <= m,
            no_divisor_below(m as int, d as int),
            ps.len() == powers@.len(),
            primes_below(ps, d as int),
            pow_product(ps, powers@) * m == n,
            m < 2 ==> powers@.len() > 0 && powers@.last() > 0,
        decreases n + 1 - d,
    {
        let d_is_prime = sieve_is_prime(sieve, d);
        if d_is_prime {
            let ghost m0 = m as int;
            let mut e: u32 = 0;
            proof {
                assert(pow(d as int, 0) == 1) by {
                    reveal(pow);
                }
            }
            while m % d == 0
                invariant
                    2 <= d,
                    1 <= m,
                    m0 <= n < SIEVE_LIMIT,
                    pow(d as int, e as nat) * m == m0,
                    e < u32::MAX,
                decreases m,
            {
                proof {
                    lemma_fundamental_div_mod(m as int, d as int);
                    lemma_pow_positive(d as int, e as nat);
                    assert(pow(d as int, (e + 1) as nat) == d * pow(d as int, e as nat)) by {
                        reveal(pow);
                    }
                    assert(pow(d as int, (e + 1) as nat) * ((m as int) / (d as int)) == pow(
                        d as int,
                        e as nat,
                    ) * m) by (nonlinear_arith)
                        requires
                            m == (d as int) * ((m as int) / (d as int)),
                            pow(d as int, (e + 1) as nat) == d * pow(d as int, e as nat),
                    ;
                    assert(m / d < m) by (nonlinear_arith)
                        requires
                            d >= 2,
                            m >= 1,
                            m == (d as int) * ((m as int) / (d as int)),
                    ;
                    // The exponent stays far below its type's range: the
                    // accumulated power never exceeds the starting value.
                    lemma_pow_at_least_exp(d as int, (e + 1) as nat);
                    assert(pow(d as int, (e + 1) as nat) <= m0) by (nonlinear_arith)
                        requires
                            pow(d as int, (e + 1) as nat) * ((m as int) / (d as int)) == m0,
                            (m as int) / (d as int) >= 1,
                            pow(d as int, (e + 1) as nat) >= 1,
                    ;
                }
                m = m / d;
                e = e + 1;
            }
            let ghost pre_ps = ps;
            let ghost pre_es = powers@;
            powers.push(e);
            proof {
                ps = ps.push(d);
                lemma_prime_step(pre_ps, pre_es, d, e, m0, m as int, n as int);
            }
        } else {
            proof {
                lemma_composite_step(ps, d, m as int);
            }
        }
        proof {
            if m >= 2 {
                lemma_residue_large(m as int, d as int + 1);
            }
        }
        d = d + 1;
    }
    proof {
        assert(factorization(ps, d as int, powers@, n as int));
    }
}

/// The gap, in canvas pixels, left around each brick.
pub const GAP: u32 = 2;

/// One axis-aligned brick of a histogram column, in canvas pixels.
#[derive(Clone, Copy, PartialEq, Eq, Structural, Debug)]
pub struct Rect {
    pub x: u32,
    pub y: u32,
    pub w: u32,
    pub h: u32,
}

/// The largest exponent in a column set, defaulting to one on an empty
/// set so that an empty histogram divides cleanly.
pub open spec fn max_power_of(s: Seq<u32>) -> int
    decreases s.len(),
{
    if s.len() == 0 {
        1
    } else if s.len() == 1 {
        s[0] as int
    } else {
        let rest = max_power_of(s.drop_last());
        if s.last() as int > rest {
            s.last() as int
        } else {
            rest
        }
    }
}

/// Lays the exponents of a factorization out as columns of bricks sized to
/// a canvas: each column one candidate prime, each brick one unit of its
/// exponent.
pub struct Columns {
    powers: Vec<u32>,
    brick: SizeU32,
    index: usize,
}

impl Columns {
    /// The exponents represented by these columns.
    pub closed spec fn powers_spec(self) -> Seq<u32> {
        self.powers@
    }

    /// The size of each brick.
    pub closed spec fn brick_spec(self) -> SizeU32 {
        self.brick
    }

    /// The next column to hand out.
    pub closed spec fn index_spec(self) -> int {
        self.index as int
    }

    /// Brick sizes small enough that no coordinate can overflow.
    pub open spec fn wf(self) -> bool {
        &&& self.powers_spec().len() <= u32::MAX
        &&& (self.brick_spec().width as int) * (self.powers_spec().len() as int) <= u32::MAX - 2
        &&& (forall|k: int|
            0 <= k < self.powers_spec().len() ==> (self.brick_spec().height as int) * (
            #[trigger] self.powers_spec()[k] as int) <= u32::MAX - 2)
    }

    /// The brick for unit `p` of column `col`.
    pub open spec fn brick_at(self, col: int, p: int) -> Rect {
        Rect {
            x: (col * self.brick_spec().width + GAP) as u32,
            y: (p * self.brick_spec().height + GAP) as u32,
            w: if self.brick_spec().width >= 2 * GAP {
                (self.brick_spec().width - 2 * GAP) as u32
            } else {
                0
            },
            h: if self.brick_spec().height >= 2 * GAP {
                (self.brick_spec().height - 2 * GAP) as u32
            } else {
                0
            },
        }
    }

    /// Sizes bricks so the columns span the canvas width and the tallest
    /// column spans its height.
    pub fn new(powers: &Vec<u32>, canvas: SizeU32) -> (r: Columns)
        requires
            powers@.len() <= u32::MAX,
            canvas.width <= u32::MAX - 2,
            canvas.height <= u32::MAX - 2,
        ensures
            r.wf(),
            r.powers_spec() == powers@,
            r.index_spec() == 0,
            r.brick_spec().width == if powers@.len() == 0 {
                0int
            } else {
                (canvas.width as int) / (powers@.len() as int)
            },
            r.brick_spec().height == if max_power_of(powers@) == 0 {
                0int
            } else {
                (canvas.height as int) / max_power_of(powers@)
            },
    {
        let len = powers.len();
        let mut max_power: u32 = 1;
        if len > 0 {
            max_power = powers[0];
            let mut k: usize = 1;
            while k < len
                invariant
                    1 <= k <= len,
                    len == powers@.len(),
                    max_power == max_power_of(powers@.take(k as int)),
                decreases len - k,
            {
                proof {
                    assert(powers@.take(k as int + 1).drop_last() =~= powers@.take(k as int));
                }
                if powers[k] > max_power {
                    max_power = powers[k];
                }
                k += 1;
            }
            proof {
                assert(powers@.take(len as int) =~= powers@);
            }
        }
        let width = if len == 0 {
            0
        } else {
            canvas.width / usize_to_u32(len)
        };
        let height = if max_power == 0 {
            0
        } else {
            canvas.height / max_power
        };
        proof {
            let s = powers@;
            if len > 0 {
                lemma_div_times_bound(canvas.width as int, len as int);
                assert((width as int) * (len as int) <= canvas.width as int);
            }
            if max_power > 0 {
                lemma_div_times_bound(canvas.height as int, max_power as int);
                assert forall|k: int| 0 <= k < s.len() implies (height as int) * (
                #[trigger] s[k] as int) <= u32::MAX - 2 by {
                    lemma_max_power_ge(s, k);
                    lemma_mul_le(s[k] as int, max_power as int, height as int);
                }
            } else {
                assert forall|k: int| 0 <= k < s.len() implies (height as int) * (
                #[trigger] s[k] as int) <= u32::MAX - 2 by {
                    lemma_mul_le(0, s[k] as int, 0);
                }
            }
        }
        Columns { powers: powers.clone(), brick: SizeU32 { height, width }, index: 0 }
    }

    /// Hands out the bricks of the next column, or nothing once every
    /// column has been produced.
    pub fn next(&mut self) -> (r: Option<Vec<Rect>>)
        requires
            old(self).wf(),
        ensures
            final(self).wf(),
            final(self).powers_spec() == old(self).powers_spec(),
            final(self).brick_spec() == old(self).brick_spec(),
            old(self).index_spec() >= old(self).powers_spec().len() ==> r is None && final(self).index_spec() == old(self).index_spec(),
            old(self).index_spec() < old(self).powers_spec().len() ==> {
                &&& final(self).index_spec() == old(self).index_spec() + 1
                &&& r matches Some(v) && v@.len() == old(self).powers_spec()[old(self).index_spec()] && (forall|p: int|
                    0 <= p < v@.len() ==> v@[p] == old(self).brick_at(old(self).index_spec(), p))
            },
    {
        let length = self.powers.len();
        if self.index >= length {
            return None;
        }
        let count = self.powers[self.index];
        proof {
            lemma_mul_le(self.index as int, self.powers@.len() as int, self.brick.width as int);
        }
        let x = usize_to_u32(self.index) * self.brick.width;
        let w = if self.brick.width >= 2 * GAP {
            self.brick.width - 2 * GAP
        } else {
            0
        };
        let h = if self.brick.height >= 2 * GAP {
            self.brick.height - 2 * GAP
        } else {
            0
        };
        let mut rects: Vec<Rect> = Vec::new();
        let mut p: u32 = 0;
        while p < count
            invariant
                self.wf(),
                p <= count,
                self.index < self.powers@.len(),
                count == self.powers@[self.index as int],
                x == self.index as int * self.brick.width as int,
                x <= u32::MAX - 2,
                w == self.brick_at(self.index as int, 0).w,
                h == self.brick_at(self.index as int, 0).h,
                rects@.len() == p,
                forall|q: int| 0 <= q < p ==> rects@[q] == self.brick_at(self.index as int, q),
            decreases count - p,
        {
            proof {
                lemma_mul_le(p as int, count as int, self.brick.height as int);
                assert((self.brick.height as int) * (count as int) <= u32::MAX - 2);
            }
            let y = p * self.brick.height;
            rects.push(Rect { x: x + GAP, y: y + GAP, w, h });
            p += 1;
        }
        self.index += 1;
        Some(rects)
    }
}

/// Multiplication by a non-negative factor preserves an upper bound on the
/// other factor, whichever side the factor stands on.
proof fn lemma_mul_le(a: int, b: int, c: int)
    requires
        0 <= a <= b,
        0 <= c,
    ensures
        a * c <= b * c,
        c * a <= c * b,
        a * c == c * a,
        b * c == c * b,
{
    assert(a * c <= b * c && c * a <= c * b && a * c == c * a && b * c == c * b)
        by (nonlinear_arith)
        requires
            0 <= a <= b,
            0 <= c,
    ;
}

/// A quotient times its divisor is at most the dividend.
proof fn lemma_div_times_bound(x: int, d: int)
    requires
        x >= 0,
        d >= 1,
    ensures
        (x / d) * d <= x,
        d * (x / d) <= x,
{
    lemma_fundamental_div_mod(x, d);
    vstd::arithmetic::div_mod::lemma_mod_bound(x, d);
    assert((x / d) * d == d * (x / d)) by (nonlinear_arith);
}

/// Every exponent is bounded by the column set's largest.
proof fn lemma_max_power_ge(s: Seq<u32>, k: int)
    requires
        0 <= k < s.len(),
    ensures
        s[k] <= max_power_of(s),
    decreases s.len(),
{
    if s.len() > 1 {
        if k < s.len() - 1 {
            lemma_max_power_ge(s.drop_last(), k);
            assert(s.drop_last()[k] == s[k]);
        }
    }
}

/// Counts values and carries their prime-exponent decomposition, column by
/// column.
pub struct Histogram {
    powers: Vec<u32>,
    value: u32,
}

impl Histogram {
    /// The value most recently decomposed.
    pub closed spec fn value_spec(self) -> u32 {
        self.value
    }

    /// The exponents of the current value's factorization.
    pub closed spec fn powers_spec(self) -> Seq<u32> {
        self.powers@
    }

    /// A histogram starting at one, which has no prime factors.
    pub fn new() -> (r: Histogram)
        ensures
            r.value_spec() == 1,
            r.powers_spec().len() == 0,
    {
        Histogram { powers: Vec::new(), value: 1 }
    }

    /// The current value.
    pub fn value(&self) -> (r: u32)
        ensures
            r == self.value_spec(),
    {
        self.value
    }

    /// The current exponents, for rendering.
    pub fn powers(&self) -> (r: &Vec<u32>)
        ensures
            r@ == self.powers_spec(),
    {
        &self.powers
    }

    /// Steps to the next value and records its factorization.
    pub fn incr(&mut self, sieve: &mut rk_primes::Sieve)
        requires
            old(self).value_spec() < SIEVE_LIMIT - 1,
        ensures
            final(self).value_spec() == old(self).value_spec() + 1,
            final(self).value_spec() >= 2 ==> {
                &&& (exists|ps: Seq<u32>, bound: int|
                    #[trigger] factorization(
                        ps,
                        bound,
                        final(self).powers_spec(),
                        final(self).value_spec() as int,
                    ))
                &&& final(self).powers_spec().len() > 0
                &&& final(self).powers_spec().last() > 0
            },
    {
        self.value = self.value + 1;
        let value = self.value;
        prime_factor(sieve, &mut self.powers, value);
    }
}

/// Slows an animation down: only every `period`-th tick does work.
pub struct Throttle {
    counter: u32,
    period: u32,
}

impl Throttle {
    /// The number of ticks seen so far.
    pub closed spec fn counter_spec(self) -> u32 {
        self.counter
    }

    /// The tick period.
    pub closed spec fn period_spec(self) -> u32 {
        self.period
    }

    /// The period is never zero.
    pub open spec fn wf(self) -> bool {
        self.period_spec() != 0
    }

    /// A throttle passing one tick in every `period`.
    pub fn new(period: u32) -> (r: Throttle)
        requires
            period != 0,
        ensures
            r.wf(),
            r.counter_spec() == 0,
            r.period_spec() == period,
    {
        Throttle { counter: 0, period }
    }

    /// Counts a tick; true when the tick should be skipped, which is every
    /// tick whose number is not a multiple of the period.
    pub fn skip(&mut self) -> (r: bool)
        requires
            old(self).wf(),
            old(self).counter_spec() < u32::MAX,
        ensures
            final(self).wf(),
            final(self).counter_spec() == old(self).counter_spec() + 1,
            final(self).period_spec() == old(self).period_spec(),
            r == (old(self).counter_spec() as int % old(self).period_spec() as int != 0),
    {
        let counter = self.counter;
        self.counter = self.counter + 1;
        counter % self.period != 0
    }
}

} // verus!
