//! The pseudo-random sequence of the call ids has the longest period there is.
//!
//! A step of the sequence is linear over the field of two elements. Polynomials in a
//! step, of a degree below 64, are kept as the bits of a `u64`: they are multiplied
//! modulo the polynomial that a step satisfies, and act on the states. So the state
//! after very many steps is that on which a computed polynomial acts.
use crate::llm::google::{next_random, random_after};
use vstd::arithmetic::div_mod::{
    lemma_fundamental_div_mod, lemma_fundamental_div_mod_converse,
};
use vstd::prelude::*;

verus! {

// ---------------------------------------------------------------------------
// Polynomials in a step
// ---------------------------------------------------------------------------

/// The 64th power of a step, as a sum of lower ones.
pub const MODULUS: u64 = 0x013e_d4a3_5891_3201;

/// The coefficient at a power.
pub open spec fn bit(q: u64, n: u64) -> bool {
    (q >> n) & 1 == 1
}

/// The value, or nothing.
pub open spec fn pick(b: bool, x: u64) -> u64 {
    if b {
        x
    } else {
        0u64
    }
}

/// A polynomial times a step.
pub open spec fn times_step(q: u64) -> u64 {
    (q << 1) ^ pick(q >> 63 == 1, MODULUS)
}

/// The product with a polynomial of which the `n` highest coefficients are taken.
pub open spec fn product(a: u64, b: u64, n: u64) -> u64
    decreases n,
{
    if n == 0 {
        0
    } else {
        times_step(product(a, b, (n - 1) as u64)) ^ pick(bit(b, (64 - n) as u64), a)
    }
}

/// A power of a step.
pub open spec fn power(e: u64) -> u64
    decreases e,
{
    if e == 0 {
        1
    } else {
        let h = power(e / 2);
        let s = product(h, h, 64);
        if e % 2 == 1 {
            times_step(s)
        } else {
            s
        }
    }
}

/// What a polynomial makes of a state, if its `n` highest coefficients are taken.
pub open spec fn acts(q: u64, x: u64, n: u64) -> u64
    decreases n,
{
    if n == 0 {
        0
    } else {
        next_random(acts(q, x, (n - 1) as u64)) ^ pick(bit(q, (64 - n) as u64), x)
    }
}

/// The state after `n` steps.
pub open spec fn stepped(x: u64, n: u64) -> u64
    decreases n,
{
    if n == 0 {
        x
    } else {
        next_random(stepped(x, (n - 1) as u64))
    }
}

// ---------------------------------------------------------------------------
// Linearity
// ---------------------------------------------------------------------------

/// A step is linear, and only nothing becomes nothing.
proof fn step_is_linear(a: u64, b: u64)
    ensures
        next_random(a ^ b) == next_random(a) ^ next_random(b),
        next_random(0) == 0,
        next_random(a) == 0 ==> a == 0,
{
    assert(next_random(a ^ b) == next_random(a) ^ next_random(b)) by (bit_vector);
    assert(next_random(0) == 0) by (bit_vector);
    assert(next_random(a) == 0 ==> a == 0) by (bit_vector);
}

/// Sums can be rearranged.
proof fn sums(a: u64, b: u64, c: u64, d: u64)
    ensures
        (a ^ b) ^ (c ^ d) == (a ^ c) ^ (b ^ d),
        a ^ 0 == a,
        0 ^ a == a,
        a ^ a == 0,
        (a ^ b) ^ b == a,
        a ^ b == 0 ==> a == b,
{
    assert((a ^ b) ^ (c ^ d) == (a ^ c) ^ (b ^ d) && a ^ 0 == a && 0 ^ a == a && a ^ a == 0 && (a
        ^ b) ^ b == a && (a ^ b == 0 ==> a == b)) by (bit_vector);
}

/// A polynomial acts linearly.
proof fn acts_on_sums(q: u64, x: u64, y: u64, n: u64)
    ensures
        acts(q, x ^ y, n) == acts(q, x, n) ^ acts(q, y, n),
        acts(q, 0, n) == 0,
    decreases n,
{
    if n == 0 {
        sums(0, 0, 0, 0);
    } else {
        let m = (n - 1) as u64;
        acts_on_sums(q, x, y, m);
        step_is_linear(acts(q, x, m), acts(q, y, m));
        let b = bit(q, (64 - n) as u64);
        sums(0, 0, 0, 0);
        sums(
            next_random(acts(q, x, m)),
            next_random(acts(q, y, m)),
            pick(b, x),
            pick(b, y),
        );
    }
}

/// A sum of polynomials acts as the sum.
proof fn sums_act(q: u64, r: u64, x: u64, n: u64)
    requires
        n <= 64,
    ensures
        acts(q ^ r, x, n) == acts(q, x, n) ^ acts(r, x, n),
    decreases n,
{
    sums(0, 0, 0, 0);
    if n > 0 {
        let m = (n - 1) as u64;
        let k = (64 - n) as u64;
        sums_act(q, r, x, m);
        step_is_linear(acts(q, x, m), acts(r, x, m));
        assert(pick(bit(q ^ r, k), x) == pick(bit(q, k), x) ^ pick(bit(r, k), x)) by (bit_vector);
        sums(
            next_random(acts(q, x, m)),
            next_random(acts(r, x, m)),
            pick(bit(q, k), x),
            pick(bit(r, k), x),
        );
    }
}

/// Steps are linear.
proof fn stepped_sums(x: u64, y: u64, n: u64)
    ensures
        stepped(x ^ y, n) == stepped(x, n) ^ stepped(y, n),
        stepped(0, n) == 0,
    decreases n,
{
    if n > 0 {
        let m = (n - 1) as u64;
        stepped_sums(x, y, m);
        step_is_linear(stepped(x, m), stepped(y, m));
    }
}

// ---------------------------------------------------------------------------
// The polynomial that a step satisfies
// ---------------------------------------------------------------------------

/// The first `n` states with a single bit are as [`MODULUS`] says after 64 steps.
pub open spec fn units_agree(n: u64) -> bool
    decreases n,
{
    n == 0 || (units_agree((n - 1) as u64) && stepped(1u64 << ((n - 1) as u64), 64) == acts(
        MODULUS,
        1u64 << ((n - 1) as u64),
        64,
    ))
}

/// So is each of them.
proof fn unit_agrees(n: u64, k: u64)
    requires
        units_agree(n),
        k < n,
    ensures
        stepped(1u64 << k, 64) == acts(MODULUS, 1u64 << k, 64),
    decreases n,
{
    if k + 1 < n {
        unit_agrees((n - 1) as u64, k);
    }
}

/// So is each state, as a sum of them.
proof fn states_agree(x: u64, n: u64)
    requires
        n <= 64,
        n < 64 ==> x >> n == 0,
        units_agree(64),
    ensures
        stepped(x, 64) == acts(MODULUS, x, 64),
    decreases n,
{
    if n == 0 {
        assert(x >> 0 == 0 ==> x == 0) by (bit_vector);
        stepped_sums(0, 0, 64);
        acts_on_sums(MODULUS, 0, 0, 64);
    } else {
        let k = (n - 1) as u64;
        let u = 1u64 << k;
        let y = x ^ u;
        if bit(x, k) {
            assert(k < 64 && (k < 63 ==> x >> ((k + 1) as u64) == 0) && bit(x, k) ==> (x ^ (1u64
                << k)) >> k == 0) by (bit_vector);
            assert(k < 63 ==> (k + 1) as u64 == n);
            states_agree(y, k);
            unit_agrees(64, k);
            stepped_sums(y, u, 64);
            acts_on_sums(MODULUS, y, u, 64);
            sums(x, u, 0, 0);
        } else {
            assert(k < 64 && (k < 63 ==> x >> ((k + 1) as u64) == 0) && !bit(x, k) ==> x >> k
                == 0) by (bit_vector);
            states_agree(x, k);
        }
    }
}

/// After 64 steps each state is as [`MODULUS`] says.
proof fn modulus_holds(x: u64)
    ensures
        stepped(x, 64) == acts(MODULUS, x, 64),
{
    assert(units_agree(64)) by (bit_vector);
    states_agree(x, 64);
}

// ---------------------------------------------------------------------------
// Products act one after the other
// ---------------------------------------------------------------------------

/// Shifting a polynomial leaves its highest coefficient out.
proof fn shifted_acts(q: u64, x: u64, n: u64)
    requires
        n < 64,
    ensures
        acts(q, x, (n + 1) as u64) == acts(q << 1, x, n) ^ pick(q >> 63 == 1, stepped(x, n)),
    decreases n,
{
    let top = q >> 63 == 1;
    step_is_linear(0, 0);
    sums(pick(top, x), 0, 0, 0);
    if n == 0 {
        assert(bit(q, 63) == (q >> 63 == 1)) by (bit_vector);
        assert(acts(q, x, 0) == 0);
        assert(acts(q, x, 1) == next_random(acts(q, x, 0)) ^ pick(bit(q, 63), x));
    } else {
        let m = (n - 1) as u64;
        shifted_acts(q, x, m);
        let k = (64 - n) as u64;
        let l = (63 - n) as u64;
        assert(1 <= n < 64 ==> bit(q << 1, (64 - n) as u64) == bit(q, (63 - n) as u64))
            by (bit_vector);
        step_is_linear(acts(q << 1, x, m), pick(top, stepped(x, m)));
        let a = next_random(acts(q << 1, x, m));
        let b = next_random(pick(top, stepped(x, m)));
        let c = pick(bit(q, l), x);
        assert(b == pick(top, stepped(x, n)));
        assert(acts(q, x, (n + 1) as u64) == (a ^ b) ^ c);
        assert((a ^ b) ^ c == (a ^ c) ^ b) by (bit_vector);
    }
}

/// A polynomial times a step acts as the polynomial and then a step.
proof fn times_step_acts(q: u64, x: u64)
    ensures
        acts(times_step(q), x, 64) == next_random(acts(q, x, 64)),
{
    let top = q >> 63 == 1;
    shifted_acts(q, x, 63);
    step_is_linear(acts(q, x, 64), pick(top, stepped(x, 63)));
    sums(acts(q << 1, x, 63), pick(top, stepped(x, 63)), 0, 0);
    assert(!bit(q << 1, 0)) by (bit_vector);
    let s = acts(q << 1, x, 64);
    assert(s == next_random(acts(q << 1, x, 63)) ^ 0);
    sums(next_random(acts(q << 1, x, 63)), 0, 0, 0);
    let lost = next_random(pick(top, stepped(x, 63)));
    step_is_linear(0, 0);
    assert(lost == pick(top, stepped(x, 64)));
    step_is_linear(acts(q << 1, x, 63), pick(top, stepped(x, 63)));
    assert(next_random(acts(q, x, 64)) == s ^ lost);
    modulus_holds(x);
    sums_act(q << 1, pick(top, MODULUS), x, 64);
    zero_acts(x, 64);
    sums(s, 0, 0, 0);
}

/// The polynomial without coefficients makes nothing of a state.
proof fn zero_acts(x: u64, n: u64)
    requires
        n <= 64,
    ensures
        acts(0, x, n) == 0,
    decreases n,
{
    if n > 0 {
        let k = (64 - n) as u64;
        zero_acts(x, (n - 1) as u64);
        assert(!bit(0, k)) by (bit_vector);
        step_is_linear(0, 0);
        sums(0, 0, 0, 0);
    }
}

/// The polynomial one leaves a state as it is.
proof fn one_acts(x: u64, n: u64)
    requires
        n <= 64,
    ensures
        acts(1, x, n) == if n == 64 {
            x
        } else {
            0u64
        },
    decreases n,
{
    if n > 0 {
        let k = (64 - n) as u64;
        one_acts(x, (n - 1) as u64);
        assert(k < 64 ==> bit(1, k) == (k == 0)) by (bit_vector);
        step_is_linear(0, 0);
        sums(x, 0, 0, 0);
        sums(0, 0, 0, 0);
    }
}

/// A product acts as its factors do, one after the other.
proof fn product_acts(a: u64, b: u64, x: u64, n: u64)
    requires
        n <= 64,
    ensures
        acts(product(a, b, n), x, 64) == acts(b, acts(a, x, 64), n),
    decreases n,
{
    if n == 0 {
        zero_acts(x, 64);
    } else {
        let m = (n - 1) as u64;
        let k = (64 - n) as u64;
        product_acts(a, b, x, m);
        times_step_acts(product(a, b, m), x);
        sums_act(times_step(product(a, b, m)), pick(bit(b, k), a), x, 64);
        zero_acts(x, 64);
    }
}

// ---------------------------------------------------------------------------
// Many steps
// ---------------------------------------------------------------------------

/// Steps add up.
proof fn steps_add(x: u64, i: nat, j: nat)
    ensures
        random_after(random_after(x, i), j) == random_after(x, i + j),
    decreases j,
{
    if j > 0 {
        steps_add(x, i, (j - 1) as nat);
        assert((i + j - 1) as nat == i + (j - 1) as nat);
    }
}

/// Steps keep different states different.
proof fn steps_are_injective(x: u64, y: u64, n: nat)
    requires
        random_after(x, n) == random_after(y, n),
    ensures
        x == y,
    decreases n,
{
    if n > 0 {
        let a = random_after(x, (n - 1) as nat);
        let b = random_after(y, (n - 1) as nat);
        step_is_linear(a, b);
        step_is_linear(a ^ b, 0);
        sums(next_random(a), next_random(b), 0, 0);
        sums(a, b, 0, 0);
        steps_are_injective(x, y, (n - 1) as nat);
    }
}

/// A power of a step acts as that many steps.
proof fn power_acts(e: u64, x: u64)
    ensures
        acts(power(e), x, 64) == random_after(x, e as nat),
    decreases e,
{
    if e == 0 {
        one_acts(x, 64);
    } else {
        let half = (e / 2) as nat;
        let h = power(e / 2);
        let s = product(h, h, 64);
        power_acts(e / 2, x);
        power_acts(e / 2, random_after(x, half));
        product_acts(h, h, x, 64);
        steps_add(x, half, half);
        assert(acts(s, x, 64) == random_after(x, half + half));
        if e % 2 == 1 {
            times_step_acts(s, x);
            assert(e as nat == half + half + 1);
            assert((e as nat - 1) as nat == half + half);
        } else {
            assert(e as nat == half + half);
        }
    }
}

/// The state comes back after `n` steps.
pub open spec fn comes_back(x: u64, n: nat) -> bool {
    random_after(x, n) == x
}

/// Every state comes back after as many steps as there are states but nothing.
proof fn all_return(x: u64)
    ensures
        comes_back(x, u64::MAX as nat),
{
    assert(power(0xffff_ffff_ffff_ffff) == 1) by (bit_vector);
    power_acts(0xffff_ffff_ffff_ffff, x);
    one_acts(x, 64);
}

/// Where a power less one has an inverse, only nothing comes back after that many
/// steps.
proof fn none_returns(e: u64, inverse: u64, x: u64)
    requires
        product(power(e) ^ 1, inverse, 64) == 1,
        comes_back(x, e as nat),
    ensures
        x == 0,
{
    let d = power(e) ^ 1;
    power_acts(e, x);
    one_acts(x, 64);
    sums_act(power(e), 1, x, 64);
    sums(x, x, 0, 0);
    assert(acts(d, x, 64) == 0);
    product_acts(d, inverse, x, 64);
    acts_on_sums(inverse, 0, 0, 64);
}

// ---------------------------------------------------------------------------
// Divisors
// ---------------------------------------------------------------------------

/// The greatest common divisor.
pub open spec fn gcd(a: nat, b: nat) -> nat
    decreases b,
{
    if b == 0 {
        a
    } else {
        gcd(b, a % b)
    }
}

/// A number divides its multiples.
proof fn multiple(n: int, d: nat, k: int)
    requires
        d > 0,
        n == d * k,
    ensures
        n % d as int == 0,
        n / d as int == k,
{
    assert(n == k * d + 0) by (nonlinear_arith)
        requires
            n == d * k,
    ;
    lemma_fundamental_div_mod_converse(n, d as int, k, 0);
}

/// What a number divides is a multiple of it.
proof fn quotient(n: nat, d: nat)
    requires
        d > 0,
        n % d == 0,
    ensures
        n == d * (n / d),
{
    lemma_fundamental_div_mod(n as int, d as int);
}

/// The greatest common divisor divides both numbers.
proof fn gcd_divides(a: nat, b: nat)
    requires
        a > 0,
    ensures
        gcd(a, b) > 0,
        a % gcd(a, b) == 0,
        b % gcd(a, b) == 0,
    decreases b,
{
    if b == 0 {
        multiple(a as int, a, 1);
        multiple(0, a, 0);
    } else {
        let r = a % b;
        let g = gcd(b, r);
        gcd_divides(b, r);
        quotient(b, g);
        quotient(r, g);
        lemma_fundamental_div_mod(a as int, b as int);
        let (x, y, q) = ((b / g) as int, (r / g) as int, (a / b) as int);
        assert(a == g * (x * q + y)) by (nonlinear_arith)
            requires
                a == b * q + r,
                b == g * x,
                r == g * y,
        ;
        multiple(a as int, g, x * q + y);
    }
}

/// A prime number.
pub open spec fn prime(p: nat) -> bool {
    p > 1 && forall|k: nat| 1 < k < p ==> #[trigger] (p % k) != 0
}

/// No number from `lo` up to `hi` divides `p`.
pub open spec fn undivided(p: u64, lo: u64, hi: u64) -> bool
    decreases hi - lo,
{
    if hi <= lo {
        true
    } else if hi - lo == 1 {
        p % lo != 0
    } else {
        let mid = ((lo + hi) / 2) as u64;
        undivided(p, lo, mid) && undivided(p, mid, hi)
    }
}

/// So none of them does.
proof fn undivided_by(p: u64, lo: u64, hi: u64, k: u64)
    requires
        undivided(p, lo, hi),
        0 < lo <= k < hi,
    ensures
        p % k != 0,
    decreases hi - lo,
{
    if hi - lo > 1 {
        let mid = ((lo + hi) / 2) as u64;
        if k < mid {
            undivided_by(p, lo, mid, k);
        } else {
            undivided_by(p, mid, hi, k);
        }
    }
}

/// A number that nothing up to its root divides is prime.
proof fn root_suffices(p: u64, s: u64)
    requires
        1 < p < s * s,
        undivided(p, 2, s),
    ensures
        prime(p as nat),
{
    assert forall|k: nat| 1 < k < p as nat implies #[trigger] (p as nat % k) != 0 by {
        if p as nat % k == 0 {
            if k < s {
                undivided_by(p, 2, s, k as u64);
            } else {
                let j = p as nat / k;
                quotient(p as nat, k);
                assert(1 < j < s) by (nonlinear_arith)
                    requires
                        p as nat == k * j,
                        1 < k < p,
                        s <= k,
                        p < s * s,
                        p > 1,
                ;
                multiple(p as int, j, k as int);
                undivided_by(p, 2, s, j as u64);
            }
        }
    }
}

/// What divides the product with two numbers divides that with their greatest common
/// divisor.
proof fn divides_with_gcd(p: nat, m: nat, a: nat, b: nat)
    requires
        p > 0,
        (m * a) % p == 0,
        (m * b) % p == 0,
    ensures
        (m * gcd(a, b)) % p == 0,
    decreases b,
{
    if b > 0 {
        let r = a % b;
        quotient(m * a, p);
        quotient(m * b, p);
        lemma_fundamental_div_mod(a as int, b as int);
        let (x, y, q) = (((m * a) / p) as int, ((m * b) / p) as int, (a / b) as int);
        assert(m * r == p * (x - y * q)) by (nonlinear_arith)
            requires
                m * a == p * x,
                m * b == p * y,
                a == b * q + r,
        ;
        multiple((m * r) as int, p, x - y * q);
        divides_with_gcd(p, m, b, r);
    }
}

/// A prime number that divides a product divides one of the factors.
proof fn prime_divides(p: nat, m: nat, k: nat)
    requires
        prime(p),
        (m * k) % p == 0,
    ensures
        m % p == 0 || k % p == 0,
{
    let g = gcd(p, k);
    gcd_divides(p, k);
    multiple((m * p) as int, p, m as int);
    divides_with_gcd(p, m, p, k);
    if g == 1 {
        assert(m * g == m);
    } else {
        assert(g == p) by {
            quotient(p, g);
            assert(g <= p) by (nonlinear_arith)
                requires
                    p == g * (p / g),
                    p > 0,
            ;
        }
    }
}

// ---------------------------------------------------------------------------
// The period
// ---------------------------------------------------------------------------

/// What comes back comes back again and again.
proof fn back_again(x: u64, n: nat, k: nat)
    requires
        comes_back(x, n),
    ensures
        comes_back(x, n * k),
    decreases k,
{
    if k == 0 {
        assert(n * k == 0);
    } else {
        back_again(x, n, (k - 1) as nat);
        assert(n * k == n * (k - 1) as nat + n) by (nonlinear_arith)
            requires
                k > 0,
        ;
        steps_add(x, n * (k - 1) as nat, n);
    }
}

/// What comes back after two numbers of steps comes back after their greatest common
/// divisor.
proof fn back_after_gcd(x: u64, a: nat, b: nat)
    requires
        comes_back(x, a),
        comes_back(x, b),
    ensures
        comes_back(x, gcd(a, b)),
    decreases b,
{
    if b > 0 {
        let r = a % b;
        let q = a / b;
        lemma_fundamental_div_mod(a as int, b as int);
        back_again(x, b, q);
        steps_add(x, r, b * q);
        assert(r + b * q == a);
        steps_are_injective(random_after(x, r), x, b * q);
        back_after_gcd(x, b, r);
    }
}

/// The numbers that multiply to [`u64::MAX`] are prime.
proof fn factors_are_prime()
    ensures
        prime(3),
        prime(5),
        prime(17),
        prime(257),
        prime(641),
        prime(65537),
        prime(6700417),
{
    assert(undivided(3, 2, 2) && undivided(5, 2, 3) && undivided(17, 2, 5) && undivided(257, 2, 17)
        && undivided(641, 2, 26) && undivided(65537, 2, 257) && undivided(6700417, 2, 2589))
        by (bit_vector);
    root_suffices(3, 2);
    root_suffices(5, 3);
    root_suffices(17, 5);
    root_suffices(257, 17);
    root_suffices(641, 26);
    root_suffices(65537, 257);
    root_suffices(6700417, 2589);
}

/// If a state comes back after `g` steps and `g` divides [`u64::MAX`], then so does
/// each prime factor of that number divide `g`; or the state is nothing.
proof fn factor_stays(x: u64, g: nat, p: u64, e: u64, inverse: u64)
    requires
        x != 0,
        g > 0,
        comes_back(x, g),
        u64::MAX as nat % g == 0,
        prime(p as nat),
        p * e == u64::MAX,
        product(power(e) ^ 1, inverse, 64) == 1,
    ensures
        g % p as nat == 0,
{
    let n = u64::MAX as nat;
    let m = n / g;
    quotient(n, g);
    multiple(n as int, p as nat, e as int);
    prime_divides(p as nat, g, m);
    if g % p as nat != 0 {
        let t = m / p as nat;
        quotient(m, p as nat);
        assert(e as nat == g * t) by (nonlinear_arith)
            requires
                p * e == g * m,
                m == p as nat * t,
                p > 0,
        ;
        back_again(x, g, t);
        none_returns(e, inverse, x);
    }
}

/// Other primes go on dividing what is left once one is taken out.
proof fn next_factor(g: nat, d: nat, k: nat, p: nat)
    requires
        g == d * k,
        prime(p),
        g % p == 0,
        d % p != 0,
    ensures
        g == (d * p) * (k / p),
{
    prime_divides(p, d, k);
    quotient(k, p);
    assert(d * k == (d * p) * (k / p)) by (nonlinear_arith)
        requires
            k == p * (k / p),
    ;
}

/// No state but nothing comes back after fewer steps than there are such states.
pub proof fn period_is_full(x: u64, n: nat)
    requires
        x != 0,
        0 < n < u64::MAX,
    ensures
        random_after(x, n) != x,
{
    if random_after(x, n) == x {
        let all = u64::MAX as nat;
        let g = gcd(n, all);
        all_return(x);
        back_after_gcd(x, n, all);
        gcd_divides(n, all);
        factors_are_prime();
        assert(product(power(6148914691236517205) ^ 1, 0xd742_ca58_f5d7_85e2, 64) == 1)
            by (bit_vector);
        assert(product(power(3689348814741910323) ^ 1, 0xa3f6_4d1f_b612_f669, 64) == 1)
            by (bit_vector);
        assert(product(power(1085102592571150095) ^ 1, 0x63f4_3995_a1b4_9645, 64) == 1)
            by (bit_vector);
        assert(product(power(71777214294589695) ^ 1, 0x7d57_3a75_b526_0c4d, 64) == 1)
            by (bit_vector);
        assert(product(power(28778071877862015) ^ 1, 0x01ea_d615_08d1_3286, 64) == 1)
            by (bit_vector);
        assert(product(power(281470681808895) ^ 1, 0xed72_48a2_317d_33b1, 64) == 1)
            by (bit_vector);
        assert(product(power(2753074036095) ^ 1, 0x483b_08aa_5d37_41b5, 64) == 1)
            by (bit_vector);
        factor_stays(x, g, 3, 6148914691236517205, 0xd742_ca58_f5d7_85e2);
        factor_stays(x, g, 5, 3689348814741910323, 0xa3f6_4d1f_b612_f669);
        factor_stays(x, g, 17, 1085102592571150095, 0x63f4_3995_a1b4_9645);
        factor_stays(x, g, 257, 71777214294589695, 0x7d57_3a75_b526_0c4d);
        factor_stays(x, g, 641, 28778071877862015, 0x01ea_d615_08d1_3286);
        factor_stays(x, g, 65537, 281470681808895, 0xed72_48a2_317d_33b1);
        factor_stays(x, g, 6700417, 2753074036095, 0x483b_08aa_5d37_41b5);
        let k1 = g / 3;
        quotient(g, 3);
        next_factor(g, 3, k1, 5);
        let k2 = k1 / 5;
        next_factor(g, 15, k2, 17);
        let k3 = k2 / 17;
        next_factor(g, 255, k3, 257);
        let k4 = k3 / 257;
        next_factor(g, 65535, k4, 641);
        let k5 = k4 / 641;
        next_factor(g, 42007935, k5, 65537);
        let k6 = k5 / 65537;
        next_factor(g, 2753074036095, k6, 6700417);
        let k7 = k6 / 6700417;
        assert(g == all * k7);
        assert(g >= all) by (nonlinear_arith)
            requires
                g == all * k7,
                g > 0,
        ;
        quotient(n, g);
        assert(n >= g) by (nonlinear_arith)
            requires
                n == g * (n / g),
                n > 0,
        ;
    }
}

/// The states of the sequence are different, unless it started at zero or has gone
/// through all of them.
pub proof fn states_differ(x: u64, i: nat, j: nat)
    requires
        x != 0,
        i < j,
        j - i < u64::MAX,
    ensures
        random_after(x, i) != random_after(x, j),
{
    let y = random_after(x, i);
    zero_stays(i);
    if y == 0 {
        steps_are_injective(x, 0, i);
    }
    steps_add(x, i, (j - i) as nat);
    period_is_full(y, (j - i) as nat);
}

/// Nothing stays nothing.
proof fn zero_stays(n: nat)
    ensures
        random_after(0, n) == 0,
    decreases n,
{
    if n > 0 {
        zero_stays((n - 1) as nat);
        step_is_linear(0, 0);
    }
}

} // verus!
