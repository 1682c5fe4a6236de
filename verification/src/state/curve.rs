//! The curve engine: how many units of the two assets a number of shares
//! stands for, and how many shares a contribution earns.
//!
//! Every function here is pure. The contracts are stated over unbounded
//! integers; the code reaches the same values through 128-bit intermediates
//! and reports each step that would not fit.

use vstd::prelude::*;
use vstd::arithmetic::div_mod::*;
use vstd::arithmetic::mul::*;
use crate::error::{CurveError, PinocchioError};

verus! {

/// Ten to the power `p`.
pub open spec fn pow10(p: nat) -> nat
    decreases p,
{
    if p == 0 {
        1
    } else {
        10 * pow10((p - 1) as nat)
    }
}

/// The ratio by which a deposit of `a` shares into a supply of `l` grows the
/// pool, scaled by `10^p` and rounded down.
pub open spec fn deposit_ratio(l: nat, a: nat, p: nat) -> nat {
    (l + a) * pow10(p) / l
}

/// What a reserve of `r` has to become when `a` shares are added to `l`.
pub open spec fn grown_reserve(r: nat, l: nat, a: nat, p: nat) -> nat {
    r * deposit_ratio(l, a, p) / pow10(p)
}

/// What the depositor owes of an asset whose reserve is `r`.
pub open spec fn deposit_amount(r: nat, l: nat, a: nat, p: nat) -> int {
    grown_reserve(r, l, a, p) - r
}

/// Whether the deposit amounts exist: the supply is not zero, every
/// intermediate fits 128 bits, and both amounts fit 64 bits.
pub open spec fn deposit_amounts_defined(x: nat, y: nat, l: nat, a: nat, p: nat) -> bool {
    &&& l > 0
    &&& pow10(p) <= u128::MAX
    &&& (l + a) * pow10(p) <= u128::MAX
    &&& x * deposit_ratio(l, a, p) <= u128::MAX
    &&& y * deposit_ratio(l, a, p) <= u128::MAX
    &&& deposit_amount(x, l, a, p) <= u64::MAX
    &&& deposit_amount(y, l, a, p) <= u64::MAX
}

/// `pow10` never shrinks as the exponent grows, and is never zero.
pub proof fn lemma_pow10_monotonic(p: nat, q: nat)
    requires
        p <= q,
    ensures
        1 <= pow10(p) <= pow10(q),
    decreases q,
{
    if q == 0 {
    } else if p == q {
        lemma_pow10_monotonic(0, (q - 1) as nat);
    } else {
        lemma_pow10_monotonic(p, (q - 1) as nat);
    }
}

/// The scale `10^precision`, if it fits 128 bits.
pub fn checked_pow10(precision: u32) -> (scale: Option<u128>)
    ensures
        match scale {
            Some(s) => s == pow10(precision as nat),
            None => pow10(precision as nat) > u128::MAX,
        },
{
    let mut s: u128 = 1;
    let mut i: u32 = 0;
    while i < precision
        invariant
            i <= precision,
            s == pow10(i as nat),
        decreases precision - i,
    {
        match s.checked_mul(10) {
            Some(next) => {
                s = next;
            },
            None => {
                proof {
                    lemma_pow10_monotonic((i + 1) as nat, precision as nat);
                }
                return None;
            },
        }
        i += 1;
    }
    Some(s)
}

/// A deposit never shrinks a reserve: the ratio is at least the scale, so
/// the amount owed is never negative.
pub proof fn lemma_grown_reserve_covers(r: nat, l: nat, a: nat, p: nat)
    requires
        l > 0,
    ensures
        deposit_ratio(l, a, p) >= pow10(p),
        grown_reserve(r, l, a, p) >= r,
{
    let s = pow10(p);
    lemma_pow10_monotonic(0, p);
    let ratio = deposit_ratio(l, a, p);
    assert(ratio >= s) by {
        assert((l + a) * s >= l * s) by (nonlinear_arith)
            requires
                s >= 0,
                a >= 0,
                l > 0,
        ;
        lemma_div_is_ordered((l * s) as int, ((l + a) * s) as int, l as int);
        assert(l * s == s * l) by (nonlinear_arith);
        lemma_div_multiples_vanish(s as int, l as int);
    }
    assert(r * ratio >= r * s) by (nonlinear_arith)
        requires
            ratio >= s,
            r >= 0,
    ;
    lemma_div_is_ordered((r * s) as int, (r * ratio) as int, s as int);
    assert(r * s == s * r) by (nonlinear_arith);
    lemma_div_multiples_vanish(r as int, s as int);
}

/// `n / d`, rounded up.
pub open spec fn div_ceil(n: nat, d: nat) -> nat {
    if n % d == 0 {
        n / d
    } else {
        n / d + 1
    }
}

/// The ratio of a withdrawal of `a` of `l` shares: the ratio at which a
/// deposit of `a` shares grows a pool of the `l - a` shares that stay.
pub open spec fn withdraw_ratio(l: nat, a: nat, p: nat) -> nat {
    deposit_ratio((l - a) as nat, a, p)
}

/// What stays of a reserve of `r` when `a` of `l` shares are burned: the
/// reserve divided by the ratio, rounded up, so that what is paid out is
/// rounded down. Nothing stays where every share is burned.
pub open spec fn kept_reserve(r: nat, l: nat, a: nat, p: nat) -> nat {
    if a >= l {
        0
    } else {
        div_ceil(r * pow10(p), withdraw_ratio(l, a, p))
    }
}

/// What the holder of `a` shares receives of an asset whose reserve is `r`.
pub open spec fn withdraw_amount(r: nat, l: nat, a: nat, p: nat) -> int {
    r - kept_reserve(r, l, a, p)
}

/// Whether the withdrawal amounts exist: the supply is not zero and covers
/// the shares burned, and every intermediate fits 128 bits.
pub open spec fn withdraw_amounts_defined(x: nat, y: nat, l: nat, a: nat, p: nat) -> bool {
    &&& l > 0
    &&& a <= l
    &&& pow10(p) <= u128::MAX
    &&& a < l ==> {
        &&& l * pow10(p) <= u128::MAX
        &&& x * pow10(p) <= u128::MAX
        &&& y * pow10(p) <= u128::MAX
    }
}

/// A quotient rounded up, multiplied back, covers the dividend and overshoots
/// it by less than the divisor.
pub proof fn lemma_div_ceil_covers(n: nat, d: nat)
    requires
        d > 0,
    ensures
        n <= div_ceil(n, d) * d < n + d,
{
    lemma_fundamental_div_mod(n as int, d as int);
    lemma_mod_bound(n as int, d as int);
    let k = n / d;
    assert(d * k == k * d) by (nonlinear_arith);
    assert((k + 1) * d == k * d + d) by (nonlinear_arith);
}

/// A quotient rounded up stays under every bound that the dividend respects.
pub proof fn lemma_div_ceil_bounded(n: nat, d: nat, q: nat)
    requires
        d > 0,
        n <= q * d,
    ensures
        div_ceil(n, d) <= q,
{
    lemma_div_ceil_covers(n, d);
    let c = div_ceil(n, d);
    assert(c <= q) by (nonlinear_arith)
        requires
            c * d < n + d,
            n <= q * d,
            d > 0,
    ;
}

/// `n / d`, rounded up.
fn div_ceil_u128(n: u128, d: u128) -> (q: u128)
    requires
        d > 0,
    ensures
        q == div_ceil(n as nat, d as nat),
{
    let k: u128 = n / d;
    if n % d != 0 {
        proof {
            lemma_fundamental_div_mod(n as int, d as int);
            assert(d >= 2) by {
                if d == 1 {
                    assert(n % 1 == 0);
                }
            }
            assert(k < u128::MAX) by (nonlinear_arith)
                requires
                    d * k <= n,
                    n <= u128::MAX,
                    d >= 2,
                    k >= 0,
            ;
        }
        k + 1
    } else {
        k
    }
}

/// Burning shares never takes more of a reserve than it holds: the amount
/// paid out lies between nothing and the whole reserve.
pub proof fn lemma_kept_reserve_within(r: nat, l: nat, a: nat, p: nat)
    requires
        l > 0,
        a <= l,
    ensures
        a < l ==> withdraw_ratio(l, a, p) >= pow10(p) > 0,
        kept_reserve(r, l, a, p) <= r,
{
    if a < l {
        let s = pow10(p);
        let ratio = withdraw_ratio(l, a, p);
        lemma_pow10_monotonic(0, p);
        lemma_grown_reserve_covers(r, (l - a) as nat, a, p);
        assert(r * s <= r * ratio) by (nonlinear_arith)
            requires
                s <= ratio,
                r >= 0,
        ;
        lemma_div_ceil_bounded(r * s, ratio, r);
    }
}

/// A pair of amounts, one of each pooled asset.
#[derive(Debug, Clone, Copy, PartialEq, Eq, Structural)]
pub struct XYAmounts {
    pub x: u64,
    pub y: u64,
}

impl XYAmounts {
    /// The amounts of X and Y to deposit for `a` new shares, given reserves
    /// `x` and `y` and a share supply `l`: each reserve grows by the ratio
    /// `(l + a) / l`, carried with `precision` decimal digits and rounded
    /// down at both divisions.
    ///
    /// Fails with `Overflow` when the supply is zero, when a product does not
    /// fit 128 bits, or when an amount does not fit 64 bits.
    pub fn xy_deposit_amounts_from_l(x: u64, y: u64, l: u64, a: u64, precision: u32) -> (amounts:
        Result<XYAmounts, CurveError>)
        ensures
            match amounts {
                Ok(v) => {
                    &&& deposit_amounts_defined(x as nat, y as nat, l as nat, a as nat, precision as nat)
                    &&& v.x == deposit_amount(x as nat, l as nat, a as nat, precision as nat)
                    &&& v.y == deposit_amount(y as nat, l as nat, a as nat, precision as nat)
                },
                Err(e) => {
                    &&& e == CurveError::Overflow
                    &&& !deposit_amounts_defined(x as nat, y as nat, l as nat, a as nat, precision as nat)
                },
            },
    {
        if l == 0 {
            return Err(CurveError::Overflow);
        }
        let scale: u128 = match checked_pow10(precision) {
            Some(s) => s,
            None => {
                return Err(CurveError::Overflow);
            },
        };
        proof {
            lemma_pow10_monotonic(0, precision as nat);
            lemma_grown_reserve_covers(x as nat, l as nat, a as nat, precision as nat);
            lemma_grown_reserve_covers(y as nat, l as nat, a as nat, precision as nat);
        }
        let sum: u128 = l as u128 + a as u128;
        let scaled: u128 = match sum.checked_mul(scale) {
            Some(v) => v,
            None => {
                return Err(CurveError::Overflow);
            },
        };
        let ratio: u128 = scaled / (l as u128);
        let grown_x: u128 = match (x as u128).checked_mul(ratio) {
            Some(v) => v / scale,
            None => {
                return Err(CurveError::Overflow);
            },
        };
        let grown_y: u128 = match (y as u128).checked_mul(ratio) {
            Some(v) => v / scale,
            None => {
                return Err(CurveError::Overflow);
            },
        };
        let deposit_x: u128 = grown_x - x as u128;
        let deposit_y: u128 = grown_y - y as u128;
        if deposit_x > u64::MAX as u128 || deposit_y > u64::MAX as u128 {
            return Err(CurveError::Overflow);
        }
        Ok(XYAmounts { x: deposit_x as u64, y: deposit_y as u64 })
    }

    /// The amounts of X and Y that `a` shares redeem, given reserves `x` and
    /// `y` and a share supply `l`: the inverse of the deposit law. Each
    /// reserve is divided by the ratio `l / (l - a)`, carried with
    /// `precision` decimal digits as a deposit carries it; what stays is
    /// rounded up, so that what is paid out is rounded down. Burning every
    /// share pays out both reserves whole.
    ///
    /// Fails with `Overflow` when the supply is zero or smaller than `a`, or
    /// when a product does not fit 128 bits.
    pub fn xy_withdraw_amounts_from_l(x: u64, y: u64, l: u64, a: u64, precision: u32) -> (amounts:
        Result<XYAmounts, CurveError>)
        ensures
            match amounts {
                Ok(v) => {
                    &&& withdraw_amounts_defined(x as nat, y as nat, l as nat, a as nat, precision as nat)
                    &&& v.x == withdraw_amount(x as nat, l as nat, a as nat, precision as nat)
                    &&& v.y == withdraw_amount(y as nat, l as nat, a as nat, precision as nat)
                },
                Err(e) => {
                    &&& e == CurveError::Overflow
                    &&& !withdraw_amounts_defined(x as nat, y as nat, l as nat, a as nat, precision as nat)
                },
            },
    {
        if l == 0 || a > l {
            return Err(CurveError::Overflow);
        }
        let scale: u128 = match checked_pow10(precision) {
            Some(s) => s,
            None => {
                return Err(CurveError::Overflow);
            },
        };
        if a == l {
            return Ok(XYAmounts { x, y });
        }
        proof {
            lemma_kept_reserve_within(x as nat, l as nat, a as nat, precision as nat);
            lemma_kept_reserve_within(y as nat, l as nat, a as nat, precision as nat);
        }
        let ratio: u128 = match (l as u128).checked_mul(scale) {
            Some(v) => v / ((l - a) as u128),
            None => {
                return Err(CurveError::Overflow);
            },
        };
        let kept_x: u128 = match (x as u128).checked_mul(scale) {
            Some(v) => div_ceil_u128(v, ratio),
            None => {
                return Err(CurveError::Overflow);
            },
        };
        let kept_y: u128 = match (y as u128).checked_mul(scale) {
            Some(v) => div_ceil_u128(v, ratio),
            None => {
                return Err(CurveError::Overflow);
            },
        };
        Ok(XYAmounts { x: (x as u128 - kept_x) as u64, y: (y as u128 - kept_y) as u64 })
    }
}

/// The round trip on one reserve: what `s` shares redeem right after they
/// were bought is what they cost.
proof fn lemma_round_trip_one_reserve(r: nat, l: nat, s: nat, p: nat)
    requires
        l > 0,
    ensures
        withdraw_amount(grown_reserve(r, l, s, p), l + s, s, p) == deposit_amount(r, l, s, p),
{
    let scale = pow10(p);
    lemma_pow10_monotonic(0, p);
    lemma_grown_reserve_covers(r, l, s, p);
    let ratio = deposit_ratio(l, s, p);
    let grown = grown_reserve(r, l, s, p);
    let kept = kept_reserve(grown, l + s, s, p);
    assert(((l + s) - s) as nat == l);
    assert(kept == div_ceil(grown * scale, ratio));
    lemma_fundamental_div_mod((r * ratio) as int, scale as int);
    lemma_mod_bound((r * ratio) as int, scale as int);
    assert(grown * scale == scale * grown) by (nonlinear_arith);
    lemma_div_ceil_bounded(grown * scale, ratio, r);
    lemma_div_ceil_covers(grown * scale, ratio);
    assert(kept >= r) by (nonlinear_arith)
        requires
            kept * ratio >= grown * scale,
            grown * scale > r * ratio - scale,
            ratio >= scale,
            ratio > 0,
            kept >= 0,
            r >= 0,
    ;
}

/// Conservation. Shares bought and redeemed at once, at the same precision,
/// return of each asset no more than was paid for them: they return exactly
/// what was paid, whatever the deposit rounded away.
///
/// The reserves after the deposit are the grown reserves, and the supply is
/// `l + s`.
pub proof fn lemma_deposit_then_withdraw_conserves(x: nat, y: nat, l: nat, s: nat, p: nat)
    requires
        l > 0,
    ensures
        withdraw_amount((x + deposit_amount(x, l, s, p)) as nat, l + s, s, p) == deposit_amount(
            x,
            l,
            s,
            p,
        ),
        withdraw_amount((y + deposit_amount(y, l, s, p)) as nat, l + s, s, p) == deposit_amount(
            y,
            l,
            s,
            p,
        ),
        deposit_amount(x, l, s, p) >= 0,
        deposit_amount(y, l, s, p) >= 0,
{
    lemma_grown_reserve_covers(x, l, s, p);
    lemma_grown_reserve_covers(y, l, s, p);
    lemma_round_trip_one_reserve(x, l, s, p);
    lemma_round_trip_one_reserve(y, l, s, p);
}

/// A withdrawal never pays more than the proportional part of a reserve:
/// `a` of `l` shares redeem at most `r * a / l`.
pub proof fn lemma_withdraw_is_at_most_proportional(r: nat, l: nat, a: nat, p: nat)
    requires
        l > 0,
        a <= l,
    ensures
        withdraw_amount(r, l, a, p) * l <= r * a,
{
    if a < l {
        let scale = pow10(p);
        let rest = (l - a) as nat;
        let ratio = withdraw_ratio(l, a, p);
        let kept = kept_reserve(r, l, a, p);
        lemma_kept_reserve_within(r, l, a, p);
        lemma_fundamental_div_mod((l * scale) as int, rest as int);
        lemma_mod_bound((l * scale) as int, rest as int);
        assert((rest + a) * scale == l * scale);
        lemma_div_ceil_covers(r * scale, ratio);
        assert(kept * l >= r * rest) by (nonlinear_arith)
            requires
                kept * ratio >= r * scale,
                rest * ratio <= l * scale,
                scale > 0,
                ratio > 0,
                rest > 0,
                kept >= 0,
                r >= 0,
                l > 0,
        ;
        assert(r * rest == r * l - r * a) by (nonlinear_arith)
            requires
                rest == l - a,
        ;
        assert((r - kept) * l == r * l - kept * l) by (nonlinear_arith);
    } else {
        assert(r * l == r * a);
    }
}

/// Whether `r` is the square root of `n`, rounded down.
pub open spec fn is_floor_sqrt(r: nat, n: nat) -> bool {
    r * r <= n < (r + 1) * (r + 1)
}

/// A number has one rounded-down square root.
pub proof fn lemma_floor_sqrt_unique(a: nat, b: nat, n: nat)
    requires
        is_floor_sqrt(a, n),
        is_floor_sqrt(b, n),
    ensures
        a == b,
{
    if a < b {
        assert((a + 1) * (a + 1) <= b * b) by (nonlinear_arith)
            requires
                0 <= a + 1 <= b,
        ;
    } else if b < a {
        assert((b + 1) * (b + 1) <= a * a) by (nonlinear_arith)
            requires
                0 <= b + 1 <= a,
        ;
    }
}

/// The square root of `n`, rounded down.
pub open spec fn floor_sqrt(n: nat) -> nat {
    choose|r: nat| is_floor_sqrt(r, n)
}

/// Every number has a rounded-down square root, and [`floor_sqrt`] is it.
pub proof fn lemma_floor_sqrt_exists(n: nat)
    ensures
        is_floor_sqrt(floor_sqrt(n), n),
    decreases n,
{
    if n == 0 {
        assert(is_floor_sqrt(0, 0)) by {
            assert(0nat * 0nat == 0 && (0nat + 1) * (0nat + 1) == 1) by (nonlinear_arith);
        }
    } else {
        lemma_floor_sqrt_exists((n - 1) as nat);
        let r = floor_sqrt((n - 1) as nat);
        if (r + 1) * (r + 1) <= n {
            assert((r + 2) * (r + 2) > (r + 1) * (r + 1)) by (nonlinear_arith)
                requires
                    r >= 0,
            ;
            assert(is_floor_sqrt(r + 1, n));
        } else {
            assert(is_floor_sqrt(r, n));
        }
    }
}

/// The rounded-down square root reaches a bound exactly where the number
/// reaches the bound's square.
pub proof fn lemma_floor_sqrt_reaches(n: nat, bound: nat)
    ensures
        floor_sqrt(n) >= bound <==> n >= bound * bound,
{
    lemma_floor_sqrt_exists(n);
    let r = floor_sqrt(n);
    if r >= bound {
        assert(r * r >= bound * bound) by (nonlinear_arith)
            requires
                r >= bound,
                bound >= 0,
        ;
    } else {
        assert((r + 1) * (r + 1) <= bound * bound) by (nonlinear_arith)
            requires
                0 <= r + 1 <= bound,
        ;
    }
}

/// Whatever is a rounded-down square root of `n` is [`floor_sqrt`] of it.
pub proof fn lemma_floor_sqrt_is(r: nat, n: nat)
    requires
        is_floor_sqrt(r, n),
    ensures
        floor_sqrt(n) == r,
{
    lemma_floor_sqrt_unique(floor_sqrt(n), r, n);
}

/// The square root of `n`, rounded down.
pub fn integer_sqrt(n: u128) -> (root: u64)
    ensures
        is_floor_sqrt(root as nat, n as nat),
        root == floor_sqrt(n as nat),
{
    let mut lo: u128 = 0;
    let mut hi: u128 = 0x1_0000_0000_0000_0000;
    assert(n < hi * hi) by (nonlinear_arith)
        requires
            hi == 0x1_0000_0000_0000_0000,
            n <= u128::MAX,
    ;
    while hi - lo > 1
        invariant
            lo < hi <= 0x1_0000_0000_0000_0000,
            lo * lo <= n < hi * hi,
        decreases hi - lo,
    {
        let mid: u128 = lo + (hi - lo) / 2;
        assert(mid * mid <= u128::MAX) by (nonlinear_arith)
            requires
                0 <= mid <= 0xffff_ffff_ffff_ffff,
        ;
        if mid * mid <= n {
            lo = mid;
        } else {
            hi = mid;
        }
    }
    proof {
        lemma_floor_sqrt_is(lo as nat, n as nat);
    }
    lo as u64
}

/// The fewest shares that a first deposit may mint.
pub const MINIMUM_LIQUIDITY: u64 = 1000;

/// The shares that the first deposit into an empty pool mints: the square
/// root of the product of the two amounts, rounded down.
///
/// Fails with `InvalidMintSupply` when that is under [`MINIMUM_LIQUIDITY`],
/// which is when the product is under a million (a product of zero among
/// them).
pub fn initial_share_supply(amount_x: u64, amount_y: u64) -> (shares: Result<u64, PinocchioError>)
    ensures
        match shares {
            Ok(s) => {
                &&& s == floor_sqrt((amount_x * amount_y) as nat)
                &&& is_floor_sqrt(s as nat, (amount_x * amount_y) as nat)
                &&& s >= MINIMUM_LIQUIDITY
                &&& amount_x * amount_y >= 1_000_000
            },
            Err(e) => {
                &&& e == PinocchioError::InvalidMintSupply
                &&& amount_x * amount_y < 1_000_000
            },
        },
{
    assert(amount_x * amount_y <= u128::MAX) by (nonlinear_arith)
        requires
            amount_x <= u64::MAX,
            amount_y <= u64::MAX,
    ;
    let product: u128 = (amount_x as u128) * (amount_y as u128);
    let root: u64 = integer_sqrt(product);
    proof {
        if root < 1000 {
            assert((root + 1) * (root + 1) <= 1_000_000) by (nonlinear_arith)
                requires
                    0 <= root + 1 <= 1000,
            ;
        } else {
            assert(root * root >= 1_000_000) by (nonlinear_arith)
                requires
                    root >= 1000,
            ;
        }
    }
    if product == 0 || root < MINIMUM_LIQUIDITY {
        return Err(PinocchioError::InvalidMintSupply);
    }
    Ok(root)
}

/// Whether the pool's three balances contradict each other: one reserve is
/// empty and the other is not, or no share exists though a reserve is held.
pub open spec fn pool_is_inconsistent(reserve_x: nat, reserve_y: nat, share_supply: nat) -> bool {
    ||| reserve_x == 0 && reserve_y != 0
    ||| reserve_y == 0 && reserve_x != 0
    ||| share_supply == 0 && (reserve_x != 0 || reserve_y != 0)
}

/// The shares that a contribution of one asset is worth by itself.
pub open spec fn shares_for(deposit: nat, share_supply: nat, reserve: nat) -> nat {
    deposit * share_supply / reserve
}

/// The shares that a contribution of both assets earns: the smaller of what
/// each is worth by itself.
pub open spec fn proportional_shares(
    reserve_x: nat,
    reserve_y: nat,
    share_supply: nat,
    deposit_x: nat,
    deposit_y: nat,
) -> nat {
    if shares_for(deposit_x, share_supply, reserve_x) <= shares_for(
        deposit_y,
        share_supply,
        reserve_y,
    ) {
        shares_for(deposit_x, share_supply, reserve_x)
    } else {
        shares_for(deposit_y, share_supply, reserve_y)
    }
}

/// The shares owed for depositing `deposit_x` and `deposit_y` into a pool
/// that already holds reserves.
///
/// Fails with `InvalidMintSupply` on an inconsistent pool, and with
/// `MathOverflow` where both reserves are empty (a division by zero) or the
/// shares do not fit 64 bits.
pub fn proportional_mint_amount(
    reserve_x: u64,
    reserve_y: u64,
    share_supply: u64,
    deposit_x: u64,
    deposit_y: u64,
) -> (shares: Result<u64, PinocchioError>)
    ensures
        match shares {
            Ok(s) => {
                &&& reserve_x != 0 && reserve_y != 0 && share_supply != 0
                &&& s == proportional_shares(
                    reserve_x as nat,
                    reserve_y as nat,
                    share_supply as nat,
                    deposit_x as nat,
                    deposit_y as nat,
                )
            },
            Err(e) => if pool_is_inconsistent(
                reserve_x as nat,
                reserve_y as nat,
                share_supply as nat,
            ) {
                e == PinocchioError::InvalidMintSupply
            } else {
                &&& e == PinocchioError::MathOverflow
                &&& reserve_x == 0 || proportional_shares(
                    reserve_x as nat,
                    reserve_y as nat,
                    share_supply as nat,
                    deposit_x as nat,
                    deposit_y as nat,
                ) > u64::MAX
            },
        },
{
    if (reserve_x == 0 && reserve_y != 0) || (reserve_y == 0 && reserve_x != 0) || (share_supply
        == 0 && (reserve_x != 0 || reserve_y != 0)) {
        return Err(PinocchioError::InvalidMintSupply);
    }
    if reserve_x == 0 {
        return Err(PinocchioError::MathOverflow);
    }
    assert(deposit_x * share_supply <= u128::MAX && deposit_y * share_supply <= u128::MAX)
        by (nonlinear_arith)
        requires
            deposit_x <= u64::MAX,
            deposit_y <= u64::MAX,
            share_supply <= u64::MAX,
    ;
    let from_x: u128 = (deposit_x as u128) * (share_supply as u128) / (reserve_x as u128);
    let from_y: u128 = (deposit_y as u128) * (share_supply as u128) / (reserve_y as u128);
    let shares: u128 = if from_x <= from_y {
        from_x
    } else {
        from_y
    };
    if shares > u64::MAX as u128 {
        return Err(PinocchioError::MathOverflow);
    }
    Ok(shares as u64)
}

/// Basis points in a whole.
pub const BPS_DENOMINATOR: u16 = 10_000;

/// What is left of a swap's input once the fee of `fee_bps` basis points is
/// taken, rounded down.
pub open spec fn swap_net_input(amount_in: nat, fee_bps: nat) -> nat {
    amount_in * (BPS_DENOMINATOR - fee_bps) as nat / (BPS_DENOMINATOR as nat)
}

/// What a swap pays out: the largest amount that leaves the product of the
/// reserves, counted with the net input, no smaller than it was.
pub open spec fn swap_output(reserve_in: nat, reserve_out: nat, amount_in: nat, fee_bps: nat) -> nat {
    reserve_out * swap_net_input(amount_in, fee_bps) / (reserve_in + swap_net_input(
        amount_in,
        fee_bps,
    ))
}

/// Whether a swap's output exists: the fee is at most the whole, and the
/// input reserve with the net input is not zero.
pub open spec fn swap_defined(reserve_in: nat, amount_in: nat, fee_bps: nat) -> bool {
    &&& fee_bps <= BPS_DENOMINATOR
    &&& reserve_in + swap_net_input(amount_in, fee_bps) > 0
}

/// The constant-product law. A swap never pays out more than the output
/// reserve holds, and the product of the two reserves after it is at least
/// the product before.
pub proof fn lemma_swap_keeps_product(reserve_in: nat, reserve_out: nat, amount_in: nat, fee_bps: nat)
    requires
        swap_defined(reserve_in, amount_in, fee_bps),
    ensures
        swap_net_input(amount_in, fee_bps) <= amount_in,
        swap_output(reserve_in, reserve_out, amount_in, fee_bps) <= reserve_out,
        (reserve_in + amount_in) * (reserve_out - swap_output(
            reserve_in,
            reserve_out,
            amount_in,
            fee_bps,
        )) >= reserve_in * reserve_out,
{
    let net = swap_net_input(amount_in, fee_bps);
    let out = swap_output(reserve_in, reserve_out, amount_in, fee_bps);
    let rest = (BPS_DENOMINATOR - fee_bps) as nat;
    let whole = BPS_DENOMINATOR as nat;
    let pool = reserve_in + net;
    assert(amount_in * rest <= amount_in * whole) by (nonlinear_arith)
        requires
            rest <= whole,
    ;
    lemma_div_is_ordered((amount_in * rest) as int, (amount_in * whole) as int, whole as int);
    assert(amount_in * whole == whole * amount_in) by (nonlinear_arith);
    lemma_div_multiples_vanish(amount_in as int, whole as int);
    lemma_fundamental_div_mod((reserve_out * net) as int, pool as int);
    lemma_mod_bound((reserve_out * net) as int, pool as int);
    assert(pool * out <= reserve_out * net);
    assert(out <= reserve_out) by (nonlinear_arith)
        requires
            pool * out <= reserve_out * net,
            pool == reserve_in + net,
            pool > 0,
            out >= 0,
            reserve_out >= 0,
            reserve_in >= 0,
            net >= 0,
    ;
    assert((reserve_in + net) * (reserve_out - out) >= reserve_in * reserve_out)
        by (nonlinear_arith)
        requires
            pool * out <= reserve_out * net,
            pool == reserve_in + net,
    ;
    assert((reserve_in + amount_in) * (reserve_out - out) >= (reserve_in + net) * (reserve_out
        - out)) by (nonlinear_arith)
        requires
            amount_in >= net,
            reserve_out - out >= 0,
    ;
}

/// The amount of the output asset that a swap of `amount_in` pays, for a
/// pool with the given reserves and fee.
///
/// Fails with `Overflow` when the fee is over 10 000 basis points or when
/// the input reserve and the net input are both zero.
pub fn swap_output_amount(reserve_in: u64, reserve_out: u64, amount_in: u64, fee_bps: u16) -> (out:
    Result<u64, CurveError>)
    ensures
        match out {
            Ok(v) => {
                &&& swap_defined(reserve_in as nat, amount_in as nat, fee_bps as nat)
                &&& v == swap_output(
                    reserve_in as nat,
                    reserve_out as nat,
                    amount_in as nat,
                    fee_bps as nat,
                )
                &&& v <= reserve_out
                &&& (reserve_in + amount_in) * (reserve_out - v) >= reserve_in * reserve_out
            },
            Err(e) => {
                &&& e == CurveError::Overflow
                &&& !swap_defined(reserve_in as nat, amount_in as nat, fee_bps as nat)
            },
        },
{
    if fee_bps > BPS_DENOMINATOR {
        return Err(CurveError::Overflow);
    }
    let rest: u128 = (BPS_DENOMINATOR - fee_bps) as u128;
    assert(amount_in * rest <= u128::MAX) by (nonlinear_arith)
        requires
            amount_in <= u64::MAX,
            rest <= 10_000,
    ;
    let net: u128 = (amount_in as u128) * rest / (BPS_DENOMINATOR as u128);
    let pool: u128 = reserve_in as u128 + net;
    if pool == 0 {
        return Err(CurveError::Overflow);
    }
    proof {
        lemma_swap_keeps_product(
            reserve_in as nat,
            reserve_out as nat,
            amount_in as nat,
            fee_bps as nat,
        );
        assert(reserve_out * net <= u128::MAX) by (nonlinear_arith)
            requires
                reserve_out <= u64::MAX,
                net <= u64::MAX,
        ;
    }
    let out: u128 = (reserve_out as u128) * net / pool;
    Ok(out as u64)
}

/// A swap with the caller's slippage bound: the output as
/// [`swap_output_amount`] gives it, refused with `SlippageExceeded` when it
/// is under `min_out`.
pub fn swap_with_minimum(
    reserve_in: u64,
    reserve_out: u64,
    amount_in: u64,
    fee_bps: u16,
    min_out: u64,
) -> (out: Result<u64, CurveError>)
    ensures
        match out {
            Ok(v) => {
                &&& swap_defined(reserve_in as nat, amount_in as nat, fee_bps as nat)
                &&& v == swap_output(
                    reserve_in as nat,
                    reserve_out as nat,
                    amount_in as nat,
                    fee_bps as nat,
                )
                &&& v >= min_out
                &&& v <= reserve_out
                &&& (reserve_in + amount_in) * (reserve_out - v) >= reserve_in * reserve_out
            },
            Err(e) => if swap_defined(reserve_in as nat, amount_in as nat, fee_bps as nat) {
                &&& e == CurveError::SlippageExceeded
                &&& swap_output(
                    reserve_in as nat,
                    reserve_out as nat,
                    amount_in as nat,
                    fee_bps as nat,
                ) < min_out
            } else {
                e == CurveError::Overflow
            },
        },
{
    match swap_output_amount(reserve_in, reserve_out, amount_in, fee_bps) {
        Ok(v) => {
            if v < min_out {
                Err(CurveError::SlippageExceeded)
            } else {
                Ok(v)
            }
        },
        Err(e) => Err(e),
    }
}

} // verus!
