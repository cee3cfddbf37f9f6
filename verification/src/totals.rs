//! Totals of priced lines (`price * quantity`, summed), computed with
//! `rust_decimal` exactly as a cart or an order sums them: start from zero and,
//! line by line, multiply the price by the quantity and add the product.
use crate::money::{
    abs, checked_add, checked_mul, exact_product, exact_sum, fits, max_scale, pow10, product_is_exact,
    sum_is_exact, Money, MAX_MANTISSA, MAX_SCALE, decimal_checked_add, decimal_checked_mul,
};
use vstd::arithmetic::mul::*;
use vstd::prelude::*;

verus! {

pub open spec fn pair_to_money(p: (i128, u32)) -> Money {
    Money { mantissa: p.0, scale: p.1 }
}

pub open spec fn opt_money(p: Option<(i128, u32)>) -> Option<Money> {
    match p {
        Some(q) => Some(pair_to_money(q)),
        None => None,
    }
}

/// `a * b` as `Decimal::checked_mul` computes it.
pub open spec fn mul_spec(a: Money, b: Money) -> Option<Money> {
    opt_money(decimal_checked_mul(a.mantissa, a.scale, b.mantissa, b.scale))
}

/// `a + b` as `Decimal::checked_add` computes it.
pub open spec fn add_spec(a: Money, b: Money) -> Option<Money> {
    opt_money(decimal_checked_add(a.mantissa, a.scale, b.mantissa, b.scale))
}

/// A quantity as a decimal (`Decimal::from(i32)`).
pub open spec fn quantity_amount(q: i32) -> Money {
    Money { mantissa: q as i128, scale: 0 }
}

/// `price * quantity`, or `None` where the multiplication overflows.
pub open spec fn line_amount(price: Money, q: i32) -> Option<Money> {
    mul_spec(price, quantity_amount(q))
}

/// One step of a running total: the line's amount and the new total.
pub open spec fn add_line_spec(total: Money, price: Money, q: i32) -> Option<(Money, Money)> {
    match line_amount(price, q) {
        None => None,
        Some(sub) => match add_spec(total, sub) {
            None => None,
            Some(t) => Some((sub, t)),
        },
    }
}

/// The running total of the lines, from zero, in order; `None` as soon as a
/// multiplication or an addition overflows.
pub open spec fn lines_total(lines: Seq<(Money, i32)>) -> Option<Money>
    decreases lines.len(),
{
    if lines.len() == 0 {
        Some(Money::spec_zero())
    } else {
        match lines_total(lines.drop_last()) {
            None => None,
            Some(t) => match add_line_spec(t, lines.last().0, lines.last().1) {
                None => None,
                Some(p) => Some(p.1),
            },
        }
    }
}

/// A line whose product is not zero.
pub open spec fn counts(line: (Money, i32)) -> bool {
    line.0.mantissa != 0 && line.1 != 0
}

/// The largest price scale among the lines whose product is not zero.
pub open spec fn lines_scale(lines: Seq<(Money, i32)>) -> nat
    decreases lines.len(),
{
    if lines.len() == 0 {
        0
    } else {
        let rest = lines_scale(lines.drop_last());
        let last = lines.last();
        if counts(last) && last.0.scale as nat > rest {
            last.0.scale as nat
        } else {
            rest
        }
    }
}

/// The exact sum of `price * quantity`, every product written at scale `s`.
pub open spec fn exact_lines_sum(lines: Seq<(Money, i32)>, s: nat) -> int
    decreases lines.len(),
{
    if lines.len() == 0 {
        0
    } else {
        exact_lines_sum(lines.drop_last(), s) + lines.last().0.at_scale(s) * lines.last().1
    }
}

/// The sum of the magnitudes of the products, each written at scale `s`.
pub open spec fn magnitude_lines_sum(lines: Seq<(Money, i32)>, s: nat) -> int
    decreases lines.len(),
{
    if lines.len() == 0 {
        0
    } else {
        magnitude_lines_sum(lines.drop_last(), s) + abs(lines.last().0.at_scale(s) * lines.last().1)
    }
}

/// All prices are well formed decimals.
pub open spec fn lines_wf(lines: Seq<(Money, i32)>) -> bool {
    forall|i: int| 0 <= i < lines.len() ==> (#[trigger] lines[i]).0.wf()
}

/// No product and no partial sum can overflow: the magnitudes of all
/// products, at the largest scale that occurs, add up to at most 2^96 - 1.
pub open spec fn lines_fit(lines: Seq<(Money, i32)>) -> bool {
    magnitude_lines_sum(lines, lines_scale(lines)) <= MAX_MANTISSA
}

pub proof fn lemma_pow10_positive(n: nat)
    ensures
        pow10(n) >= 1,
    decreases n,
{
    if n > 0 {
        lemma_pow10_positive((n - 1) as nat);
    }
}

pub proof fn lemma_pow10_add(a: nat, b: nat)
    ensures
        pow10(a + b) == pow10(a) * pow10(b),
    decreases a,
{
    if a > 0 {
        lemma_pow10_add((a - 1) as nat, b);
        assert(pow10(a + b) == 10 * pow10((a - 1 + b) as nat));
        lemma_mul_is_associative(10, pow10((a - 1) as nat), pow10(b));
    }
}

/// Writing at scale `s` and then at scale `t >= s` is writing at `t`.
pub proof fn lemma_at_scale_compose(m: Money, s: nat, t: nat)
    requires
        m.scale <= s <= t,
    ensures
        m.at_scale(t) == m.at_scale(s) * pow10((t - s) as nat),
{
    lemma_pow10_add((s - m.scale) as nat, (t - s) as nat);
    assert((s - m.scale) as nat + (t - s) as nat == (t - m.scale) as nat);
    lemma_mul_is_associative(m.mantissa as int, pow10((s - m.scale) as nat), pow10((t - s) as nat));
}

/// Scaling up by a power of ten never makes a magnitude smaller.
pub proof fn lemma_abs_scale_up(x: int, k: nat)
    ensures
        abs(x) <= abs(x * pow10(k)),
        abs(x * pow10(k)) == abs(x) * pow10(k),
{
    lemma_pow10_positive(k);
    let p = pow10(k);
    if x >= 0 {
        lemma_mul_nonnegative(x, p);
        lemma_mul_inequality(1, p, x);
        lemma_mul_is_commutative(x, p);
    } else {
        lemma_mul_inequality(1, p, -x);
        lemma_mul_is_commutative(-x, p);
        lemma_mul_unary_negation(x, p);
    }
}

pub proof fn lemma_abs_mul(x: int, y: int)
    ensures
        abs(x * y) == abs(x) * abs(y),
{
    if x >= 0 && y >= 0 {
        lemma_mul_nonnegative(x, y);
    } else if x < 0 && y >= 0 {
        lemma_mul_unary_negation(x, y);
        lemma_mul_nonnegative(-x, y);
    } else if x >= 0 && y < 0 {
        lemma_mul_is_commutative(x, y);
        lemma_mul_unary_negation(y, x);
        lemma_mul_nonnegative(-y, x);
        lemma_mul_is_commutative(-y, x);
    } else {
        lemma_mul_unary_negation(x, y);
        lemma_mul_is_commutative(-x, y);
        lemma_mul_unary_negation(y, -x);
        lemma_mul_nonnegative(-x, -y);
        lemma_mul_is_commutative(-y, -x);
    }
}

/// A prefix's magnitude sum is at most the whole sum.
pub proof fn lemma_magnitude_prefix(lines: Seq<(Money, i32)>, i: int, s: nat)
    requires
        0 <= i <= lines.len(),
    ensures
        magnitude_lines_sum(lines.take(i), s) <= magnitude_lines_sum(lines, s),
    decreases lines.len() - i,
{
    if i < lines.len() {
        lemma_magnitude_prefix(lines, i + 1, s);
        assert(lines.take(i + 1).drop_last() =~= lines.take(i));
    } else {
        assert(lines.take(i) =~= lines);
    }
}

/// The exact sum is bounded by the magnitude sum.
pub proof fn lemma_exact_le_magnitude(lines: Seq<(Money, i32)>, s: nat)
    ensures
        abs(exact_lines_sum(lines, s)) <= magnitude_lines_sum(lines, s),
    decreases lines.len(),
{
    if lines.len() > 0 {
        lemma_exact_le_magnitude(lines.drop_last(), s);
    }
}

/// Once a running total has overflowed, it stays overflowed.
pub proof fn lemma_total_none_stays(lines: Seq<(Money, i32)>, i: int)
    requires
        0 <= i <= lines.len(),
        lines_total(lines.take(i)) is None,
    ensures
        lines_total(lines) is None,
    decreases lines.len() - i,
{
    if i < lines.len() {
        assert(lines.take(i + 1).drop_last() =~= lines.take(i));
        lemma_total_none_stays(lines, i + 1);
    } else {
        assert(lines.take(i) =~= lines);
    }
}

/// Every line whose product is not zero has a scale within `lines_scale`.
pub proof fn lemma_lines_scale_bound(lines: Seq<(Money, i32)>, i: int)
    requires
        0 <= i < lines.len(),
        counts(lines[i]),
    ensures
        lines[i].0.scale <= lines_scale(lines),
    decreases lines.len(),
{
    if i < lines.len() - 1 {
        lemma_lines_scale_bound(lines.drop_last(), i);
    }
}

/// `lines_scale` is at most the largest scale of a well formed price.
pub proof fn lemma_lines_scale_max(lines: Seq<(Money, i32)>)
    requires
        lines_wf(lines),
    ensures
        lines_scale(lines) <= MAX_SCALE,
    decreases lines.len(),
{
    if lines.len() > 0 {
        assert forall|i: int| 0 <= i < lines.len() - 1 implies (#[trigger] lines.drop_last()[i]).0.wf() by {
            assert(lines.drop_last()[i] == lines[i]);
        }
        lemma_lines_scale_max(lines.drop_last());
        assert(lines.last() == lines[lines.len() - 1]);
    }
}

/// The conditions under which one step of a running total is exact.
///
/// `t` is the total of the lines before `line`, written exactly (its
/// mantissa at scale `s` is `before`).  When the magnitudes stay within 96
/// bits, the product of the line is exact and so is its addition to `t`, and
/// the new total written at scale `s` is `before` plus the product.
pub proof fn lemma_step_conditions(t: Money, line: (Money, i32), s: nat, before: int)
    requires
        t.wf(),
        t.scale <= s,
        t.at_scale(s) == before,
        line.0.wf(),
        counts(line) ==> line.0.scale <= s,
        abs(before) + abs(line.0.at_scale(s) * line.1) <= MAX_MANTISSA,
    ensures
        !counts(line) ==> line.0.at_scale(s) * line.1 == 0,
        counts(line) ==> {
            let sub = exact_product(line.0, quantity_amount(line.1));
            &&& product_is_exact(line.0, quantity_amount(line.1))
            &&& sub.mantissa != 0
            &&& sub.scale <= s
            &&& sub.at_scale(s) == line.0.at_scale(s) * line.1
            &&& t.mantissa != 0 ==> sum_is_exact(t, sub) && exact_sum(t, sub).scale <= s
                && exact_sum(t, sub).at_scale(s) == before + line.0.at_scale(s) * line.1
        },
        t.mantissa == 0 ==> before == 0,
{
    let p = line.0;
    let q = line.1 as int;
    let product_at_s = p.at_scale(s) * q;
    if t.mantissa == 0 {
        assert(t.at_scale(s) == 0);
    }
    if !counts(line) {
        if p.mantissa == 0 {
            assert(p.at_scale(s) == 0);
        } else {
            assert(q == 0);
        }
    } else {
        let k = (s - p.scale) as nat;
        lemma_mul_is_associative(p.mantissa as int, pow10(k), q);
        lemma_mul_is_commutative(pow10(k), q);
        lemma_mul_is_associative(p.mantissa as int, q, pow10(k));
        assert(product_at_s == (p.mantissa * q) * pow10(k));
        lemma_abs_scale_up(p.mantissa * q, k);
        lemma_abs_mul(p.mantissa as int, q);
        assert(abs(p.mantissa * q) > 0) by {
            lemma_mul_strictly_positive(abs(p.mantissa as int), abs(q));
        }
        assert(fits(p.mantissa * q));
        let sub = exact_product(p, quantity_amount(line.1));
        assert(product_is_exact(p, quantity_amount(line.1)));
        assert(sub.scale == p.scale);
        assert(sub.at_scale(s) == product_at_s);
        if t.mantissa != 0 {
            let s2 = max_scale(t.scale, sub.scale) as nat;
            let k2 = (s - s2) as nat;
            lemma_at_scale_compose(t, s2, s);
            lemma_at_scale_compose(sub, s2, s);
            lemma_abs_scale_up(t.at_scale(s2), k2);
            lemma_abs_scale_up(sub.at_scale(s2), k2);
            lemma_mul_is_distributive_add_other_way(pow10(k2), t.at_scale(s2), sub.at_scale(s2));
            lemma_mul_is_commutative(pow10(k2), t.at_scale(s2));
            lemma_mul_is_commutative(pow10(k2), sub.at_scale(s2));
            lemma_mul_is_commutative(pow10(k2), t.at_scale(s2) + sub.at_scale(s2));
            lemma_abs_scale_up(t.at_scale(s2) + sub.at_scale(s2), k2);
            assert(fits(t.at_scale(s2)));
            assert(fits(sub.at_scale(s2)));
            assert(fits(t.at_scale(s2) + sub.at_scale(s2)));
            assert(sum_is_exact(t, sub));
            let nt = exact_sum(t, sub);
            assert(nt.scale == s2);
            assert(nt.mantissa == t.at_scale(s2) + sub.at_scale(s2));
            assert(nt.at_scale(s) == before + product_at_s);
        }
    }
}

/// Adds one line to a running total: computes `price * quantity` and adds it,
/// as a loop over `Decimal`'s `*` and `+=` does.  `None` where one of
/// the two operations overflows.
pub fn add_line(total: Money, price: Money, quantity: i32) -> (r: Option<(Money, Money)>)
    requires
        total.wf(),
        price.wf(),
    ensures
        r == add_line_spec(total, price, quantity),
        r matches Some(p) ==> p.0.wf() && p.1.wf(),
        // what the decimal operations promise, passed on to the callers
        r matches Some(p) ==> {
            &&& !counts((price, quantity)) ==> p.0 == Money::spec_zero()
            &&& product_is_exact(price, quantity_amount(quantity)) ==> p.0 == exact_product(price, quantity_amount(quantity))
            &&& total.mantissa == 0 ==> p.1 == p.0
            &&& total.mantissa != 0 && p.0.mantissa == 0 ==> p.1 == total
            &&& sum_is_exact(total, p.0) ==> p.1 == exact_sum(total, p.0)
        },
        product_is_exact(price, quantity_amount(quantity)) && (total.mantissa == 0
            || sum_is_exact(total, exact_product(price, quantity_amount(quantity)))) ==> r is Some,
        !counts((price, quantity)) ==> r is Some,
{
    let q = Money::from_i32(quantity);
    match checked_mul(price, q) {
        None => None,
        Some(sub) => {
            match checked_add(total, sub) {
                None => None,
                Some(t) => Some((sub, t)),
            }
        },
    }
}

/// The running total of a list of (price, quantity) lines, as the order
/// service sums an order (`.map(price * quantity).sum()`).  `None` where the
/// plain `Decimal` operators would panic on overflow.
///
/// When nothing can overflow (`lines_fit`), the total is exact: written at
/// the largest scale among the lines, its mantissa is the exact sum of the
/// products.
pub fn sum_lines(lines: &Vec<(Money, i32)>) -> (r: Option<Money>)
    requires
        lines_wf(lines@),
    ensures
        r == lines_total(lines@),
        r matches Some(t) ==> t.wf(),
        lines_fit(lines@) ==> (r matches Some(t) && t.scale <= lines_scale(lines@)
            && t.at_scale(lines_scale(lines@)) == exact_lines_sum(lines@, lines_scale(lines@))),
{
    let ghost s = lines_scale(lines@);
    let ghost fit = lines_fit(lines@);
    proof {
        lemma_lines_scale_max(lines@);
    }
    let mut total = Money::zero();
    let mut i: usize = 0;
    assert(lines@.take(0) =~= Seq::<(Money, i32)>::empty());
    while i < lines.len()
        invariant
            0 <= i <= lines.len(),
            lines_wf(lines@),
            s == lines_scale(lines@),
            s <= MAX_SCALE,
            fit == lines_fit(lines@),
            total.wf(),
            lines_total(lines@.take(i as int)) == Some(total),
            fit ==> total.scale <= s && total.at_scale(s) == exact_lines_sum(lines@.take(i as int), s),
        decreases lines.len() - i,
    {
        let line = lines[i];
        let ghost before = lines@.take(i as int);
        let ghost after = lines@.take(i + 1);
        proof {
            assert(after.drop_last() =~= before);
            assert(after.last() == line);
            assert(line == lines@[i as int]);
        }
        proof {
            if fit {
                lemma_magnitude_prefix(lines@, i + 1, s);
                lemma_exact_le_magnitude(before, s);
                if counts(line) {
                    lemma_lines_scale_bound(lines@, i as int);
                }
                lemma_step_conditions(total, line, s, exact_lines_sum(before, s));
            }
        }
        let step = add_line(total, line.0, line.1);
        match step {
            None => {
                proof {
                    lemma_total_none_stays(lines@, i + 1);
                }
                return None;
            },
            Some(pair) => {
                proof {
                    if fit {
                        let gain = line.0.at_scale(s) * line.1;
                        assert(exact_lines_sum(after, s) == exact_lines_sum(before, s) + gain);
                        if !counts(line) {
                            assert(pair.0 == Money::spec_zero());
                            if total.mantissa == 0 {
                                assert(pair.1 == Money::spec_zero());
                                assert(pair.1.at_scale(s) == 0);
                            } else {
                                assert(pair.1 == total);
                            }
                        } else {
                            assert(pair.0 == exact_product(line.0, quantity_amount(line.1)));
                            if total.mantissa == 0 {
                                assert(pair.1 == pair.0);
                            } else {
                                assert(pair.1 == exact_sum(total, pair.0));
                            }
                        }
                    }
                }
                total = pair.1;
            },
        }
        i = i + 1;
    }
    assert(lines@.take(lines.len() as int) =~= lines@);
    Some(total)
}

} // verus!
