//! The shopping cart: the rules for adding and setting quantities, and the
//! priced view of a cart with its subtotals and total.
use crate::error::AppError;
use crate::money::{checked_mul, Money};
use crate::totals::{
    exact_lines_sum, line_amount, lines_fit, lines_scale, lines_total, lines_wf, sum_lines,
};
use vstd::prelude::*;

verus! {

broadcast use vstd::string::group_string_axioms;

/// A line of a user's cart joined with its product.
#[derive(Clone, Debug)]
pub struct CartItemDetail {
    pub id: u128,
    pub product_id: u128,
    pub product_name: String,
    pub price: Money,
    pub quantity: i32,
}

/// A priced line of the cart.
#[derive(Clone, Debug)]
pub struct CartItemResponse {
    pub id: u128,
    pub product_id: u128,
    pub product_name: String,
    pub price: Money,
    pub quantity: i32,
    pub subtotal: Money,
}

/// The priced cart.
#[derive(Clone, Debug)]
pub struct CartResponse {
    pub items: Vec<CartItemResponse>,
    pub total: Money,
}

/// The (price, quantity) pairs of a cart.
pub open spec fn cart_lines(items: Seq<CartItemDetail>) -> Seq<(Money, i32)> {
    items.map_values(|it: CartItemDetail| (it.price, it.quantity))
}

/// A priced line is its cart line with the line's amount as subtotal.
pub open spec fn priced_item(d: CartItemDetail, r: CartItemResponse) -> bool {
    &&& r.id == d.id
    &&& r.product_id == d.product_id
    &&& r.product_name@ == d.product_name@
    &&& r.price == d.price
    &&& r.quantity == d.quantity
    &&& line_amount(d.price, d.quantity) == Some(r.subtotal)
}

/// While a running total has not overflowed, no line amount before it has.
proof fn lemma_total_some_lines_some(lines: Seq<(Money, i32)>, i: int)
    requires
        0 <= i < lines.len(),
        lines_total(lines) is Some,
    ensures
        line_amount(lines[i].0, lines[i].1) is Some,
    decreases lines.len(),
{
    if i < lines.len() - 1 {
        assert(lines.drop_last()[i] == lines[i]);
        lemma_total_some_lines_some(lines.drop_last(), i);
    }
}

/// The exact sum of a cart's priced lines, at any scale, is the sum over its
/// items of price times that item's own quantity, one term per cart line.
pub proof fn lemma_cart_lines_sum(items: Seq<CartItemDetail>, s: nat)
    ensures
        exact_lines_sum(cart_lines(items), s) == items.fold_left(
            0int,
            |acc: int, it: CartItemDetail| acc + it.price.at_scale(s) * it.quantity,
        ),
    decreases items.len(),
{
    if items.len() > 0 {
        lemma_cart_lines_sum(items.drop_last(), s);
        assert(cart_lines(items).drop_last() =~= cart_lines(items.drop_last()));
        assert(cart_lines(items).last() == (items.last().price, items.last().quantity));
    }
}

/// Prices a cart: each line's subtotal is its price times its quantity and
/// the total is the sum of the subtotals, computed as `rust_decimal` does.
/// `None` where that arithmetic overflows (where `Decimal`'s operators
/// panic).  When nothing overflows the total is exact: written at the largest
/// price scale it is the exact sum of the products.
pub fn cart_response(items: Vec<CartItemDetail>) -> (r: Option<CartResponse>)
    requires
        forall|i: int| 0 <= i < items@.len() ==> (#[trigger] items@[i]).price.wf(),
    ensures
        r is Some <==> lines_total(cart_lines(items@)) is Some,
        r matches Some(c) ==> {
            &&& Some(c.total) == lines_total(cart_lines(items@))
            &&& c.total.wf()
            &&& c.items@.len() == items@.len()
            &&& forall|i: int| 0 <= i < items@.len() ==> priced_item(#[trigger] items@[i], c.items@[i])
        },
        lines_fit(cart_lines(items@)) ==> (r matches Some(c) && c.total.scale <= lines_scale(
            cart_lines(items@),
        ) && c.total.at_scale(lines_scale(cart_lines(items@))) == exact_lines_sum(
            cart_lines(items@),
            lines_scale(cart_lines(items@)),
        )),
        lines_fit(cart_lines(items@)) ==> (r matches Some(c) && c.total.at_scale(lines_scale(cart_lines(items@)))
            == items@.fold_left(
            0int,
            |acc: int, it: CartItemDetail| acc + it.price.at_scale(lines_scale(cart_lines(items@))) * it.quantity,
        )),
{
    proof {
        lemma_cart_lines_sum(items@, lines_scale(cart_lines(items@)));
    }
    let ghost lines_spec = cart_lines(items@);
    let mut lines: Vec<(Money, i32)> = Vec::new();
    let mut i: usize = 0;
    while i < items.len()
        invariant
            0 <= i <= items@.len(),
            lines@ == cart_lines(items@.take(i as int)),
        decreases items.len() - i,
    {
        lines.push((items[i].price, items[i].quantity));
        proof {
            assert(cart_lines(items@.take(i + 1)) =~= cart_lines(items@.take(i as int)).push(
                (items@[i as int].price, items@[i as int].quantity),
            ));
        }
        i = i + 1;
    }
    assert(items@.take(items@.len() as int) =~= items@);
    assert(lines@ == lines_spec);
    proof {
        assert forall|j: int| 0 <= j < lines@.len() implies (#[trigger] lines@[j]).0.wf() by {
            assert(lines@[j].0 == items@[j].price);
        }
        assert(lines_wf(lines@));
    }
    let total = match sum_lines(&lines) {
        Some(t) => t,
        None => {
            return None;
        },
    };
    let mut out: Vec<CartItemResponse> = Vec::new();
    let mut k: usize = 0;
    while k < items.len()
        invariant
            0 <= k <= items@.len(),
            lines_spec == cart_lines(items@),
            lines_total(lines_spec) is Some,
            forall|j: int| 0 <= j < items@.len() ==> (#[trigger] items@[j]).price.wf(),
            out@.len() == k,
            forall|j: int| 0 <= j < k ==> priced_item(#[trigger] items@[j], out@[j]),
        decreases items.len() - k,
    {
        let it = &items[k];
        proof {
            lemma_total_some_lines_some(lines_spec, k as int);
            assert(lines_spec[k as int] == (it.price, it.quantity));
        }
        let sub = match checked_mul(it.price, Money::from_i32(it.quantity)) {
            Some(s) => s,
            None => {
                return None;
            },
        };
        let resp = CartItemResponse {
            id: it.id,
            product_id: it.product_id,
            product_name: it.product_name.clone(),
            price: it.price,
            quantity: it.quantity,
            subtotal: sub,
        };
        out.push(resp);
        k = k + 1;
    }
    Some(CartResponse { items: out, total })
}

/// A quantity to put in a cart must be positive.
pub fn check_quantity(quantity: i32) -> (r: Result<(), AppError>)
    ensures
        quantity > 0 ==> r is Ok,
        quantity <= 0 ==> (r matches Err(AppError::BadRequest(m)) && m@ == "Quantity must be greater than 0"@),
{
    if quantity <= 0 {
        Err(AppError::bad_request("Quantity must be greater than 0"))
    } else {
        Ok(())
    }
}

/// A product whose stock (if it exists) is looked up must exist and have at
/// least the requested quantity in stock.
pub fn check_stock(stock: Option<i32>, quantity: i32) -> (r: Result<(), AppError>)
    ensures
        match stock {
            None => r matches Err(AppError::BadRequest(m)) && m@ == "Product not found"@,
            Some(s) => if s < quantity {
                r matches Err(AppError::BadRequest(m)) && m@ == "Insufficient stock"@
            } else {
                r is Ok
            },
        },
{
    match stock {
        None => Err(AppError::bad_request("Product not found")),
        Some(s) => {
            if s < quantity {
                Err(AppError::bad_request("Insufficient stock"))
            } else {
                Ok(())
            }
        },
    }
}

} // verus!
