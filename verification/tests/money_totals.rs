use shopfront::api_orders::to_order_response;
use shopfront::cart::{cart_response, check_quantity, check_stock, CartItemDetail};
use shopfront::error::AppError;
use shopfront::instant::{Instant, FIRST_FOUR_DIGIT_SECOND, LAST_FOUR_DIGIT_SECOND};
use shopfront::money::Money;
use shopfront::order_model::OrderRow;
use shopfront::order_service::to_proto_order;
use shopfront::rpc::RpcCode;
use shopfront::text::int_to_text;
use shopfront::totals::{add_line, sum_lines};

fn m(mantissa: i128, scale: u32) -> Money {
    Money { mantissa, scale }
}

fn order_with_total(total: Money) -> OrderRow {
    let t = Instant::new(0, 0).unwrap();
    OrderRow { id: 1, user_id: 2, status: "created".to_string(), total_amount: total, created_at: t, updated_at: t }
}

/// The text an amount is written as on the wire.
fn text_of(a: Money) -> String {
    to_proto_order(order_with_total(a), vec![]).total_amount
}

#[test]
fn money_text_matches_decimal_display() {
    assert_eq!(text_of(m(150, 2)), "1.50");
    assert_eq!(text_of(m(-5, 2)), "-0.05");
    assert_eq!(text_of(m(0, 0)), "0");
    assert_eq!(text_of(m(0, 2)), "0.00");
    assert_eq!(text_of(m(12, 0)), "12");
    assert_eq!(text_of(m(1, 28)), "0.0000000000000000000000000001");
    assert_eq!(text_of(m(-79228162514264337593543950335, 3)), "-79228162514264337593543950.335");
}

#[test]
fn money_text_reads_back() {
    for a in [
        m(150, 2),
        m(-5, 2),
        m(0, 0),
        m(0, 2),
        m(79228162514264337593543950335, 0),
        m(79228162514264337593543950335, 28),
        m(-79228162514264337593543950335, 14),
        m(1, 28),
    ] {
        let wire = to_proto_order(order_with_total(a), vec![]);
        assert_eq!(to_order_response(wire).unwrap().total_amount, a);
    }
}

#[test]
fn unreadable_amounts_are_refused() {
    let mut wire = to_proto_order(order_with_total(m(1, 0)), vec![]);
    wire.total_amount = "abc".to_string();
    let e = to_order_response(wire).unwrap_err();
    assert_eq!(e.code, RpcCode::Internal);
    let mut wire = to_proto_order(order_with_total(m(1, 0)), vec![]);
    wire.total_amount = "19.99".to_string();
    assert_eq!(to_order_response(wire).unwrap().total_amount, m(1999, 2));
}

#[test]
fn multiplication_is_exact_and_zero_is_plain_zero() {
    assert_eq!(add_line(m(0, 0), m(1999, 2), 3), Some((m(5997, 2), m(5997, 2))));
    assert_eq!(add_line(m(0, 0), m(0, 2), 3), Some((m(0, 0), m(0, 0))));
    assert_eq!(add_line(m(0, 0), m(1999, 2), 0), Some((m(0, 0), m(0, 0))));
}

#[test]
fn addition_aligns_scales() {
    assert_eq!(add_line(m(150, 2), m(3, 1), 1), Some((m(3, 1), m(180, 2))));
    assert_eq!(add_line(m(150, 2), m(0, 3), 1), Some((m(0, 0), m(150, 2))));
    assert_eq!(add_line(m(79228162514264337593543950335, 0), m(1, 0), 1), None);
}

#[test]
fn add_line_gives_subtotal_and_total() {
    assert_eq!(add_line(m(100, 2), m(250, 2), 3), Some((m(750, 2), m(850, 2))));
}

#[test]
fn sum_of_lines_is_exact() {
    let lines = vec![(m(150, 2), 2), (m(25, 2), 4), (m(3, 1), 1)];
    assert_eq!(sum_lines(&lines), Some(m(430, 2)));
    assert_eq!(sum_lines(&vec![]), Some(m(0, 0)));
}

#[test]
fn overflowing_sum_is_reported() {
    let big = m(79228162514264337593543950335, 0);
    assert_eq!(sum_lines(&vec![(big, 1), (big, 1)]), None);
    assert_eq!(sum_lines(&vec![(big, 2)]), None);
}

fn item(id: u128, price: Money, quantity: i32) -> CartItemDetail {
    CartItemDetail { id, product_id: id + 100, product_name: format!("p{id}"), price, quantity }
}

#[test]
fn cart_is_priced_line_by_line() {
    let cart = cart_response(vec![item(1, m(1999, 2), 2), item(2, m(500, 2), 1)]).unwrap();
    assert_eq!(cart.items.len(), 2);
    assert_eq!(cart.items[0].subtotal, m(3998, 2));
    assert_eq!(cart.items[1].subtotal, m(500, 2));
    assert_eq!(cart.items[0].product_id, 101);
    assert_eq!(cart.items[1].product_name, "p2");
    assert_eq!(cart.total, m(4498, 2));
}

#[test]
fn empty_cart_totals_zero() {
    let cart = cart_response(vec![]).unwrap();
    assert!(cart.items.is_empty());
    assert_eq!(text_of(cart.total), "0");
}

#[test]
fn cart_quantity_rules() {
    assert!(check_quantity(1).is_ok());
    assert!(matches!(check_quantity(0), Err(AppError::BadRequest(m)) if m == "Quantity must be greater than 0"));
    assert!(matches!(check_quantity(-3), Err(AppError::BadRequest(_))));
    assert!(matches!(check_stock(None, 1), Err(AppError::BadRequest(m)) if m == "Product not found"));
    assert!(matches!(check_stock(Some(2), 3), Err(AppError::BadRequest(m)) if m == "Insufficient stock"));
    assert!(check_stock(Some(3), 3).is_ok());
}

#[test]
fn integers_are_written_in_decimal() {
    assert_eq!(int_to_text(0), "0");
    assert_eq!(int_to_text(-42), "-42");
    assert_eq!(int_to_text(1234567), "1234567");
    assert_eq!(int_to_text(i64::MIN), i64::MIN.to_string());
    assert_eq!(int_to_text(i64::MAX), i64::MAX.to_string());
}

#[test]
fn times_read_back_across_the_four_digit_years() {
    let cases = [
        (FIRST_FOUR_DIGIT_SECOND, 0),
        (LAST_FOUR_DIGIT_SECOND, 999_999_999),
        (-1, 1_000),
        (1_700_000_000, 123_456_789),
        (951_782_400, 500_000_000),
    ];
    for (secs, nanos) in cases {
        let t = Instant::new(secs, nanos).unwrap();
        let mut row = order_with_total(m(1, 0));
        row.created_at = t;
        let back = to_order_response(to_proto_order(row, vec![])).unwrap();
        assert_eq!(back.created_at, t);
    }
}
