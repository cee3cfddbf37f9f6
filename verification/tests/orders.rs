use shopfront::api_orders::{
    check_order_owner, get_order_request, checkout_lines, create_order_request, list_orders_request, order_in_reply,
    to_order_response, to_order_responses, CartLineItem,
};
use shopfront::error::AppError;
use shopfront::instant::Instant;
use shopfront::money::Money;
use shopfront::order_model::{
    CreateOrderRequest, LockedProductRow, OrderItemInput, OrderItemRow, OrderRow,
};
use shopfront::order_service::{
    check_order_request, order_page_bounds, order_total, parse_uuid, require_order, to_proto_order,
    OrderLocking,
};
use shopfront::rpc::RpcCode;
use shopfront::sort::sort_by_product;

const U1: &str = "67e55044-10b1-426f-9247-bb680e5fe0c8";
const U2: &str = "a1a2a3a4-b1b2-c1c2-d1d2-d3d4d5d6d7d8";
const U3: &str = "00000000-0000-0000-0000-000000000001";

fn id(s: &str) -> u128 {
    uuid::Uuid::parse_str(s).unwrap().as_u128()
}

fn input(product: &str, quantity: i32) -> OrderItemInput {
    OrderItemInput { product_id: product.to_string(), quantity }
}

#[test]
fn uuids_print_hyphenated_and_parse_back() {
    assert_eq!(get_order_request(id(U1)).order_id, U1);
    assert_eq!(parse_uuid(U2, "id").unwrap(), id(U2));
    assert_eq!(parse_uuid(&get_order_request(5).order_id, "id").unwrap(), 5);
    assert_eq!(get_order_request(5).order_id, "00000000-0000-0000-0000-000000000005");
    assert!(parse_uuid("nope", "id").is_err());
}

#[test]
fn parse_uuid_names_the_field() {
    let e = parse_uuid("xyz", "order_id").unwrap_err();
    assert_eq!(e.code, RpcCode::InvalidArgument);
    assert_eq!(e.message, "invalid order_id: xyz");
    assert_eq!(parse_uuid(U1, "order_id").unwrap(), id(U1));
}

#[test]
fn sort_is_stable_by_product() {
    let v = vec![(3, 1), (1, 2), (3, 5), (2, 1), (1, 7)];
    assert_eq!(sort_by_product(&v), vec![(1, 2), (1, 7), (2, 1), (3, 1), (3, 5)]);
    assert_eq!(sort_by_product(&vec![]), vec![]);
}

#[test]
fn order_request_checks_in_order() {
    let bad_user = CreateOrderRequest { user_id: "bad".to_string(), items: vec![] };
    let e = check_order_request(&bad_user).unwrap_err();
    assert_eq!((e.code, e.message.as_str()), (RpcCode::InvalidArgument, "invalid user_id: bad"));

    let empty = CreateOrderRequest { user_id: U1.to_string(), items: vec![] };
    let e = check_order_request(&empty).unwrap_err();
    assert_eq!(e.message, "order must contain at least one item");

    let zero = CreateOrderRequest { user_id: U1.to_string(), items: vec![input(U2, 1), input("bad", 0)] };
    let e = check_order_request(&zero).unwrap_err();
    assert_eq!(e.message, "item quantity must be greater than 0");

    let bad_product = CreateOrderRequest { user_id: U1.to_string(), items: vec![input("bad", 2), input(U2, 0)] };
    let e = check_order_request(&bad_product).unwrap_err();
    assert_eq!((e.code, e.message.as_str()), (RpcCode::InvalidArgument, "invalid product_id: bad"));
}

#[test]
fn order_request_lines_come_sorted() {
    let req = CreateOrderRequest { user_id: U1.to_string(), items: vec![input(U2, 2), input(U3, 1), input(U2, 4)] };
    let (user, lines) = check_order_request(&req).unwrap();
    assert_eq!(user, id(U1));
    assert_eq!(lines, vec![(id(U3), 1), (id(U2), 2), (id(U2), 4)]);
}

fn product(pid: u128, name: &str, price: Money, stock: i32) -> LockedProductRow {
    LockedProductRow { id: pid, name: name.to_string(), price, stock_quantity: stock }
}

#[test]
fn locking_stops_at_missing_product() {
    let mut l = OrderLocking::new(vec![(id(U3), 1)]);
    assert_eq!(l.next_product(), Some(id(U3)));
    let e = l.record(None).unwrap_err();
    assert_eq!(e.code, RpcCode::NotFound);
    assert_eq!(e.message, format!("product {U3} not found"));
}

#[test]
fn locking_stops_at_short_stock() {
    let mut l = OrderLocking::new(vec![(id(U3), 5)]);
    let e = l.record(Some(product(id(U3), "Mug", Money { mantissa: 500, scale: 2 }, 2))).unwrap_err();
    assert_eq!(e.code, RpcCode::FailedPrecondition);
    assert_eq!(e.message, "insufficient stock for product 'Mug': requested 5, available 2");
}

#[test]
fn locking_prices_lines_at_current_price() {
    let mut l = OrderLocking::new(vec![(id(U3), 2), (id(U2), 1)]);
    l.record(Some(product(id(U3), "Mug", Money { mantissa: 500, scale: 2 }, 2))).unwrap();
    assert_eq!(l.next_product(), Some(id(U2)));
    l.record(Some(product(id(U2), "Tea", Money { mantissa: 1250, scale: 2 }, 9))).unwrap();
    assert_eq!(l.next_product(), None);
    let lines = l.into_lines();
    assert_eq!(lines.len(), 2);
    assert_eq!(lines[0].product_name, "Mug");
    assert_eq!(lines[0].quantity, 2);
    assert_eq!(lines[1].unit_price, Money { mantissa: 1250, scale: 2 });
    assert_eq!(order_total(&lines), Some(Money { mantissa: 2250, scale: 2 }));
}

fn row() -> (OrderRow, Vec<OrderItemRow>) {
    let t = Instant::new(1_700_000_000, 123_000_000).unwrap();
    let order = OrderRow {
        id: id(U1),
        user_id: id(U2),
        status: "created".to_string(),
        total_amount: Money { mantissa: 2250, scale: 2 },
        created_at: t,
        updated_at: Instant::new(1_700_000_100, 0).unwrap(),
    };
    let items = vec![
        OrderItemRow { product_id: id(U3), product_name: "Mug".to_string(), unit_price: Money { mantissa: 500, scale: 2 }, quantity: 2 },
        OrderItemRow { product_id: id(U2), product_name: "Tea".to_string(), unit_price: Money { mantissa: 1250, scale: 2 }, quantity: 1 },
    ];
    (order, items)
}

#[test]
fn orders_are_written_as_text() {
    let (order, items) = row();
    let wire = to_proto_order(order, items);
    assert_eq!(wire.id, U1);
    assert_eq!(wire.total_amount, "22.50");
    assert_eq!(wire.items[0].unit_price, "5.00");
    assert_eq!(wire.created_at, "2023-11-14T22:13:20.123+00:00");
    assert_eq!(wire.updated_at, "2023-11-14T22:15:00+00:00");
}

#[test]
fn wire_round_trip_gives_back_the_order() {
    let (order, items) = row();
    let wire = to_proto_order(order.clone(), items.clone());
    let resp = to_order_response(wire).unwrap();
    assert_eq!(resp.id, order.id);
    assert_eq!(resp.user_id, order.user_id);
    assert_eq!(resp.status, order.status);
    assert_eq!(resp.total_amount, order.total_amount);
    assert_eq!(resp.created_at, order.created_at);
    assert_eq!(resp.updated_at, order.updated_at);
    assert_eq!(resp.items.len(), 2);
    assert_eq!(resp.items[1].product_id, items[1].product_id);
    assert_eq!(resp.items[1].unit_price, items[1].unit_price);
}

#[test]
fn leap_second_times_survive_the_wire() {
    let (mut order, items) = row();
    order.created_at = Instant::new(1_483_228_799, 1_500_000_000).unwrap();
    order.updated_at = Instant::new(1_483_228_799, 1_000_000_000).unwrap();
    let wire = to_proto_order(order.clone(), items);
    assert_eq!(wire.created_at, "2016-12-31T23:59:60.500+00:00");
    assert_eq!(wire.updated_at, "2016-12-31T23:59:60+00:00");
    let resp = to_order_response(wire).unwrap();
    assert_eq!(resp.created_at, order.created_at);
    assert_eq!(resp.updated_at, order.updated_at);
    assert_eq!(resp.created_at.nanos(), 1_500_000_000);
}

#[test]
fn unreadable_wire_fields_are_internal_errors() {
    let (order, items) = row();
    let mut wire = to_proto_order(order.clone(), items.clone());
    wire.items[1].product_id = "zz".to_string();
    wire.id = "also bad".to_string();
    let e = to_order_response(wire).unwrap_err();
    assert_eq!(e.code, RpcCode::Internal);
    assert!(e.message.starts_with("invalid product_id: "));

    let mut wire = to_proto_order(order.clone(), items.clone());
    wire.total_amount = "x".to_string();
    let e = to_order_response(wire).unwrap_err();
    assert!(e.message.starts_with("order service returned invalid decimal: "));

    let mut wire = to_proto_order(order, items);
    wire.updated_at = "yesterday".to_string();
    let e = to_order_response(wire).unwrap_err();
    assert!(e.message.starts_with("order service returned invalid timestamp: "));
}

#[test]
fn a_page_fails_on_its_first_bad_order() {
    let (order, items) = row();
    let good = to_proto_order(order.clone(), items.clone());
    let mut bad = to_proto_order(order, items);
    bad.user_id = "nobody".to_string();
    assert_eq!(to_order_responses(vec![good.clone(), good.clone()]).unwrap().len(), 2);
    let e = to_order_responses(vec![good, bad]).unwrap_err();
    assert!(e.message.starts_with("invalid user_id: "));
}

#[test]
fn requests_to_the_order_service() {
    let r = create_order_request(id(U1), vec![(id(U2), 3)]);
    assert_eq!(r.user_id, U1);
    assert_eq!(r.items[0].product_id, U2);
    assert_eq!(r.items[0].quantity, 3);
    let l = list_orders_request(id(U1), 10, (1i64 << 32) + 7);
    assert_eq!((l.limit, l.offset), (10, 7));
    let e = order_in_reply(None).unwrap_err();
    assert_eq!((e.code, e.message.as_str()), (RpcCode::Internal, "order service returned an empty order"));
}

#[test]
fn orders_are_only_shown_to_their_owner() {
    let (order, items) = row();
    let resp = to_order_response(to_proto_order(order, items)).unwrap();
    assert!(check_order_owner(resp.clone(), id(U2)).is_ok());
    assert!(matches!(check_order_owner(resp, id(U1)), Err(AppError::BadRequest(m)) if m == "Order not found"));
}

#[test]
fn checkout_needs_a_cart() {
    assert!(matches!(checkout_lines(vec![]), Err(AppError::BadRequest(m)) if m == "Cart is empty"));
    let v = checkout_lines(vec![CartLineItem { product_id: 4, quantity: 2 }]).unwrap();
    assert_eq!(v, vec![(4, 2)]);
}

#[test]
fn missing_orders_are_not_found() {
    let e = require_order::<u128>(None, id(U1)).unwrap_err();
    assert_eq!((e.code, e.message), (RpcCode::NotFound, format!("order {U1} not found")));
    assert_eq!(require_order(Some(7u8), id(U1)).unwrap(), 7);
}

#[test]
fn list_bounds_default() {
    assert_eq!(order_page_bounds(0, -1), (10, 0));
    assert_eq!(order_page_bounds(25, 50), (25, 50));
}
