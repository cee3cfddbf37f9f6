//! The API's side of orders: the requests it sends to the order service,
//! reading the service's wire orders back into typed responses, and the
//! checks around checkout and order access.
use crate::error::AppError;
use crate::ids::{parse_uuid_text, uuid_parse_str, uuid_text, uuid_to_text};
use crate::instant::{rfc3339_parse, Instant};
use crate::money::{as_pair, decimal_from_str, parse_text, Money};
use crate::order_model::{CreateOrderRequest, GetOrderRequest, ListOrdersRequest, Order, OrderItem, OrderItemInput};
use crate::order_service::{status_view, wire_item, written_as};
use crate::order_model::OrderItemRow;
use crate::order_model::OrderRow;
use crate::instant::four_digit_year;
use crate::rpc::{RpcCode, RpcStatus};
use vstd::prelude::*;

verus! {

broadcast use vstd::string::group_string_axioms;

/// A line of an order, as the API answers it.
#[derive(Clone, Debug)]
pub struct OrderItemResponse {
    pub product_id: u128,
    pub product_name: String,
    pub unit_price: Money,
    pub quantity: i32,
}

/// An order, as the API answers it.
#[derive(Clone, Debug)]
pub struct OrderResponse {
    pub id: u128,
    pub user_id: u128,
    pub status: String,
    pub total_amount: Money,
    pub items: Vec<OrderItemResponse>,
    pub created_at: Instant,
    pub updated_at: Instant,
}

/// A line of a user's cart, as checkout reads it.
#[derive(Clone, Copy, Debug)]
pub struct CartLineItem {
    pub product_id: u128,
    pub quantity: i32,
}

pub open spec fn decimal_message(e: Seq<char>) -> Seq<char> {
    "order service returned invalid decimal: "@ + e
}

pub open spec fn timestamp_message(e: Seq<char>) -> Seq<char> {
    "order service returned invalid timestamp: "@ + e
}

/// The first thing wrong with a wire line: its product id, then its price.
pub open spec fn item_error(it: OrderItem) -> Option<(RpcCode, Seq<char>)> {
    match uuid_parse_str(it.product_id@) {
        Err(e) => Some((RpcCode::Internal, "invalid product_id: "@ + e)),
        Ok(_) => match decimal_from_str(it.unit_price@) {
            Err(e) => Some((RpcCode::Internal, decimal_message(e))),
            Ok(_) => None,
        },
    }
}

/// The first thing wrong with any of the wire lines, in order.
pub open spec fn items_error(items: Seq<OrderItem>) -> Option<(RpcCode, Seq<char>)>
    decreases items.len(),
{
    if items.len() == 0 {
        None
    } else {
        match items_error(items.drop_last()) {
            Some(e) => Some(e),
            None => item_error(items.last()),
        }
    }
}

/// The first thing wrong with a wire order: its lines, then its id, its
/// user id, its total, its creation time and its update time.
pub open spec fn order_error(o: Order) -> Option<(RpcCode, Seq<char>)> {
    match items_error(o.items@) {
        Some(e) => Some(e),
        None => match uuid_parse_str(o.id@) {
            Err(e) => Some((RpcCode::Internal, "invalid order id: "@ + e)),
            Ok(_) => match uuid_parse_str(o.user_id@) {
                Err(e) => Some((RpcCode::Internal, "invalid user_id: "@ + e)),
                Ok(_) => match decimal_from_str(o.total_amount@) {
                    Err(e) => Some((RpcCode::Internal, decimal_message(e))),
                    Ok(_) => match rfc3339_parse(o.created_at@) {
                        Err(e) => Some((RpcCode::Internal, timestamp_message(e))),
                        Ok(_) => match rfc3339_parse(o.updated_at@) {
                            Err(e) => Some((RpcCode::Internal, timestamp_message(e))),
                            Ok(_) => None,
                        },
                    },
                },
            },
        },
    }
}

/// A response line is what its wire line reads as.
pub open spec fn item_read_as(it: OrderItem, r: OrderItemResponse) -> bool {
    &&& uuid_parse_str(it.product_id@) == Ok::<u128, Seq<char>>(r.product_id)
    &&& r.product_name@ == it.product_name@
    &&& decimal_from_str(it.unit_price@) == Ok::<(i128, u32), Seq<char>>(as_pair(r.unit_price))
    &&& r.quantity == it.quantity
}

/// A response is what its wire order reads as.
pub open spec fn order_read_as(o: Order, r: OrderResponse) -> bool {
    &&& uuid_parse_str(o.id@) == Ok::<u128, Seq<char>>(r.id)
    &&& uuid_parse_str(o.user_id@) == Ok::<u128, Seq<char>>(r.user_id)
    &&& r.status@ == o.status@
    &&& decimal_from_str(o.total_amount@) == Ok::<(i128, u32), Seq<char>>(as_pair(r.total_amount))
    &&& rfc3339_parse(o.created_at@) == Ok::<(i64, u32), Seq<char>>(
        (r.created_at.spec_secs(), r.created_at.spec_nanos()),
    )
    &&& rfc3339_parse(o.updated_at@) == Ok::<(i64, u32), Seq<char>>(
        (r.updated_at.spec_secs(), r.updated_at.spec_nanos()),
    )
    &&& r.items@.len() == o.items@.len()
    &&& forall|i: int| 0 <= i < o.items@.len() ==> item_read_as(#[trigger] o.items@[i], r.items@[i])
}

fn with_detail(prefix: &str, detail: String) -> (r: RpcStatus)
    ensures
        status_view(r) == (RpcCode::Internal, prefix@ + detail@),
{
    let mut m = prefix.to_string();
    m.append(detail.as_str());
    RpcStatus::internal(m)
}

fn read_item(it: &OrderItem) -> (r: Result<OrderItemResponse, RpcStatus>)
    ensures
        match item_error(*it) {
            Some(e) => r matches Err(s) && status_view(s) == e,
            None => r matches Ok(v) && item_read_as(*it, v) && v.unit_price.wf(),
        },
{
    let product_id = match parse_uuid_text(it.product_id.as_str()) {
        Ok(u) => u,
        Err(e) => {
            return Err(with_detail("invalid product_id: ", e));
        },
    };
    let unit_price = match parse_text(it.unit_price.as_str()) {
        Ok(m) => m,
        Err(e) => {
            return Err(with_detail("order service returned invalid decimal: ", e));
        },
    };
    Ok(OrderItemResponse {
        product_id,
        product_name: it.product_name.clone(),
        unit_price,
        quantity: it.quantity,
    })
}

proof fn lemma_items_error_stays(items: Seq<OrderItem>, i: int)
    requires
        0 <= i <= items.len(),
        items_error(items.take(i)) is Some,
    ensures
        items_error(items) == items_error(items.take(i)),
    decreases items.len() - i,
{
    if i < items.len() {
        assert(items.take(i + 1).drop_last() =~= items.take(i));
        lemma_items_error_stays(items, i + 1);
    } else {
        assert(items.take(i) =~= items);
    }
}

/// Reads a wire order from the order service into the API's response
/// (`to_order_response`): ids, amounts and times are parsed; the first field
/// that does not parse (lines first, in order) makes the whole read fail
/// with an internal error naming what was wrong.
pub fn to_order_response(order: Order) -> (r: Result<OrderResponse, RpcStatus>)
    ensures
        match order_error(order) {
            Some(e) => r matches Err(s) && status_view(s) == e,
            None => r matches Ok(v) && order_read_as(order, v) && v.total_amount.wf(),
        },
{
    read_order(&order)
}

fn read_order(order: &Order) -> (r: Result<OrderResponse, RpcStatus>)
    ensures
        match order_error(*order) {
            Some(e) => r matches Err(s) && status_view(s) == e,
            None => r matches Ok(v) && order_read_as(*order, v) && v.total_amount.wf(),
        },
{
    let mut items: Vec<OrderItemResponse> = Vec::new();
    let mut i: usize = 0;
    assert(order.items@.take(0) =~= Seq::<OrderItem>::empty());
    while i < order.items.len()
        invariant
            0 <= i <= order.items@.len(),
            items_error(order.items@.take(i as int)) is None,
            items@.len() == i,
            forall|j: int| 0 <= j < i ==> item_read_as(#[trigger] order.items@[j], items@[j]),
        decreases order.items.len() - i,
    {
        proof {
            assert(order.items@.take(i + 1).drop_last() =~= order.items@.take(i as int));
            assert(order.items@.take(i + 1).last() == order.items@[i as int]);
        }
        match read_item(&order.items[i]) {
            Ok(v) => {
                items.push(v);
            },
            Err(e) => {
                proof {
                    lemma_items_error_stays(order.items@, i + 1);
                }
                return Err(e);
            },
        }
        i = i + 1;
    }
    assert(order.items@.take(order.items@.len() as int) =~= order.items@);
    let id = match parse_uuid_text(order.id.as_str()) {
        Ok(u) => u,
        Err(e) => {
            return Err(with_detail("invalid order id: ", e));
        },
    };
    let user_id = match parse_uuid_text(order.user_id.as_str()) {
        Ok(u) => u,
        Err(e) => {
            return Err(with_detail("invalid user_id: ", e));
        },
    };
    let total_amount = match parse_text(order.total_amount.as_str()) {
        Ok(m) => m,
        Err(e) => {
            return Err(with_detail("order service returned invalid decimal: ", e));
        },
    };
    let created_at = match Instant::parse_rfc3339(order.created_at.as_str()) {
        Ok(t) => t,
        Err(e) => {
            return Err(with_detail("order service returned invalid timestamp: ", e));
        },
    };
    let updated_at = match Instant::parse_rfc3339(order.updated_at.as_str()) {
        Ok(t) => t,
        Err(e) => {
            return Err(with_detail("order service returned invalid timestamp: ", e));
        },
    };
    Ok(OrderResponse { id, user_id, status: order.status.clone(), total_amount, items, created_at, updated_at })
}

proof fn lemma_written_items_read(items: Seq<OrderItemRow>, wire: Seq<OrderItem>)
    requires
        wire.len() == items.len(),
        forall|i: int| 0 <= i < items.len() ==> wire_item(#[trigger] items[i], wire[i]),
    ensures
        items_error(wire) is None,
    decreases wire.len(),
{
    if wire.len() > 0 {
        let n = wire.len() - 1;
        assert forall|i: int| 0 <= i < n implies wire_item(#[trigger] items.drop_last()[i], wire.drop_last()[i]) by {
            assert(items.drop_last()[i] == items[i]);
            assert(wire.drop_last()[i] == wire[i]);
        }
        lemma_written_items_read(items.drop_last(), wire.drop_last());
        assert(wire_item(items[n], wire[n]));
    }
}

/// What the order service writes, the API reads back unchanged: a stored
/// order written on the wire (`to_proto_order`) reads without error, and
/// any response read from it (`to_order_response`) has the order's ids,
/// status, total, times and lines (times of the years 0 to 9999, leap
/// seconds among them).
pub proof fn lemma_wire_round_trip(order: OrderRow, items: Seq<OrderItemRow>, wire: Order, resp: OrderResponse)
    requires
        written_as(order, items, wire),
        four_digit_year(order.created_at.spec_secs()),
        four_digit_year(order.updated_at.spec_secs()),
    ensures
        order_error(wire) is None,
        order_read_as(wire, resp) ==> {
            &&& resp.id == order.id
            &&& resp.user_id == order.user_id
            &&& resp.status@ == order.status@
            &&& resp.total_amount == order.total_amount
            &&& resp.created_at.spec_secs() == order.created_at.spec_secs()
            &&& resp.created_at.spec_nanos() == order.created_at.spec_nanos()
            &&& resp.updated_at.spec_secs() == order.updated_at.spec_secs()
            &&& resp.updated_at.spec_nanos() == order.updated_at.spec_nanos()
            &&& resp.items@.len() == items.len()
            &&& forall|i: int| 0 <= i < items.len() ==> {
                &&& (#[trigger] resp.items@[i]).product_id == items[i].product_id
                &&& resp.items@[i].product_name@ == items[i].product_name@
                &&& resp.items@[i].unit_price == items[i].unit_price
                &&& resp.items@[i].quantity == items[i].quantity
            }
        },
{
    lemma_written_items_read(items, wire.items@);
    if order_read_as(wire, resp) {
        assert forall|i: int| 0 <= i < items.len() implies {
            &&& (#[trigger] resp.items@[i]).product_id == items[i].product_id
            &&& resp.items@[i].product_name@ == items[i].product_name@
            &&& resp.items@[i].unit_price == items[i].unit_price
            &&& resp.items@[i].quantity == items[i].quantity
        } by {
            assert(wire_item(items[i], wire.items@[i]));
            assert(item_read_as(wire.items@[i], resp.items@[i]));
        }
    }
}

/// Reads a page of wire orders; the first order that cannot be read fails
/// the page.
pub fn to_order_responses(orders: Vec<Order>) -> (r: Result<Vec<OrderResponse>, RpcStatus>)
    ensures
        r is Ok <==> forall|i: int| 0 <= i < orders@.len() ==> (#[trigger] order_error(orders@[i])) is None,
        r matches Ok(v) ==> v@.len() == orders@.len() && forall|i: int|
            0 <= i < orders@.len() ==> order_read_as(#[trigger] orders@[i], v@[i]),
        r is Err ==> exists|i: int|
            0 <= i < orders@.len() && (#[trigger] order_error(orders@[i])) is Some && (forall|j: int|
                0 <= j < i ==> (#[trigger] order_error(orders@[j])) is None) && (r matches Err(s) && Some(
                status_view(s),
            ) == order_error(orders@[i])),
{
    let mut out: Vec<OrderResponse> = Vec::new();
    let mut i: usize = 0;
    while i < orders.len()
        invariant
            0 <= i <= orders@.len(),
            out@.len() == i,
            forall|j: int| 0 <= j < i ==> order_error(#[trigger] orders@[j]) is None,
            forall|j: int| 0 <= j < i ==> order_read_as(#[trigger] orders@[j], out@[j]),
        decreases orders.len() - i,
    {
        match read_order(&orders[i]) {
            Ok(v) => {
                out.push(v);
            },
            Err(e) => {
                return Err(e);
            },
        }
        i = i + 1;
    }
    Ok(out)
}

/// The request that asks the order service to place an order for a user's
/// lines.
pub fn create_order_request(user_id: u128, items: Vec<(u128, i32)>) -> (r: CreateOrderRequest)
    ensures
        r.user_id@ == uuid_text(user_id),
        r.items@.len() == items@.len(),
        forall|i: int|
            0 <= i < items@.len() ==> (#[trigger] r.items@[i]).product_id@ == uuid_text(items@[i].0)
                && r.items@[i].quantity == items@[i].1,
{
    let mut out: Vec<OrderItemInput> = Vec::new();
    let mut i: usize = 0;
    while i < items.len()
        invariant
            0 <= i <= items@.len(),
            out@.len() == i,
            forall|j: int|
                0 <= j < i ==> (#[trigger] out@[j]).product_id@ == uuid_text(items@[j].0) && out@[j].quantity
                    == items@[j].1,
        decreases items.len() - i,
    {
        let (product_id, quantity) = items[i];
        out.push(OrderItemInput { product_id: uuid_to_text(product_id), quantity });
        i = i + 1;
    }
    CreateOrderRequest { user_id: uuid_to_text(user_id), items: out }
}

/// The request for one order.
pub fn get_order_request(order_id: u128) -> (r: GetOrderRequest)
    ensures
        r.order_id@ == uuid_text(order_id),
{
    GetOrderRequest { order_id: uuid_to_text(order_id) }
}

/// The request for a page of a user's orders; limit and offset travel as
/// 32-bit integers (truncated as `as i32` truncates).
pub fn list_orders_request(user_id: u128, limit: i64, offset: i64) -> (r: ListOrdersRequest)
    ensures
        r.user_id@ == uuid_text(user_id),
        r.limit == limit as i32,
        r.offset == offset as i32,
{
    ListOrdersRequest { user_id: uuid_to_text(user_id), limit: limit as i32, offset: offset as i32 }
}

/// The order in a reply of the order service; a reply without one is an
/// internal error.
pub fn order_in_reply(order: Option<Order>) -> (r: Result<Order, RpcStatus>)
    ensures
        match order {
            Some(o) => r matches Ok(v) && v == o,
            None => r matches Err(s) && status_view(s) == (RpcCode::Internal, "order service returned an empty order"@),
        },
{
    match order {
        Some(o) => Ok(o),
        None => Err(RpcStatus::internal("order service returned an empty order".to_string())),
    }
}

/// An order may only be seen by its owner; anyone else is told it does not
/// exist.
pub fn check_order_owner(order: OrderResponse, user_id: u128) -> (r: Result<OrderResponse, AppError>)
    ensures
        order.user_id == user_id ==> (r matches Ok(v) && v == order),
        order.user_id != user_id ==> (r matches Err(AppError::BadRequest(m)) && m@ == "Order not found"@),
{
    if order.user_id != user_id {
        Err(AppError::bad_request("Order not found"))
    } else {
        Ok(order)
    }
}

/// The lines that checkout orders: the whole cart, which must not be empty.
pub fn checkout_lines(cart: Vec<CartLineItem>) -> (r: Result<Vec<(u128, i32)>, AppError>)
    ensures
        cart@.len() == 0 ==> (r matches Err(AppError::BadRequest(m)) && m@ == "Cart is empty"@),
        cart@.len() > 0 ==> (r matches Ok(v) && v@.len() == cart@.len() && forall|i: int|
            0 <= i < cart@.len() ==> (#[trigger] v@[i]) == (cart@[i].product_id, cart@[i].quantity)),
{
    if cart.len() == 0 {
        return Err(AppError::bad_request("Cart is empty"));
    }
    let mut out: Vec<(u128, i32)> = Vec::new();
    let mut i: usize = 0;
    while i < cart.len()
        invariant
            0 <= i <= cart@.len(),
            out@.len() == i,
            forall|j: int| 0 <= j < i ==> (#[trigger] out@[j]) == (cart@[j].product_id, cart@[j].quantity),
        decreases cart.len() - i,
    {
        out.push((cart[i].product_id, cart[i].quantity));
        i = i + 1;
    }
    Ok(out)
}

} // verus!
