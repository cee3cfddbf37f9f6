//! The order service's data: rows of its tables and the messages it
//! exchanges with the API (money, ids and times travel as text).
use crate::instant::Instant;
use crate::money::Money;
use vstd::prelude::*;

verus! {

/// An order as stored.
#[derive(Clone, Debug)]
pub struct OrderRow {
    pub id: u128,
    pub user_id: u128,
    pub status: String,
    pub total_amount: Money,
    pub created_at: Instant,
    pub updated_at: Instant,
}

/// A line of an order as stored: the product's name and price are copied
/// at the time of the order.
#[derive(Clone, Debug)]
pub struct OrderItemRow {
    pub product_id: u128,
    pub product_name: String,
    pub unit_price: Money,
    pub quantity: i32,
}

/// A product row locked for update while an order is placed.
#[derive(Clone, Debug)]
pub struct LockedProductRow {
    pub id: u128,
    pub name: String,
    pub price: Money,
    pub stock_quantity: i32,
}

/// A line of an order on the wire.
#[derive(Clone, Debug)]
pub struct OrderItem {
    pub product_id: String,
    pub product_name: String,
    pub unit_price: String,
    pub quantity: i32,
}

/// An order on the wire.
#[derive(Clone, Debug)]
pub struct Order {
    pub id: String,
    pub user_id: String,
    pub status: String,
    pub total_amount: String,
    pub items: Vec<OrderItem>,
    pub created_at: String,
    pub updated_at: String,
}

/// A requested line: which product and how many.
#[derive(Clone, Debug)]
pub struct OrderItemInput {
    pub product_id: String,
    pub quantity: i32,
}

/// A request to place an order.
#[derive(Clone, Debug)]
pub struct CreateOrderRequest {
    pub user_id: String,
    pub items: Vec<OrderItemInput>,
}

/// A request for one order.
#[derive(Clone, Debug)]
pub struct GetOrderRequest {
    pub order_id: String,
}

/// A request for a page of a user's orders.
#[derive(Clone, Debug)]
pub struct ListOrdersRequest {
    pub user_id: String,
    pub limit: i32,
    pub offset: i32,
}

/// A change of an order's status, as streamed to watchers.
#[derive(Clone, Debug)]
pub struct OrderStatusUpdate {
    pub order_id: String,
    pub status: String,
    pub updated_at: String,
}

} // verus!
