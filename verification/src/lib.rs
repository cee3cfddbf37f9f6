//! Verified core of a small shop backend: money totals, order placement,
//! order status tracking, request validation and error mapping.
pub mod money;
pub mod totals;
pub mod sort;
pub mod text;
pub mod ids;
pub mod instant;
pub mod rpc;
pub mod error;
pub mod order_model;
pub mod order_service;
pub mod order_status;
pub mod cart;
pub mod auth;
pub mod pagination;
pub mod api_orders;
pub mod notification;
pub mod config;
