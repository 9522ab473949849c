//! Orders context: anonymous carts, orders with immutable per-unit snapshots, guest contacts.

pub mod cart;
pub mod order;
