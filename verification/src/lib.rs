//! Verified core of a small marketplace for digital goods: catalog taxonomy, search query
//! assembly and the projection of product events; products and their lifecycle events; cart
//! and order rules and checkout planning; accounts, passwords and session tokens; the outbox
//! relay's decisions; payment types; and the pure parts of the storefront pages.

pub mod text;
pub mod shared;
pub mod json;
pub mod relay;
pub mod catalog;
pub mod orders;
pub mod product;
pub mod identity;
pub mod payments;
pub mod web;
