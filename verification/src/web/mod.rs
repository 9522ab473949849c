//! Web layer logic: what the pages compute, decide and assemble, apart from HTTP and HTML.

pub mod cart;
pub mod category;
pub mod checkout;
pub mod cookie;
pub mod error;
pub mod jsonld;
pub mod page;
pub mod sitemap;
pub mod submit;
