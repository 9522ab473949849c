//! Product context: a seller's products, their digital configuration, variants, media,
//! attribute values and translations, and the events that their changes emit.

pub mod model;
pub mod repository;
pub mod extras;
