//! Identity and access: accounts with several roles, seller profiles, password checks and
//! session tokens (Argon2id for passwords, BLAKE3 digests for stored session tokens).

pub mod account;
pub mod account_repo;
pub mod session;
