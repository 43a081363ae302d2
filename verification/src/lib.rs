pub mod authority;
pub mod escrow;
pub mod identity;
pub mod laws;
pub mod token;
