pub mod codec;
pub mod error;
pub mod hashing;
pub mod utils;
pub mod vault;
