pub mod block;
pub mod blockchain;
pub mod clock;
pub mod hashing;
pub mod hexstr;
pub mod keys;
pub mod numfmt;
pub mod transaction;
