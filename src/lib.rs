//! The bcrypt password hash: an adaptive-cost, salted hash built on the
//! expensive key schedule of the Blowfish cipher.
pub mod base64;
pub mod blowfish;
pub mod crypt;
pub mod engine;
pub mod error;
pub mod format;

pub use crate::crypt::{check_cost, gen_salt_from, hash, to_str};
pub use crate::error::{CryptError, ErrorKind};
