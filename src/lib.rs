//! Requests for verifiable randomness and the integer bounding of its result.
//!
//! A program describes the instruction that should be invoked once randomness is
//! available ([`RequestVrf`]), and later maps the delivered random bytes into an
//! inclusive integer range ([`VrfResult::bound`]).

pub mod account;
pub mod bound_int;
pub mod request;
pub mod vrf_result;

pub use account::{account_meta, AccountMetaRef};
pub use request::{request_random, RequestVrf};
pub use bound_int::BoundInt;
pub use vrf_result::VrfResult;
