//! Verified core of a small self-hosted chat server: input cleaning, the
//! access rules of every request, paging of the administrator's message
//! archive, the routing of live events, and password and token handling.

pub mod account;
pub mod archive;
pub mod chat;
pub mod contacts;
pub mod error;
pub mod laws;
pub mod live;
pub mod secret;
pub mod text;

pub use error::{fail, refuse, ApiError, ApiResult, ErrorStatus, Refusal};
