//! Newsletter backend core: subscriber domain types, the idempotent
//! publication commit protocol, the durable delivery queue, and the
//! delivery worker's decision logic, all with verified contracts.

pub mod auth;
pub mod configuration;
pub mod domain;
pub mod error;
pub mod http;
pub mod idempotency;
pub mod issue_delivery_worker;
pub mod newsletter;
pub mod persistence;
pub mod request;
pub mod session_util;
pub mod store;
pub mod subscriptions;
pub mod util;

use vstd::prelude::*;

verus! {

/// Wrapper type for the application's externally visible base URL.
pub struct ApplicationBaseUrl(pub String);

/// The secret the application signs its message-authentication tags with.
pub struct HmacSecret(pub String);

} // verus!
