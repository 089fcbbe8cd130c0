//! Readiness polling for integration tests: a bounded backoff policy, the
//! decisions of a retry loop with notifications, and the status predicates
//! and response rules of the HTTP probe that plugs into it.

pub mod constant;
pub mod env;
pub mod http_errors;
pub mod http_status_tests;
pub mod logging;
pub mod response;
pub mod retry;
pub mod timestamps;
pub mod waiter;
