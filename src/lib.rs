//! A health-check HTTP service: the request-to-response rules of the
//! service, the JSON body it sends, and the address it listens on.

pub mod json;
pub mod health;
pub mod http;
pub mod listen;
