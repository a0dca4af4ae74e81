//! Builds outbound requests for a REST API: method, address, body and the
//! header set, with the rules by which competing header sources are merged.

pub mod address;
pub mod constants;
pub mod decimal;
pub mod error;
pub mod headers;
pub mod merge;
pub mod model;
pub mod request;
pub mod routing;
pub mod transport;
