//! Reports to the caller of an HTTP service how its request looked to the
//! server: the peer address, the method and a fixed selection of request
//! headers, as single lines of text or as one record.

pub mod decimal;
pub mod endpoints;
pub mod field;
pub mod headers;
pub mod info;
pub mod startup;
