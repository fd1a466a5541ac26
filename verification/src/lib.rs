//! A minimal HTTP "hello world" service core: the request types and the
//! dispatch logic that maps a request to a fixed plain-text response.
//!
//! The library holds only the pure part of such a service. Binding a socket,
//! accepting connections and writing bytes belong to the server runtime
//! around it; the functions here decide, for a given request, which status,
//! content type and body the response carries.

pub mod http;
pub mod handler;
