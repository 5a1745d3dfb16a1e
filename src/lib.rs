//! A forwarding proxy core: it strips likely-ad elements from fetched HTML and
//! routes absolute links and images back through the proxy endpoint.

pub mod handler;
pub mod rules;
