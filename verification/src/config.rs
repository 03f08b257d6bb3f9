//! Process configuration: the ports and store locations the servers bind to.
//!
//! Reading the environment happens outside the library; this type only holds
//! the resulting plain values.

use vstd::prelude::*;

verus! {

/// Configuration of one relay process.
#[derive(Debug)]
pub struct Config {
    /// Port of the request-response API listener.
    pub http_port: String,
    /// Port of the websocket listener.
    pub ws_port: String,
    /// Location of the fast key-value cache.
    pub redis_url: String,
    /// Location of the durable document store.
    pub mongodb_url: String,
}

impl Default for Config {
    /// An empty configuration: every field starts blank.
    fn default() -> (c: Config)
        ensures
            c.http_port@ == Seq::<char>::empty(),
            c.ws_port@ == Seq::<char>::empty(),
            c.redis_url@ == Seq::<char>::empty(),
            c.mongodb_url@ == Seq::<char>::empty(),
    {
        Config {
            http_port: String::new(),
            ws_port: String::new(),
            redis_url: String::new(),
            mongodb_url: String::new(),
        }
    }
}

} // verus!
