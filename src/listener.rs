//! The address the server listens on.

use vstd::prelude::*;
use crate::text::{decimal, decimal_string};

verus! {

pub struct Listener {
    address: String,
    port: u16,
}

impl Listener {
    /// The loopback address, port 8080.
    pub fn new() -> (r: Listener)
        ensures
            r.endpoint_spec() == "127.0.0.1"@ + ":"@ + decimal(8080),
    {
        Listener { address: String::from_str("127.0.0.1"), port: 8080 }
    }

    /// The `address:port` text to bind.
    pub closed spec fn endpoint_spec(&self) -> Seq<char> {
        self.address@ + ":"@ + decimal(self.port as nat)
    }

    /// The `address:port` text to bind.
    pub fn endpoint(&self) -> (r: String)
        ensures
            r@ == self.endpoint_spec(),
    {
        let mut out = self.address.clone();
        out.append(":");
        out.append(decimal_string(self.port as u128).as_str());
        out
    }
}

} // verus!
