use vstd::prelude::*;

use crate::text::{decimal, push_decimal};

verus! {

/// Where the portfolio service listens.
pub struct Config {
    pub host: String,
    pub port: u16,
}

impl Config {
    /// The host and port given, `localhost` and 8080 when not.
    pub fn from_args(host: Option<String>, port: Option<u16>) -> (r: Config)
        ensures
            r.host@ == (match host {
                Some(h) => h@,
                None => "localhost"@,
            }),
            r.port == (match port {
                Some(p) => p,
                None => 8080u16,
            }),
    {
        let host = match host {
            Some(h) => h,
            None => String::from_str("localhost"),
        };
        let port = match port {
            Some(p) => p,
            None => 8080,
        };
        Config { host, port }
    }

    /// The base URL of the service: `http://<host>:<port>`.
    pub fn url(&self) -> (r: String)
        ensures
            r@ == "http://"@ + self.host@ + ":"@ + decimal(self.port as nat),
    {
        let mut u = String::from_str("http://");
        u.append(self.host.as_str());
        u.append(":");
        push_decimal(&mut u, self.port as u64);
        u
    }
}

} // verus!
