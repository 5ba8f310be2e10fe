//! Process configuration, read once at start-up and shared read-only.
use crate::text::{decimal, decimal_string, trim_ws, trimmed};
use vstd::prelude::*;

verus! {

/// Secret key for the transcription service, and the address to listen on.
/// The key is a secret: the type has no `Debug`, so that it is never logged.
#[derive(Clone)]
pub struct Config {
    pub openai_api_key: String,
    pub host: String,
    pub port: u16,
}

/// The message of a configuration without an API key.
pub const MISSING_KEY_MESSAGE: &'static str =
    "OPENAI_API_KEY is required. Set it in your shell or in lytt-bridge/.env";

/// The `host:port` text to bind to.
pub open spec fn addr_of(host: Seq<char>, port: u16) -> Seq<char> {
    host + seq![':'] + decimal(port as nat)
}

impl Config {
    /// Refuses a configuration whose API key is empty or only whitespace.
    pub fn validate(&self) -> (r: Result<(), String>)
        ensures
            r is Err <==> trimmed(self.openai_api_key@).len() == 0,
            r matches Err(m) ==> m@ == MISSING_KEY_MESSAGE@,
    {
        if trim_ws(self.openai_api_key.as_str()).is_empty() {
            Err(String::from_str(MISSING_KEY_MESSAGE))
        } else {
            Ok(())
        }
    }

    /// The bind address, `host:port`.
    pub fn addr(&self) -> (r: String)
        ensures
            r@ == addr_of(self.host@, self.port),
    {
        let mut r = self.host.clone();
        r.append(":");
        let p = decimal_string(self.port);
        r.append(p.as_str());
        proof {
            reveal_strlit(":");
        }
        assert(r@ =~= addr_of(self.host@, self.port));
        r
    }
}

} // verus!
