use vstd::prelude::*;
use vstd::string::*;

verus! {

/// The base URL that short links and QR payloads are built on when none is
/// configured.
pub open spec fn default_base_url() -> Seq<char> {
    "http://localhost:3000"@
}

/// The short link of `id` under `base`.
pub open spec fn short_url_of(base: Seq<char>, id: Seq<char>) -> Seq<char> {
    base + "/r/"@ + id
}

#[derive(Clone)]
pub struct Config {
    pub base_url: String,
}

impl Config {
    /// Builds the configuration from the configured base URL, if any, falling
    /// back to the local default.
    pub fn from_env(base_url: Option<String>) -> (r: Config)
        ensures
            r.base_url@ == (match base_url {
                Some(b) => b@,
                None => default_base_url(),
            }),
    {
        match base_url {
            Some(b) => Config { base_url: b },
            None => {
                proof {
                    reveal_strlit("http://localhost:3000");
                }
                Config { base_url: "http://localhost:3000".to_string() }
            },
        }
    }

    /// The public short link of `id`: `{base_url}/r/{id}`.
    pub fn short_url(&self, id: &str) -> (r: String)
        ensures
            r@ == short_url_of(self.base_url@, id@),
    {
        let mut s = self.base_url.clone();
        s.append("/r/");
        s.append(id);
        s
    }
}

} // verus!
