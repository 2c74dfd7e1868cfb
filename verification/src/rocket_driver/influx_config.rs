//! The configuration from which a web application makes its client.
use crate::client::Client;
use reqwest::Client as HttpClient;
use vstd::prelude::*;

verus! {

///Config struct for Influx DB Client
#[derive(Debug, Clone, PartialEq, Eq)]
pub struct Config {
    /// Database-specific connection and configuration URL.
    ///
    /// The format of the URL is database specific; consult your database's
    /// documentation.
    pub url: String,
    /// Minimum number of connections to maintain in the pool.
    ///
    ///
    /// _Default:_ `None`.
    pub min_connections: Option<u32>,
    /// Maximum number of connections to maintain in the pool.
    ///
    /// _Default:_ `workers * 4`.
    pub max_connections: usize,
    /// Number of seconds to wait for a connection before timing out.
    ///
    /// If the timeout elapses before a connection can be made or retrieved from
    /// a pool, an error is returned.
    ///
    /// _Default:_ `5`.
    pub connect_timeout: u64,
    /// Maximum number of seconds to keep a connection alive for.
    ///
    /// After a connection is established, it is maintained in a pool for
    /// efficient connection retrieval. When an `idle_timeout` is set, that
    /// connection will be closed after the timeout elapses. If an
    /// `idle_timeout` is not specified, the behavior is driver specific but
    /// typically defaults to keeping a connection active indefinitely.
    ///
    /// _Default:_ `None`.
    pub idle_timeout: Option<u64>,
    /// Database for the Influx DB Client to connect to
    pub bucket: String,
    /// Organization for Influx DB
    pub org: String,
    /// Basic Authentication (Optional) for Influx DB
    /// Basic Authentication or JWT must be set
    pub authentication: Option<(String, String)>,
    /// JWT Token (Optional) for Influx DB
    /// This is the token created within Influx DB
    /// JWT or Basic Authentication must be set
    pub jwt_token: Option<String>,
}

impl Config {
    /// Whether the configuration says how the client proves who it is: by a
    /// token, or by a name and a password.
    pub open spec fn has_credentials(&self) -> bool {
        self.jwt_token is Some || self.authentication is Some
    }

    /// Whether the configuration says how the client proves who it is.
    pub fn names_credentials(&self) -> (named: bool)
        ensures
            named == self.has_credentials(),
    {
        self.jwt_token.is_some() || self.authentication.is_some()
    }

    /// The client that the configuration describes, on the given HTTP client:
    /// with the token where there is one, and with the name and the password
    /// otherwise.
    pub fn client(&self, http: HttpClient) -> (made: Client)
        requires
            self.has_credentials(),
        ensures
            made.host@ == self.url@,
            made.bucket@ == self.bucket@,
            made.org@ == self.org@,
            made.org_id@.len() == 0,
            made.client == http,
            match self.jwt_token {
                Some(token) => made.authentication is None && (made.jwt_token matches Some(t)
                    && t@ == token@),
                None => made.jwt_token is None && (self.authentication matches Some(given)
                    && made.authentication matches Some(pair) && pair.0@ == given.0@ && pair.1@
                    == given.1@),
            },
    {
        let made = Client::new_with_client(
            self.url.as_str(),
            self.bucket.as_str(),
            self.org.as_str(),
            http,
        );
        match &self.jwt_token {
            Some(token) => made.set_jwt_token(token.as_str()),
            None => match &self.authentication {
                Some(pair) => made.set_authentication(pair.0.as_str(), pair.1.as_str()),
                None => made,
            },
        }
    }
}

} // verus!
