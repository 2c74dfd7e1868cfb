//! The client: which server it talks to, on whose behalf, and where each
//! operation lives on that server.
use reqwest::Client as HttpClient;
use vstd::prelude::*;

verus! {

/// `reqwest::Client`, carried through as an opaque value: the library never
/// looks inside, it only keeps the HTTP client for whoever sends the requests.
#[verifier::external_type_specification]
#[verifier::external_body]
pub struct ExHttpClient(HttpClient);

/// `Clone::clone` of `reqwest::Client`, which hands out another handle on the
/// same HTTP client. The handle is opaque here, so nothing is claimed of it.
pub assume_specification[ <HttpClient as Clone>::clone ](client: &HttpClient) -> (copy: HttpClient)
;

/// The client to influxdb
#[derive(Debug, Clone)]
pub struct Client {
    /// URL of InfluxDB
    /// http://192.168.0.1:8086
    pub host: String,
    /// Bucket (database) that the Client will connect to
    pub bucket: String,
    /// Organization that the Bucket is associated with
    pub org: String,
    /// This is the internal Organization ID that InfluxDB refers to
    pub org_id: String,
    /// Basic Authentication for Legacy Endpoints i.e. http://url/query (Old Endpoint) vs http://url/api/v2/query (New Endpoint)
    pub authentication: Option<(String, String)>,
    /// Token authentication used for all interactions with the InfluxDB
    pub jwt_token: Option<String>,
    /// Used for a specifid HTTPClient
    pub client: HttpClient,
}

/// The parameters of a query string, in order, as texts.
pub open spec fn params_view(params: Seq<(String, String)>) -> Seq<(Seq<char>, Seq<char>)> {
    Seq::new(params.len(), |i: int| (params[i].0@, params[i].1@))
}

/// What `url::Url::join` makes of `key` on the base that `url::Url::parse`
/// reads from `base`, as a text; `None` where either refuses.
pub uninterp spec fn url_joined(base: Seq<char>, key: Seq<char>) -> Option<Seq<char>>;

/// What `url::Url::parse_with_params` makes of `url` and `params`, as a text;
/// `None` where it refuses `url`.
pub uninterp spec fn url_with_params(url: Seq<char>, params: Seq<(Seq<char>, Seq<char>)>) -> Option<
    Seq<char>,
>;

/// Reads `base` with `url::Url::parse` and resolves `key` against it with
/// `url::Url::join`. Both depend on the two texts alone; the contract gives the
/// outcome its name and claims nothing else of it.
#[verifier::external_body]
fn join_url(base: &str, key: &str) -> (joined: Option<String>)
    ensures
        joined is Some <==> url_joined(base@, key@) is Some,
        joined matches Some(u) ==> url_joined(base@, key@) == Some(u@),
{
    match url::Url::parse(base) {
        Ok(host) => match host.join(key) {
            Ok(url) => Some(String::from(url)),
            Err(_) => None,
        },
        Err(_) => None,
    }
}

/// Calls `url::Url::parse_with_params`, which reads `url` and adds `params` to
/// its query string. It depends on its arguments alone; the contract gives the
/// outcome its name and claims nothing else of it.
#[verifier::external_body]
fn add_params(url: &str, params: &Vec<(String, String)>) -> (built: Option<String>)
    ensures
        built is Some <==> url_with_params(url@, params_view(params@)) is Some,
        built matches Some(u) ==> url_with_params(url@, params_view(params@)) == Some(u@),
{
    match url::Url::parse_with_params(url, params.iter()) {
        Ok(url) => Some(String::from(url)),
        Err(_) => None,
    }
}

/// The parameters that may be missing, as texts.
pub open spec fn optional_params_view(params: Option<&Vec<(String, String)>>) -> Option<
    Seq<(Seq<char>, Seq<char>)>,
> {
    match params {
        Some(p) => Some(params_view(p@)),
        None => None,
    }
}

/// The full URL of an API call: `key` resolved against `host`, and then the
/// parameters, where there are any, added to the query string.
pub open spec fn url_built(
    host: Seq<char>,
    key: Seq<char>,
    params: Option<Seq<(Seq<char>, Seq<char>)>>,
) -> Option<Seq<char>> {
    match url_joined(host, key) {
        Some(joined) => match params {
            Some(p) => url_with_params(joined, p),
            None => Some(joined),
        },
        None => None,
    }
}

/// Adds the parameters, where there are any, to a URL that was joined.
pub fn finish_url(joined: Option<String>, param: Option<&Vec<(String, String)>>) -> (built: Option<
    String,
>)
    ensures
        joined is None ==> built is None,
        joined matches Some(j) ==> match optional_params_view(param) {
            Some(p) => {
                &&& built is Some <==> url_with_params(j@, p) is Some
                &&& built matches Some(u) ==> url_with_params(j@, p) == Some(u@)
            },
            None => built == Some(j),
        },
{
    match joined {
        Some(url) => match param {
            Some(p) => add_params(url.as_str(), p),
            None => Some(url),
        },
        None => None,
    }
}

/// The text of the header that carries the token.
pub open spec fn token_header(token: Seq<char>) -> Seq<char> {
    "Token "@ + token
}

impl Client {
    /// Create a new influxdb client with custom reqwest's client.
    pub fn new_with_client(host: &str, bucket: &str, org: &str, client: HttpClient) -> (made: Client)
        ensures
            made.host@ == host@,
            made.bucket@ == bucket@,
            made.org@ == org@,
            made.org_id@.len() == 0,
            made.authentication is None,
            made.jwt_token is None,
            made.client == client,
    {
        Client {
            host: host.to_owned(),
            bucket: bucket.to_owned(),
            org: org.to_owned(),
            org_id: String::new(),
            authentication: None,
            jwt_token: None,
            client,
        }
    }

    /// The value of the `Authorization` header that carries `token`.
    pub fn authorization_header(token: &str) -> (header: String)
        ensures
            header@ == token_header(token@),
    {
        let mut header = "Token ".to_owned();
        header.append(token);
        header
    }

    /// Change the client's database
    pub fn switch_database(&mut self, database: &str)
        ensures
            final(self).bucket@ == database@,
            final(self).host == old(self).host,
            final(self).org == old(self).org,
            final(self).org_id == old(self).org_id,
            final(self).authentication == old(self).authentication,
            final(self).jwt_token == old(self).jwt_token,
            final(self).client == old(self).client,
    {
        self.bucket = database.to_owned();
    }

    /// Change the client's user
    pub fn set_authentication(self, user: &str, passwd: &str) -> (made: Client)
        ensures
            made.authentication matches Some(pair) && pair.0@ == user@ && pair.1@ == passwd@,
            made.host == self.host,
            made.bucket == self.bucket,
            made.org == self.org,
            made.org_id == self.org_id,
            made.jwt_token == self.jwt_token,
            made.client == self.client,
    {
        let mut made = self;
        made.authentication = Some((user.to_owned(), passwd.to_owned()));
        made
    }

    /// Set the client's jwt token
    pub fn set_jwt_token(self, token: &str) -> (made: Client)
        ensures
            made.jwt_token matches Some(t) && t@ == token@,
            made.host == self.host,
            made.bucket == self.bucket,
            made.org == self.org,
            made.org_id == self.org_id,
            made.authentication == self.authentication,
            made.client == self.client,
    {
        let mut made = self;
        made.jwt_token = Some(token.to_owned());
        made
    }

    /// View the current db name
    pub fn get_db(&self) -> (name: &str)
        ensures
            name@ == self.bucket@,
    {
        self.bucket.as_str()
    }

    /// Constructs the full URL for an API call.
    /// No Basic Authentication
    ///
    /// `None` where the host is no URL, or where `key` or the parameters
    /// cannot be added to it.
    pub fn build_url(&self, key: &str, param: Option<&Vec<(String, String)>>) -> (built: Option<
        String,
    >)
        ensures
            built is Some <==> url_built(self.host@, key@, optional_params_view(param)) is Some,
            built matches Some(u) ==> url_built(self.host@, key@, optional_params_view(param))
                == Some(u@),
    {
        finish_url(join_url(self.host.as_str(), key), param)
    }
}

} // verus!
