//! What is sent for each operation: the method, the path, the parameters of
//! the query string and the body. Sending it is left to the caller.
use crate::api::response::EndpointKind;
use crate::client::{params_view, url_built, Client};
use crate::data_model::authorization::{AuthPermissions, CreateAuthorization};
use crate::data_model::bucket::Bucket;
use crate::data_model::data_points::{all_valid, InvalidPoint, Point, Points, Precision};
use crate::data_model::query::{DeleteQuery, ReadQuery};
use crate::data_model::retention_rules::RetentionRules;
use crate::data_model::user::{CreateUser, Status};
use crate::error::{Category, Error, ErrorView};
use crate::serialization::{encode, lines_text};
use vstd::prelude::*;

verus! {

/// The method of a request.
#[derive(Clone, Copy, Debug, PartialEq, Eq, Structural)]
pub enum Method {
    /// GET
    Get,
    /// POST
    Post,
    /// DELETE
    Delete,
}

/// The body of a request.
#[derive(Debug, Clone, PartialEq, Eq)]
pub enum Body {
    /// No body.
    Empty,
    /// Points in the line protocol, sent as they are.
    Lines(String),
    /// What is to be deleted, sent as JSON.
    Delete(DeleteQuery),
    /// The bucket to create, sent as JSON.
    Bucket(Bucket),
    /// The user to create, sent as JSON.
    User(CreateUser),
    /// The authorization to create, sent as JSON.
    Authorization(CreateAuthorization),
    /// The query to run, sent as JSON.
    Query(ReadQuery),
}

/// One request, ready to be sent.
#[derive(Debug, Clone, PartialEq, Eq)]
pub struct Request {
    /// The operation that the request belongs to; its answer is read as that
    /// operation's.
    pub endpoint: EndpointKind,
    /// The method.
    pub method: Method,
    /// The path, relative to the host.
    pub path: String,
    /// The parameters of the query string, in order, if there are any.
    pub params: Option<Vec<(String, String)>>,
    /// The body.
    pub body: Body,
    /// The token to send as bearer, if one is to be sent.
    pub bearer: Option<String>,
}

impl Request {
    /// The parameters of the query string as texts.
    pub open spec fn params_text(&self) -> Option<Seq<(Seq<char>, Seq<char>)>> {
        match self.params {
            Some(p) => Some(params_view(p@)),
            None => None,
        }
    }

    /// Whether the request is for `endpoint`, with this method and path, and
    /// carries no bearer token.
    pub open spec fn is_plain(&self, endpoint: EndpointKind, method: Method, path: Seq<char>) -> bool {
        &&& self.endpoint == endpoint
        &&& self.method == method
        &&& self.path@ == path
        &&& self.bearer is None
    }
}

/// The parameters of a write: the bucket, the organization, the unit of the
/// times (seconds where none is given) and, where one is given, the retention
/// policy.
pub open spec fn write_params(
    bucket: Seq<char>,
    org: Seq<char>,
    precision: Option<Precision>,
    rp: Option<Seq<char>>,
) -> Seq<(Seq<char>, Seq<char>)> {
    seq![
        ("bucket"@, bucket),
        ("org"@, org),
        (
            "precision"@,
            match precision {
                Some(p) => p.code(),
                None => Precision::Seconds.code(),
            },
        ),
    ] + match rp {
        Some(t) => seq![("rp"@, t)],
        None => Seq::empty(),
    }
}

/// The predicate that selects the points of `measurement`.
pub open spec fn measurement_predicate(measurement: Seq<char>) -> Seq<char> {
    "_measurement=\""@ + measurement + "\""@
}

/// Whether `bucket` is the bucket that is created for the database `name` of
/// the organization `org_id`: kept for ever, with an implicit schema.
pub open spec fn is_new_database(bucket: Bucket, name: Seq<char>, org_id: Seq<char>) -> bool {
    &&& bucket.name@ == name
    &&& bucket.org_id@ == org_id
    &&& bucket.description@.len() == 0
    &&& bucket.rp is None
    &&& bucket.schema_type@ == "Implicit"@
    &&& bucket.retention_rules@.len() == 1
    &&& bucket.retention_rules@[0].every_seconds == 0
    &&& bucket.retention_rules@[0].shard_group_duration_seconds == 0
    &&& bucket.retention_rules@[0].retention_type@ == "expire"@
}

/// A key and a value of a query string.
fn pair(key: &str, value: &str) -> (made: (String, String))
    ensures
        made.0@ == key@,
        made.1@ == value@,
{
    (key.to_owned(), value.to_owned())
}

/// The one parameter `key` with the value `value`.
fn one_param(key: &str, value: &str) -> (made: Vec<(String, String)>)
    ensures
        params_view(made@) == seq![(key@, value@)],
{
    let mut made: Vec<(String, String)> = Vec::new();
    made.push(pair(key, value));
    assert(params_view(made@) =~= seq![(key@, value@)]);
    made
}

/// The two parameters that name the bucket and the organization.
fn bucket_and_org(bucket: &str, org: &str) -> (made: Vec<(String, String)>)
    ensures
        params_view(made@) == seq![("bucket"@, bucket@), ("org"@, org@)],
{
    let mut made: Vec<(String, String)> = Vec::new();
    made.push(pair("bucket", bucket));
    made.push(pair("org", org));
    assert(params_view(made@) =~= seq![("bucket"@, bucket@), ("org"@, org@)]);
    made
}

impl Client {
    /// The request that asks whether the server is there.
    pub fn ping_request(&self) -> (request: Request)
        ensures
            request.is_plain(EndpointKind::Ping, Method::Get, "ping"@),
            request.params is None,
            request.body is Empty,
    {
        Request {
            endpoint: EndpointKind::Ping,
            method: Method::Get,
            path: "ping".to_owned(),
            params: None,
            body: Body::Empty,
            bearer: None,
        }
    }

    /// The request that asks for the version of the server.
    pub fn get_version_request(&self) -> (request: Request)
        ensures
            request.is_plain(EndpointKind::Version, Method::Get, "ping"@),
            request.params is None,
            request.body is Empty,
    {
        Request {
            endpoint: EndpointKind::Version,
            method: Method::Get,
            path: "ping".to_owned(),
            params: None,
            body: Body::Empty,
            bearer: None,
        }
    }

    /// The request that looks up the identifier of the client's organization.
    pub fn get_org_id_request(&self) -> (request: Request)
        ensures
            request.is_plain(EndpointKind::GetOrgId, Method::Get, "api/v2/orgs"@),
            request.params_text() == Some(seq![("org"@, self.org@)]),
            request.body is Empty,
    {
        Request {
            endpoint: EndpointKind::GetOrgId,
            method: Method::Get,
            path: "api/v2/orgs".to_owned(),
            params: Some(one_param("org", self.org.as_str())),
            body: Body::Empty,
            bearer: None,
        }
    }

    /// The request that writes a batch of points. `Ok` exactly where every
    /// point can be written; otherwise the first point that cannot, with the
    /// reason, and there is nothing to send.
    pub fn write_points_request(
        &self,
        points: &Points,
        precision: Option<Precision>,
        rp: Option<&str>,
    ) -> (made: Result<Request, InvalidPoint>)
        ensures
            made is Ok <==> all_valid(points@),
            made matches Ok(request) ==> {
                &&& request.is_plain(EndpointKind::Write, Method::Post, "api/v2/write"@)
                &&& request.params_text() == Some(
                    write_params(
                        self.bucket@,
                        self.org@,
                        precision,
                        match rp {
                            Some(t) => Some(t@),
                            None => None,
                        },
                    ),
                )
                &&& request.body matches Body::Lines(line) && line@ == lines_text(points@)
            },
            made matches Err(e) ==> {
                &&& e.index < points@.len()
                &&& points@[e.index as int].fault() == Some(e.fault)
                &&& all_valid(points@.take(e.index as int))
            },
    {
        let line = match encode(points) {
            Ok(line) => line,
            Err(e) => {
                return Err(e);
            },
        };
        let mut param = bucket_and_org(self.bucket.as_str(), self.org.as_str());
        let ghost named = params_view(param@);
        let unit = match precision {
            Some(t) => t.to_str(),
            None => Precision::Seconds.to_str(),
        };
        param.push(pair("precision", unit));
        let ghost with_unit = params_view(param@);
        assert(with_unit =~= named.push(("precision"@, unit@)));
        match rp {
            Some(t) => {
                param.push(pair("rp", t));
                assert(params_view(param@) =~= with_unit.push(("rp"@, t@)));
            },
            None => {},
        }
        assert(params_view(param@) =~= write_params(
            self.bucket@,
            self.org@,
            precision,
            match rp {
                Some(t) => Some(t@),
                None => None,
            },
        ));
        Ok(
            Request {
                endpoint: EndpointKind::Write,
                method: Method::Post,
                path: "api/v2/write".to_owned(),
                params: Some(param),
                body: Body::Lines(line),
                bearer: None,
            },
        )
    }

    /// The request that writes one point.
    pub fn write_point_request(
        &self,
        point: Point,
        precision: Option<Precision>,
        rp: Option<&str>,
    ) -> (made: Result<Request, InvalidPoint>)
        ensures
            made is Ok <==> point@.valid(),
            made matches Ok(request) ==> {
                &&& request.is_plain(EndpointKind::Write, Method::Post, "api/v2/write"@)
                &&& request.params_text() == Some(
                    write_params(
                        self.bucket@,
                        self.org@,
                        precision,
                        match rp {
                            Some(t) => Some(t@),
                            None => None,
                        },
                    ),
                )
                &&& request.body matches Body::Lines(line) && line@ == lines_text(seq![point@])
            },
            made matches Err(e) ==> e.index == 0 && point@.fault() == Some(e.fault),
    {
        let points = Points::new(point);
        assert(points@[0] == point@);
        assert(all_valid(points@) <==> point@.valid());
        self.write_points_request(&points, precision, rp)
    }

    /// The request that runs a query, with the client's token as bearer. Where
    /// there is no query there is nothing to send, and the error says so.
    pub fn query_request(&self, query: Option<ReadQuery>) -> (made: Result<Request, Error>)
        requires
            query is Some ==> self.jwt_token is Some,
        ensures
            made is Ok <==> query is Some,
            made matches Ok(request) ==> {
                &&& request.endpoint == EndpointKind::Query
                &&& request.method == Method::Post
                &&& request.path@ == "api/v2/query"@
                &&& request.params_text() == Some(seq![("org"@, self.org@)])
                &&& request.body == Body::Query(query->0)
                &&& request.bearer == self.jwt_token
            },
            made matches Err(e) ==> e@ == (ErrorView {
                category: Category::Unknown,
                message: "No flux query to serialize"@,
            }),
    {
        match query {
            Some(q) => Ok(
                Request {
                    endpoint: EndpointKind::Query,
                    method: Method::Post,
                    path: "api/v2/query".to_owned(),
                    params: Some(one_param("org", self.org.as_str())),
                    body: Body::Query(q),
                    bearer: self.jwt_token.clone(),
                },
            ),
            None => Err(Error::new(Category::Unknown, "No flux query to serialize".to_owned())),
        }
    }

    /// The request that deletes the points of `measurement` between `start`
    /// and `stop`.
    pub fn drop_measurement_request(&self, measurement: &str, start: &str, stop: &str) -> (request:
        Request)
        ensures
            request.is_plain(EndpointKind::DropMeasurement, Method::Post, "api/v2/delete"@),
            request.params_text() == Some(seq![("bucket"@, self.bucket@), ("org"@, self.org@)]),
            request.body matches Body::Delete(q) && q.predicate@ == measurement_predicate(
                measurement@,
            ) && q.start@ == start@ && q.stop@ == stop@,
    {
        let mut predicate = "_measurement=\"".to_owned();
        predicate.append(measurement);
        predicate.append("\"");
        Request {
            endpoint: EndpointKind::DropMeasurement,
            method: Method::Post,
            path: "api/v2/delete".to_owned(),
            params: Some(bucket_and_org(self.bucket.as_str(), self.org.as_str())),
            body: Body::Delete(
                DeleteQuery { predicate, start: start.to_owned(), stop: stop.to_owned() },
            ),
            bearer: None,
        }
    }

    /// The request that creates the database `dbname` in the client's
    /// organization.
    pub fn create_database_request(&self, dbname: &str) -> (request: Request)
        ensures
            request.is_plain(EndpointKind::CreateDatabase, Method::Post, "api/v2/buckets"@),
            request.params is None,
            request.body matches Body::Bucket(b) && is_new_database(b, dbname@, self.org_id@),
    {
        let retention_rules = RetentionRules {
            every_seconds: 0,
            shard_group_duration_seconds: 0,
            retention_type: "expire".to_owned(),
        };
        let mut rules: Vec<RetentionRules> = Vec::new();
        rules.push(retention_rules);
        let body = Bucket {
            name: dbname.to_owned(),
            org_id: self.org_id.clone(),
            retention_rules: rules,
            description: String::new(),
            rp: None,
            schema_type: "Implicit".to_owned(),
        };
        Request {
            endpoint: EndpointKind::CreateDatabase,
            method: Method::Post,
            path: "api/v2/buckets".to_owned(),
            params: None,
            body: Body::Bucket(body),
            bearer: None,
        }
    }

    /// The request that looks up the identifier of the bucket `bucket_name`.
    pub fn get_bucket_id_request(&self, bucket_name: &str) -> (request: Request)
        ensures
            request.is_plain(EndpointKind::GetBucketId, Method::Get, "api/v2/buckets"@),
            request.params_text() == Some(seq![("name"@, bucket_name@)]),
            request.body is Empty,
    {
        Request {
            endpoint: EndpointKind::GetBucketId,
            method: Method::Get,
            path: "api/v2/buckets".to_owned(),
            params: Some(one_param("name", bucket_name)),
            body: Body::Empty,
            bearer: None,
        }
    }

    /// The request that deletes the bucket with the identifier `id`.
    pub fn drop_database_request(&self, id: &str) -> (request: Request)
        ensures
            request.is_plain(EndpointKind::DropDatabase, Method::Delete, "api/v2/buckets/"@ + id@),
            request.params is None,
            request.body is Empty,
    {
        let mut path = "api/v2/buckets/".to_owned();
        path.append(id);
        Request {
            endpoint: EndpointKind::DropDatabase,
            method: Method::Delete,
            path,
            params: None,
            body: Body::Empty,
            bearer: None,
        }
    }

    /// The request that creates the user `name` with the given status.
    pub fn create_new_user_request(&self, name: &str, status: Status) -> (request: Request)
        ensures
            request.is_plain(EndpointKind::CreateUser, Method::Post, "api/v2/users"@),
            request.params is None,
            request.body matches Body::User(u) && u.name@ == name@ && u.status@ == status.name(),
    {
        let body = CreateUser { name: name.to_owned(), status: status.as_str().to_owned() };
        Request {
            endpoint: EndpointKind::CreateUser,
            method: Method::Post,
            path: "api/v2/users".to_owned(),
            params: None,
            body: Body::User(body),
            bearer: None,
        }
    }

    /// The request that creates an authorization with the given permissions.
    pub fn create_authorization_request(
        &self,
        user_id: Option<String>,
        org_id: &str,
        permissions: Vec<AuthPermissions>,
        status: Status,
        description: &str,
    ) -> (request: Request)
        ensures
            request.is_plain(
                EndpointKind::CreateAuthorization,
                Method::Post,
                "api/v2/authorizations"@,
            ),
            request.params is None,
            request.body matches Body::Authorization(a) && a.org_id@ == org_id@ && a.user_id
                == user_id && a.permissions == permissions && a.status@ == status.name()
                && a.description@ == description@,
    {
        let body = CreateAuthorization {
            org_id: org_id.to_owned(),
            user_id,
            permissions,
            status: status.as_str().to_owned(),
            description: description.to_owned(),
        };
        Request {
            endpoint: EndpointKind::CreateAuthorization,
            method: Method::Post,
            path: "api/v2/authorizations".to_owned(),
            params: None,
            body: Body::Authorization(body),
            bearer: None,
        }
    }

    /// The request that lists the users.
    pub fn list_users_request(&self) -> (request: Request)
        ensures
            request.is_plain(EndpointKind::ListUsers, Method::Get, "api/v2/users"@),
            request.params is None,
            request.body is Empty,
    {
        Request {
            endpoint: EndpointKind::ListUsers,
            method: Method::Get,
            path: "api/v2/users".to_owned(),
            params: None,
            body: Body::Empty,
            bearer: None,
        }
    }

    /// The request that deletes the user with the identifier `user_id`.
    pub fn delete_user_request(&self, user_id: &str) -> (request: Request)
        ensures
            request.is_plain(EndpointKind::DeleteUser, Method::Delete, "api/v2/users/"@ + user_id@),
            request.params is None,
            request.body is Empty,
    {
        let mut path = "api/v2/users/".to_owned();
        path.append(user_id);
        Request {
            endpoint: EndpointKind::DeleteUser,
            method: Method::Delete,
            path,
            params: None,
            body: Body::Empty,
            bearer: None,
        }
    }

    /// The full URL to which `request` goes. `None` where the host is no URL,
    /// or where the path or the parameters cannot be added to it.
    pub fn request_url(&self, request: &Request) -> (built: Option<String>)
        ensures
            built is Some <==> url_built(self.host@, request.path@, request.params_text()) is Some,
            built matches Some(u) ==> url_built(self.host@, request.path@, request.params_text())
                == Some(u@),
    {
        match &request.params {
            Some(p) => self.build_url(request.path.as_str(), Some(p)),
            None => self.build_url(request.path.as_str(), None),
        }
    }
}

} // verus!
