use influxdb_rs::api::request::{Body, Method, Request};
use influxdb_rs::api::response::EndpointKind;
use influxdb_rs::client::finish_url;
use influxdb_rs::data_model::authorization::{AuthPermissions, AuthResource, AuthResourceType};
use influxdb_rs::data_model::bucket::Bucket;
use influxdb_rs::data_model::data_points::{InvalidPoint, PointFault};
use influxdb_rs::data_model::file::File;
use influxdb_rs::data_model::query::{
    AnalyzeQueryResponse, AnalyzeQueryResponseErrors, DeleteQuery, ReadQuery,
};
use influxdb_rs::data_model::retention_rules::RetentionRules;
use influxdb_rs::data_model::user::{CreateUser, Status};
use influxdb_rs::error::ErrorKind;
use influxdb_rs::rocket_driver::influx_config::Config;
use influxdb_rs::{Client, Error, Point, Points, Precision, Value};

fn client() -> Client {
    Client::new_with_client("http://localhost:8086", "test_bucket", "test_org", reqwest::Client::new())
        .set_jwt_token("0123456789")
}

fn pairs(list: &[(&str, &str)]) -> Option<Vec<(String, String)>> {
    Some(list.iter().map(|(k, v)| (k.to_string(), v.to_string())).collect())
}

#[test]
fn new_client_holds_what_it_was_given() {
    let client =
        Client::new_with_client("http://localhost:8086", "b", "o", reqwest::Client::new());
    assert_eq!(client.host, "http://localhost:8086");
    assert_eq!(client.bucket, "b");
    assert_eq!(client.org, "o");
    assert_eq!(client.org_id, "");
    assert_eq!(client.authentication, None);
    assert_eq!(client.jwt_token, None);
    assert_eq!(client.get_db(), "b");
}

#[test]
fn client_settings_change_one_thing() {
    let mut client = client().set_authentication("user", "secret");
    assert_eq!(client.authentication, Some(("user".to_string(), "secret".to_string())));
    assert_eq!(client.jwt_token, Some("0123456789".to_string()));
    client.switch_database("other");
    assert_eq!(client.get_db(), "other");
    assert_eq!(client.org, "test_org");
    assert_eq!(client.host, "http://localhost:8086");
    let copy = client.clone();
    assert_eq!(copy.bucket, "other");
}

#[test]
fn token_goes_into_the_authorization_header() {
    assert_eq!(Client::authorization_header("0123456789"), "Token 0123456789");
    assert_eq!(Client::authorization_header(""), "Token ");
}

#[test]
fn url_is_the_path_joined_to_the_host() {
    let client = client();
    assert_eq!(client.build_url("ping", None), Some("http://localhost:8086/ping".to_string()));
    assert_eq!(
        client.build_url("api/v2/write", pairs(&[("bucket", "a b"), ("org", "o&o")]).as_ref()),
        Some("http://localhost:8086/api/v2/write?bucket=a+b&org=o%26o".to_string())
    );
    assert_eq!(
        client.build_url("api/v2/users", pairs(&[]).as_ref()),
        Some("http://localhost:8086/api/v2/users?".to_string())
    );
}

#[test]
fn url_of_a_host_with_a_path() {
    let under = Client::new_with_client("http://h/a/b", "b", "o", reqwest::Client::new());
    assert_eq!(under.build_url("ping", None), Some("http://h/a/ping".to_string()));
    let slash = Client::new_with_client("http://h/a/b/", "b", "o", reqwest::Client::new());
    assert_eq!(slash.build_url("ping", None), Some("http://h/a/b/ping".to_string()));
}

#[test]
fn host_that_is_no_url_gives_no_url() {
    let lost = Client::new_with_client("not a url", "b", "o", reqwest::Client::new());
    assert_eq!(lost.build_url("ping", None), None);
    assert_eq!(lost.request_url(&lost.ping_request()), None);
}

#[test]
fn parameters_are_added_to_a_joined_url() {
    assert_eq!(finish_url(None, None), None);
    assert_eq!(finish_url(None, pairs(&[("a", "b")]).as_ref()), None);
    assert_eq!(finish_url(Some("http://h/p".to_string()), None), Some("http://h/p".to_string()));
    assert_eq!(
        finish_url(Some("http://h/p?x=1".to_string()), pairs(&[("a", "b")]).as_ref()),
        Some("http://h/p?x=1&a=b".to_string())
    );
    assert_eq!(finish_url(Some("nothing".to_string()), pairs(&[("a", "b")]).as_ref()), None);
}

#[test]
fn ping_and_version_requests() {
    let client = client();
    let ping = client.ping_request();
    assert_eq!(
        ping,
        Request {
            endpoint: EndpointKind::Ping,
            method: Method::Get,
            path: "ping".to_string(),
            params: None,
            body: Body::Empty,
            bearer: None,
        }
    );
    let version = client.get_version_request();
    assert_eq!(version.endpoint, EndpointKind::Version);
    assert_eq!(version.path, "ping");
    assert_eq!(client.request_url(&ping), Some("http://localhost:8086/ping".to_string()));
}

#[test]
fn lookup_requests() {
    let client = client();
    let org = client.get_org_id_request();
    assert_eq!(org.endpoint, EndpointKind::GetOrgId);
    assert_eq!(org.method, Method::Get);
    assert_eq!(org.params, pairs(&[("org", "test_org")]));
    assert_eq!(
        client.request_url(&org),
        Some("http://localhost:8086/api/v2/orgs?org=test_org".to_string())
    );
    let bucket = client.get_bucket_id_request("temporary");
    assert_eq!(bucket.endpoint, EndpointKind::GetBucketId);
    assert_eq!(bucket.path, "api/v2/buckets");
    assert_eq!(bucket.params, pairs(&[("name", "temporary")]));
    assert_eq!(bucket.body, Body::Empty);
}

#[test]
fn write_request_carries_the_lines() {
    let client = client();
    let points = Points::new(Point::new("test1").add_field("foo", Value::string("bar")))
        .push(Point::new("test2").add_field("n", Value::Integer(1)));
    let request = client.write_points_request(&points, Some(Precision::Nanoseconds), None).unwrap();
    assert_eq!(request.endpoint, EndpointKind::Write);
    assert_eq!(request.method, Method::Post);
    assert_eq!(request.path, "api/v2/write");
    assert_eq!(
        request.params,
        pairs(&[("bucket", "test_bucket"), ("org", "test_org"), ("precision", "ns")])
    );
    assert_eq!(request.body, Body::Lines("test1 foo=\"bar\"\ntest2 n=1i".to_string()));
    assert_eq!(request.bearer, None);
    assert_eq!(
        client.request_url(&request),
        Some(
            "http://localhost:8086/api/v2/write?bucket=test_bucket&org=test_org&precision=ns"
                .to_string()
        )
    );
}

#[test]
fn write_request_without_precision_is_in_seconds() {
    let client = client();
    let point = Point::new("m").add_field("f", Value::Boolean(true));
    let request = client.write_point_request(point, None, Some("weekly")).unwrap();
    assert_eq!(
        request.params,
        pairs(&[("bucket", "test_bucket"), ("org", "test_org"), ("precision", "s"), ("rp", "weekly")])
    );
    assert_eq!(request.body, Body::Lines("m f=true".to_string()));
}

#[test]
fn write_request_of_a_point_that_cannot_be_written() {
    let client = client();
    assert_eq!(
        client.write_point_request(Point::new("m"), None, None),
        Err(InvalidPoint { index: 0, fault: PointFault::NoFields })
    );
    let points = Points::new(Point::new("m").add_field("f", Value::Integer(1)))
        .push(Point::new("").add_field("f", Value::Integer(1)));
    assert_eq!(
        client.write_points_request(&points, Some(Precision::Hours), None),
        Err(InvalidPoint { index: 1, fault: PointFault::EmptyMeasurement })
    );
}

#[test]
fn query_request_carries_the_query_and_the_token() {
    let client = client();
    let query = ReadQuery {
        external: None,
        query: "from(bucket: \"test_bucket\") |> yield()".to_string(),
        type_: None,
        dialect: None,
        now: None,
    };
    let request = client.query_request(Some(query.clone())).unwrap();
    assert_eq!(request.endpoint, EndpointKind::Query);
    assert_eq!(request.method, Method::Post);
    assert_eq!(request.path, "api/v2/query");
    assert_eq!(request.params, pairs(&[("org", "test_org")]));
    assert_eq!(request.body, Body::Query(query));
    assert_eq!(request.bearer, Some("0123456789".to_string()));
}

#[test]
fn query_request_without_a_query() {
    assert_eq!(
        client().query_request(None),
        Err(Error { inner: ErrorKind::Unknown("No flux query to serialize".to_string()) })
    );
}

#[test]
fn drop_measurement_request_names_the_measurement() {
    let request = client().drop_measurement_request(
        "temporary",
        "2022-01-01T00:00:00Z",
        "2022-01-02T00:00:00Z",
    );
    assert_eq!(request.endpoint, EndpointKind::DropMeasurement);
    assert_eq!(request.method, Method::Post);
    assert_eq!(request.path, "api/v2/delete");
    assert_eq!(request.params, pairs(&[("bucket", "test_bucket"), ("org", "test_org")]));
    assert_eq!(
        request.body,
        Body::Delete(DeleteQuery {
            predicate: "_measurement=\"temporary\"".to_string(),
            start: "2022-01-01T00:00:00Z".to_string(),
            stop: "2022-01-02T00:00:00Z".to_string(),
        })
    );
}

#[test]
fn database_requests() {
    let mut client = client();
    client.org_id = "0a1b".to_string();
    let create = client.create_database_request("temporary");
    assert_eq!(create.endpoint, EndpointKind::CreateDatabase);
    assert_eq!(create.method, Method::Post);
    assert_eq!(create.path, "api/v2/buckets");
    assert_eq!(create.params, None);
    assert_eq!(
        create.body,
        Body::Bucket(Bucket {
            description: String::new(),
            name: "temporary".to_string(),
            org_id: "0a1b".to_string(),
            retention_rules: vec![RetentionRules {
                every_seconds: 0,
                shard_group_duration_seconds: 0,
                retention_type: "expire".to_string(),
            }],
            rp: None,
            schema_type: "Implicit".to_string(),
        })
    );
    let drop = client.drop_database_request("77");
    assert_eq!(drop.endpoint, EndpointKind::DropDatabase);
    assert_eq!(drop.method, Method::Delete);
    assert_eq!(drop.path, "api/v2/buckets/77");
    assert_eq!(
        client.request_url(&drop),
        Some("http://localhost:8086/api/v2/buckets/77".to_string())
    );
}

#[test]
fn user_requests() {
    let client = client();
    let create = client.create_new_user_request("reduced_perms", Status::Active);
    assert_eq!(create.endpoint, EndpointKind::CreateUser);
    assert_eq!(create.method, Method::Post);
    assert_eq!(create.path, "api/v2/users");
    assert_eq!(
        create.body,
        Body::User(CreateUser { name: "reduced_perms".to_string(), status: "active".to_string() })
    );
    let inactive = client.create_new_user_request("x", Status::Inactive);
    assert_eq!(
        inactive.body,
        Body::User(CreateUser { name: "x".to_string(), status: "inactive".to_string() })
    );
    let list = client.list_users_request();
    assert_eq!((list.endpoint, list.method), (EndpointKind::ListUsers, Method::Get));
    assert_eq!(list.path, "api/v2/users");
    let delete = client.delete_user_request("0042");
    assert_eq!((delete.endpoint, delete.method), (EndpointKind::DeleteUser, Method::Delete));
    assert_eq!(delete.path, "api/v2/users/0042");
}

#[test]
fn authorization_request() {
    let permissions = vec![AuthPermissions {
        action: "read".to_string(),
        resource: AuthResource {
            type_: AuthResourceType::Bucket.to_string(),
            org_id: None,
            bucket_id: None,
        },
    }];
    let request = client().create_authorization_request(
        None,
        "0a1b",
        permissions.clone(),
        Status::Active,
        "read bucket",
    );
    assert_eq!(request.endpoint, EndpointKind::CreateAuthorization);
    assert_eq!(request.method, Method::Post);
    assert_eq!(request.path, "api/v2/authorizations");
    match request.body {
        Body::Authorization(a) => {
            assert_eq!(a.org_id, "0a1b");
            assert_eq!(a.user_id, None);
            assert_eq!(a.permissions, permissions);
            assert_eq!(a.status, "active");
            assert_eq!(a.description, "read bucket");
            assert_eq!(a.permissions[0].resource.type_, "buckets");
        }
        other => panic!("{:?}", other),
    }
}

#[test]
fn resource_types_have_their_names() {
    let all = [
        (AuthResourceType::Bucket, "buckets"),
        (AuthResourceType::Organization, "orgs"),
        (AuthResourceType::Dashboards, "dashboards"),
        (AuthResourceType::Orgs, "orgs"),
        (AuthResourceType::Tasks, "tasks"),
        (AuthResourceType::Telegrafs, "telegrafs"),
        (AuthResourceType::Users, "users"),
        (AuthResourceType::Variables, "variables"),
        (AuthResourceType::Secrets, "secrets"),
        (AuthResourceType::Labels, "labels"),
        (AuthResourceType::Views, "views"),
        (AuthResourceType::Documents, "documents"),
        (AuthResourceType::NotificationsRules, "notificationRules"),
        (AuthResourceType::NotificationEndpoints, "notificationEndpoints"),
        (AuthResourceType::Checks, "checks"),
        (AuthResourceType::DBRP, "dbrps"),
        (AuthResourceType::Annotations, "annotations"),
        (AuthResourceType::Sources, "sources"),
        (AuthResourceType::Scrapers, "scrapers"),
        (AuthResourceType::Notebooks, "notebooks"),
        (AuthResourceType::Remotes, "remotes"),
        (AuthResourceType::Replications, "replications"),
        (AuthResourceType::Instance, "instance"),
        (AuthResourceType::Flows, "flows"),
        (AuthResourceType::Functions, "functions"),
        (AuthResourceType::Subscriptions, "subscriptions"),
    ];
    for (kind, name) in all {
        assert_eq!(kind.to_string(), name);
        assert_eq!(kind.as_str(), name);
    }
    assert_eq!(Status::Active.as_str(), "active");
    assert_eq!(Status::Inactive.as_str(), "inactive");
}

#[test]
fn new_values_are_blank() {
    let file = File::new();
    assert_eq!(
        file,
        File { type_: None, name: None, package: None, imports: vec![], body: vec![] }
    );
    assert_eq!(File::default(), file);
    assert_eq!(AnalyzeQueryResponse::new(), AnalyzeQueryResponse { errors: vec![] });
    assert_eq!(
        AnalyzeQueryResponseErrors::new(),
        AnalyzeQueryResponseErrors { line: None, column: None, character: None, message: None }
    );
    assert_eq!(
        ReadQuery::default(),
        ReadQuery { external: None, query: String::new(), type_: None, dialect: None, now: None }
    );
}

fn config(authentication: Option<(String, String)>, jwt_token: Option<String>) -> Config {
    Config {
        url: "http://localhost:8086".to_string(),
        min_connections: None,
        max_connections: 4,
        connect_timeout: 5,
        idle_timeout: None,
        bucket: "test_bucket".to_string(),
        org: "test_org".to_string(),
        authentication,
        jwt_token,
    }
}

#[test]
fn configuration_with_a_token() {
    let pair = Some(("user".to_string(), "secret".to_string()));
    let both = config(pair, Some("0123456789".to_string()));
    assert!(both.names_credentials());
    let client = both.client(reqwest::Client::new());
    assert_eq!(client.host, "http://localhost:8086");
    assert_eq!(client.bucket, "test_bucket");
    assert_eq!(client.org, "test_org");
    assert_eq!(client.jwt_token, Some("0123456789".to_string()));
    assert_eq!(client.authentication, None);
}

#[test]
fn configuration_with_a_name_and_a_password() {
    let named = config(Some(("user".to_string(), "secret".to_string())), None);
    assert!(named.names_credentials());
    let client = named.client(reqwest::Client::new());
    assert_eq!(client.jwt_token, None);
    assert_eq!(client.authentication, Some(("user".to_string(), "secret".to_string())));
    assert!(!config(None, None).names_credentials());
}
