use influxdb_rs::api::response::{
    classify, error_message, first_bucket_id, first_org_id, unreadable_answer, version_text,
    EndpointKind, EndpointSuccess, MessageRule, Outcome,
};
use influxdb_rs::data_model::bucket::{Buckets, MultiBuckets};
use influxdb_rs::data_model::links::{BucketLinks, Links};
use influxdb_rs::data_model::org::{OrgLinks, OrgStruct, Orgs};
use influxdb_rs::error::{Category, ErrorKind};
use influxdb_rs::serialization::{conversion, message_or_body};
use influxdb_rs::Error;

const ALL: [EndpointKind; 13] = [
    EndpointKind::Ping,
    EndpointKind::Version,
    EndpointKind::Write,
    EndpointKind::Query,
    EndpointKind::DropMeasurement,
    EndpointKind::CreateDatabase,
    EndpointKind::DropDatabase,
    EndpointKind::GetOrgId,
    EndpointKind::GetBucketId,
    EndpointKind::CreateUser,
    EndpointKind::CreateAuthorization,
    EndpointKind::ListUsers,
    EndpointKind::DeleteUser,
];

fn error(kind: ErrorKind) -> Result<EndpointSuccess, Error> {
    Err(Error { inner: kind })
}

#[test]
fn write_to_a_missing_database() {
    let answer = classify(EndpointKind::Write, 404, Some("database not found"));
    assert_eq!(answer, error(ErrorKind::DataBaseDoesNotExist("database not found".to_string())));
    let structured = classify(
        EndpointKind::Write,
        404,
        Some("{\"code\":\"not found\",\"message\":\"bucket \\\"x\\\" not found\"}"),
    );
    assert_eq!(
        structured,
        error(ErrorKind::DataBaseDoesNotExist("bucket \"x\" not found".to_string()))
    );
    assert!(matches!(
        classify(EndpointKind::Write, 404, None),
        Err(Error { inner: ErrorKind::DataBaseDoesNotExist(_) })
    ));
}

#[test]
fn write_that_succeeded() {
    assert_eq!(classify(EndpointKind::Write, 204, None), Ok(EndpointSuccess::Done));
    assert_eq!(classify(EndpointKind::Write, 204, Some("ignored")), Ok(EndpointSuccess::Done));
}

#[test]
fn lookup_without_an_organization() {
    let none = Orgs { links: Links { next: None, prev: None, link_self: None }, orgs: vec![] };
    assert_eq!(
        first_org_id(&none),
        Err(Error { inner: ErrorKind::SyntaxError("No organization found".to_string()) })
    );
}

fn org(id: &str) -> OrgStruct {
    OrgStruct {
        created_at: "2022".to_string(),
        description: None,
        id: id.to_string(),
        links: OrgLinks {
            buckets: String::new(),
            dashboards: String::new(),
            labels: String::new(),
            members: String::new(),
            owners: String::new(),
            secrets: String::new(),
            org_self: String::new(),
            tasks: String::new(),
        },
        name: "test_org".to_string(),
        status: None,
        updated_at: None,
    }
}

fn bucket(id: &str) -> MultiBuckets {
    MultiBuckets {
        created_at: "2022".to_string(),
        description: None,
        name: "test_bucket".to_string(),
        labels: vec![],
        id: id.to_string(),
        links: BucketLinks {
            labels: String::new(),
            members: String::new(),
            owners: String::new(),
            org: String::new(),
            bucket_self: String::new(),
            write: String::new(),
        },
        org_id: "1".to_string(),
        retention_rules: vec![],
        rp: None,
        schema_type: None,
        user_type: "user".to_string(),
    }
}

#[test]
fn lookup_takes_the_first_identifier() {
    let links = Links { next: None, prev: None, link_self: Some("/api/v2/orgs".to_string()) };
    let orgs = Orgs { links: links.clone(), orgs: vec![org("0a1b"), org("ffff")] };
    assert_eq!(first_org_id(&orgs), Ok("0a1b".to_string()));
    let buckets = Buckets { links, buckets: vec![bucket("77"), bucket("88")] };
    assert_eq!(first_bucket_id(&buckets), Ok("77".to_string()));
}

#[test]
fn lookup_without_a_bucket() {
    let none = Buckets { links: Links { next: None, prev: None, link_self: None }, buckets: vec![] };
    assert_eq!(
        first_bucket_id(&none),
        Err(Error { inner: ErrorKind::SyntaxError("No bucket found".to_string()) })
    );
}

#[test]
fn write_table() {
    let body = Some("{\"message\":\"why\"}");
    let write = |status| classify(EndpointKind::Write, status, body);
    assert_eq!(write(400), error(ErrorKind::SyntaxError("why".to_string())));
    let credentials =
        error(ErrorKind::InvalidCredentials("Invalid authentication credentials.".to_string()));
    assert_eq!(write(401), credentials);
    assert_eq!(write(403), credentials);
    assert_eq!(write(404), error(ErrorKind::DataBaseDoesNotExist("why".to_string())));
    assert_eq!(
        write(500),
        error(ErrorKind::RetentionPolicyDoesNotExist("{\"message\":\"why\"}".to_string()))
    );
    assert_eq!(write(200), error(ErrorKind::Unknown("Received status code 200".to_string())));
    assert_eq!(write(503), error(ErrorKind::Unknown("Received status code 503".to_string())));
    assert_eq!(write(0), error(ErrorKind::Unknown("Received status code 0".to_string())));
    assert_eq!(write(65535), error(ErrorKind::Unknown("Received status code 65535".to_string())));
}

#[test]
fn query_table() {
    let query = |status, body| classify(EndpointKind::Query, status, body);
    assert_eq!(query(200, Some("a,b\n1,2")), Ok(EndpointSuccess::Body("a,b\n1,2".to_string())));
    assert_eq!(query(200, None), Ok(EndpointSuccess::Body(String::new())));
    assert_eq!(
        query(400, Some("{\"code\":\"invalid\",\"message\":\"bad flux\"}")),
        error(ErrorKind::SyntaxError("bad flux".to_string()))
    );
    assert_eq!(
        query(401, Some("x")),
        error(ErrorKind::InvalidCredentials("Invalid authentication credentials.".to_string()))
    );
    assert_eq!(
        query(403, None),
        error(ErrorKind::InvalidCredentials("Invalid authentication credentials.".to_string()))
    );
    assert_eq!(
        query(500, Some("{\"message\":\"boom\"}")),
        error(ErrorKind::Unknown("{\"message\":\"boom\"}".to_string()))
    );
    assert_eq!(query(204, None), error(ErrorKind::Unknown(String::new())));
}

#[test]
fn drop_measurement_table() {
    let drop = |status| classify(EndpointKind::DropMeasurement, status, Some("oops"));
    assert_eq!(drop(204), Ok(EndpointSuccess::Done));
    assert_eq!(drop(400), error(ErrorKind::SyntaxError("oops".to_string())));
    assert_eq!(
        drop(401),
        error(ErrorKind::InvalidCredentials("Invalid authentication credentials.".to_string()))
    );
    assert_eq!(
        drop(403),
        error(ErrorKind::InvalidCredentials("Invalid authentication credentials.".to_string()))
    );
    assert_eq!(drop(404), error(ErrorKind::Unknown("There is something wrong".to_string())));
    assert_eq!(drop(500), error(ErrorKind::Unknown("There is something wrong".to_string())));
}

#[test]
fn create_database_table() {
    let create = |status| classify(EndpointKind::CreateDatabase, status, Some("{\"message\":\"m\"}"));
    assert_eq!(create(201), Ok(EndpointSuccess::Done));
    assert_eq!(create(422), error(ErrorKind::SyntaxError("m".to_string())));
    assert_eq!(create(200), error(ErrorKind::SyntaxError("m".to_string())));
    assert_eq!(create(401), error(ErrorKind::SyntaxError("m".to_string())));
    assert_eq!(create(500), error(ErrorKind::SyntaxError("m".to_string())));
}

#[test]
fn other_operations_call_every_failure_a_syntax_error() {
    let plain = [
        (EndpointKind::Ping, 204, false),
        (EndpointKind::Version, 204, false),
        (EndpointKind::DropDatabase, 204, false),
        (EndpointKind::GetOrgId, 200, true),
        (EndpointKind::GetBucketId, 200, true),
        (EndpointKind::CreateUser, 201, true),
        (EndpointKind::CreateAuthorization, 201, true),
        (EndpointKind::ListUsers, 200, true),
        (EndpointKind::DeleteUser, 204, false),
    ];
    for (endpoint, success, body) in plain {
        assert_eq!(endpoint.expected_status(), success);
        let expected =
            if body { EndpointSuccess::Body("{}".to_string()) } else { EndpointSuccess::Done };
        assert_eq!(classify(endpoint, success, Some("{}")), Ok(expected));
        for status in [100, 199, 202, 301, 400, 401, 403, 404, 422, 500, 599] {
            assert_eq!(
                classify(endpoint, status, Some("not json")),
                error(ErrorKind::SyntaxError("not json".to_string())),
                "{:?} {}",
                endpoint,
                status
            );
        }
    }
}

#[test]
fn every_status_of_every_operation_is_read() {
    for endpoint in ALL {
        let mut successes = 0;
        for status in 100..=599u16 {
            let named = status == endpoint.expected_status()
                || (matches!(
                    endpoint,
                    EndpointKind::Write | EndpointKind::Query | EndpointKind::DropMeasurement
                ) && matches!(status, 400 | 401 | 403))
                || (endpoint == EndpointKind::Write && matches!(status, 404 | 500));
            let tells_apart = matches!(
                endpoint,
                EndpointKind::Write | EndpointKind::Query | EndpointKind::DropMeasurement
            );
            match classify(endpoint, status, Some("body")) {
                Ok(_) => {
                    assert_eq!(status, endpoint.expected_status());
                    successes += 1;
                }
                Err(e) => {
                    assert_ne!(status, endpoint.expected_status());
                    assert_ne!(e.inner.kind(), Category::Communication);
                    if !named {
                        let expected =
                            if tells_apart { Category::Unknown } else { Category::SyntaxError };
                        assert_eq!(e.inner.kind(), expected, "{:?} {}", endpoint, status);
                    }
                }
            }
            match endpoint.read_status(status) {
                Outcome::Success { .. } => assert_eq!(status, endpoint.expected_status()),
                Outcome::Failure { .. } => assert_ne!(status, endpoint.expected_status()),
            }
        }
        assert_eq!(successes, 1);
    }
}

#[test]
fn body_that_is_no_json_is_kept_as_it_came() {
    for body in [
        "BAD SYNTAX",
        "",
        "{",
        "{\"message\":",
        "{\"message\":\"x\"} trailing",
        "<html>502</html>",
        "'quoted' \"text\" \\ ",
        "  spaced  ",
    ] {
        assert_eq!(conversion(body), body);
        for endpoint in ALL {
            for status in [400, 404, 422, 500] {
                if let Err(e) = classify(endpoint, status, Some(body)) {
                    let fixed = matches!(
                        (endpoint, status),
                        (EndpointKind::Write, 500) | (EndpointKind::Query, _)
                    ) || e.inner.kind() == Category::SyntaxError
                        || e.inner.kind() == Category::DataBaseDoesNotExist;
                    if fixed {
                        assert_eq!(e.to_string(), body, "{:?} {}", endpoint, status);
                    }
                }
            }
        }
    }
}

#[test]
fn json_of_another_shape_is_kept_as_it_came() {
    for body in [
        "{}",
        "[]",
        "null",
        "42",
        "\"message\"",
        "{\"error\":\"x\"}",
        "{\"message\":42}",
        "{\"message\":null}",
        "{\"message\":{\"message\":\"deep\"}}",
        "[{\"message\":\"in a list\"}]",
    ] {
        assert_eq!(conversion(body), body);
    }
}

#[test]
fn structured_error_gives_its_message() {
    assert_eq!(conversion("{\"message\":\"x\"}"), "x");
    assert_eq!(conversion(" { \"code\" : \"invalid\", \"message\" : \"a b\" } "), "a b");
    assert_eq!(conversion("{\"message\":\"\"}"), "");
    assert_eq!(conversion("{\"message\":\"line\\nbreak \\u00e9\"}"), "line\nbreak é");
    assert_eq!(conversion("{\"message\":\"first\",\"message\":\"last\"}"), "last");
}

#[test]
fn message_is_preferred_to_the_body() {
    assert_eq!(message_or_body("raw", Some("found".to_string())), "found");
    assert_eq!(message_or_body("raw", None), "raw");
}

#[test]
fn each_rule_gives_its_message() {
    let body = Some("{\"message\":\"m\"}");
    assert_eq!(error_message(MessageRule::Normalized, 400, body), "m");
    assert_eq!(error_message(MessageRule::Normalized, 400, None), "");
    assert_eq!(error_message(MessageRule::Raw, 400, body), "{\"message\":\"m\"}");
    assert_eq!(error_message(MessageRule::Raw, 400, None), "");
    assert_eq!(
        error_message(MessageRule::Credentials, 401, body),
        "Invalid authentication credentials."
    );
    assert_eq!(error_message(MessageRule::Wrong, 500, body), "There is something wrong");
    assert_eq!(error_message(MessageRule::Status, 418, body), "Received status code 418");
}

#[test]
fn unreadable_answer_is_a_syntax_error() {
    assert_eq!(
        unreadable_answer("missing field `id` at line 1 column 2"),
        Error { inner: ErrorKind::SyntaxError("missing field `id` at line 1 column 2".to_string()) }
    );
}

#[test]
fn version_comes_from_the_header() {
    assert_eq!(version_text(Some("v2.7.1")), "v2.7.1");
    assert_eq!(version_text(None), "Don't know");
    assert_eq!(classify(EndpointKind::Version, 204, None), Ok(EndpointSuccess::Done));
    assert_eq!(classify(EndpointKind::Ping, 204, None), Ok(EndpointSuccess::Done));
}
