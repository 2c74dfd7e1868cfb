//! How the answer of the server is read: for each operation, which status is
//! its success and which error every other status is.
use crate::data_model::bucket::Buckets;
use crate::data_model::org::Orgs;
use crate::error::{Category, Error, ErrorView};
use crate::serialization::{conversion, json_string_field, message_key, normalized};
use crate::text::{decimal, push_nat};
use vstd::prelude::*;

verus! {

/// The operations whose answers are read here.
#[derive(Clone, Copy, Debug, PartialEq, Eq, Structural)]
pub enum EndpointKind {
    /// Asking whether the server is there.
    Ping,
    /// Asking for the version of the server.
    Version,
    /// Writing points.
    Write,
    /// Running a query.
    Query,
    /// Deleting the points of a measurement.
    DropMeasurement,
    /// Creating a database.
    CreateDatabase,
    /// Deleting a database.
    DropDatabase,
    /// Looking up the identifier of an organization.
    GetOrgId,
    /// Looking up the identifier of a bucket.
    GetBucketId,
    /// Creating a user.
    CreateUser,
    /// Creating an authorization.
    CreateAuthorization,
    /// Listing the users.
    ListUsers,
    /// Deleting a user.
    DeleteUser,
}

/// Where the message of an error comes from.
#[derive(Clone, Copy, Debug, PartialEq, Eq, Structural)]
pub enum MessageRule {
    /// From the body, read as a structured error where it is one.
    Normalized,
    /// The body as it came.
    Raw,
    /// A fixed sentence on credentials.
    Credentials,
    /// A fixed sentence that says nothing more.
    Wrong,
    /// A sentence that names the status code.
    Status,
}

/// What a status means for an operation.
#[derive(Clone, Copy, Debug, PartialEq, Eq, Structural)]
pub enum Outcome {
    /// The operation succeeded; `body` says whether its answer is in the body.
    Success { body: bool },
    /// The operation failed with an error of this category, whose message
    /// follows this rule.
    Failure { category: Category, rule: MessageRule },
}

/// What an operation hands back when it succeeded.
#[derive(Debug, Clone, PartialEq, Eq)]
pub enum EndpointSuccess {
    /// Nothing but the success itself.
    Done,
    /// The body of the answer, unread.
    Body(String),
}

/// The mathematical content of an [`EndpointSuccess`].
pub enum SuccessView {
    Done,
    Body(Seq<char>),
}

impl View for EndpointSuccess {
    type V = SuccessView;

    open spec fn view(&self) -> SuccessView {
        match self {
            EndpointSuccess::Done => SuccessView::Done,
            EndpointSuccess::Body(b) => SuccessView::Body(b@),
        }
    }
}

impl EndpointSuccess {
    /// The body of the answer; the empty text where the success has no body.
    pub fn into_body(self) -> (body: String)
        ensures
            body@ == match self@ {
                SuccessView::Body(b) => b,
                SuccessView::Done => Seq::empty(),
            },
    {
        match self {
            EndpointSuccess::Body(b) => b,
            EndpointSuccess::Done => String::new(),
        }
    }
}

impl EndpointKind {
    /// The one status with which the operation succeeds.
    pub open spec fn success_status(self) -> u16 {
        match self {
            EndpointKind::Ping => 204,
            EndpointKind::Version => 204,
            EndpointKind::Write => 204,
            EndpointKind::Query => 200,
            EndpointKind::DropMeasurement => 204,
            EndpointKind::CreateDatabase => 201,
            EndpointKind::DropDatabase => 204,
            EndpointKind::GetOrgId => 200,
            EndpointKind::GetBucketId => 200,
            EndpointKind::CreateUser => 201,
            EndpointKind::CreateAuthorization => 201,
            EndpointKind::ListUsers => 200,
            EndpointKind::DeleteUser => 204,
        }
    }

    /// Whether the answer of the operation is in the body of its success.
    pub open spec fn answers_in_body(self) -> bool {
        match self {
            EndpointKind::Query => true,
            EndpointKind::GetOrgId => true,
            EndpointKind::GetBucketId => true,
            EndpointKind::CreateUser => true,
            EndpointKind::CreateAuthorization => true,
            EndpointKind::ListUsers => true,
            _ => false,
        }
    }

    /// Whether the operation tells credentials and other failures apart: the
    /// others call every failure a syntax error.
    pub open spec fn tells_failures_apart(self) -> bool {
        self == EndpointKind::Write || self == EndpointKind::Query || self
            == EndpointKind::DropMeasurement
    }

    /// What `status` means for the operation. Every status has a meaning.
    pub open spec fn outcome(self, status: u16) -> Outcome {
        if status == self.success_status() {
            Outcome::Success { body: self.answers_in_body() }
        } else if !self.tells_failures_apart() {
            Outcome::Failure { category: Category::SyntaxError, rule: MessageRule::Normalized }
        } else if status == 400 {
            Outcome::Failure { category: Category::SyntaxError, rule: MessageRule::Normalized }
        } else if status == 401 || status == 403 {
            Outcome::Failure {
                category: Category::InvalidCredentials,
                rule: MessageRule::Credentials,
            }
        } else if self == EndpointKind::Write && status == 404 {
            Outcome::Failure {
                category: Category::DataBaseDoesNotExist,
                rule: MessageRule::Normalized,
            }
        } else if self == EndpointKind::Write && status == 500 {
            Outcome::Failure {
                category: Category::RetentionPolicyDoesNotExist,
                rule: MessageRule::Raw,
            }
        } else {
            Outcome::Failure {
                category: Category::Unknown,
                rule: match self {
                    EndpointKind::Write => MessageRule::Status,
                    EndpointKind::Query => MessageRule::Raw,
                    _ => MessageRule::Wrong,
                },
            }
        }
    }

    /// The one status with which the operation succeeds.
    pub fn expected_status(self) -> (status: u16)
        ensures
            status == self.success_status(),
    {
        match self {
            EndpointKind::Ping => 204,
            EndpointKind::Version => 204,
            EndpointKind::Write => 204,
            EndpointKind::Query => 200,
            EndpointKind::DropMeasurement => 204,
            EndpointKind::CreateDatabase => 201,
            EndpointKind::DropDatabase => 204,
            EndpointKind::GetOrgId => 200,
            EndpointKind::GetBucketId => 200,
            EndpointKind::CreateUser => 201,
            EndpointKind::CreateAuthorization => 201,
            EndpointKind::ListUsers => 200,
            EndpointKind::DeleteUser => 204,
        }
    }

    /// What `status` means for the operation.
    pub fn read_status(self, status: u16) -> (outcome: Outcome)
        ensures
            outcome == self.outcome(status),
    {
        if status == self.expected_status() {
            let body = match self {
                EndpointKind::Query => true,
                EndpointKind::GetOrgId => true,
                EndpointKind::GetBucketId => true,
                EndpointKind::CreateUser => true,
                EndpointKind::CreateAuthorization => true,
                EndpointKind::ListUsers => true,
                _ => false,
            };
            return Outcome::Success { body };
        }
        match self {
            EndpointKind::Write => match status {
                400 => Outcome::Failure {
                    category: Category::SyntaxError,
                    rule: MessageRule::Normalized,
                },
                401 | 403 => Outcome::Failure {
                    category: Category::InvalidCredentials,
                    rule: MessageRule::Credentials,
                },
                404 => Outcome::Failure {
                    category: Category::DataBaseDoesNotExist,
                    rule: MessageRule::Normalized,
                },
                500 => Outcome::Failure {
                    category: Category::RetentionPolicyDoesNotExist,
                    rule: MessageRule::Raw,
                },
                _ => Outcome::Failure { category: Category::Unknown, rule: MessageRule::Status },
            },
            EndpointKind::Query => match status {
                400 => Outcome::Failure {
                    category: Category::SyntaxError,
                    rule: MessageRule::Normalized,
                },
                401 | 403 => Outcome::Failure {
                    category: Category::InvalidCredentials,
                    rule: MessageRule::Credentials,
                },
                _ => Outcome::Failure { category: Category::Unknown, rule: MessageRule::Raw },
            },
            EndpointKind::DropMeasurement => match status {
                400 => Outcome::Failure {
                    category: Category::SyntaxError,
                    rule: MessageRule::Normalized,
                },
                401 | 403 => Outcome::Failure {
                    category: Category::InvalidCredentials,
                    rule: MessageRule::Credentials,
                },
                _ => Outcome::Failure { category: Category::Unknown, rule: MessageRule::Wrong },
            },
            _ => Outcome::Failure { category: Category::SyntaxError, rule: MessageRule::Normalized },
        }
    }
}

/// The body as a text: an answer without a body has the empty text.
pub open spec fn body_text(body: Option<Seq<char>>) -> Seq<char> {
    match body {
        Some(b) => b,
        None => Seq::empty(),
    }
}

/// The message of an error that follows `rule`, for an answer with this
/// status and this body.
pub open spec fn message_text(rule: MessageRule, status: u16, body: Option<Seq<char>>) -> Seq<
    char,
> {
    match rule {
        MessageRule::Normalized => match body {
            Some(b) => normalized(b),
            None => Seq::empty(),
        },
        MessageRule::Raw => body_text(body),
        MessageRule::Credentials => "Invalid authentication credentials."@,
        MessageRule::Wrong => "There is something wrong"@,
        MessageRule::Status => "Received status code "@ + decimal(status as int),
    }
}

/// What the answer with this status and this body is for the operation: its
/// success, or one error.
pub open spec fn classified(endpoint: EndpointKind, status: u16, body: Option<Seq<char>>) -> Result<
    SuccessView,
    ErrorView,
> {
    match endpoint.outcome(status) {
        Outcome::Success { body: true } => Ok(SuccessView::Body(body_text(body))),
        Outcome::Success { body: false } => Ok(SuccessView::Done),
        Outcome::Failure { category, rule } => Err(
            ErrorView { category, message: message_text(rule, status, body) },
        ),
    }
}

/// The content of a body that may be missing.
pub open spec fn body_view(body: Option<&str>) -> Option<Seq<char>> {
    match body {
        Some(b) => Some(b@),
        None => None,
    }
}

/// The message of an error that follows `rule`.
pub fn error_message(rule: MessageRule, status: u16, body: Option<&str>) -> (message: String)
    ensures
        message@ == message_text(rule, status, body_view(body)),
{
    match rule {
        MessageRule::Normalized => match body {
            Some(b) => conversion(b),
            None => String::new(),
        },
        MessageRule::Raw => match body {
            Some(b) => b.to_owned(),
            None => String::new(),
        },
        MessageRule::Credentials => "Invalid authentication credentials.".to_owned(),
        MessageRule::Wrong => "There is something wrong".to_owned(),
        MessageRule::Status => {
            let mut message = "Received status code ".to_owned();
            push_nat(&mut message, status as u64);
            message
        },
    }
}

/// Reads the answer of the server to one operation: the status decides
/// between its success and one error, and the body gives the answer or the
/// message. Every status is read, and no body is refused.
pub fn classify(endpoint: EndpointKind, status: u16, body: Option<&str>) -> (answer: Result<
    EndpointSuccess,
    Error,
>)
    ensures
        match answer {
            Ok(success) => classified(endpoint, status, body_view(body)) == Ok::<
                SuccessView,
                ErrorView,
            >(success@),
            Err(error) => classified(endpoint, status, body_view(body)) == Err::<
                SuccessView,
                ErrorView,
            >(error@),
        },
{
    match endpoint.read_status(status) {
        Outcome::Success { body: true } => Ok(
            EndpointSuccess::Body(
                match body {
                    Some(b) => b.to_owned(),
                    None => String::new(),
                },
            ),
        ),
        Outcome::Success { body: false } => Ok(EndpointSuccess::Done),
        Outcome::Failure { category, rule } => Err(
            Error::new(category, error_message(rule, status, body)),
        ),
    }
}

/// The identifier of the first organization of a listing. A listing without
/// an organization is an error, and only that.
pub fn first_org_id(orgs: &Orgs) -> (found: Result<String, Error>)
    ensures
        found is Ok <==> orgs.orgs@.len() > 0,
        found matches Ok(id) ==> id@ == orgs.orgs@[0].id@,
        found matches Err(e) ==> e@ == (ErrorView {
            category: Category::SyntaxError,
            message: "No organization found"@,
        }),
{
    if orgs.orgs.len() == 0 {
        Err(Error::new(Category::SyntaxError, "No organization found".to_owned()))
    } else {
        Ok(orgs.orgs[0].id.clone())
    }
}

/// The identifier of the first bucket of a listing. A listing without a
/// bucket is an error, and only that.
pub fn first_bucket_id(buckets: &Buckets) -> (found: Result<String, Error>)
    ensures
        found is Ok <==> buckets.buckets@.len() > 0,
        found matches Ok(id) ==> id@ == buckets.buckets@[0].id@,
        found matches Err(e) ==> e@ == (ErrorView {
            category: Category::SyntaxError,
            message: "No bucket found"@,
        }),
{
    if buckets.buckets.len() == 0 {
        Err(Error::new(Category::SyntaxError, "No bucket found".to_owned()))
    } else {
        Ok(buckets.buckets[0].id.clone())
    }
}

/// The error of an answer whose status was a success and whose body could
/// not be read: a syntax error with the reader's description as its message.
pub fn unreadable_answer(description: &str) -> (error: Error)
    ensures
        error@ == (ErrorView { category: Category::SyntaxError, message: description@ }),
{
    Error::new(Category::SyntaxError, description.to_owned())
}

/// The version that the server names in its header, and a fixed answer where
/// it names none.
pub fn version_text(header: Option<&str>) -> (version: String)
    ensures
        version@ == match header {
            Some(h) => h@,
            None => "Don't know"@,
        },
{
    match header {
        Some(h) => h.to_owned(),
        None => "Don't know".to_owned(),
    }
}

impl EndpointKind {
    /// Whether the table of the operation names `status`.
    pub open spec fn names_status(self, status: u16) -> bool {
        ||| status == self.success_status()
        ||| self.tells_failures_apart() && (status == 400 || status == 401 || status == 403)
        ||| self == EndpointKind::Write && (status == 404 || status == 500)
    }
}

/// The table of statuses is complete: every status of every operation is read
/// as that operation's success or as exactly one error; the success is the
/// one status of the operation; and a status that the table does not name is
/// an unknown error for the operations that tell failures apart, and a syntax
/// error for the others.
pub proof fn lemma_status_table_complete(
    endpoint: EndpointKind,
    status: u16,
    body: Option<Seq<char>>,
)
    ensures
        classified(endpoint, status, body) is Ok <==> status == endpoint.success_status(),
        classified(endpoint, status, body) matches Err(e) ==> e.category
            != Category::Communication,
        !endpoint.names_status(status) && endpoint.tells_failures_apart() ==> (classified(
            endpoint,
            status,
            body,
        ) matches Err(e) && e.category == Category::Unknown),
        !endpoint.names_status(status) && !endpoint.tells_failures_apart() ==> (classified(
            endpoint,
            status,
            body,
        ) matches Err(e) && e.category == Category::SyntaxError),
{
}

/// Whether the message of the error that `status` is for the operation is
/// taken from the body.
pub open spec fn message_from_body(endpoint: EndpointKind, status: u16) -> bool {
    endpoint.outcome(status) matches Outcome::Failure { rule, .. } && (rule
        == MessageRule::Normalized || rule == MessageRule::Raw)
}

/// A body that is not the JSON of a structured error is never refused: where
/// the message of the error is taken from the body, the answer is that error
/// with the body as it came for its message.
pub proof fn lemma_malformed_body_is_kept(endpoint: EndpointKind, status: u16, body: Seq<char>)
    ensures
        json_string_field(body, message_key()) is None && message_from_body(endpoint, status)
            ==> (classified(endpoint, status, Some(body)) matches Err(e) && e.message == body),
{
}

} // verus!
