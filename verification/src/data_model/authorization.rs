//! Authorizations: what a token may do.
use vstd::prelude::*;

verus! {

/// Create a new authorization
#[derive(Debug, Clone, PartialEq, Eq)]
pub struct CreateAuthorization {
    /// Description of the authorization
    pub description: String,
    /// Permissions of the authorization
    pub permissions: Vec<AuthPermissions>,
    /// Org Id
    pub org_id: String,
    /// Status of the authorization
    pub status: String,
    /// User Id
    pub user_id: Option<String>,
}

/// Authorization Permissions
#[derive(Debug, Clone, PartialEq, Eq)]
pub struct AuthPermissions {
    /// Action of the authorization
    pub action: String,
    /// Resource of the authorization
    pub resource: AuthResource,
}

/// Authorization Resource
#[derive(Debug, Clone, PartialEq, Eq)]
pub struct AuthResource {
    /// Type of the authorization
    pub type_: String,
    /// Org ID of the authorization
    pub org_id: Option<String>,
    /// Bucket ID of the authorization
    pub bucket_id: Option<String>,
}

/// Authorization Resource Type
#[derive(Debug, Clone, Copy, PartialEq, Eq, Structural)]
pub enum AuthResourceType {
    /// Bucket
    Bucket,
    /// Organization
    Organization,
    /// Dashboards
    Dashboards,
    /// Orgs
    Orgs,
    /// Tasks
    Tasks,
    /// Telegrafs
    Telegrafs,
    /// Users
    Users,
    /// Variables
    Variables,
    /// Secrets
    Secrets,
    /// Labels
    Labels,
    /// Views
    Views,
    /// Documents
    Documents,
    /// NotificationsRules
    NotificationsRules,
    /// NotificationEndpoints
    NotificationEndpoints,
    /// Checks
    Checks,
    /// DBRP
    DBRP,
    /// Annotations
    Annotations,
    /// Sources
    Sources,
    /// Scrapers
    Scrapers,
    /// Notebooks
    Notebooks,
    /// Remotes
    Remotes,
    /// Replications
    Replications,
    /// Instance
    Instance,
    /// Flows
    Flows,
    /// Functions
    Functions,
    /// Subscriptions
    Subscriptions,
}

impl AuthResourceType {
    /// The name by which the server knows the kind of resource.
    pub open spec fn name(&self) -> Seq<char> {
        match self {
            AuthResourceType::Bucket => "buckets"@,
            AuthResourceType::Organization => "orgs"@,
            AuthResourceType::Dashboards => "dashboards"@,
            AuthResourceType::Orgs => "orgs"@,
            AuthResourceType::Tasks => "tasks"@,
            AuthResourceType::Telegrafs => "telegrafs"@,
            AuthResourceType::Users => "users"@,
            AuthResourceType::Variables => "variables"@,
            AuthResourceType::Secrets => "secrets"@,
            AuthResourceType::Labels => "labels"@,
            AuthResourceType::Views => "views"@,
            AuthResourceType::Documents => "documents"@,
            AuthResourceType::NotificationsRules => "notificationRules"@,
            AuthResourceType::NotificationEndpoints => "notificationEndpoints"@,
            AuthResourceType::Checks => "checks"@,
            AuthResourceType::DBRP => "dbrps"@,
            AuthResourceType::Annotations => "annotations"@,
            AuthResourceType::Sources => "sources"@,
            AuthResourceType::Scrapers => "scrapers"@,
            AuthResourceType::Notebooks => "notebooks"@,
            AuthResourceType::Remotes => "remotes"@,
            AuthResourceType::Replications => "replications"@,
            AuthResourceType::Instance => "instance"@,
            AuthResourceType::Flows => "flows"@,
            AuthResourceType::Functions => "functions"@,
            AuthResourceType::Subscriptions => "subscriptions"@,
        }
    }

    /// The name by which the server knows the kind of resource.
    pub fn as_str(&self) -> (name: &'static str)
        ensures
            name@ == self.name(),
    {
        match self {
            AuthResourceType::Bucket => "buckets",
            AuthResourceType::Organization => "orgs",
            AuthResourceType::Dashboards => "dashboards",
            AuthResourceType::Orgs => "orgs",
            AuthResourceType::Tasks => "tasks",
            AuthResourceType::Telegrafs => "telegrafs",
            AuthResourceType::Users => "users",
            AuthResourceType::Variables => "variables",
            AuthResourceType::Secrets => "secrets",
            AuthResourceType::Labels => "labels",
            AuthResourceType::Views => "views",
            AuthResourceType::Documents => "documents",
            AuthResourceType::NotificationsRules => "notificationRules",
            AuthResourceType::NotificationEndpoints => "notificationEndpoints",
            AuthResourceType::Checks => "checks",
            AuthResourceType::DBRP => "dbrps",
            AuthResourceType::Annotations => "annotations",
            AuthResourceType::Sources => "sources",
            AuthResourceType::Scrapers => "scrapers",
            AuthResourceType::Notebooks => "notebooks",
            AuthResourceType::Remotes => "remotes",
            AuthResourceType::Replications => "replications",
            AuthResourceType::Instance => "instance",
            AuthResourceType::Flows => "flows",
            AuthResourceType::Functions => "functions",
            AuthResourceType::Subscriptions => "subscriptions",
        }
    }

    /// The name by which the server knows the kind of resource, as the kind is
    /// displayed.
    pub fn to_string(&self) -> (name: String)
        ensures
            name@ == self.name(),
    {
        self.as_str().to_owned()
    }
}

/// Authorization Response
#[derive(Debug, Clone, PartialEq, Eq)]
pub struct AuthorizationResponse {
    /// Description
    pub description: String,
    /// Status
    pub status: String,
    /// Created At
    pub created_at: String,
    /// Authorization ID for internal tracking
    pub id: String,
    /// Links
    pub links: AuthorizationLinks,
    /// Org
    pub org: String,
    /// Org Id
    pub org_id: String,
    /// Permissions
    pub permissions: Vec<AuthPermissions>,
    /// Token
    pub token: String,
    /// Updated At
    pub updated_at: String,
    /// User
    pub user: String,
    /// User Id
    pub user_id: String,
}

/// Authorization Links
#[derive(Debug, Clone, PartialEq, Eq)]
pub struct AuthorizationLinks {
    /// Self
    pub authorization_self: String,
    /// User
    pub user: String,
}

} // verus!
