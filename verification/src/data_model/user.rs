//! Users of the server.
use vstd::prelude::*;

verus! {

/// User Status Enum
#[derive(Debug, Clone, Copy, PartialEq, Eq, Structural)]
pub enum Status {
    /// Active
    Active,
    /// Inactive
    Inactive,
}

impl Status {
    /// The word by which the server knows the status.
    pub open spec fn name(&self) -> Seq<char> {
        match self {
            Status::Active => "active"@,
            Status::Inactive => "inactive"@,
        }
    }

    /// The word by which the server knows the status.
    pub fn as_str(&self) -> (name: &'static str)
        ensures
            name@ == self.name(),
    {
        match self {
            Status::Active => "active",
            Status::Inactive => "inactive",
        }
    }
}

/// User Struct to Create User
#[derive(Debug, Clone, PartialEq, Eq)]
pub struct CreateUser {
    /// Name of the User
    pub name: String,
    /// Status of User
    pub status: String,
}

/// Create User Response
#[derive(Debug, Clone, PartialEq, Eq)]
pub struct UserResponse {
    /// User ID
    pub id: String,
    /// User Name
    pub name: String,
    /// User Status
    pub status: String,
    /// Links
    pub links: UserLinks,
}

/// User Links
#[derive(Debug, Clone, PartialEq, Eq)]
pub struct UserLinks {
    /// Self
    pub user_self: String,
}

/// List User Response
#[derive(Debug, Clone, PartialEq, Eq)]
pub struct ListUserResponse {
    /// Users
    pub users: Vec<UserResponse>,
    /// Links
    pub links: UserLinks,
}

} // verus!
