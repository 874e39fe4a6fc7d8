//! Record types for users, projects and bug reports, and the request /
//! response bodies of the HTTP surface.
//!
//! Identifiers are 128-bit values (the numeric form of a UUID); timestamps
//! travel as strings, as the store keeps them.

use vstd::prelude::*;

verus! {

/// A stored user: opaque identifier, unique username, salted password hash.
#[derive(Debug)]
pub struct User {
    pub id: u128,
    pub username: String,
    pub hashed_password: String,
}

/// Body of a login request.
#[derive(Debug)]
pub struct LoginRequest {
    pub username: String,
    pub password: String,
}

/// Body of a login response; `token` is present exactly on success.
#[derive(Debug)]
pub struct LoginResponse {
    pub status: String,
    pub message: String,
    pub token: Option<String>,
}

/// A stored bug report.
#[derive(Debug)]
pub struct BugReport {
    pub id: u128,
    pub project_id: u128,
    pub title: String,
    pub description: String,
    pub reported_by: u128,
    pub fixed_by: Option<u128>,
    pub severity: String,
    pub is_fixed: bool,
    pub created_at: String,
}

/// Body of a bug-creation request.
#[derive(Debug)]
pub struct CreateBug {
    pub reported_by: String,
    pub title: String,
    pub description: String,
    pub severity: String,
    pub project_name: String,
}

/// A stored project.
#[derive(Debug)]
pub struct ProjectRecord {
    pub id: u128,
    pub project_name: String,
    pub project_description: String,
    pub created_at: String,
    pub user_id: u128,
}

/// Body of an assignment request: which user fixes which bug.
#[derive(Debug)]
pub struct BugAssignment {
    pub bug_id: u128,
    pub user_id: u128,
}

/// A user stripped to what listings need.
#[derive(Debug)]
pub struct SimpleUser {
    pub id: u128,
    pub username: String,
}

/// Body of a project-creation request.
#[derive(Debug)]
pub struct CreateProject {
    pub username: String,
    pub project_title: String,
    pub project_description: String,
}

/// Query parameters of a bug listing; every field is optional.
#[derive(Debug)]
pub struct BugFilter {
    pub is_fixed: Option<bool>,
    pub severity: Option<String>,
    pub project_name: Option<String>,
}

/// Body of a partial update; every field is optional, and `fixed_by`
/// names the fixing user by username.
#[derive(Debug)]
pub struct UpdateBugReport {
    pub is_fixed: Option<bool>,
    pub severity: Option<String>,
    pub description: Option<String>,
    pub fixed_by: Option<String>,
}

impl Clone for User {
    fn clone(&self) -> (r: Self)
        ensures
            r == *self,
    {
        User {
            id: self.id,
            username: self.username.clone(),
            hashed_password: self.hashed_password.clone(),
        }
    }
}

impl Clone for BugReport {
    fn clone(&self) -> (r: Self)
        ensures
            r == *self,
    {
        BugReport {
            id: self.id,
            project_id: self.project_id,
            title: self.title.clone(),
            description: self.description.clone(),
            reported_by: self.reported_by,
            fixed_by: self.fixed_by,
            severity: self.severity.clone(),
            is_fixed: self.is_fixed,
            created_at: self.created_at.clone(),
        }
    }
}

impl Clone for ProjectRecord {
    fn clone(&self) -> (r: Self)
        ensures
            r == *self,
    {
        ProjectRecord {
            id: self.id,
            project_name: self.project_name.clone(),
            project_description: self.project_description.clone(),
            created_at: self.created_at.clone(),
            user_id: self.user_id,
        }
    }
}

impl Clone for SimpleUser {
    fn clone(&self) -> (r: Self)
        ensures
            r == *self,
    {
        SimpleUser { id: self.id, username: self.username.clone() }
    }
}

} // verus!
