//! Provisioning: the in-memory store the application starts from, seeded
//! with a pair of users, one project and one open bug report.

use vstd::prelude::*;

use crate::ids::fresh_id;
use crate::models::{BugReport, ProjectRecord, User};
use crate::store::Store;

verus! {

/// Builds the starting store: two users, one project owned by the first,
/// and one open high-severity bug on that project reported by the first
/// user, all under freshly drawn identifiers.
pub fn init_db() -> (s: Store)
    ensures
        s.wf(),
        s.users@.len() == 2,
        s.users@[0].username@ == "admin"@,
        s.users@[1].username@ == "normal_user"@,
        s.users@[0].hashed_password@ == "fake"@,
        s.users@[1].hashed_password@ == "fake"@,
        s.projects@.len() == 1,
        s.projects@[0].project_name@ == "Project A"@,
        s.projects@[0].project_description@ == "Description of Project A"@,
        s.projects@[0].user_id == s.users@[0].id,
        s.bugs@.len() == 1,
        s.bugs@[0].project_id == s.projects@[0].id,
        s.bugs@[0].reported_by == s.users@[0].id,
        s.bugs@[0].title@ == "BUG in Login Feature"@,
        s.bugs@[0].severity@ == "high"@,
        s.bugs@[0].is_fixed == false,
        s.bugs@[0].fixed_by is None,
{
    let admin_id = fresh_id();
    let mut user2_id = fresh_id();
    if user2_id == admin_id {
        // Two random draws collided; take the neighbouring value instead.
        user2_id = if admin_id == u128::MAX {
            0
        } else {
            admin_id + 1
        };
    }
    let project_id = fresh_id();
    let bug_id = fresh_id();
    let mut users: Vec<User> = Vec::new();
    users.push(
        User {
            id: admin_id,
            username: String::from_str("admin"),
            hashed_password: String::from_str("fake"),
        },
    );
    users.push(
        User {
            id: user2_id,
            username: String::from_str("normal_user"),
            hashed_password: String::from_str("fake"),
        },
    );
    let mut projects: Vec<ProjectRecord> = Vec::new();
    projects.push(
        ProjectRecord {
            id: project_id,
            project_name: String::from_str("Project A"),
            project_description: String::from_str("Description of Project A"),
            created_at: String::from_str(""),
            user_id: admin_id,
        },
    );
    let mut bugs: Vec<BugReport> = Vec::new();
    bugs.push(
        BugReport {
            id: bug_id,
            project_id,
            title: String::from_str("BUG in Login Feature"),
            description: String::from_str(
                "There is a bug in the login feature that prevents users from logging in.",
            ),
            reported_by: admin_id,
            fixed_by: None,
            severity: String::from_str("high"),
            is_fixed: false,
            created_at: String::from_str(""),
        },
    );
    let s = Store { users, projects, bugs };
    proof {
        assert(s.users@[0].username@ != s.users@[1].username@) by {
            reveal_strlit("admin");
            reveal_strlit("normal_user");
            assert("admin"@.len() == 5);
            assert("normal_user"@.len() == 11);
        }
        assert(s.bugs@[0].project_id == s.projects@[0].id);
    }
    s
}

} // verus!
