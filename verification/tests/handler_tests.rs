//! The resource handlers over a small in-memory store: login outcomes,
//! listing filters, creation, assignment, partial update and deletion.

use bugtrack::auth::{extract_user_id_from_token, hash_with_salt};
use bugtrack::db::init_db;
use bugtrack::error::AppError;
use bugtrack::handlers::{
    add_project, assign_bug, create_bug, delete_bug, get_bug_by_id, get_bugs, get_projects,
    list_users, login_function, open_bugs, update_bug_details,
};
use bugtrack::models::{
    BugAssignment, BugFilter, BugReport, CreateBug, CreateProject, LoginRequest, ProjectRecord,
    UpdateBugReport, User,
};
use bugtrack::store::Store;

const NOW: u64 = 1_700_000_000;
const SALT: &str = "bugtrack2025";

fn uuid_text(id: u128) -> String {
    uuid::Uuid::from_u128(id).to_string()
}

fn bug(id: u128, project_id: u128, title: &str, severity: &str, is_fixed: bool) -> BugReport {
    BugReport {
        id,
        project_id,
        title: title.to_string(),
        description: format!("{} description", title),
        reported_by: 1,
        fixed_by: None,
        severity: severity.to_string(),
        is_fixed,
        created_at: "2025-01-01T00:00:00Z".to_string(),
    }
}

fn seeded_store() -> Store {
    let users = vec![
        User {
            id: 1,
            username: "alice".to_string(),
            hashed_password: hash_with_salt("correct-horse", SALT).expect("hashing failed"),
        },
        User {
            id: 2,
            username: "bob".to_string(),
            hashed_password: "fake".to_string(),
        },
    ];
    let projects = vec![ProjectRecord {
        id: 10,
        project_name: "Apollo".to_string(),
        project_description: "lunar tracker".to_string(),
        created_at: "2025-01-01T00:00:00Z".to_string(),
        user_id: 1,
    }];
    let bugs = vec![
        bug(100, 10, "crash on save", "high", true),
        bug(101, 10, "slow startup", "high", false),
        bug(102, 10, "typo in footer", "low", true),
    ];
    Store {
        users,
        projects,
        bugs,
    }
}

fn no_filter() -> BugFilter {
    BugFilter {
        is_fixed: None,
        severity: None,
        project_name: None,
    }
}

fn empty_update() -> UpdateBugReport {
    UpdateBugReport {
        is_fixed: None,
        severity: None,
        description: None,
        fixed_by: None,
    }
}

#[test]
fn login_success_returns_token_for_subject() {
    let store = seeded_store();
    let body = LoginRequest {
        username: "alice".to_string(),
        password: "correct-horse".to_string(),
    };
    let (code, resp) = login_function(&store, &body, NOW);
    assert_eq!(code, 200);
    assert_eq!(resp.status, "success");
    assert_eq!(resp.message, "Login successful");
    let token = resp.token.expect("successful login carries a token");
    assert_eq!(extract_user_id_from_token(&token, NOW), Some(1));
}

#[test]
fn login_rejections_are_uniform() {
    let store = seeded_store();
    let unknown_user = LoginRequest {
        username: "mallory".to_string(),
        password: "correct-horse".to_string(),
    };
    let wrong_password = LoginRequest {
        username: "alice".to_string(),
        password: "wrong-horse".to_string(),
    };
    let (code_a, resp_a) = login_function(&store, &unknown_user, NOW);
    let (code_b, resp_b) = login_function(&store, &wrong_password, NOW);
    assert_eq!(code_a, 401);
    assert_eq!(code_b, 401);
    assert_eq!(resp_a.status, resp_b.status);
    assert_eq!(resp_a.message, resp_b.message);
    assert_eq!(resp_a.message, "Invalid credentials");
    assert!(resp_a.token.is_none());
    assert!(resp_b.token.is_none());
}

#[test]
fn login_with_unreadable_hash_is_a_server_error() {
    let store = seeded_store();
    let body = LoginRequest {
        username: "bob".to_string(),
        password: "anything".to_string(),
    };
    let (code, resp) = login_function(&store, &body, NOW);
    assert_eq!(code, 500);
    assert_eq!(resp.message, "Internal server error");
    assert!(resp.token.is_none());
}

#[test]
fn get_projects_lists_all_rows() {
    let store = seeded_store();
    let projects = get_projects(&store);
    assert_eq!(projects.len(), 1);
    assert_eq!(projects[0].project_name, "Apollo");
    assert_eq!(projects[0].user_id, 1);
}

#[test]
fn add_project_inserts_row_for_known_user() {
    let mut store = seeded_store();
    let body = CreateProject {
        username: "alice".to_string(),
        project_title: "Gemini".to_string(),
        project_description: "orbital tracker".to_string(),
    };
    let created = add_project(&mut store, &body, "2025-02-02T00:00:00Z").expect("insert failed");
    assert_eq!(created.project_name, "Gemini");
    assert_eq!(created.user_id, 1);
    assert_eq!(store.projects.len(), 2);
    assert_eq!(store.projects[1].id, created.id);
}

#[test]
fn add_project_unknown_user_is_not_found() {
    let mut store = seeded_store();
    let body = CreateProject {
        username: "mallory".to_string(),
        project_title: "Gemini".to_string(),
        project_description: "orbital tracker".to_string(),
    };
    let r = add_project(&mut store, &body, "2025-02-02T00:00:00Z");
    assert!(matches!(r, Err(AppError::NotFound(_))));
    assert_eq!(store.projects.len(), 1);
}

#[test]
fn get_bugs_without_filter_returns_all() {
    let store = seeded_store();
    let bugs = get_bugs(&store, &no_filter()).expect("listing failed");
    assert_eq!(bugs.len(), 3);
    assert_eq!(bugs[0].id, 100);
    assert_eq!(bugs[1].id, 101);
    assert_eq!(bugs[2].id, 102);
}

#[test]
fn get_bugs_filters_fixed_and_severity_conjunctively() {
    let store = seeded_store();
    let filter = BugFilter {
        is_fixed: Some(true),
        severity: Some("high".to_string()),
        project_name: None,
    };
    let bugs = get_bugs(&store, &filter).expect("listing failed");
    assert_eq!(bugs.len(), 1);
    assert_eq!(bugs[0].id, 100);
    assert_eq!(bugs[0].title, "crash on save");
}

#[test]
fn get_bugs_by_project_name() {
    let store = seeded_store();
    let filter = BugFilter {
        is_fixed: Some(false),
        severity: None,
        project_name: Some("Apollo".to_string()),
    };
    let bugs = get_bugs(&store, &filter).expect("listing failed");
    assert_eq!(bugs.len(), 1);
    assert_eq!(bugs[0].id, 101);
}

#[test]
fn duplicate_project_names_resolve_to_first_row() {
    let mut store = seeded_store();
    store.projects.push(ProjectRecord {
        id: 11,
        project_name: "Apollo".to_string(),
        project_description: "a second project under the same name".to_string(),
        created_at: "2025-01-02T00:00:00Z".to_string(),
        user_id: 1,
    });
    store.bugs.push(bug(103, 11, "orphan glitch", "low", false));
    let filter = BugFilter {
        is_fixed: None,
        severity: None,
        project_name: Some("Apollo".to_string()),
    };
    // The name resolves to the first matching project, so the bug on the
    // second project is not listed.
    let bugs = get_bugs(&store, &filter).expect("listing failed");
    assert_eq!(bugs.len(), 3);
    assert!(bugs.iter().all(|b| b.project_id == 10));
}

#[test]
fn get_bugs_unknown_project_is_not_found() {
    let store = seeded_store();
    let filter = BugFilter {
        is_fixed: None,
        severity: None,
        project_name: Some("Zeus".to_string()),
    };
    let r = get_bugs(&store, &filter);
    assert!(matches!(r, Err(AppError::NotFound(_))));
}

#[test]
fn get_bug_by_id_finds_row() {
    let store = seeded_store();
    let found = get_bug_by_id(&store, &uuid_text(101)).expect("lookup failed");
    assert_eq!(found.id, 101);
    assert_eq!(found.title, "slow startup");
}

#[test]
fn get_bug_by_id_malformed_is_bad_request() {
    let store = seeded_store();
    let r = get_bug_by_id(&store, "not-an-identifier");
    assert!(matches!(r, Err(AppError::BadRequest(_))));
}

#[test]
fn get_bug_by_id_unknown_is_not_found() {
    let store = seeded_store();
    let r = get_bug_by_id(&store, &uuid_text(999));
    assert!(matches!(r, Err(AppError::NotFound(_))));
}

#[test]
fn create_bug_inserts_unfixed_row() {
    let mut store = seeded_store();
    let body = CreateBug {
        reported_by: "alice".to_string(),
        title: "flicker".to_string(),
        description: "screen flickers".to_string(),
        severity: "medium".to_string(),
        project_name: "Apollo".to_string(),
    };
    let created =
        create_bug(&mut store, Some(1), &body, "2025-03-03T00:00:00Z").expect("insert failed");
    assert_eq!(created.project_id, 10);
    assert_eq!(created.reported_by, 1);
    assert_eq!(created.severity, "medium");
    assert!(!created.is_fixed);
    assert!(created.fixed_by.is_none());
    assert_eq!(created.created_at, "2025-03-03T00:00:00Z");
    assert_eq!(store.bugs.len(), 4);
    assert_eq!(store.bugs[3].id, created.id);
}

#[test]
fn create_bug_unknown_project_inserts_nothing() {
    let mut store = seeded_store();
    let body = CreateBug {
        reported_by: "alice".to_string(),
        title: "flicker".to_string(),
        description: "screen flickers".to_string(),
        severity: "medium".to_string(),
        project_name: "Zeus".to_string(),
    };
    let r = create_bug(&mut store, Some(1), &body, "2025-03-03T00:00:00Z");
    assert!(matches!(r, Err(AppError::NotFound(_))));
    assert_eq!(store.bugs.len(), 3);
}

#[test]
fn create_bug_without_subject_is_unauthorized() {
    let mut store = seeded_store();
    let body = CreateBug {
        reported_by: "alice".to_string(),
        title: "flicker".to_string(),
        description: "screen flickers".to_string(),
        severity: "medium".to_string(),
        project_name: "Apollo".to_string(),
    };
    let r = create_bug(&mut store, None, &body, "2025-03-03T00:00:00Z");
    assert!(matches!(r, Err(AppError::Unauthorized(_))));
    assert_eq!(store.bugs.len(), 3);
}

#[test]
fn create_bug_unknown_subject_is_not_found() {
    let mut store = seeded_store();
    let body = CreateBug {
        reported_by: "alice".to_string(),
        title: "flicker".to_string(),
        description: "screen flickers".to_string(),
        severity: "medium".to_string(),
        project_name: "Apollo".to_string(),
    };
    let r = create_bug(&mut store, Some(777), &body, "2025-03-03T00:00:00Z");
    assert!(matches!(r, Err(AppError::NotFound(_))));
    assert_eq!(store.bugs.len(), 3);
}

#[test]
fn insert_with_taken_id_is_a_storage_error() {
    let mut store = seeded_store();
    let duplicate = bug(100, 10, "impostor", "low", false);
    let r = store.insert_bug(duplicate);
    assert!(matches!(r, Err(AppError::Database(_))));
    assert_eq!(store.bugs.len(), 3);
    let duplicate_project = ProjectRecord {
        id: 10,
        project_name: "Apollo again".to_string(),
        project_description: "copy".to_string(),
        created_at: String::new(),
        user_id: 1,
    };
    let r = store.insert_project(duplicate_project);
    assert!(matches!(r, Err(AppError::Database(_))));
    assert_eq!(store.projects.len(), 1);
}

#[test]
fn assign_bug_sets_fixer() {
    let mut store = seeded_store();
    let body = BugAssignment {
        bug_id: 101,
        user_id: 2,
    };
    assign_bug(&mut store, &body).expect("assignment failed");
    assert_eq!(store.bugs[1].fixed_by, Some(2));
    // Every other column and row is untouched.
    assert_eq!(store.bugs[1].title, "slow startup");
    assert_eq!(store.bugs[0].fixed_by, None);
    assert_eq!(store.bugs[2].fixed_by, None);
}

#[test]
fn assign_bug_missing_rows_are_not_found() {
    let mut store = seeded_store();
    let missing_bug = BugAssignment {
        bug_id: 999,
        user_id: 2,
    };
    assert!(matches!(
        assign_bug(&mut store, &missing_bug),
        Err(AppError::NotFound(_))
    ));
    let missing_user = BugAssignment {
        bug_id: 101,
        user_id: 999,
    };
    assert!(matches!(
        assign_bug(&mut store, &missing_user),
        Err(AppError::NotFound(_))
    ));
    assert_eq!(store.bugs[1].fixed_by, None);
}

#[test]
fn update_with_no_fields_is_bad_request() {
    let mut store = seeded_store();
    let r = update_bug_details(&mut store, &uuid_text(101), &empty_update());
    assert!(matches!(r, Err(AppError::BadRequest(_))));
}

#[test]
fn update_severity_only_changes_only_severity() {
    let mut store = seeded_store();
    let before = seeded_store().bugs[1].clone();
    let body = UpdateBugReport {
        severity: Some("critical".to_string()),
        ..empty_update()
    };
    let updated = update_bug_details(&mut store, &uuid_text(101), &body).expect("update failed");
    assert_eq!(updated.severity, "critical");
    assert_eq!(updated.id, before.id);
    assert_eq!(updated.project_id, before.project_id);
    assert_eq!(updated.title, before.title);
    assert_eq!(updated.description, before.description);
    assert_eq!(updated.reported_by, before.reported_by);
    assert_eq!(updated.fixed_by, before.fixed_by);
    assert_eq!(updated.is_fixed, before.is_fixed);
    assert_eq!(updated.created_at, before.created_at);
    assert_eq!(store.bugs[1].severity, "critical");
    assert_eq!(store.bugs[0].severity, "high");
    assert_eq!(store.bugs[2].severity, "low");
}

#[test]
fn update_resolves_fixer_username() {
    let mut store = seeded_store();
    let body = UpdateBugReport {
        is_fixed: Some(true),
        fixed_by: Some("bob".to_string()),
        ..empty_update()
    };
    let updated = update_bug_details(&mut store, &uuid_text(101), &body).expect("update failed");
    assert!(updated.is_fixed);
    assert_eq!(updated.fixed_by, Some(2));
}

#[test]
fn update_unknown_fixer_is_not_found() {
    let mut store = seeded_store();
    let body = UpdateBugReport {
        fixed_by: Some("mallory".to_string()),
        ..empty_update()
    };
    let r = update_bug_details(&mut store, &uuid_text(101), &body);
    assert!(matches!(r, Err(AppError::NotFound(_))));
    assert_eq!(store.bugs[1].fixed_by, None);
}

#[test]
fn update_rejects_malformed_and_unknown_ids() {
    let mut store = seeded_store();
    let body = UpdateBugReport {
        severity: Some("critical".to_string()),
        ..empty_update()
    };
    assert!(matches!(
        update_bug_details(&mut store, "###", &body),
        Err(AppError::BadRequest(_))
    ));
    assert!(matches!(
        update_bug_details(&mut store, &uuid_text(999), &body),
        Err(AppError::NotFound(_))
    ));
}

#[test]
fn delete_nonexistent_bug_is_not_found() {
    let mut store = seeded_store();
    let r = delete_bug(&mut store, &uuid_text(999));
    assert!(matches!(r, Err(AppError::NotFound(_))));
    assert_eq!(store.bugs.len(), 3);
}

#[test]
fn delete_malformed_id_is_bad_request() {
    let mut store = seeded_store();
    let r = delete_bug(&mut store, "###");
    assert!(matches!(r, Err(AppError::BadRequest(_))));
}

#[test]
fn deleted_bug_is_gone_on_lookup() {
    let mut store = seeded_store();
    delete_bug(&mut store, &uuid_text(101)).expect("deletion failed");
    assert_eq!(store.bugs.len(), 2);
    let r = get_bug_by_id(&store, &uuid_text(101));
    assert!(matches!(r, Err(AppError::NotFound(_))));
    // The other rows stay, in order.
    assert_eq!(store.bugs[0].id, 100);
    assert_eq!(store.bugs[1].id, 102);
}

#[test]
fn open_bugs_lists_unfixed_rows() {
    let store = seeded_store();
    let open = open_bugs(&store);
    assert_eq!(open.len(), 1);
    assert_eq!(open[0].id, 101);
}

#[test]
fn list_users_strips_password_hashes() {
    let store = seeded_store();
    let users = list_users(&store);
    assert_eq!(users.len(), 2);
    assert_eq!(users[0].id, 1);
    assert_eq!(users[0].username, "alice");
    assert_eq!(users[1].username, "bob");
}

#[test]
fn error_responses_map_to_statuses() {
    assert_eq!(
        AppError::Database("boom".to_string()).error_response(),
        (500, "Database error occurred".to_string())
    );
    assert_eq!(
        AppError::NotFound("Bug not found".to_string()).error_response(),
        (404, "Bug not found".to_string())
    );
    assert_eq!(
        AppError::BadRequest("No fields provided for update".to_string()).error_response(),
        (400, "No fields provided for update".to_string())
    );
    assert_eq!(
        AppError::Unauthorized("Authentication required".to_string()).error_response(),
        (401, "Authentication required".to_string())
    );
}

#[test]
fn init_db_seeds_demo_rows() {
    let store = init_db();
    assert_eq!(store.users.len(), 2);
    assert_eq!(store.users[0].username, "admin");
    assert_eq!(store.users[1].username, "normal_user");
    assert_eq!(store.projects.len(), 1);
    assert_eq!(store.projects[0].project_name, "Project A");
    assert_eq!(store.projects[0].user_id, store.users[0].id);
    assert_eq!(store.bugs.len(), 1);
    assert_eq!(store.bugs[0].project_id, store.projects[0].id);
    assert_eq!(store.bugs[0].severity, "high");
    assert!(!store.bugs[0].is_fixed);
}
