//! The resource handlers: login, project listing and creation, and the
//! bug-report CRUD operations. Each takes the store and plain request
//! values, and its contract says exactly which inputs succeed and which
//! error every rejected input produces.
//!
//! Anything the clock or the operating system decides (the current time,
//! a fresh identifier) arrives as an explicit argument or is checked
//! after the fact, so every contract holds for all such values.

use vstd::prelude::*;
use vstd::seq_lib::*;
use vstd::string::*;

use crate::TOKEN_LIFETIME_SECS;
use crate::auth::{
    bcrypt_verify_of, create_token, extract_user_id_from_token, password_salt, salt_str,
    token_of, token_secret, verify_with_salt,
};
use crate::error::AppError;
use crate::models::{
    BugFilter, BugReport, LoginRequest, LoginResponse, ProjectRecord, SimpleUser, User,
};
use crate::ids::{fresh_id, parse_uuid, parsed_uuid_of};
use crate::models::{BugAssignment, CreateBug, CreateProject, UpdateBugReport};
use crate::query::{
    all_hold, apply_all, apply_changes, build_bug_changes, build_bug_predicates, changes_of,
    eval_all, lemma_changes_of_fields, lemma_filter_retains_all, lemma_filter_take_step,
    predicates_of, update_is_empty,
};
use crate::store::{
    bug_id_in, bug_with_id, lemma_find_first_none, lemma_find_first_sound, project_id_in,
    project_with_name, user_with_id, user_with_name, Store,
};

verus! {

/// The uniform invalid-credentials outcome: status 401 and a fixed body,
/// with no token. An unknown username and a wrong password both map here,
/// so a caller cannot tell the two apart.
pub open spec fn is_invalid_credentials(r: (u16, LoginResponse)) -> bool {
    &&& r.0 == 401
    &&& r.1.status@ == "failure"@
    &&& r.1.message@ == "Invalid credentials"@
    &&& r.1.token is None
}

fn invalid_credentials_response() -> (r: (u16, LoginResponse))
    ensures
        is_invalid_credentials(r),
{
    (
        401,
        LoginResponse {
            status: String::from_str("failure"),
            message: String::from_str("Invalid credentials"),
            token: None,
        },
    )
}

/// Checks the credentials against the stored user row and, on a match,
/// issues a token for the user's identifier, expiring one lifetime after
/// `now`. A missing user and a failed password check yield the identical
/// rejection; a hash the checker cannot read yields a server error.
pub fn login_function(store: &Store, body: &LoginRequest, now: u64) -> (r: (u16, LoginResponse))
    requires
        now + TOKEN_LIFETIME_SECS <= u64::MAX,
    ensures
        match user_with_name(store.users@, body.username@) {
            None => is_invalid_credentials(r),
            Some(u) => match bcrypt_verify_of(
                password_salt() + body.password@,
                u.hashed_password@,
            ) {
                Some(true) => {
                    &&& r.0 == 200
                    &&& r.1.status@ == "success"@
                    &&& r.1.message@ == "Login successful"@
                    &&& r.1.token matches Some(t) && t@ == token_of(
                        token_secret(),
                        crate::ids::uuid_str_of(u.id),
                        (now + TOKEN_LIFETIME_SECS) as u64,
                    )
                },
                Some(false) => is_invalid_credentials(r),
                None => {
                    &&& r.0 == 500
                    &&& r.1.status@ == "failure"@
                    &&& r.1.message@ == "Internal server error"@
                    &&& r.1.token is None
                },
            },
        },
{
    let user = match store.user_by_username(&body.username) {
        Some(u) => u,
        None => {
            return invalid_credentials_response();
        },
    };
    match verify_with_salt(body.password.as_str(), salt_str(), user.hashed_password.as_str()) {
        Ok(true) => {
            let token = create_token(user.id, now);
            (
                200,
                LoginResponse {
                    status: String::from_str("success"),
                    message: String::from_str("Login successful"),
                    token: Some(token),
                },
            )
        },
        Ok(false) => invalid_credentials_response(),
        Err(_) => (
            500,
            LoginResponse {
                status: String::from_str("failure"),
                message: String::from_str("Internal server error"),
                token: None,
            },
        ),
    }
}

/// Rejected logins are indistinguishable: any two outcomes the
/// invalid-credentials predicate describes agree in the status code and
/// in every field of the body.
pub proof fn lemma_login_rejection_uniform(a: (u16, LoginResponse), b: (u16, LoginResponse))
    requires
        is_invalid_credentials(a),
        is_invalid_credentials(b),
    ensures
        a.0 == b.0,
        a.1.status@ == b.1.status@,
        a.1.message@ == b.1.message@,
        a.1.token == b.1.token,
{
}

/// A token issued by a successful login resolves back to the user that
/// logged in: read before its expiry, its subject is that user's
/// identifier. A rejected login hands out no token at all.
pub fn login_token_round_trip(store: &Store, body: &LoginRequest, now: u64, read_at: u64) -> (r:
    Option<u128>)
    requires
        now + TOKEN_LIFETIME_SECS <= u64::MAX,
        read_at < now + TOKEN_LIFETIME_SECS,
    ensures
        match user_with_name(store.users@, body.username@) {
            Some(u) => {
                &&& bcrypt_verify_of(password_salt() + body.password@, u.hashed_password@)
                    == Some(true) ==> r == Some(u.id)
                &&& bcrypt_verify_of(password_salt() + body.password@, u.hashed_password@)
                    != Some(true) ==> r is None
            },
            None => r is None,
        },
{
    let (_code, resp) = login_function(store, body, now);
    match resp.token {
        Some(t) => extract_user_id_from_token(t.as_str(), read_at),
        None => None,
    }
}

/// Returns every project, in store order.
pub fn get_projects(store: &Store) -> (r: Vec<ProjectRecord>)
    ensures
        r@ == store.projects@,
{
    let mut out: Vec<ProjectRecord> = Vec::new();
    let mut i: usize = 0;
    while i < store.projects.len()
        invariant
            i <= store.projects@.len(),
            out@ == store.projects@.take(i as int),
        decreases store.projects@.len() - i,
    {
        out.push(store.projects[i].clone());
        proof {
            assert(out@ =~= store.projects@.take(i + 1));
        }
        i += 1;
    }
    proof {
        assert(store.projects@.take(store.projects@.len() as int) =~= store.projects@);
    }
    out
}

/// The project conjunct of a filter, resolved against the store: the
/// identifier of the first project with the filtered name, if any.
pub open spec fn filter_project_id(projects: Seq<ProjectRecord>, f: BugFilter) -> Option<u128> {
    match f.project_name {
        Some(n) => match project_with_name(projects, n@) {
            Some(p) => Some(p.id),
            None => None,
        },
        None => None,
    }
}

/// Whether a bug row passes a filter, with the project name resolved
/// against the store.
pub open spec fn passes_filter(store: Store, f: BugFilter, b: BugReport) -> bool {
    all_hold(predicates_of(f, filter_project_id(store.projects@, f)), b)
}

/// Returns exactly the bugs that pass every given conjunct, in store
/// order. A filtered project name that matches no project is rejected.
pub fn get_bugs(store: &Store, filter: &BugFilter) -> (r: Result<Vec<BugReport>, AppError>)
    ensures
        match r {
            Ok(v) => {
                &&& (filter.project_name matches Some(n) ==> project_with_name(
                    store.projects@,
                    n@,
                ) is Some)
                &&& v@ == store.bugs@.filter(|b: BugReport| passes_filter(*store, *filter, b))
            },
            Err(e) => {
                &&& filter.project_name matches Some(n) && project_with_name(
                    store.projects@,
                    n@,
                ) is None
                &&& e matches AppError::NotFound(m) && m@ == "Project not found"@
            },
        },
{
    let project_id: Option<u128> = match &filter.project_name {
        Some(name) => match store.project_by_name(name) {
            Some(p) => Some(p.id),
            None => {
                return Err(AppError::NotFound(String::from_str("Project not found")));
            },
        },
        None => None,
    };
    let preds = build_bug_predicates(filter, project_id);
    let ghost pred = |b: BugReport| passes_filter(*store, *filter, b);
    let mut out: Vec<BugReport> = Vec::new();
    let mut i: usize = 0;
    proof {
        assert(out@ =~= store.bugs@.take(0).filter(pred)) by {
            reveal_with_fuel(Seq::filter, 2);
            assert(store.bugs@.take(0) =~= Seq::<BugReport>::empty());
        }
    }
    while i < store.bugs.len()
        invariant
            i <= store.bugs@.len(),
            out@ == store.bugs@.take(i as int).filter(pred),
            pred == (|b: BugReport| passes_filter(*store, *filter, b)),
            preds@ == predicates_of(*filter, filter_project_id(store.projects@, *filter)),
        decreases store.bugs@.len() - i,
    {
        if eval_all(&preds, &store.bugs[i]) {
            out.push(store.bugs[i].clone());
        }
        proof {
            lemma_filter_take_step(store.bugs@, pred, i as int);
        }
        i += 1;
    }
    proof {
        assert(store.bugs@.take(store.bugs@.len() as int) =~= store.bugs@);
    }
    Ok(out)
}

/// Returns the bug the path identifier names: a text that is no identifier
/// is malformed input, an identifier no row carries is absent.
pub fn get_bug_by_id(store: &Store, bug_id: &str) -> (r: Result<BugReport, AppError>)
    ensures
        match r {
            Ok(b) => parsed_uuid_of(bug_id@) matches Some(id) && bug_with_id(store.bugs@, id)
                == Some(b),
            Err(e) => match e {
                AppError::BadRequest(m) => parsed_uuid_of(bug_id@) is None && m@
                    == "Invalid Bug ID format"@,
                AppError::NotFound(m) => parsed_uuid_of(bug_id@) matches Some(id) && bug_with_id(
                    store.bugs@,
                    id,
                ) is None && m@ == "Bug not found"@,
                _ => false,
            },
        },
{
    let id = match parse_uuid(bug_id) {
        Some(id) => id,
        None => {
            return Err(AppError::BadRequest(String::from_str("Invalid Bug ID format")));
        },
    };
    match store.bug_index_by_id(id) {
        Some(i) => Ok(store.bugs[i].clone()),
        None => Err(AppError::NotFound(String::from_str("Bug not found"))),
    }
}

/// Resolves the requesting username to a user and inserts a new project
/// row under a freshly drawn identifier; the creation timestamp arrives
/// from the caller's clock. An unknown username is rejected and leaves
/// the store unchanged; a drawn identifier that is already taken surfaces
/// as a storage failure.
pub fn add_project(store: &mut Store, body: &CreateProject, created_at: &str) -> (r: Result<
    ProjectRecord,
    AppError,
>)
    requires
        old(store).wf(),
    ensures
        final(store).wf(),
        final(store).users == old(store).users,
        final(store).bugs == old(store).bugs,
        match r {
            Ok(p) => {
                &&& user_with_name(old(store).users@, body.username@) matches Some(u) && p.user_id
                    == u.id
                &&& p.project_name@ == body.project_title@
                &&& p.project_description@ == body.project_description@
                &&& p.created_at@ == created_at@
                &&& !project_id_in(old(store).projects@, p.id)
                &&& final(store).projects@ == old(store).projects@.push(p)
            },
            Err(e) => {
                &&& final(store).projects == old(store).projects
                &&& match e {
                    AppError::NotFound(m) => user_with_name(
                        old(store).users@,
                        body.username@,
                    ) is None && m@ == "User not found"@,
                    AppError::Database(_) => user_with_name(
                        old(store).users@,
                        body.username@,
                    ) is Some,
                    _ => false,
                }
            },
        },
{
    let user_id = match store.user_by_username(&body.username) {
        Some(u) => u.id,
        None => {
            return Err(AppError::NotFound(String::from_str("User not found")));
        },
    };
    let project = ProjectRecord {
        id: fresh_id(),
        project_name: body.project_title.clone(),
        project_description: body.project_description.clone(),
        created_at: String::from_str(created_at),
        user_id,
    };
    let response = project.clone();
    match store.insert_project(project) {
        Ok(()) => Ok(response),
        Err(e) => Err(e),
    }
}

/// Inserts a new bug report for the authenticated subject: the subject
/// must resolve to a stored user and the named project must exist; the
/// new row starts unfixed with no fixer, under a freshly drawn identifier
/// and the caller's clock. Every rejection leaves the store unchanged.
pub fn create_bug(
    store: &mut Store,
    authenticated_user: Option<u128>,
    body: &CreateBug,
    created_at: &str,
) -> (r: Result<BugReport, AppError>)
    requires
        old(store).wf(),
    ensures
        final(store).wf(),
        final(store).users == old(store).users,
        final(store).projects == old(store).projects,
        match r {
            Ok(b) => {
                &&& authenticated_user matches Some(uid) && b.reported_by == uid
                &&& user_with_id(old(store).users@, b.reported_by) is Some
                &&& project_with_name(old(store).projects@, body.project_name@) matches Some(p)
                    && b.project_id == p.id
                &&& b.title@ == body.title@
                &&& b.description@ == body.description@
                &&& b.severity@ == body.severity@
                &&& b.fixed_by is None
                &&& b.is_fixed == false
                &&& b.created_at@ == created_at@
                &&& !bug_id_in(old(store).bugs@, b.id)
                &&& final(store).bugs@ == old(store).bugs@.push(b)
            },
            Err(e) => {
                &&& final(store).bugs == old(store).bugs
                &&& match e {
                    AppError::Unauthorized(m) => authenticated_user is None && m@
                        == "Authentication required"@,
                    AppError::NotFound(m) => authenticated_user matches Some(uid) && if user_with_id(
                        old(store).users@,
                        uid,
                    ) is None {
                        m@ == "User not found"@
                    } else {
                        project_with_name(old(store).projects@, body.project_name@) is None && m@
                            == "Project not found"@
                    },
                    AppError::Database(_) => {
                        &&& authenticated_user matches Some(uid) && user_with_id(
                            old(store).users@,
                            uid,
                        ) is Some
                        &&& project_with_name(old(store).projects@, body.project_name@) is Some
                    },
                    _ => false,
                }
            },
        },
{
    let uid = match authenticated_user {
        Some(uid) => uid,
        None => {
            return Err(AppError::Unauthorized(String::from_str("Authentication required")));
        },
    };
    let reporter_id = match store.user_by_id(uid) {
        Some(u) => u.id,
        None => {
            return Err(AppError::NotFound(String::from_str("User not found")));
        },
    };
    proof {
        lemma_find_first_sound(store.users@, |u: User| u.id == uid);
    }
    let project_id = match store.project_by_name(&body.project_name) {
        Some(p) => p.id,
        None => {
            return Err(AppError::NotFound(String::from_str("Project not found")));
        },
    };
    proof {
        lemma_find_first_sound(
            store.projects@,
            |p: ProjectRecord| p.project_name@ == body.project_name@,
        );
    }
    let bug = BugReport {
        id: fresh_id(),
        project_id,
        title: body.title.clone(),
        description: body.description.clone(),
        reported_by: reporter_id,
        fixed_by: None,
        severity: body.severity.clone(),
        is_fixed: false,
        created_at: String::from_str(created_at),
    };
    let response = bug.clone();
    match store.insert_bug(bug) {
        Ok(()) => Ok(response),
        Err(e) => Err(e),
    }
}

/// Returns the bugs not yet fixed, in store order: what the assignment
/// form lists.
pub fn open_bugs(store: &Store) -> (r: Vec<BugReport>)
    ensures
        r@ == store.bugs@.filter(|b: BugReport| !b.is_fixed),
{
    let ghost pred = |b: BugReport| !b.is_fixed;
    let mut out: Vec<BugReport> = Vec::new();
    let mut i: usize = 0;
    proof {
        assert(out@ =~= store.bugs@.take(0).filter(pred)) by {
            reveal_with_fuel(Seq::filter, 2);
            assert(store.bugs@.take(0) =~= Seq::<BugReport>::empty());
        }
    }
    while i < store.bugs.len()
        invariant
            i <= store.bugs@.len(),
            out@ == store.bugs@.take(i as int).filter(pred),
            pred == (|b: BugReport| !b.is_fixed),
        decreases store.bugs@.len() - i,
    {
        if !store.bugs[i].is_fixed {
            out.push(store.bugs[i].clone());
        }
        proof {
            lemma_filter_take_step(store.bugs@, pred, i as int);
        }
        i += 1;
    }
    proof {
        assert(store.bugs@.take(store.bugs@.len() as int) =~= store.bugs@);
    }
    out
}

/// Returns every user, stripped to identifier and username, in store
/// order: what the assignment form offers to pick from.
pub fn list_users(store: &Store) -> (r: Vec<SimpleUser>)
    ensures
        r@ == store.users@.map_values(
            |u: User| SimpleUser { id: u.id, username: u.username },
        ),
{
    let ghost f = |u: User| SimpleUser { id: u.id, username: u.username };
    let mut out: Vec<SimpleUser> = Vec::new();
    let mut i: usize = 0;
    while i < store.users.len()
        invariant
            i <= store.users@.len(),
            out@ == store.users@.take(i as int).map_values(f),
            f == (|u: User| SimpleUser { id: u.id, username: u.username }),
        decreases store.users@.len() - i,
    {
        let u = &store.users[i];
        out.push(SimpleUser { id: u.id, username: u.username.clone() });
        proof {
            assert(out@ =~= store.users@.take(i + 1).map_values(f));
        }
        i += 1;
    }
    proof {
        assert(store.users@.take(store.users@.len() as int).map_values(f) =~= store.users@
            .map_values(f));
    }
    out
}

/// Replaces the bug row at a known index with a row that keeps its
/// identifier and project reference; the storage invariants carry over.
fn replace_bug_at(store: &mut Store, i: usize, row: BugReport)
    requires
        old(store).wf(),
        i < old(store).bugs@.len(),
        row.id == old(store).bugs@[i as int].id,
        row.project_id == old(store).bugs@[i as int].project_id,
        match row.fixed_by {
            Some(u) => crate::store::user_id_in(old(store).users@, u),
            None => true,
        },
    ensures
        final(store).wf(),
        final(store).users == old(store).users,
        final(store).projects == old(store).projects,
        final(store).bugs@ == old(store).bugs@.update(i as int, row),
{
    let _removed = store.bugs.remove(i);
    store.bugs.insert(i, row);
    proof {
        let ob = old(store).bugs@;
        assert(store.bugs@ =~= ob.update(i as int, row));
        let nb = store.bugs@;
        assert forall|x: int, y: int| 0 <= x < y < nb.len() implies nb[x].id != nb[y].id by {
            assert(ob[x].id != ob[y].id);
        }
        assert forall|x: int| 0 <= x < nb.len() implies store.project_id_resolves(
            #[trigger] nb[x].project_id,
        ) by {
            assert(old(store).project_id_resolves(ob[x].project_id));
        }
        assert forall|x: int| 0 <= x < nb.len() implies match #[trigger] nb[x].fixed_by {
            Some(u) => store.user_id_resolves(u),
            None => true,
        } by {
            if x != i {
                assert(nb[x] == ob[x]);
                assert(match ob[x].fixed_by {
                    Some(u) => old(store).user_id_resolves(u),
                    None => true,
                });
            }
        }
    }
}

/// The bug row with its fixer reference set to a user.
pub open spec fn with_fixed_by(b: BugReport, uid: u128) -> BugReport {
    BugReport { fixed_by: Some(uid), ..b }
}

/// Sets the fixer reference on the named bug. Unlike a blind UPDATE, a
/// missing bug or user is reported as absent rather than silently
/// ignored.
pub fn assign_bug(store: &mut Store, body: &BugAssignment) -> (r: Result<(), AppError>)
    requires
        old(store).wf(),
    ensures
        final(store).wf(),
        final(store).users == old(store).users,
        final(store).projects == old(store).projects,
        match r {
            Ok(()) => {
                &&& bug_with_id(old(store).bugs@, body.bug_id) is Some
                &&& user_with_id(old(store).users@, body.user_id) is Some
                &&& final(store).bugs@.len() == old(store).bugs@.len()
                &&& forall|j: int|
                    0 <= j < old(store).bugs@.len() && (#[trigger] old(store).bugs@[j]).id
                        != body.bug_id ==> final(store).bugs@[j] == old(store).bugs@[j]
                &&& forall|j: int|
                    0 <= j < old(store).bugs@.len() && (#[trigger] old(store).bugs@[j]).id
                        == body.bug_id ==> final(store).bugs@[j] == with_fixed_by(
                        old(store).bugs@[j],
                        body.user_id,
                    )
            },
            Err(e) => {
                &&& final(store).bugs == old(store).bugs
                &&& match e {
                    AppError::NotFound(m) => if bug_with_id(
                        old(store).bugs@,
                        body.bug_id,
                    ) is None {
                        m@ == "Bug not found"@
                    } else {
                        user_with_id(old(store).users@, body.user_id) is None && m@
                            == "User not found"@
                    },
                    _ => false,
                }
            },
        },
{
    let i = match store.bug_index_by_id(body.bug_id) {
        Some(i) => i,
        None => {
            return Err(AppError::NotFound(String::from_str("Bug not found")));
        },
    };
    match store.user_by_id(body.user_id) {
        Some(_) => (),
        None => {
            return Err(AppError::NotFound(String::from_str("User not found")));
        },
    };
    proof {
        lemma_find_first_sound(store.users@, |u: User| u.id == body.user_id);
    }
    let mut row = store.bugs[i].clone();
    row.fixed_by = Some(body.user_id);
    let ghost ob = store.bugs@;
    replace_bug_at(store, i, row);
    proof {
        assert forall|j: int|
            0 <= j < ob.len() && (#[trigger] ob[j]).id == body.bug_id implies store.bugs@[j]
            == with_fixed_by(ob[j], body.user_id) by {
            if j != i {
                assert(ob[j].id != ob[i as int].id);
            }
        }
    }
    Ok(())
}

/// The fixer the update names, resolved against the store: the identifier
/// of the first user with the named username, if any.
pub open spec fn fixer_id_of(users: Seq<User>, body: UpdateBugReport) -> Option<u128> {
    match body.fixed_by {
        Some(n) => match user_with_name(users, n@) {
            Some(u) => Some(u.id),
            None => None,
        },
        None => None,
    }
}

/// Applies a partial update to the named bug and returns the updated row.
/// A text that is no identifier is malformed input; an update that names
/// no field is refused; a fixer username that resolves to no user, or an
/// identifier no row carries, is absent. Every rejection leaves the store
/// unchanged.
pub fn update_bug_details(store: &mut Store, bug_id: &str, body: &UpdateBugReport) -> (r: Result<
    BugReport,
    AppError,
>)
    requires
        old(store).wf(),
    ensures
        final(store).wf(),
        final(store).users == old(store).users,
        final(store).projects == old(store).projects,
        match r {
            Ok(b) => {
                &&& parsed_uuid_of(bug_id@) matches Some(id)
                &&& !update_is_empty(*body)
                &&& (body.fixed_by matches Some(n) ==> user_with_name(
                    old(store).users@,
                    n@,
                ) is Some)
                &&& bug_with_id(old(store).bugs@, id) matches Some(ob) && b == apply_all(
                    changes_of(*body, fixer_id_of(old(store).users@, *body)),
                    ob,
                )
                &&& final(store).bugs@.len() == old(store).bugs@.len()
                &&& forall|j: int|
                    0 <= j < old(store).bugs@.len() && (#[trigger] old(store).bugs@[j]).id != id
                        ==> final(store).bugs@[j] == old(store).bugs@[j]
                &&& forall|j: int|
                    0 <= j < old(store).bugs@.len() && (#[trigger] old(store).bugs@[j]).id == id
                        ==> final(store).bugs@[j] == b
            },
            Err(e) => {
                &&& final(store).bugs == old(store).bugs
                &&& match e {
                    AppError::BadRequest(m) => if parsed_uuid_of(bug_id@) is None {
                        m@ == "Invalid Bug ID format"@
                    } else {
                        update_is_empty(*body) && m@ == "No fields provided for update"@
                    },
                    AppError::NotFound(m) => parsed_uuid_of(bug_id@) is Some && if body.fixed_by matches Some(n)
                        && user_with_name(old(store).users@, n@) is None {
                        m@ == "User not found"@
                    } else {
                        &&& !update_is_empty(*body)
                        &&& bug_with_id(old(store).bugs@, parsed_uuid_of(bug_id@)->0) is None
                        &&& m@ == "Bug not found"@
                    },
                    _ => false,
                }
            },
        },
{
    let id = match parse_uuid(bug_id) {
        Some(id) => id,
        None => {
            return Err(AppError::BadRequest(String::from_str("Invalid Bug ID format")));
        },
    };
    let fixer: Option<u128> = match &body.fixed_by {
        Some(name) => match store.user_by_username(name) {
            Some(u) => {
                proof {
                    lemma_find_first_sound(
                        store.users@,
                        |u: User| u.username@ == body.fixed_by->0@,
                    );
                }
                Some(u.id)
            },
            None => {
                return Err(AppError::NotFound(String::from_str("User not found")));
            },
        },
        None => None,
    };
    if body.is_fixed.is_none() && body.severity.is_none() && body.description.is_none()
        && body.fixed_by.is_none() {
        return Err(AppError::BadRequest(String::from_str("No fields provided for update")));
    }
    let changes = build_bug_changes(body, fixer);
    let i = match store.bug_index_by_id(id) {
        Some(i) => i,
        None => {
            return Err(AppError::NotFound(String::from_str("Bug not found")));
        },
    };
    let ghost ob = store.bugs@;
    let mut row = store.bugs[i].clone();
    apply_changes(changes, &mut row);
    proof {
        lemma_changes_of_fields(*body, fixer_id_of(old(store).users@, *body), ob[i as int]);
    }
    let response = row.clone();
    replace_bug_at(store, i, row);
    proof {
        assert forall|j: int|
            0 <= j < ob.len() && (#[trigger] ob[j]).id == id implies store.bugs@[j] == response by {
            if j != i {
                assert(ob[j].id != ob[i as int].id);
            }
        }
    }
    Ok(response)
}

/// Removes the named bug. A text that is no identifier is malformed
/// input; an identifier no row carries is absent and leaves the store
/// unchanged.
pub fn delete_bug(store: &mut Store, bug_id: &str) -> (r: Result<(), AppError>)
    requires
        old(store).wf(),
    ensures
        final(store).wf(),
        final(store).users == old(store).users,
        final(store).projects == old(store).projects,
        match r {
            Ok(()) => {
                &&& parsed_uuid_of(bug_id@) matches Some(id)
                &&& bug_with_id(old(store).bugs@, id) is Some
                &&& final(store).bugs@ == old(store).bugs@.filter(
                    (|b: BugReport| b.id != parsed_uuid_of(bug_id@)->0),
                )
            },
            Err(e) => {
                &&& final(store).bugs == old(store).bugs
                &&& match e {
                    AppError::BadRequest(m) => parsed_uuid_of(bug_id@) is None && m@
                        == "Invalid Bug ID format"@,
                    AppError::NotFound(m) => parsed_uuid_of(bug_id@) matches Some(id)
                        && bug_with_id(old(store).bugs@, id) is None && m@ == "Bug not found"@,
                    _ => false,
                }
            },
        },
{
    let id = match parse_uuid(bug_id) {
        Some(id) => id,
        None => {
            return Err(AppError::BadRequest(String::from_str("Invalid Bug ID format")));
        },
    };
    let i = match store.bug_index_by_id(id) {
        Some(i) => i,
        None => {
            return Err(AppError::NotFound(String::from_str("Bug not found")));
        },
    };
    let ghost ob = store.bugs@;
    let _removed = store.bugs.remove(i);
    proof {
        let pred = |b: BugReport| b.id != id;
        let prefix = ob.subrange(0, i as int);
        let middle = seq![ob[i as int]];
        let suffix = ob.subrange(i + 1, ob.len() as int);
        assert(ob =~= prefix + (middle + suffix));
        Seq::<BugReport>::filter_distributes_over_add(prefix, middle + suffix, pred);
        Seq::<BugReport>::filter_distributes_over_add(middle, suffix, pred);
        assert forall|x: int| 0 <= x < prefix.len() implies pred(#[trigger] prefix[x]) by {
            assert(prefix[x] == ob[x]);
            assert(ob[x].id != ob[i as int].id);
        }
        lemma_filter_retains_all(prefix, pred);
        assert forall|x: int| 0 <= x < suffix.len() implies pred(#[trigger] suffix[x]) by {
            assert(suffix[x] == ob[x + i + 1]);
            assert(ob[i as int].id != ob[x + i + 1].id);
        }
        lemma_filter_retains_all(suffix, pred);
        assert(middle.filter(pred) =~= Seq::<BugReport>::empty()) by {
            reveal_with_fuel(Seq::filter, 2);
            assert(middle.drop_last() =~= Seq::<BugReport>::empty());
        }
        assert(ob.filter(pred) =~= prefix + suffix);
        assert(store.bugs@ =~= prefix + suffix);
        // The removal preserves the invariants: every remaining row is an
        // untouched row of the old table.
        let nb = store.bugs@;
        assert forall|x: int| 0 <= x < nb.len() implies nb[x] == if x < i {
            ob[x]
        } else {
            ob[x + 1]
        } by {}
        assert forall|x: int, y: int| 0 <= x < y < nb.len() implies nb[x].id != nb[y].id by {
            let ox = if x < i { x } else { x + 1 };
            let oy = if y < i { y } else { y + 1 };
            assert(ob[ox].id != ob[oy].id);
        }
        assert forall|x: int| 0 <= x < nb.len() implies store.project_id_resolves(
            #[trigger] nb[x].project_id,
        ) by {
            let ox = if x < i { x } else { x + 1 };
            assert(old(store).project_id_resolves(ob[ox].project_id));
        }
        assert forall|x: int| 0 <= x < nb.len() implies match #[trigger] nb[x].fixed_by {
            Some(u) => store.user_id_resolves(u),
            None => true,
        } by {
            let ox = if x < i { x } else { x + 1 };
            assert(match ob[ox].fixed_by {
                Some(u) => old(store).user_id_resolves(u),
                None => true,
            });
        }
    }
    Ok(())
}

/// After a deletion, a lookup of the deleted identifier finds nothing:
/// every row the deletion keeps carries another identifier.
pub proof fn lemma_deleted_bug_not_found(bugs: Seq<BugReport>, id: u128)
    ensures
        bug_with_id(bugs.filter(|b: BugReport| b.id != id), id) is None,
{
    let pred = |b: BugReport| b.id != id;
    let rem = bugs.filter(pred);
    assert forall|j: int| 0 <= j < rem.len() implies !((|b: BugReport| b.id == id)(
        #[trigger] rem[j],
    )) by {
        bugs.lemma_filter_pred(pred, j);
    }
    lemma_find_first_none(rem, |b: BugReport| b.id == id);
}

} // verus!
