//! The data store, modelled as in-memory tables of records.
//!
//! Lookups resolve to the first matching row, as a row-returning query
//! does; `Store::wf` captures the referential invariants the schema
//! guarantees: unique identifiers, unique usernames, and bug rows whose
//! project and fixer references resolve.

use vstd::prelude::*;

use crate::error::AppError;
use crate::models::{BugReport, ProjectRecord, User};

verus! {

/// The first element of `s` satisfying `p`, if any.
pub open spec fn find_first<T>(s: Seq<T>, p: spec_fn(T) -> bool) -> Option<T>
    decreases s.len(),
{
    if s.len() == 0 {
        None
    } else if p(s[0]) {
        Some(s[0])
    } else {
        find_first(s.drop_first(), p)
    }
}

/// `find_first` returns the match at the least matching index.
pub proof fn lemma_find_first_at<T>(s: Seq<T>, p: spec_fn(T) -> bool, i: int)
    requires
        0 <= i < s.len(),
        p(s[i]),
        forall|j: int| 0 <= j < i ==> !p(s[j]),
    ensures
        find_first(s, p) == Some(s[i]),
    decreases i,
{
    if i > 0 {
        lemma_find_first_at(s.drop_first(), p, i - 1);
    }
}

/// `find_first` returns nothing when nothing matches.
pub proof fn lemma_find_first_none<T>(s: Seq<T>, p: spec_fn(T) -> bool)
    requires
        forall|j: int| 0 <= j < s.len() ==> !p(s[j]),
    ensures
        find_first(s, p) is None,
    decreases s.len(),
{
    if s.len() > 0 {
        lemma_find_first_none(s.drop_first(), p);
    }
}

/// Whatever `find_first` returns satisfies `p` and sits in `s`.
pub proof fn lemma_find_first_sound<T>(s: Seq<T>, p: spec_fn(T) -> bool)
    ensures
        match find_first(s, p) {
            Some(t) => p(t) && exists|i: int| 0 <= i < s.len() && s[i] == t,
            None => forall|i: int| 0 <= i < s.len() ==> !p(#[trigger] s[i]),
        },
    decreases s.len(),
{
    if s.len() > 0 && !p(s[0]) {
        lemma_find_first_sound(s.drop_first(), p);
        match find_first(s.drop_first(), p) {
            Some(t) => {
                let i = choose|i: int|
                    0 <= i < s.drop_first().len() && s.drop_first()[i] == t;
                assert(s[i + 1] == t);
            },
            None => {
                assert(forall|i: int|
                    0 <= i < s.len() ==> !p(#[trigger] s[i])) by {
                    assert(forall|i: int|
                        1 <= i < s.len() ==> s[i] == s.drop_first()[i - 1]);
                }
            },
        }
    }
}

/// Some user row carries this identifier.
pub open spec fn user_id_in(users: Seq<User>, id: u128) -> bool {
    exists|k: int| 0 <= k < users.len() && (#[trigger] users[k]).id == id
}

/// Some project row carries this identifier.
pub open spec fn project_id_in(projects: Seq<ProjectRecord>, id: u128) -> bool {
    exists|k: int| 0 <= k < projects.len() && (#[trigger] projects[k]).id == id
}

/// Some bug row carries this identifier.
pub open spec fn bug_id_in(bugs: Seq<BugReport>, id: u128) -> bool {
    exists|k: int| 0 <= k < bugs.len() && (#[trigger] bugs[k]).id == id
}

/// The first user with this username.
pub open spec fn user_with_name(users: Seq<User>, name: Seq<char>) -> Option<User> {
    find_first(users, |u: User| u.username@ == name)
}

/// The first user with this identifier.
pub open spec fn user_with_id(users: Seq<User>, id: u128) -> Option<User> {
    find_first(users, |u: User| u.id == id)
}

/// The first project with this name.
pub open spec fn project_with_name(projects: Seq<ProjectRecord>, name: Seq<char>) -> Option<
    ProjectRecord,
> {
    find_first(projects, |p: ProjectRecord| p.project_name@ == name)
}

/// The first bug with this identifier.
pub open spec fn bug_with_id(bugs: Seq<BugReport>, id: u128) -> Option<BugReport> {
    find_first(bugs, |b: BugReport| b.id == id)
}

/// The in-memory store: one table per record kind.
pub struct Store {
    pub users: Vec<User>,
    pub projects: Vec<ProjectRecord>,
    pub bugs: Vec<BugReport>,
}

impl Store {
    /// The referential invariants of the store: identifiers are unique per
    /// table, usernames are unique, every bug's project reference resolves,
    /// and every fixer reference, when present, resolves to a user.
    pub open spec fn wf(self) -> bool {
        &&& forall|i: int, j: int|
            0 <= i < j < self.users@.len() ==> self.users@[i].id != self.users@[j].id
        &&& forall|i: int, j: int|
            0 <= i < j < self.users@.len()
                ==> self.users@[i].username@ != self.users@[j].username@
        &&& forall|i: int, j: int|
            0 <= i < j < self.projects@.len() ==> self.projects@[i].id != self.projects@[j].id
        &&& forall|i: int, j: int|
            0 <= i < j < self.bugs@.len() ==> self.bugs@[i].id != self.bugs@[j].id
        &&& forall|i: int|
            0 <= i < self.bugs@.len() ==> self.project_id_resolves(#[trigger] self.bugs@[i].project_id)
        &&& forall|i: int|
            0 <= i < self.bugs@.len() ==> match #[trigger] self.bugs@[i].fixed_by {
                Some(uid) => self.user_id_resolves(uid),
                None => true,
            }
    }

    /// Some stored user carries this identifier.
    pub open spec fn user_id_resolves(self, id: u128) -> bool {
        user_id_in(self.users@, id)
    }

    /// Some stored project carries this identifier.
    pub open spec fn project_id_resolves(self, id: u128) -> bool {
        project_id_in(self.projects@, id)
    }

    /// Whether a project row already uses this identifier.
    pub fn project_id_taken(&self, id: u128) -> (r: bool)
        ensures
            r == project_id_in(self.projects@, id),
    {
        let mut i: usize = 0;
        while i < self.projects.len()
            invariant
                i <= self.projects@.len(),
                forall|j: int| 0 <= j < i ==> (#[trigger] self.projects@[j]).id != id,
            decreases self.projects@.len() - i,
        {
            if self.projects[i].id == id {
                return true;
            }
            i += 1;
        }
        false
    }

    /// Whether a bug row already uses this identifier.
    pub fn bug_id_taken(&self, id: u128) -> (r: bool)
        ensures
            r == bug_id_in(self.bugs@, id),
    {
        let mut i: usize = 0;
        while i < self.bugs.len()
            invariant
                i <= self.bugs@.len(),
                forall|j: int| 0 <= j < i ==> (#[trigger] self.bugs@[j]).id != id,
            decreases self.bugs@.len() - i,
        {
            if self.bugs[i].id == id {
                return true;
            }
            i += 1;
        }
        false
    }

    /// Inserts a fully-formed bug row. The row is refused exactly when its
    /// identifier is already taken, as the store's key constraint refuses
    /// it; a row whose references do not resolve is never handed in.
    pub fn insert_bug(&mut self, bug: BugReport) -> (r: Result<(), AppError>)
        requires
            old(self).wf(),
            project_id_in(old(self).projects@, bug.project_id),
            match bug.fixed_by {
                Some(u) => user_id_in(old(self).users@, u),
                None => true,
            },
        ensures
            final(self).wf(),
            final(self).users == old(self).users,
            final(self).projects == old(self).projects,
            match r {
                Ok(()) => {
                    &&& !bug_id_in(old(self).bugs@, bug.id)
                    &&& final(self).bugs@ == old(self).bugs@.push(bug)
                },
                Err(e) => {
                    &&& e matches AppError::Database(_)
                    &&& bug_id_in(old(self).bugs@, bug.id)
                    &&& final(self).bugs == old(self).bugs
                },
            },
    {
        if self.bug_id_taken(bug.id) {
            return Err(AppError::Database(String::from_str("bug id already present")));
        }
        let ghost old_bugs = self.bugs@;
        self.bugs.push(bug);
        proof {
            let nb = self.bugs@;
            assert forall|i: int, j: int| 0 <= i < j < nb.len() implies nb[i].id != nb[j].id by {
                assert(nb[i] == old_bugs[i]);
                if j < nb.len() - 1 {
                    assert(nb[j] == old_bugs[j]);
                } else {
                    assert(nb[j] == bug);
                }
            }
            assert forall|i: int| 0 <= i < nb.len() implies self.project_id_resolves(
                #[trigger] nb[i].project_id,
            ) by {
                if i < nb.len() - 1 {
                    assert(nb[i] == old_bugs[i]);
                    assert(old(self).project_id_resolves(old_bugs[i].project_id));
                }
            }
            assert forall|i: int| 0 <= i < nb.len() implies match #[trigger] nb[i].fixed_by {
                Some(uid) => self.user_id_resolves(uid),
                None => true,
            } by {
                if i < nb.len() - 1 {
                    assert(nb[i] == old_bugs[i]);
                    assert(match old_bugs[i].fixed_by {
                        Some(uid) => old(self).user_id_resolves(uid),
                        None => true,
                    });
                }
            }
        }
        Ok(())
    }

    /// Inserts a fully-formed project row. The row is refused exactly when
    /// its identifier is already taken.
    pub fn insert_project(&mut self, project: ProjectRecord) -> (r: Result<(), AppError>)
        requires
            old(self).wf(),
        ensures
            final(self).wf(),
            final(self).users == old(self).users,
            final(self).bugs == old(self).bugs,
            match r {
                Ok(()) => {
                    &&& !project_id_in(old(self).projects@, project.id)
                    &&& final(self).projects@ == old(self).projects@.push(project)
                },
                Err(e) => {
                    &&& e matches AppError::Database(_)
                    &&& project_id_in(old(self).projects@, project.id)
                    &&& final(self).projects == old(self).projects
                },
            },
    {
        if self.project_id_taken(project.id) {
            return Err(AppError::Database(String::from_str("project id already present")));
        }
        let ghost old_projects = self.projects@;
        self.projects.push(project);
        proof {
            let np = self.projects@;
            assert forall|i: int, j: int| 0 <= i < j < np.len() implies np[i].id != np[j].id by {
                assert(np[i] == old_projects[i]);
                if j < np.len() - 1 {
                    assert(np[j] == old_projects[j]);
                } else {
                    assert(np[j] == project);
                }
            }
            assert forall|i: int| 0 <= i < self.bugs@.len() implies self.project_id_resolves(
                #[trigger] self.bugs@[i].project_id,
            ) by {
                assert(old(self).project_id_resolves(self.bugs@[i].project_id));
                let k = choose|k: int|
                    0 <= k < old_projects.len() && (#[trigger] old_projects[k]).id
                        == self.bugs@[i].project_id;
                assert(np[k] == old_projects[k]);
            }
        }
        Ok(())
    }

    /// Looks a user up by username; the first matching row, as the query
    /// `WHERE username = ?` returns it.
    pub fn user_by_username<'a>(&'a self, name: &String) -> (r: Option<&'a User>)
        ensures
            match r {
                Some(u) => user_with_name(self.users@, name@) == Some(*u),
                None => user_with_name(self.users@, name@) is None,
            },
    {
        let ghost p = |u: User| u.username@ == name@;
        let mut i: usize = 0;
        while i < self.users.len()
            invariant
                i <= self.users@.len(),
                forall|j: int| 0 <= j < i ==> !p(#[trigger] self.users@[j]),
                p == (|u: User| u.username@ == name@),
            decreases self.users@.len() - i,
        {
            if self.users[i].username == *name {
                proof {
                    lemma_find_first_at(self.users@, p, i as int);
                }
                return Some(&self.users[i]);
            }
            i += 1;
        }
        proof {
            lemma_find_first_none(self.users@, p);
        }
        None
    }

    /// Looks a user up by identifier.
    pub fn user_by_id<'a>(&'a self, id: u128) -> (r: Option<&'a User>)
        ensures
            match r {
                Some(u) => user_with_id(self.users@, id) == Some(*u),
                None => user_with_id(self.users@, id) is None,
            },
    {
        let ghost p = |u: User| u.id == id;
        let mut i: usize = 0;
        while i < self.users.len()
            invariant
                i <= self.users@.len(),
                forall|j: int| 0 <= j < i ==> !p(#[trigger] self.users@[j]),
                p == (|u: User| u.id == id),
            decreases self.users@.len() - i,
        {
            if self.users[i].id == id {
                proof {
                    lemma_find_first_at(self.users@, p, i as int);
                }
                return Some(&self.users[i]);
            }
            i += 1;
        }
        proof {
            lemma_find_first_none(self.users@, p);
        }
        None
    }

    /// Looks a project up by name; the first matching row.
    pub fn project_by_name<'a>(&'a self, name: &String) -> (r: Option<&'a ProjectRecord>)
        ensures
            match r {
                Some(p) => project_with_name(self.projects@, name@) == Some(*p),
                None => project_with_name(self.projects@, name@) is None,
            },
    {
        let ghost p = |pr: ProjectRecord| pr.project_name@ == name@;
        let mut i: usize = 0;
        while i < self.projects.len()
            invariant
                i <= self.projects@.len(),
                forall|j: int| 0 <= j < i ==> !p(#[trigger] self.projects@[j]),
                p == (|pr: ProjectRecord| pr.project_name@ == name@),
            decreases self.projects@.len() - i,
        {
            if self.projects[i].project_name == *name {
                proof {
                    lemma_find_first_at(self.projects@, p, i as int);
                }
                return Some(&self.projects[i]);
            }
            i += 1;
        }
        proof {
            lemma_find_first_none(self.projects@, p);
        }
        None
    }

    /// Looks a bug up by identifier, returning its index.
    pub fn bug_index_by_id(&self, id: u128) -> (r: Option<usize>)
        ensures
            match r {
                Some(i) => {
                    &&& i < self.bugs@.len()
                    &&& bug_with_id(self.bugs@, id) == Some(self.bugs@[i as int])
                    &&& self.bugs@[i as int].id == id
                },
                None => bug_with_id(self.bugs@, id) is None,
            },
    {
        let ghost p = |b: BugReport| b.id == id;
        let mut i: usize = 0;
        while i < self.bugs.len()
            invariant
                i <= self.bugs@.len(),
                forall|j: int| 0 <= j < i ==> !p(#[trigger] self.bugs@[j]),
                p == (|b: BugReport| b.id == id),
            decreases self.bugs@.len() - i,
        {
            if self.bugs[i].id == id {
                proof {
                    lemma_find_first_at(self.bugs@, p, i as int);
                }
                return Some(i);
            }
            i += 1;
        }
        proof {
            lemma_find_first_none(self.bugs@, p);
        }
        None
    }
}

} // verus!
