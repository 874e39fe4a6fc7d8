//! The filter and update builders: a listing filter becomes an explicit
//! list of typed predicates, a partial update an explicit list of typed
//! field changes, each in a fixed column order. Nothing is ever spliced
//! into query text; the builders carry values, and evaluation is proved
//! against the spec-level meaning of each entry.

use vstd::prelude::*;
use vstd::seq_lib::*;

use crate::models::{BugFilter, BugReport, UpdateBugReport};

verus! {

/// One conjunct of a bug-listing filter.
#[derive(Debug)]
pub enum BugPredicate {
    /// The fixed flag equals the value.
    IsFixed(bool),
    /// The severity text equals the value.
    Severity(String),
    /// The bug belongs to the project with this identifier.
    Project(u128),
}

impl BugPredicate {
    /// What the predicate means of a bug row.
    pub open spec fn holds_for(self, b: BugReport) -> bool {
        match self {
            BugPredicate::IsFixed(v) => b.is_fixed == v,
            BugPredicate::Severity(s) => b.severity@ == s@,
            BugPredicate::Project(p) => b.project_id == p,
        }
    }

    /// Evaluates the predicate on a bug row.
    pub fn eval(&self, b: &BugReport) -> (r: bool)
        ensures
            r == self.holds_for(*b),
    {
        match self {
            BugPredicate::IsFixed(v) => b.is_fixed == *v,
            BugPredicate::Severity(s) => b.severity == *s,
            BugPredicate::Project(p) => b.project_id == *p,
        }
    }
}

/// A bug row matches a filter when every predicate holds of it.
pub open spec fn all_hold(preds: Seq<BugPredicate>, b: BugReport) -> bool {
    forall|i: int| 0 <= i < preds.len() ==> (#[trigger] preds[i]).holds_for(b)
}

/// Evaluates a whole predicate list on a bug row.
pub fn eval_all(preds: &Vec<BugPredicate>, b: &BugReport) -> (r: bool)
    ensures
        r == all_hold(preds@, *b),
{
    let mut i: usize = 0;
    while i < preds.len()
        invariant
            i <= preds@.len(),
            forall|j: int| 0 <= j < i ==> (#[trigger] preds@[j]).holds_for(*b),
        decreases preds@.len() - i,
    {
        if !preds[i].eval(b) {
            return false;
        }
        i += 1;
    }
    true
}

/// The predicate list a filter renders to, in the fixed column order:
/// fixed flag, severity, project.
pub open spec fn predicates_of(f: BugFilter, project_id: Option<u128>) -> Seq<BugPredicate> {
    let with_fixed = if f.is_fixed is Some {
        Seq::<BugPredicate>::empty().push(BugPredicate::IsFixed(f.is_fixed->0))
    } else {
        Seq::<BugPredicate>::empty()
    };
    let with_severity = if f.severity is Some {
        with_fixed.push(BugPredicate::Severity(f.severity->0))
    } else {
        with_fixed
    };
    if project_id is Some {
        with_severity.push(BugPredicate::Project(project_id->0))
    } else {
        with_severity
    }
}

/// Renders a filter to its predicate list; the project conjunct takes the
/// already-resolved project identifier.
pub fn build_bug_predicates(f: &BugFilter, project_id: Option<u128>) -> (r: Vec<BugPredicate>)
    ensures
        r@ == predicates_of(*f, project_id),
{
    let mut preds: Vec<BugPredicate> = Vec::new();
    if let Some(v) = f.is_fixed {
        preds.push(BugPredicate::IsFixed(v));
    }
    match &f.severity {
        Some(s) => preds.push(BugPredicate::Severity(s.clone())),
        None => (),
    }
    if let Some(p) = project_id {
        preds.push(BugPredicate::Project(p));
    }
    preds
}

/// Filtering one more element appends it exactly when the predicate
/// holds of it.
pub proof fn lemma_filter_take_step<T>(s: Seq<T>, pred: spec_fn(T) -> bool, i: int)
    requires
        0 <= i < s.len(),
    ensures
        s.take(i + 1).filter(pred) == if pred(s[i]) {
            s.take(i as int).filter(pred).push(s[i])
        } else {
            s.take(i as int).filter(pred)
        },
{
    let t0 = s.take(i as int);
    let single = seq![s[i]];
    assert(s.take(i + 1) =~= t0 + single);
    Seq::<T>::filter_distributes_over_add(t0, single, pred);
    reveal_with_fuel(Seq::filter, 3);
    assert(single.drop_last() =~= Seq::<T>::empty());
    if pred(s[i]) {
        assert(single.filter(pred) =~= Seq::<T>::empty().push(s[i]));
        assert(t0.filter(pred) + Seq::<T>::empty().push(s[i]) =~= t0.filter(pred).push(s[i]));
    } else {
        assert(single.filter(pred) =~= Seq::<T>::empty());
        assert(t0.filter(pred) + Seq::<T>::empty() =~= t0.filter(pred));
    }
}

/// A filter that every element passes returns the sequence unchanged.
pub proof fn lemma_filter_retains_all<T>(s: Seq<T>, pred: spec_fn(T) -> bool)
    requires
        forall|i: int| 0 <= i < s.len() ==> pred(#[trigger] s[i]),
    ensures
        s.filter(pred) == s,
    decreases s.len(),
{
    reveal_with_fuel(Seq::filter, 2);
    if s.len() > 0 {
        lemma_filter_retains_all(s.drop_last(), pred);
        assert(s.filter(pred) =~= s);
    }
}

/// One entry of a partial update: a column and its new typed value.
#[derive(Debug)]
pub enum BugChange {
    /// Set the fixed flag.
    SetFixed(bool),
    /// Set the severity text.
    SetSeverity(String),
    /// Set the description text.
    SetDescription(String),
    /// Set the fixer reference to this user identifier.
    SetFixedBy(u128),
}

impl BugChange {
    /// The row the change turns a bug row into.
    pub open spec fn apply_spec(self, b: BugReport) -> BugReport {
        match self {
            BugChange::SetFixed(v) => BugReport { is_fixed: v, ..b },
            BugChange::SetSeverity(s) => BugReport { severity: s, ..b },
            BugChange::SetDescription(d) => BugReport { description: d, ..b },
            BugChange::SetFixedBy(u) => BugReport { fixed_by: Some(u), ..b },
        }
    }

    /// Applies the change to a bug row in place.
    pub fn apply(self, b: &mut BugReport)
        ensures
            *final(b) == self.apply_spec(*old(b)),
    {
        match self {
            BugChange::SetFixed(v) => b.is_fixed = v,
            BugChange::SetSeverity(s) => b.severity = s,
            BugChange::SetDescription(d) => b.description = d,
            BugChange::SetFixedBy(u) => b.fixed_by = Some(u),
        }
    }
}

/// The row a whole change list turns a bug row into, applied in order.
pub open spec fn apply_all(changes: Seq<BugChange>, b: BugReport) -> BugReport
    decreases changes.len(),
{
    if changes.len() == 0 {
        b
    } else {
        apply_all(changes.drop_first(), changes[0].apply_spec(b))
    }
}

/// Applying one change after a list is applying the extended list.
pub proof fn lemma_apply_all_push(s: Seq<BugChange>, c: BugChange, b: BugReport)
    ensures
        apply_all(s.push(c), b) == c.apply_spec(apply_all(s, b)),
    decreases s.len(),
{
    if s.len() == 0 {
        assert(s.push(c).drop_first() =~= Seq::<BugChange>::empty());
        assert(s.push(c)[0] == c);
        assert(apply_all(s.push(c), b) == apply_all(Seq::<BugChange>::empty(), c.apply_spec(b)));
        assert(apply_all(Seq::<BugChange>::empty(), c.apply_spec(b)) == c.apply_spec(b));
        assert(apply_all(s, b) == b);
    } else {
        assert(s.push(c).drop_first() =~= s.drop_first().push(c));
        assert(s.push(c)[0] == s[0]);
        assert(apply_all(s.push(c), b) == apply_all(s.drop_first().push(c), s[0].apply_spec(b)));
        lemma_apply_all_push(s.drop_first(), c, s[0].apply_spec(b));
        assert(apply_all(s, b) == apply_all(s.drop_first(), s[0].apply_spec(b)));
    }
}

/// A partial update names no field at all.
pub open spec fn update_is_empty(body: UpdateBugReport) -> bool {
    &&& body.is_fixed is None
    &&& body.severity is None
    &&& body.description is None
    &&& body.fixed_by is None
}

/// The change list a partial update renders to, in the fixed column order:
/// fixed flag, severity, description, fixer. The fixer entry takes the
/// already-resolved user identifier.
pub open spec fn changes_of(body: UpdateBugReport, fixer: Option<u128>) -> Seq<BugChange> {
    let with_fixed = if body.is_fixed is Some {
        Seq::<BugChange>::empty().push(BugChange::SetFixed(body.is_fixed->0))
    } else {
        Seq::<BugChange>::empty()
    };
    let with_severity = if body.severity is Some {
        with_fixed.push(BugChange::SetSeverity(body.severity->0))
    } else {
        with_fixed
    };
    let with_description = if body.description is Some {
        with_severity.push(BugChange::SetDescription(body.description->0))
    } else {
        with_severity
    };
    if fixer is Some {
        with_description.push(BugChange::SetFixedBy(fixer->0))
    } else {
        with_description
    }
}

/// Renders a partial update to its change list; the fixer entry takes the
/// already-resolved user identifier.
pub fn build_bug_changes(body: &UpdateBugReport, fixer: Option<u128>) -> (r: Vec<BugChange>)
    ensures
        r@ == changes_of(*body, fixer),
{
    let mut changes: Vec<BugChange> = Vec::new();
    if let Some(v) = body.is_fixed {
        changes.push(BugChange::SetFixed(v));
    }
    match &body.severity {
        Some(s) => changes.push(BugChange::SetSeverity(s.clone())),
        None => (),
    }
    match &body.description {
        Some(d) => changes.push(BugChange::SetDescription(d.clone())),
        None => (),
    }
    if let Some(u) = fixer {
        changes.push(BugChange::SetFixedBy(u));
    }
    changes
}

/// What a rendered partial update does to a bug row, column by column: a
/// named field takes the supplied value, an unnamed field keeps its value,
/// the fixer takes the resolved identifier, and the identifier columns,
/// the title and the creation time never change.
pub proof fn lemma_changes_of_fields(body: UpdateBugReport, fixer: Option<u128>, b: BugReport)
    ensures
        ({
            let nb = apply_all(changes_of(body, fixer), b);
            &&& nb.id == b.id
            &&& nb.project_id == b.project_id
            &&& nb.reported_by == b.reported_by
            &&& nb.created_at == b.created_at
            &&& nb.title == b.title
            &&& nb.is_fixed == if body.is_fixed is Some {
                body.is_fixed->0
            } else {
                b.is_fixed
            }
            &&& nb.severity == if body.severity is Some {
                body.severity->0
            } else {
                b.severity
            }
            &&& nb.description == if body.description is Some {
                body.description->0
            } else {
                b.description
            }
            &&& nb.fixed_by == if fixer is Some {
                Some(fixer->0)
            } else {
                b.fixed_by
            }
        }),
{
    let empty = Seq::<BugChange>::empty();
    let with_fixed = if body.is_fixed is Some {
        empty.push(BugChange::SetFixed(body.is_fixed->0))
    } else {
        empty
    };
    let with_severity = if body.severity is Some {
        with_fixed.push(BugChange::SetSeverity(body.severity->0))
    } else {
        with_fixed
    };
    let with_description = if body.description is Some {
        with_severity.push(BugChange::SetDescription(body.description->0))
    } else {
        with_severity
    };
    let b0 = apply_all(empty, b);
    assert(b0 == b);
    if body.is_fixed is Some {
        lemma_apply_all_push(empty, BugChange::SetFixed(body.is_fixed->0), b);
    }
    let b1 = apply_all(with_fixed, b);
    if body.severity is Some {
        lemma_apply_all_push(with_fixed, BugChange::SetSeverity(body.severity->0), b);
    }
    let b2 = apply_all(with_severity, b);
    if body.description is Some {
        lemma_apply_all_push(with_severity, BugChange::SetDescription(body.description->0), b);
    }
    if fixer is Some {
        lemma_apply_all_push(with_description, BugChange::SetFixedBy(fixer->0), b);
    }
}

/// A partial update that names only the severity changes exactly the
/// severity column and keeps every other column of the row.
pub proof fn lemma_severity_only_update(body: UpdateBugReport, b: BugReport)
    requires
        body.is_fixed is None,
        body.description is None,
        body.fixed_by is None,
        body.severity is Some,
    ensures
        ({
            let nb = apply_all(changes_of(body, None), b);
            &&& nb.severity == body.severity->0
            &&& nb == BugReport { severity: body.severity->0, ..b }
        }),
{
    lemma_changes_of_fields(body, None, b);
}

/// Applies a whole change list to a bug row, in order.
pub fn apply_changes(changes: Vec<BugChange>, b: &mut BugReport)
    ensures
        *final(b) == apply_all(changes@, *old(b)),
{
    let mut pending = changes;
    let ghost orig = pending@;
    proof {
        assert(apply_all(pending@, *b) == apply_all(orig, *old(b)));
    }
    while pending.len() > 0
        invariant
            apply_all(pending@, *b) == apply_all(orig, *old(b)),
        decreases pending@.len(),
    {
        let ghost before = pending@;
        let ghost cur = *b;
        let c = pending.remove(0);
        proof {
            assert(pending@ =~= before.drop_first());
        }
        c.apply(b);
        proof {
            assert(apply_all(before, cur) == apply_all(
                before.drop_first(),
                before[0].apply_spec(cur),
            ));
        }
    }
}

} // verus!
