//! Rename planner: applies the matcher's substitution to every input name in
//! order, and rejects the whole plan when two inputs map to the same proposed
//! name, before any filesystem change.

use crate::config::MatchSpec;
use vstd::prelude::*;

verus! {

/// Failure to build a `RenamePlan`.
#[derive(Debug, PartialEq, Eq, Structural)]
pub enum PlanError {
    /// Two or more inputs map to the same proposed name.
    CollisionDetected,
}

/// What the engine's substitution returns for one input: every
/// non-overlapping match of `pattern` (compiled with `ignore_case`) in
/// `input`, replaced according to `template`; when nothing matches, the input
/// itself. A function of these arguments alone.
pub uninterp spec fn substituted(
    pattern: Seq<char>,
    ignore_case: bool,
    template: Seq<char>,
    input: Seq<char>,
) -> Seq<char>;

/// One planned rename.
#[derive(Debug)]
pub struct RenameEntry {
    pub original: String,
    pub proposed: String,
}

/// The ordered list of planned renames, one entry per input, in input order.
#[derive(Debug)]
pub struct RenamePlan {
    pub entries: Vec<RenameEntry>,
}

/// The views of a sequence of strings.
pub open spec fn views_of(names: Seq<String>) -> Seq<Seq<char>> {
    names.map_values(|s: String| s@)
}

/// The proposed name for each input, in input order.
pub open spec fn proposed_names(
    pattern: Seq<char>,
    ignore_case: bool,
    template: Seq<char>,
    inputs: Seq<Seq<char>>,
) -> Seq<Seq<char>> {
    inputs.map_values(|input: Seq<char>| substituted(pattern, ignore_case, template, input))
}

/// No two names in the sequence are equal.
pub open spec fn all_distinct(names: Seq<Seq<char>>) -> bool {
    forall|i: int, j: int| 0 <= i < j < names.len() ==> names[i] != names[j]
}

/// Relies on `regex::Regex::replace_all`: replaces every non-overlapping
/// match in `input` according to `template` (backreferences expanded), and
/// returns `input` unchanged when nothing matches; the result depends only on
/// the compiled pattern, its case flag, the template and the input. The
/// matcher's regex is compiled from `spec.pattern_view()` with
/// `spec.is_ignore_case()` by the sole constructor of `MatchSpec`.
#[verifier::external_body]
fn replace_all(spec: &MatchSpec, template: &str, input: &str) -> (r: String)
    ensures
        r@ == substituted(spec.pattern_view(), spec.is_ignore_case(), template@, input@),
{
    spec.re.replace_all(input, template).into_owned()
}

/// Whether some name occurs twice in `names`.
fn has_duplicate(names: &Vec<String>) -> (r: bool)
    ensures
        r == !all_distinct(views_of(names@)),
{
    let n = names.len();
    let mut i: usize = 0;
    while i < n
        invariant
            i <= n,
            n == names@.len(),
            forall|a: int, b: int| 0 <= a < b < n && a < i ==> names@[a]@ != names@[b]@,
        decreases n - i,
    {
        let mut j: usize = i + 1;
        while j < n
            invariant
                i < j <= n,
                n == names@.len(),
                forall|b: int| i < b < j ==> names@[i as int]@ != names@[b]@,
            decreases n - j,
        {
            if names[i] == names[j] {
                assert(views_of(names@)[i as int] == views_of(names@)[j as int]);
                return true;
            }
            j += 1;
        }
        i += 1;
    }
    false
}

/// Builds the plan: applies the substitution to every input in order, then
/// rejects the plan atomically when two proposed names collide. Pure: no
/// filesystem access. Succeeds if and only if all proposed names are
/// pairwise distinct; on success the plan has one entry per input, in input
/// order, each holding the input and its proposed name.
pub fn plan(spec: &MatchSpec, template: &str, inputs: &Vec<String>) -> (r: Result<
    RenamePlan,
    PlanError,
>)
    ensures
        r is Ok <==> all_distinct(
            proposed_names(
                spec.pattern_view(),
                spec.is_ignore_case(),
                template@,
                views_of(inputs@),
            ),
        ),
        r is Err ==> r->Err_0 == PlanError::CollisionDetected,
        r is Ok ==> r->Ok_0.entries@.len() == inputs@.len(),
        r is Ok ==> forall|i: int|
            0 <= i < inputs@.len() ==> r->Ok_0.entries@[i].original@ == inputs@[i]@,
        r is Ok ==> forall|i: int|
            0 <= i < inputs@.len() ==> r->Ok_0.entries@[i].proposed@ == substituted(
                spec.pattern_view(),
                spec.is_ignore_case(),
                template@,
                inputs@[i]@,
            ),
{
    let ghost all_proposed = proposed_names(
        spec.pattern_view(),
        spec.is_ignore_case(),
        template@,
        views_of(inputs@),
    );
    let n = inputs.len();
    let mut proposed: Vec<String> = Vec::new();
    let mut k: usize = 0;
    while k < n
        invariant
            k <= n,
            n == inputs@.len(),
            proposed@.len() == k,
            all_proposed == proposed_names(
                spec.pattern_view(),
                spec.is_ignore_case(),
                template@,
                views_of(inputs@),
            ),
            forall|i: int| 0 <= i < k ==> proposed@[i]@ == all_proposed[i],
        decreases n - k,
    {
        let p = replace_all(spec, template, &inputs[k]);
        proposed.push(p);
        k += 1;
    }
    assert(views_of(proposed@) =~= all_proposed);
    if has_duplicate(&proposed) {
        Err(PlanError::CollisionDetected)
    } else {
        let mut entries: Vec<RenameEntry> = Vec::new();
        let mut k: usize = 0;
        while k < n
            invariant
                k <= n,
                n == inputs@.len(),
                n == proposed@.len(),
                entries@.len() == k,
                forall|i: int| 0 <= i < n ==> proposed@[i]@ == all_proposed[i],
                all_proposed == proposed_names(
                    spec.pattern_view(),
                    spec.is_ignore_case(),
                    template@,
                    views_of(inputs@),
                ),
                forall|i: int| 0 <= i < k ==> entries@[i].original@ == inputs@[i]@,
                forall|i: int| 0 <= i < k ==> entries@[i].proposed@ == all_proposed[i],
            decreases n - k,
        {
            let entry = RenameEntry {
                original: inputs[k].clone(),
                proposed: proposed[k].clone(),
            };
            entries.push(entry);
            k += 1;
        }
        assert forall|i: int| 0 <= i < inputs@.len() implies entries@[i].proposed@ == substituted(
            spec.pattern_view(),
            spec.is_ignore_case(),
            template@,
            inputs@[i]@,
        ) by {
            assert(views_of(inputs@)[i] == inputs@[i]@);
            assert(all_proposed[i] == substituted(
                spec.pattern_view(),
                spec.is_ignore_case(),
                template@,
                views_of(inputs@)[i],
            ));
        }
        Ok(RenamePlan { entries })
    }
}

} // verus!
