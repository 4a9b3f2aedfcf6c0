//! Rename executor: the per-entry decisions behind walking a plan — when to
//! skip, when to report, when to check the target, when to prompt, and what
//! counts as an affirmative answer — together with the accumulating result.
//! The filesystem rename, the existence check and the terminal I/O themselves
//! are performed by the binary around the library, which follows these
//! decisions step by step.

use crate::planner::{RenameEntry, RenamePlan};
use vstd::prelude::*;
use vstd::string::{StrSliceExecFns, StringExecFns};

verus! {

/// The three behavioral flags of a run, fixed once resolved.
#[derive(Clone, Copy, PartialEq, Eq, Structural)]
pub struct ExecutionPolicy {
    /// Compute and report, but never touch the filesystem.
    pub dry_run: bool,
    /// Ask for per-file confirmation when the target already exists.
    pub prompt_on_overwrite: bool,
    /// Stop processing remaining entries after the first filesystem failure.
    pub abort_on_first_error: bool,
}

/// What to do first for one plan entry.
#[derive(Clone, Copy, PartialEq, Eq, Structural, Debug)]
pub enum EntryStep {
    /// `original == proposed`: skip silently — no report line, no filesystem
    /// call.
    SkipNoop,
    /// Report the change and stop there: dry-run mode.
    ReportOnly,
    /// Report the change, then check whether the target exists (prompting is
    /// enabled).
    ReportThenCheck,
    /// Report the change, then rename unconditionally (an existing target is
    /// silently overwritten).
    ReportThenRename,
}

/// The first step for an entry: no-op entries are skipped silently; a
/// dry run only reports; with prompting enabled the target must be checked;
/// otherwise the rename is unconditional.
pub open spec fn entry_step(
    original: Seq<char>,
    proposed: Seq<char>,
    policy: ExecutionPolicy,
) -> EntryStep {
    if original == proposed {
        EntryStep::SkipNoop
    } else if policy.dry_run {
        EntryStep::ReportOnly
    } else if policy.prompt_on_overwrite {
        EntryStep::ReportThenCheck
    } else {
        EntryStep::ReportThenRename
    }
}

/// Decides the first step for `entry` under `policy`.
pub fn begin_entry(entry: &RenameEntry, policy: &ExecutionPolicy) -> (r: EntryStep)
    ensures
        r == entry_step(entry.original@, entry.proposed@, *policy),
{
    if entry.original == entry.proposed {
        EntryStep::SkipNoop
    } else if policy.dry_run {
        EntryStep::ReportOnly
    } else if policy.prompt_on_overwrite {
        EntryStep::ReportThenCheck
    } else {
        EntryStep::ReportThenRename
    }
}

/// What to do after the target-existence check of `ReportThenCheck`.
#[derive(Clone, Copy, PartialEq, Eq, Structural, Debug)]
pub enum TargetStep {
    /// The target does not exist: rename without asking.
    Rename,
    /// The target exists: ask for confirmation first.
    Prompt,
}

/// After the existence check: prompt exactly when the target exists.
pub open spec fn target_step(target_exists: bool) -> TargetStep {
    if target_exists {
        TargetStep::Prompt
    } else {
        TargetStep::Rename
    }
}

/// Decides whether to prompt, given whether the target path exists.
pub fn after_target_check(target_exists: bool) -> (r: TargetStep)
    ensures
        r == target_step(target_exists),
{
    if target_exists {
        TargetStep::Prompt
    } else {
        TargetStep::Rename
    }
}

/// Whitespace as stripped from a confirmation answer: the Unicode
/// White_Space characters, the set `str::trim` removes.
pub open spec fn is_space(c: char) -> bool {
    let u = c as u32;
    (0x09 <= u && u <= 0x0d) || u == 0x20 || u == 0x85 || u == 0xa0 || u == 0x1680 || (0x2000 <= u
        && u <= 0x200a) || u == 0x2028 || u == 0x2029 || u == 0x202f || u == 0x205f || u == 0x3000
}

/// Whether `c` is whitespace in the sense of `is_space`.
fn space_char(c: char) -> (r: bool)
    ensures
        r == is_space(c),
{
    let u = c as u32;
    (0x09 <= u && u <= 0x0d) || u == 0x20 || u == 0x85 || u == 0xa0 || u == 0x1680 || (0x2000 <= u
        && u <= 0x200a) || u == 0x2028 || u == 0x2029 || u == 0x202f || u == 0x205f || u == 0x3000
}

/// An answer counts as affirmative exactly when, once surrounding whitespace
/// is ignored, it is the single character `y`, case-insensitively: one
/// position holds `y` or `Y` and every other position holds whitespace.
pub open spec fn affirmative(answer: Seq<char>) -> bool {
    exists|i: int|
        0 <= i < answer.len() && (answer[i] == 'y' || answer[i] == 'Y') && (forall|k: int|
            0 <= k < answer.len() && k != i ==> is_space(answer[k]))
}

/// Whether a confirmation answer read from the user is affirmative: the
/// answer stripped of surrounding whitespace is `y` or `Y`, and nothing else.
pub fn is_affirmative(answer: &str) -> (r: bool)
    ensures
        r == affirmative(answer@),
{
    let n = answer.unicode_len();
    let mut non_space: usize = 0;
    let mut found: char = ' ';
    let mut found_at: usize = 0;
    let mut i: usize = 0;
    while i < n
        invariant
            i <= n,
            n == answer@.len(),
            non_space <= i,
            non_space == 0 ==> forall|k: int| 0 <= k < i ==> is_space(answer@[k]),
            non_space == 1 ==> found_at < i && !is_space(answer@[found_at as int]) && found
                == answer@[found_at as int] && (forall|k: int|
                0 <= k < i && k != found_at ==> is_space(answer@[k])),
            non_space >= 2 ==> exists|a: int, b: int|
                0 <= a < b < i && !is_space(#[trigger] answer@[a]) && !is_space(
                    #[trigger] answer@[b],
                ),
        decreases n - i,
    {
        let c = answer.get_char(i);
        if !space_char(c) {
            if non_space == 1 {
                assert(!is_space(answer@[found_at as int]) && !is_space(answer@[i as int]));
            }
            non_space = if non_space < usize::MAX {
                non_space + 1
            } else {
                non_space
            };
            found = c;
            found_at = i;
        }
        i += 1;
    }
    let r = non_space == 1 && (found == 'y' || found == 'Y');
    proof {
        if r {
            assert(affirmative(answer@)) by {
                assert(0 <= found_at < answer@.len() && (answer@[found_at as int] == 'y'
                    || answer@[found_at as int] == 'Y') && (forall|k: int|
                    0 <= k < answer@.len() && k != found_at ==> is_space(answer@[k])));
            }
        } else {
            if affirmative(answer@) {
                let i0 = choose|i0: int|
                    0 <= i0 < answer@.len() && (answer@[i0] == 'y' || answer@[i0] == 'Y') && (
                    forall|k: int| 0 <= k < answer@.len() && k != i0 ==> is_space(answer@[k]));
                assert(!is_space(answer@[i0]));
                assert(non_space != 0);
                if non_space == 1 {
                    assert(found_at == i0);
                }
                assert(false);
            }
        }
    }
    r
}

/// The report line for one entry: the original name, an arrow, the proposed
/// name. Scripts may parse this exact shape.
pub open spec fn report_line_of(original: Seq<char>, proposed: Seq<char>) -> Seq<char> {
    original + " => "@ + proposed
}

/// Builds the report line `original => proposed` for an entry.
pub fn report_line(entry: &RenameEntry) -> (r: String)
    ensures
        r@ == report_line_of(entry.original@, entry.proposed@),
{
    let mut s = entry.original.clone();
    s.append(" => ");
    s.append(entry.proposed.as_str());
    proof {
        assert(s@ =~= report_line_of(entry.original@, entry.proposed@));
    }
    s
}

/// The overwrite prompt shown for a proposed name.
pub open spec fn prompt_line_of(proposed: Seq<char>) -> Seq<char> {
    "overwrite "@ + proposed + "? (y/n [n]) "@
}

/// Builds the overwrite prompt for a proposed name.
pub fn prompt_line(proposed: &str) -> (r: String)
    ensures
        r@ == prompt_line_of(proposed@),
{
    let mut s = "overwrite ".to_owned();
    s.append(proposed);
    s.append("? (y/n [n]) ");
    proof {
        assert(s@ =~= prompt_line_of(proposed@));
    }
    s
}

/// A count one higher, capped at the type's maximum.
pub open spec fn bumped(count: u64) -> u64 {
    if count < u64::MAX {
        (count + 1) as u64
    } else {
        count
    }
}

/// The accumulating, purely observational summary of a run.
#[derive(Clone, Copy, PartialEq, Eq, Structural, Debug)]
pub struct ExecutionResult {
    /// Entries actually renamed.
    pub renamed: u64,
    /// Entries skipped: no-op entries and declined overwrites.
    pub skipped: u64,
    /// Entries whose filesystem rename failed.
    pub failed: u64,
}

impl ExecutionResult {
    /// A fresh summary with every count at zero.
    pub fn new() -> (r: ExecutionResult)
        ensures
            r.renamed == 0,
            r.skipped == 0,
            r.failed == 0,
    {
        ExecutionResult { renamed: 0, skipped: 0, failed: 0 }
    }

    /// Records one performed rename.
    pub fn record_renamed(&mut self)
        ensures
            final(self).renamed == bumped(old(self).renamed),
            final(self).skipped == old(self).skipped,
            final(self).failed == old(self).failed,
    {
        if self.renamed < u64::MAX {
            self.renamed = self.renamed + 1;
        }
    }

    /// Records one skipped entry (a no-op or a declined overwrite).
    pub fn record_skipped(&mut self)
        ensures
            final(self).skipped == bumped(old(self).skipped),
            final(self).renamed == old(self).renamed,
            final(self).failed == old(self).failed,
    {
        if self.skipped < u64::MAX {
            self.skipped = self.skipped + 1;
        }
    }

    /// Records one failed rename.
    pub fn record_failed(&mut self)
        ensures
            final(self).failed == bumped(old(self).failed),
            final(self).renamed == old(self).renamed,
            final(self).skipped == old(self).skipped,
    {
        if self.failed < u64::MAX {
            self.failed = self.failed + 1;
        }
    }

    /// Whether the run succeeded: no rename failed. A declined overwrite is
    /// a planned skip, not a failure.
    pub fn succeeded(&self) -> (r: bool)
        ensures
            r == (self.failed == 0),
    {
        self.failed == 0
    }

    /// The process exit status the run calls for: zero on full success, one
    /// on any failure.
    pub fn exit_code(&self) -> (r: i32)
        ensures
            r == if self.failed == 0 {
                0int
            } else {
                1int
            },
    {
        if self.failed == 0 {
            0
        } else {
            1
        }
    }
}

/// A plan in which every entry is a no-op is executed without a single
/// report line or filesystem call: under any policy, the step for every
/// entry is `SkipNoop`.
pub proof fn noop_plan_is_skipped_entirely(plan: RenamePlan, policy: ExecutionPolicy)
    requires
        forall|i: int|
            0 <= i < plan.entries@.len() ==> plan.entries@[i].original@
                == plan.entries@[i].proposed@,
    ensures
        forall|i: int|
            0 <= i < plan.entries@.len() ==> entry_step(
                plan.entries@[i].original@,
                plan.entries@[i].proposed@,
                policy,
            ) == EntryStep::SkipNoop,
{
}

} // verus!

