use vstd::prelude::*;

use crate::text::eq_str;

verus! {

/// What `str::to_lowercase` makes of a text.
pub uninterp spec fn lower_of(s: Seq<char>) -> Seq<char>;

/// Relies on `str::to_lowercase`: the result depends on the characters
/// alone, and the empty text stays empty.
#[verifier::external_body]
fn lowercase(s: &str) -> (r: String)
    ensures
        r@ == lower_of(s@),
        s@.len() == 0 ==> r@.len() == 0,
{
    s.to_lowercase()
}

/// The badge shown for a problem or for one submission.
#[derive(PartialEq, Eq, Structural, Debug, Clone, Copy)]
pub enum BadgeKind {
    /// Nothing submitted, or no status recorded.
    Unsubmitted,
    /// Accepted.
    Done,
    /// Still being checked; the page refreshes.
    Checking,
    /// Rejected.
    Failed,
    /// A status text this library does not know.
    Unknown,
}

/// Badge of one lowercased status text.
pub open spec fn kind_of_lower(s: Seq<char>) -> BadgeKind {
    if s == "ac"@ {
        BadgeKind::Done
    } else if s == "wa"@ {
        BadgeKind::Failed
    } else if s == "pending"@ {
        BadgeKind::Checking
    } else {
        BadgeKind::Unknown
    }
}

/// Badge of a problem from the lowercased statuses of its submissions: done
/// if any was accepted, else checking if any is pending, else failed if any
/// was rejected; unsubmitted with no submission at all.
pub open spec fn problem_kind(lower: Seq<Seq<char>>, submitted: bool) -> BadgeKind {
    if !submitted {
        BadgeKind::Unsubmitted
    } else if lower.contains("ac"@) {
        BadgeKind::Done
    } else if lower.contains("pending"@) {
        BadgeKind::Checking
    } else if lower.contains("wa"@) {
        BadgeKind::Failed
    } else {
        BadgeKind::Unknown
    }
}

/// The recorded statuses among `statuses`, lowercased.
pub open spec fn lowered(statuses: Seq<Option<String>>) -> Seq<Seq<char>>
    decreases statuses.len(),
{
    if statuses.len() == 0 {
        Seq::empty()
    } else {
        let init = lowered(statuses.drop_last());
        match statuses.last() {
            Some(s) => init.push(lower_of(s@)),
            None => init,
        }
    }
}

pub open spec fn views(v: Seq<String>) -> Seq<Seq<char>> {
    v.map_values(|s: String| s@)
}

fn contains_text(v: &Vec<String>, t: &str) -> (r: bool)
    ensures
        r == views(v@).contains(t@),
{
    let mut i: usize = 0;
    while i < v.len()
        invariant
            i <= v@.len(),
            forall|j: int| 0 <= j < i ==> v@[j]@ != t@,
        decreases v@.len() - i,
    {
        if eq_str(v[i].as_str(), t) {
            assert(views(v@)[i as int] == t@);
            return true;
        }
        i = i + 1;
    }
    assert(!views(v@).contains(t@)) by {
        if views(v@).contains(t@) {
            let k = choose|k: int| 0 <= k < views(v@).len() && views(v@)[k] == t@;
            assert(v@[k]@ == t@);
        }
    }
    false
}

/// Badge of a problem, given the lowercased recorded statuses of its
/// submissions and whether it has any submission.
pub fn problem_badge_of_lower(lower: &Vec<String>, submitted: bool) -> (r: BadgeKind)
    ensures
        r == problem_kind(views(lower@), submitted),
{
    if !submitted {
        BadgeKind::Unsubmitted
    } else if contains_text(lower, "ac") {
        BadgeKind::Done
    } else if contains_text(lower, "pending") {
        BadgeKind::Checking
    } else if contains_text(lower, "wa") {
        BadgeKind::Failed
    } else {
        BadgeKind::Unknown
    }
}

/// Badge of a problem from the statuses of the user's submissions to it
/// (`None` where a row has no status); statuses compare case-insensitively.
pub fn badge(statuses: &Vec<Option<String>>) -> (r: BadgeKind)
    ensures
        r == problem_kind(lowered(statuses@), statuses@.len() > 0),
{
    let mut lower: Vec<String> = Vec::new();
    let mut i: usize = 0;
    while i < statuses.len()
        invariant
            i <= statuses@.len(),
            views(lower@) == lowered(statuses@.take(i as int)),
        decreases statuses@.len() - i,
    {
        assert(statuses@.take(i + 1).drop_last() =~= statuses@.take(i as int));
        match &statuses[i] {
            Some(s) => {
                lower.push(lowercase(s.as_str()));
            },
            None => {},
        }
        i = i + 1;
        assert(views(lower@) =~= lowered(statuses@.take(i as int)));
    }
    assert(statuses@.take(statuses@.len() as int) =~= statuses@);
    problem_badge_of_lower(&lower, statuses.len() > 0)
}

/// Badge of one submission from its lowercased status.
pub fn solution_badge_of_lower(lower: &str) -> (r: BadgeKind)
    ensures
        r == kind_of_lower(lower@),
{
    if eq_str(lower, "ac") {
        BadgeKind::Done
    } else if eq_str(lower, "wa") {
        BadgeKind::Failed
    } else if eq_str(lower, "pending") {
        BadgeKind::Checking
    } else {
        BadgeKind::Unknown
    }
}

/// Badge of one submission from its status, compared case-insensitively;
/// unsubmitted when no status is recorded.
pub fn solution_badge(status: &Option<String>) -> (r: BadgeKind)
    ensures
        r == match status {
            Some(s) => kind_of_lower(lower_of(s@)),
            None => BadgeKind::Unsubmitted,
        },
{
    match status {
        Some(s) => {
            let lower = lowercase(s.as_str());
            solution_badge_of_lower(lower.as_str())
        },
        None => BadgeKind::Unsubmitted,
    }
}

/// One submission as the status page lists it.
pub struct Solution {
    pub id: i64,
    pub stdout: Option<String>,
    pub stderr: Option<String>,
    pub should_refresh: bool,
}

impl Solution {
    /// A listed submission; the page refreshes while no output is recorded.
    pub fn from_row(id: i64, stdout: Option<String>, stderr: Option<String>) -> (r: Solution)
        ensures
            r.id == id,
            r.stdout == stdout,
            r.stderr == stderr,
            r.should_refresh == stdout is None,
    {
        let should_refresh = stdout.is_none();
        Solution { id, stdout, stderr, should_refresh }
    }
}

impl BadgeKind {
    /// Label of the badge.
    pub fn text(&self) -> (r: &'static str)
        ensures
            r@ == match self {
                BadgeKind::Unsubmitted => "未完了"@,
                BadgeKind::Done => "完了"@,
                BadgeKind::Checking => "チェック"@,
                BadgeKind::Failed => "失敗"@,
                BadgeKind::Unknown => "不明"@,
            },
    {
        match self {
            BadgeKind::Unsubmitted => "未完了",
            BadgeKind::Done => "完了",
            BadgeKind::Checking => "チェック",
            BadgeKind::Failed => "失敗",
            BadgeKind::Unknown => "不明",
        }
    }

    /// Style classes of the badge.
    pub fn color(&self) -> (r: &'static str)
        ensures
            r@ == match self {
                BadgeKind::Unsubmitted => "text-bg-light"@,
                BadgeKind::Done => "text-bg-success"@,
                BadgeKind::Checking => "text-bg-warning"@,
                BadgeKind::Failed => "text-bg-danger"@,
                BadgeKind::Unknown => "badge text-bg-secondary"@,
            },
    {
        match self {
            BadgeKind::Unsubmitted => "text-bg-light",
            BadgeKind::Done => "text-bg-success",
            BadgeKind::Checking => "text-bg-warning",
            BadgeKind::Failed => "text-bg-danger",
            BadgeKind::Unknown => "badge text-bg-secondary",
        }
    }

    /// Whether a page showing the badge refreshes itself: while checking.
    pub fn should_refresh(&self) -> (r: bool)
        ensures
            r == (*self == BadgeKind::Checking),
    {
        match self {
            BadgeKind::Checking => true,
            _ => false,
        }
    }
}

} // verus!
