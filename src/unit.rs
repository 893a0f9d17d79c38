use vstd::prelude::*;
use vstd::string::*;

use crate::problems::{Problem, ProblemsInfo};
use crate::submission::{decimal, decimal_text, decode_lossy, lossy_utf8, Record, Verdict};

verus! {

/// Name of the submitted program inside the workspace.
pub const SOURCE_FILE: &'static str = "main.c";

/// Name of the build/check recipe inside the workspace.
pub const RECIPE_FILE: &'static str = "default.nix";

/// The build/check recipe, the same for every submission: build the program,
/// then run the problem's `judge.sh` from the fixtures against it.
pub const RECIPE: &'static str = "{ pkgs ? import <nixpkgs> {} }:\npkgs.stdenv.mkDerivation {\n  name = \"check\";\n  src = ./.;\n  buildPhase = \"cc -O2 -o main main.c\";\n  doCheck = true;\n  checkPhase = \"sh ./judge.sh ./main\";\n  installPhase = \"mkdir -p $out && cp main $out/\";\n}\n";

/// Wall-clock limit of one container run, in seconds.
pub const TIMEOUT_SECS: u64 = 300;

/// Diagnostic for a submission id with no row in the store.
pub const MISSING_SUBMISSION: &'static str = "submission not found";

/// The row of a submission that the pipeline reads.
pub struct SubmissionRow {
    pub content: String,
    pub problem_id: String,
}

/// A workspace to build: the program, the constant recipe and the entries of
/// the fixture directory, copied under their own names.
pub struct SandboxPlan {
    pub source: String,
    pub fixture_dir: String,
}

/// What the container run gave: exit code (`None` when killed by a signal)
/// and the raw output streams.
pub struct RunOutput {
    pub exit_code: Option<i32>,
    pub stdout: Vec<u8>,
    pub stderr: Vec<u8>,
}

/// Stages of one submission's processing.
#[derive(PartialEq, Eq, Structural, Debug, Clone, Copy)]
pub enum Stage {
    Fetching,
    Preparing,
    Running,
    Recording,
    Done,
}

/// What the caller performs next for a unit.
pub enum UnitAction {
    /// Create a fresh workspace as planned, and report with `on_prepared`.
    Prepare(SandboxPlan),
    /// Run this command line (program first), and report with `on_ran`.
    Run(Vec<String>),
    /// Write this record for the unit's id in one update, then `on_persisted`.
    Persist(Record),
    /// Remove the workspace, if any, and release the permit.
    Finish,
}

/// Stages that may follow one another.
pub open spec fn may_follow(a: Stage, b: Stage) -> bool {
    match a {
        Stage::Fetching => b == Stage::Preparing || b == Stage::Recording,
        Stage::Preparing => b == Stage::Running || b == Stage::Recording,
        Stage::Running => b == Stage::Recording,
        Stage::Recording => b == Stage::Done,
        Stage::Done => false,
    }
}

/// A run of stages that the unit can go through, step by step.
pub open spec fn is_run(p: Seq<Stage>) -> bool {
    forall|i: int| 0 <= i < p.len() - 1 ==> may_follow(#[trigger] p[i], p[i + 1])
}

/// Number of positions of `p` that hold `s`.
pub open spec fn count_stage(p: Seq<Stage>, s: Stage) -> nat
    decreases p.len(),
{
    if p.len() == 0 {
        0
    } else {
        count_stage(p.drop_last(), s) + if p.last() == s { 1nat } else { 0nat }
    }
}

/// The command line of one container run on `workspace`.
pub open spec fn container_command(workspace: Seq<char>, memory_limit: nat) -> Seq<Seq<char>> {
    seq![
        "timeout"@, "--signal=KILL"@, "300"@,
        "docker"@, "run"@, "--init"@, "--rm"@,
        "--memory"@, decimal(memory_limit),
        "-v"@, workspace + ":/check"@,
        "ghcr.io/nixos/nix"@, "nix-build"@, "/check"@
    ]
}

pub open spec fn strings(v: Seq<String>) -> Seq<Seq<char>> {
    v.map_values(|s: String| s@)
}

/// Record of a unit that failed before the recipe gave an exit status.
pub open spec fn failure(r: Record, diagnostic: Seq<char>) -> bool {
    &&& r.verdict == Verdict::Rejected
    &&& r.stdout@.len() == 0
    &&& r.stderr@ == diagnostic
}

/// The verdict of a finished run: accepted exactly when the recipe exited 0.
pub open spec fn verdict_of(exit_code: Option<i32>) -> Verdict {
    if exit_code == Some(0i32) {
        Verdict::Accepted
    } else {
        Verdict::Rejected
    }
}

fn failure_record(diagnostic: String) -> (r: Record)
    ensures
        failure(r, diagnostic@),
{
    Record { verdict: Verdict::Rejected, stdout: String::new(), stderr: diagnostic }
}

/// The command line that runs the recipe of `workspace` in a container,
/// killed after `TIMEOUT_SECS` seconds, with `memory_limit` bytes of memory.
pub fn build_command(workspace: &str, memory_limit: u64) -> (r: Vec<String>)
    ensures
        strings(r@) == container_command(workspace@, memory_limit as nat),
{
    let mut r: Vec<String> = Vec::new();
    r.push(String::from_str("timeout"));
    r.push(String::from_str("--signal=KILL"));
    r.push(decimal_text(TIMEOUT_SECS));
    r.push(String::from_str("docker"));
    r.push(String::from_str("run"));
    r.push(String::from_str("--init"));
    r.push(String::from_str("--rm"));
    r.push(String::from_str("--memory"));
    r.push(decimal_text(memory_limit));
    r.push(String::from_str("-v"));
    r.push(String::from_str(workspace).concat(":/check"));
    r.push(String::from_str("ghcr.io/nixos/nix"));
    r.push(String::from_str("nix-build"));
    r.push(String::from_str("/check"));
    proof {
        reveal_strlit("300");
        assert(decimal(3) =~= seq!['3']);
        assert(decimal(30) =~= seq!['3', '0']);
        assert(decimal(300) =~= "300"@);
        assert(strings(r@) =~= container_command(workspace@, memory_limit as nat));
    }
    r
}

/// One submission in flight: its id and the stage it has reached.
pub struct Unit {
    pub id: i64,
    pub stage: Stage,
}

impl Unit {
    /// A unit for submission `id`; the caller first fetches its row and
    /// reports it with `on_fetched`.
    pub fn new(id: i64) -> (r: Unit)
        ensures
            r.id == id,
            r.stage == Stage::Fetching,
    {
        Unit { id, stage: Stage::Fetching }
    }

    /// Handles the fetched row. A missing row, or a problem id the catalog
    /// does not resolve, goes straight to recording a rejection with a
    /// diagnostic; otherwise the workspace is planned from the row's content
    /// and the problem's fixture directory under `problems_dir`.
    pub fn on_fetched(
        &mut self,
        row: Option<SubmissionRow>,
        catalog: &ProblemsInfo,
        problems_dir: &str,
    ) -> (a: UnitAction)
        requires
            old(self).stage == Stage::Fetching,
        ensures
            final(self).id == old(self).id,
            may_follow(old(self).stage, final(self).stage),
            match row {
                None => {
                    &&& final(self).stage == Stage::Recording
                    &&& a matches UnitAction::Persist(r) && failure(r, MISSING_SUBMISSION@)
                },
                Some(row) => if !catalog.contains_id(row.problem_id@) {
                    &&& final(self).stage == Stage::Recording
                    &&& a matches UnitAction::Persist(r)
                        && failure(r, "problem not found: "@ + row.problem_id@)
                } else {
                    &&& final(self).stage == Stage::Preparing
                    &&& a matches UnitAction::Prepare(plan) && plan.source@ == row.content@
                        && exists|i: int| catalog.first_index(row.problem_id@, i)
                        && plan.fixture_dir@ == problems_dir@ + "/"@ + catalog.problem@[i].dir@
                },
            },
    {
        match row {
            None => {
                self.stage = Stage::Recording;
                UnitAction::Persist(failure_record(String::from_str(MISSING_SUBMISSION)))
            },
            Some(row) => match Problem::by_id(catalog, row.problem_id.as_str()) {
                Err(_) => {
                    self.stage = Stage::Recording;
                    let diagnostic = String::from_str("problem not found: ").concat(
                        row.problem_id.as_str(),
                    );
                    UnitAction::Persist(failure_record(diagnostic))
                },
                Ok(problem) => {
                    self.stage = Stage::Preparing;
                    let fixture_dir = String::from_str(problems_dir).concat("/").concat(
                        problem.dir.as_str(),
                    );
                    UnitAction::Prepare(SandboxPlan { source: row.content, fixture_dir })
                },
            },
        }
    }

    /// Handles the outcome of preparing the workspace: its path, or the text
    /// of the I/O error that stopped it.
    pub fn on_prepared(&mut self, prepared: Result<String, String>, memory_limit: u64) -> (a:
        UnitAction)
        requires
            old(self).stage == Stage::Preparing,
        ensures
            final(self).id == old(self).id,
            may_follow(old(self).stage, final(self).stage),
            match prepared {
                Ok(workspace) => {
                    &&& final(self).stage == Stage::Running
                    &&& a matches UnitAction::Run(cmd)
                        && strings(cmd@) == container_command(workspace@, memory_limit as nat)
                },
                Err(e) => {
                    &&& final(self).stage == Stage::Recording
                    &&& a matches UnitAction::Persist(r) && failure(r, "sandbox: "@ + e@)
                },
            },
    {
        match prepared {
            Ok(workspace) => {
                self.stage = Stage::Running;
                UnitAction::Run(build_command(workspace.as_str(), memory_limit))
            },
            Err(e) => {
                self.stage = Stage::Recording;
                UnitAction::Persist(failure_record(String::from_str("sandbox: ").concat(e.as_str())))
            },
        }
    }

    /// Handles the end of the container run: the run's output, or the text
    /// of the error that kept it from giving an exit status (launch failure,
    /// kill on timeout). Exit code 0 is accepted, anything else rejected; the
    /// output streams are recorded as they came, decoded lossily.
    pub fn on_ran(&mut self, ran: Result<RunOutput, String>) -> (a: UnitAction)
        requires
            old(self).stage == Stage::Running,
        ensures
            final(self).id == old(self).id,
            final(self).stage == Stage::Recording,
            may_follow(old(self).stage, final(self).stage),
            match ran {
                Ok(out) => a matches UnitAction::Persist(r)
                    && r.verdict == verdict_of(out.exit_code)
                    && r.stdout@ == lossy_utf8(out.stdout@)
                    && r.stderr@ == lossy_utf8(out.stderr@),
                Err(e) => a matches UnitAction::Persist(r) && failure(r, "container: "@ + e@),
            },
    {
        self.stage = Stage::Recording;
        match ran {
            Ok(out) => {
                let verdict = if out.exit_code == Some(0i32) {
                    Verdict::Accepted
                } else {
                    Verdict::Rejected
                };
                let stdout = decode_lossy(&out.stdout);
                let stderr = decode_lossy(&out.stderr);
                UnitAction::Persist(Record { verdict, stdout, stderr })
            },
            Err(e) => UnitAction::Persist(
                failure_record(String::from_str("container: ").concat(e.as_str())),
            ),
        }
    }

    /// Called once the record was written, or its write failed (the row then
    /// stays pending, for an outside re-drive); the unit ends.
    pub fn on_persisted(&mut self) -> (a: UnitAction)
        requires
            old(self).stage == Stage::Recording,
        ensures
            final(self).id == old(self).id,
            final(self).stage == Stage::Done,
            may_follow(old(self).stage, final(self).stage),
            a is Finish,
    {
        self.stage = Stage::Done;
        UnitAction::Finish
    }
}

proof fn lemma_count_prefix(p: Seq<Stage>, k: int)
    requires
        is_run(p),
        p.len() > 0,
        p[0] == Stage::Fetching,
        1 <= k <= p.len(),
    ensures
        count_stage(p.take(k), Stage::Recording) == if p[k - 1] == Stage::Recording || p[k
            - 1] == Stage::Done {
            1nat
        } else {
            0nat
        },
    decreases k,
{
    let q = p.take(k);
    assert(q.drop_last() =~= p.take(k - 1));
    assert(q.last() == p[k - 1]);
    assert(count_stage(q, Stage::Recording) == count_stage(p.take(k - 1), Stage::Recording) + if p[k
        - 1] == Stage::Recording {
        1nat
    } else {
        0nat
    });
    if k == 1 {
        assert(count_stage(p.take(0), Stage::Recording) == 0);
    } else {
        lemma_count_prefix(p, k - 1);
        assert(may_follow(p[k - 2], p[k - 1]));
    }
}

/// A unit records its verdict exactly once: every run of stages from
/// `Fetching` to `Done` passes through `Recording`, the stage whose entry
/// hands out the one `Persist` action, exactly once.
pub proof fn lemma_one_record(p: Seq<Stage>)
    requires
        is_run(p),
        p.len() > 0,
        p[0] == Stage::Fetching,
        p.last() == Stage::Done,
    ensures
        count_stage(p, Stage::Recording) == 1,
{
    lemma_count_prefix(p, p.len() as int);
    assert(p.take(p.len() as int) =~= p);
}

/// Once a unit records (as it does at once when its problem does not
/// resolve), it never reaches the container: only `Recording` and `Done`
/// follow.
pub proof fn lemma_recording_never_runs(p: Seq<Stage>)
    requires
        is_run(p),
        p.len() > 0,
        p[0] == Stage::Recording,
    ensures
        forall|i: int| 0 <= i < p.len() ==> #[trigger] p[i] == Stage::Recording || p[i] == Stage::Done,
        forall|i: int| 0 <= i < p.len() ==> #[trigger] p[i] != Stage::Running,
{
    assert forall|i: int| 0 <= i < p.len() implies #[trigger] p[i] == Stage::Recording || p[i]
        == Stage::Done by {
        lemma_run_after_recording(p, i);
    }
}

proof fn lemma_run_after_recording(p: Seq<Stage>, i: int)
    requires
        is_run(p),
        p.len() > 0,
        p[0] == Stage::Recording,
        0 <= i < p.len(),
    ensures
        p[i] == Stage::Recording || p[i] == Stage::Done,
    decreases i,
{
    if i > 0 {
        lemma_run_after_recording(p, i - 1);
        assert(may_follow(p[i - 1], p[i]));
    }
}

} // verus!
