//! The report of all checks.

use crate::doctor::checks::{CheckResult, CheckStatus};
use crate::error::Error;
use vstd::prelude::*;
use vstd::string::StringExecFns;

verus! {

/// How many of the checks have the status.
pub open spec fn count_status(checks: Seq<CheckResult>, status: CheckStatus) -> nat
    decreases checks.len(),
{
    if checks.len() == 0 {
        0
    } else {
        count_status(checks.drop_last(), status) + if checks.last().status == status {
            1nat
        } else {
            0nat
        }
    }
}

/// Every check has one of the four statuses, so the four counts add up to
/// the number of checks.
pub proof fn lemma_counts_add_up(checks: Seq<CheckResult>)
    ensures
        count_status(checks, CheckStatus::Pass) + count_status(checks, CheckStatus::Warning)
            + count_status(checks, CheckStatus::Fail) + count_status(checks, CheckStatus::Critical)
            == checks.len(),
    decreases checks.len(),
{
    if checks.len() > 0 {
        lemma_counts_add_up(checks.drop_last());
    }
}

/// A status is counted exactly when a check has it.
pub proof fn lemma_count_is_zero(checks: Seq<CheckResult>, status: CheckStatus)
    ensures
        count_status(checks, status) == 0 <==> forall|i: int|
            0 <= i < checks.len() ==> (#[trigger] checks[i]).status != status,
    decreases checks.len(),
{
    if checks.len() > 0 {
        let init = checks.drop_last();
        lemma_count_is_zero(init, status);
        if count_status(checks, status) == 0 {
            assert forall|i: int| 0 <= i < checks.len() implies (#[trigger] checks[i]).status
                != status by {
                if i < checks.len() - 1 {
                    assert(init[i] == checks[i]);
                }
            }
        } else if count_status(init, status) != 0 {
            let i = choose|i: int| 0 <= i < init.len() && (#[trigger] init[i]).status == status;
            assert(checks[i].status == status);
        } else {
            assert(checks[checks.len() - 1].status == status);
        }
    }
}

/// The counts of a report.
#[derive(Debug, Clone, Copy, PartialEq, Eq, Structural)]
pub struct ReportSummary {
    /// The number of checks.
    pub total: usize,
    /// The number of checks that passed.
    pub passed: usize,
    /// The number of warnings.
    pub warnings: usize,
    /// The number of checks that failed.
    pub failed: usize,
    /// The number of critical failures.
    pub critical: usize,
}

impl Default for ReportSummary {
    fn default() -> (summary: ReportSummary)
        ensures
            summary == (ReportSummary { total: 0, passed: 0, warnings: 0, failed: 0, critical: 0 }),
    {
        ReportSummary { total: 0, passed: 0, warnings: 0, failed: 0, critical: 0 }
    }
}

/// What a report comes to.
#[derive(Debug, Clone, Copy, PartialEq, Eq, Structural)]
pub enum Verdict {
    /// Something critical is wrong.
    Critical,
    /// Some checks failed.
    Failed,
    /// The machine works; something optional is missing.
    Warnings,
    /// Every check passed.
    AllPassed,
}

impl ReportSummary {
    /// What the counts come to: the worst status that occurs decides.
    pub open spec fn spec_verdict(&self) -> Verdict {
        if self.critical > 0 {
            Verdict::Critical
        } else if self.failed > 0 {
            Verdict::Failed
        } else if self.warnings > 0 {
            Verdict::Warnings
        } else {
            Verdict::AllPassed
        }
    }

    /// What the counts come to: the worst status that occurs decides.
    pub fn verdict(&self) -> (verdict: Verdict)
        ensures
            verdict == self.spec_verdict(),
    {
        if self.critical > 0 {
            Verdict::Critical
        } else if self.failed > 0 {
            Verdict::Failed
        } else if self.warnings > 0 {
            Verdict::Warnings
        } else {
            Verdict::AllPassed
        }
    }
}

impl CheckStatus {
    /// The status in four letters, as a report shows it.
    pub open spec fn tag(&self) -> Seq<char> {
        match self {
            CheckStatus::Pass => "PASS"@,
            CheckStatus::Warning => "WARN"@,
            CheckStatus::Fail => "FAIL"@,
            CheckStatus::Critical => "CRIT"@,
        }
    }

    /// The status in four letters, as a report shows it.
    pub fn label(&self) -> (label: &'static str)
        ensures
            label@ == self.tag(),
    {
        match self {
            CheckStatus::Pass => "PASS",
            CheckStatus::Warning => "WARN",
            CheckStatus::Fail => "FAIL",
            CheckStatus::Critical => "CRIT",
        }
    }
}

/// The report of a run of the diagnostics.
#[derive(Debug)]
pub struct DoctorReport {
    /// The results, in the order in which they came.
    checks: Vec<CheckResult>,
}

impl View for DoctorReport {
    type V = Seq<CheckResult>;

    closed spec fn view(&self) -> Seq<CheckResult> {
        self.checks@
    }
}

impl DoctorReport {
    /// A report without results.
    pub fn new() -> (report: DoctorReport)
        ensures
            report@.len() == 0,
    {
        DoctorReport { checks: Vec::new() }
    }

    /// Adds a result at the end.
    pub fn add_check(&mut self, check: CheckResult)
        ensures
            final(self)@ == old(self)@.push(check),
    {
        self.checks.push(check);
    }

    /// The results, in the order in which they came.
    pub fn checks(&self) -> (checks: &Vec<CheckResult>)
        ensures
            checks@ == self@,
    {
        &self.checks
    }

    /// Tells whether one of the checks ended as critical.
    pub fn has_critical_failures(&self) -> (critical: bool)
        ensures
            critical == exists|i: int|
                0 <= i < self@.len() && (#[trigger] self@[i]).status == CheckStatus::Critical,
            critical == (count_status(self@, CheckStatus::Critical) > 0),
    {
        let mut i: usize = 0;
        while i < self.checks.len()
            invariant
                i <= self.checks@.len(),
                forall|j: int|
                    0 <= j < i ==> (#[trigger] self.checks@[j]).status != CheckStatus::Critical,
            decreases self.checks@.len() - i,
        {
            match self.checks[i].status {
                CheckStatus::Critical => {
                    proof {
                        lemma_count_is_zero(self.checks@, CheckStatus::Critical);
                        assert(self.checks@[i as int].status == CheckStatus::Critical);
                    }
                    return true;
                },
                _ => {},
            }
            i = i + 1;
        }
        proof {
            lemma_count_is_zero(self.checks@, CheckStatus::Critical);
        }
        false
    }

    /// Counts the checks, and those of each status.
    pub fn summary(&self) -> (summary: ReportSummary)
        ensures
            summary.total == self@.len(),
            summary.passed == count_status(self@, CheckStatus::Pass),
            summary.warnings == count_status(self@, CheckStatus::Warning),
            summary.failed == count_status(self@, CheckStatus::Fail),
            summary.critical == count_status(self@, CheckStatus::Critical),
    {
        let mut summary = ReportSummary::default();
        let mut i: usize = 0;
        proof {
            assert(self.checks@.take(0) =~= Seq::<CheckResult>::empty());
        }
        while i < self.checks.len()
            invariant
                i <= self.checks@.len(),
                summary.passed == count_status(self.checks@.take(i as int), CheckStatus::Pass),
                summary.warnings == count_status(self.checks@.take(i as int), CheckStatus::Warning),
                summary.failed == count_status(self.checks@.take(i as int), CheckStatus::Fail),
                summary.critical == count_status(
                    self.checks@.take(i as int),
                    CheckStatus::Critical,
                ),
            decreases self.checks@.len() - i,
        {
            proof {
                assert(self.checks@.take(i + 1).drop_last() == self.checks@.take(i as int));
                assert(self.checks@.take(i + 1).last() == self.checks@[i as int]);
                lemma_counts_add_up(self.checks@.take(i as int));
            }
            match self.checks[i].status {
                CheckStatus::Pass => {
                    summary.passed = summary.passed + 1;
                },
                CheckStatus::Warning => {
                    summary.warnings = summary.warnings + 1;
                },
                CheckStatus::Fail => {
                    summary.failed = summary.failed + 1;
                },
                CheckStatus::Critical => {
                    summary.critical = summary.critical + 1;
                },
            }
            i = i + 1;
        }
        proof {
            assert(self.checks@.take(i as int) == self.checks@);
        }
        summary.total = self.checks.len();
        summary
    }

    /// The result of the diagnostics: an error as soon as one check ended as
    /// critical.
    pub fn to_result(&self) -> (r: Result<(), Error>)
        ensures
            r is Err <==> exists|i: int|
                0 <= i < self@.len() && (#[trigger] self@[i]).status == CheckStatus::Critical,
            r is Err ==> r->Err_0 is Config && r->Err_0.text()
                == "Critical system checks failed. See diagnostics above."@,
    {
        if self.has_critical_failures() {
            Err(
                Error::Config(
                    String::from_str("Critical system checks failed. See diagnostics above."),
                ),
            )
        } else {
            Ok(())
        }
    }
}

impl Default for DoctorReport {
    fn default() -> (report: DoctorReport)
        ensures
            report@.len() == 0,
    {
        DoctorReport::new()
    }
}

} // verus!
