//! Workspace-level processing: the classification decision of each member,
//! the ordered record of per-member outcomes, and the one aggregate verdict.
//! A member's failure never touches its siblings: every member gets exactly
//! one outcome and the verdict is failure exactly when some member failed.

use vstd::prelude::*;
use vstd::string::StringExecFns;
use crate::errors::MalformedDriverConfig;
use crate::manifest::DriverConfigOutcome;
use crate::manifest::DriverMetadata;
use crate::pipeline::FailureCause;
use crate::pipeline::PackageOutcome;
use crate::pipeline::Stage;
use crate::text::quoted_args;
use crate::text::quoted_args_seq;

verus! {

/// What the orchestrator does with one discovered member.
#[derive(Debug)]
pub enum MemberDecision {
    /// Not a driver: record the reason and touch nothing.
    Skip(String),
    /// The driver-kit section is present but unreadable: the member fails at
    /// classification and nothing runs for it.
    FailClassification(MalformedDriverConfig),
    /// A classified driver: the packaging pipeline runs on this metadata.
    BuildDriver(DriverMetadata),
}

/// Whether a decision leads to any provider operation at all. Only a driver
/// decision starts a pipeline; skipping and classification failure issue
/// nothing, so no compiler invocation can happen for those members.
pub open spec fn issues_operations(d: MemberDecision) -> bool {
    d is BuildDriver
}

/// The relation between a member's configuration outcome and the decision
/// taken on it.
pub open spec fn decision_for(
    name: Seq<char>,
    config: DriverConfigOutcome,
    d: MemberDecision,
) -> bool {
    match config {
        DriverConfigOutcome::Absent => d matches MemberDecision::Skip(m) && m@
            == "No package.metadata.wdk section found. Skipping driver package workflow for package: "@
            + name,
        DriverConfigOutcome::Malformed(e) => d == MemberDecision::FailClassification(e),
        DriverConfigOutcome::Parsed(md) => d == MemberDecision::BuildDriver(md),
    }
}

/// Decides what to do with one member from its driver-kit configuration: an
/// absent section skips the member, a malformed one fails it at the
/// classification stage, a parsed one sends it into the pipeline.
pub fn classify_member(name: &str, config: DriverConfigOutcome) -> (d: MemberDecision)
    ensures
        decision_for(name@, config, d),
        config is Absent ==> !issues_operations(d),
        config is Malformed ==> !issues_operations(d),
{
    match config {
        DriverConfigOutcome::Absent => {
            let mut m = String::from_str(
                "No package.metadata.wdk section found. Skipping driver package workflow for package: ",
            );
            m.append(name);
            MemberDecision::Skip(m)
        },
        DriverConfigOutcome::Malformed(e) => MemberDecision::FailClassification(e),
        DriverConfigOutcome::Parsed(md) => MemberDecision::BuildDriver(md),
    }
}

/// A member that lacks the driver-kit configuration section is skipped, and
/// a skipped member issues no provider operation — in particular the
/// compiler is never invoked for it.
pub proof fn lemma_absent_member_is_skipped(
    name: Seq<char>,
    config: DriverConfigOutcome,
    d: MemberDecision,
)
    requires
        config is Absent,
        decision_for(name, config, d),
    ensures
        d is Skip,
        !issues_operations(d),
{
}

impl FailureCause {
    /// What `message` returns, as a sequence.
    pub open spec fn message_seq(&self) -> Seq<char> {
        match self {
            FailureCause::Command(e) => e.message_seq(),
            FailureCause::File(e) => e.message_seq(),
            FailureCause::Metadata(e) => "Error Parsing WDK metadata from Cargo.toml: "@
                + e.reason@,
        }
    }

    /// The human-readable description of the cause.
    pub fn message(&self) -> (r: String)
        ensures
            r@ == self.message_seq(),
    {
        match self {
            FailureCause::Command(e) => e.message(),
            FailureCause::File(e) => e.message(),
            FailureCause::Metadata(e) => e.message(),
        }
    }
}

/// One member's name and final outcome.
#[derive(Debug)]
pub struct MemberRecord {
    pub name: String,
    pub outcome: PackageOutcome,
}

/// The names of the failed members, in record order.
pub open spec fn failed_names_of(rs: Seq<MemberRecord>) -> Seq<Seq<char>>
    decreases rs.len(),
{
    if rs.len() == 0 {
        Seq::<Seq<char>>::empty()
    } else {
        failed_names_of(rs.drop_last()) + (if rs.last().outcome is Failed {
            seq![rs.last().name@]
        } else {
            Seq::<Seq<char>>::empty()
        })
    }
}

/// Whether every member came through without failure.
pub open spec fn all_succeeded_or_skipped(rs: Seq<MemberRecord>) -> bool {
    forall|i: int| 0 <= i < rs.len() ==> !((#[trigger] rs[i]).outcome is Failed)
}

/// The failed names are exactly the names of the failed records, kept in
/// order: every failed member appears and nothing else does.
pub proof fn lemma_failed_names_exact(rs: Seq<MemberRecord>)
    ensures
        failed_names_of(rs) =~= rs.filter(|m: MemberRecord| m.outcome is Failed)
            .map_values(|m: MemberRecord| m.name@),
        failed_names_of(rs).len() == 0 <==> all_succeeded_or_skipped(rs),
    decreases rs.len(),
{
    reveal(Seq::filter);
    if rs.len() == 0 {
    } else {
        lemma_failed_names_exact(rs.drop_last());
        assert(rs.drop_last().push(rs.last()) =~= rs);
        if !all_succeeded_or_skipped(rs) && failed_names_of(rs).len() == 0 {
            let i = choose|i: int|
                0 <= i < rs.len() && (#[trigger] rs[i]).outcome is Failed;
            if i < rs.len() - 1 {
                assert(rs.drop_last()[i].outcome is Failed);
                assert(!all_succeeded_or_skipped(rs.drop_last()));
            }
        }
    }
}

/// The ordered collection of every member's outcome for one invocation.
pub struct WorkspaceOutcome {
    pub working_dir: String,
    pub records: Vec<MemberRecord>,
}

impl WorkspaceOutcome {
    /// An empty collection for one working directory.
    pub fn new(working_dir: String) -> (r: WorkspaceOutcome)
        ensures
            r.working_dir@ == working_dir@,
            r.records@ =~= Seq::<MemberRecord>::empty(),
    {
        WorkspaceOutcome { working_dir, records: Vec::new() }
    }

    /// Appends the outcome of the member just processed.
    pub fn record(&mut self, name: String, outcome: PackageOutcome)
        ensures
            final(self).working_dir@ == old(self).working_dir@,
            final(self).records@.len() == old(self).records@.len() + 1,
            final(self).records@.drop_last() =~= old(self).records@,
            final(self).records@.last().name == name,
            final(self).records@.last().outcome == outcome,
    {
        self.records.push(MemberRecord { name, outcome });
        proof {
            assert(self.records@.drop_last() =~= old(self).records@);
        }
    }

    /// Whether the whole invocation succeeded: true exactly when no member
    /// failed. Skipped members never count against success.
    pub fn overall_success(&self) -> (r: bool)
        ensures
            r == all_succeeded_or_skipped(self.records@),
    {
        let mut i: usize = 0;
        while i < self.records.len()
            invariant
                0 <= i <= self.records@.len(),
                forall|j: int| 0 <= j < i ==> !((#[trigger] self.records@[j]).outcome
                    is Failed),
            decreases self.records@.len() - i,
        {
            if matches!(self.records[i].outcome, PackageOutcome::Failed(_, _)) {
                return false;
            }
            i += 1;
        }
        true
    }

    /// The process exit code: zero exactly on overall success.
    pub fn exit_code(&self) -> (r: i32)
        ensures
            (r == 0) == all_succeeded_or_skipped(self.records@),
            r == 0 || r == 1,
    {
        if self.overall_success() {
            0
        } else {
            1
        }
    }

    /// The names of the failed members, in record order.
    pub fn failed_package_names(&self) -> (r: Vec<String>)
        ensures
            r@.map_values(|n: String| n@) == failed_names_of(self.records@),
    {
        let mut out: Vec<String> = Vec::new();
        let mut i: usize = 0;
        proof {
            assert(self.records@.subrange(0, 0) =~= Seq::<MemberRecord>::empty());
            assert(out@.map_values(|n: String| n@) =~= failed_names_of(
                self.records@.subrange(0, 0),
            ));
        }
        while i < self.records.len()
            invariant
                0 <= i <= self.records@.len(),
                out@.map_values(|n: String| n@) =~= failed_names_of(
                    self.records@.subrange(0, i as int),
                ),
            decreases self.records@.len() - i,
        {
            let ghost prev = out@.map_values(|n: String| n@);
            if matches!(self.records[i].outcome, PackageOutcome::Failed(_, _)) {
                out.push(String::from_str(self.records[i].name.as_str()));
            }
            proof {
                let sub = self.records@.subrange(0, i + 1 as int);
                assert(sub.drop_last() =~= self.records@.subrange(0, i as int));
                assert(sub.last() == self.records@[i as int]);
                assert(out@.map_values(|n: String| n@) =~= failed_names_of(sub));
            }
            i += 1;
        }
        proof {
            assert(self.records@.subrange(0, self.records@.len() as int)
                =~= self.records@);
        }
        out
    }

    /// The per-member report line: a completion line naming the package, the
    /// skip reason itself, or a failure line naming the package and cause.
    pub fn report_line(name: &str, outcome: &PackageOutcome) -> (r: String)
        ensures
            (match outcome {
                PackageOutcome::Succeeded => r@
                    == "Processing completed for package: "@ + name@,
                PackageOutcome::Skipped(reason) => r@ == reason@,
                PackageOutcome::Failed(_, cause) => r@
                    == "Error packaging the child project: "@ + name@ + ", error: "@
                    + cause.message_seq(),
            }),
    {
        match outcome {
            PackageOutcome::Succeeded => {
                let mut m = String::from_str("Processing completed for package: ");
                m.append(name);
                m
            },
            PackageOutcome::Skipped(reason) => String::from_str(reason.as_str()),
            PackageOutcome::Failed(_, cause) => {
                let mut m = String::from_str("Error packaging the child project: ");
                m.append(name);
                m.append(", error: ");
                let detail = cause.message();
                m.append(detail.as_str());
                m
            },
        }
    }

    /// The one aggregate error of a failed invocation: nothing on success,
    /// else a message naming the working directory and every failed package.
    pub fn aggregate_error(&self) -> (r: Option<String>)
        ensures
            r is None <==> all_succeeded_or_skipped(self.records@),
            (match r {
                Some(m) => m@
                    == "One or more rust (possibly driver) projects failed to package in the working directory: "@
                    + self.working_dir@ + ", failed packages: "@ + quoted_args_seq(
                    failed_names_of(self.records@),
                ),
                None => true,
            }),
    {
        if self.overall_success() {
            return None;
        }
        let mut m = String::from_str(
            "One or more rust (possibly driver) projects failed to package in the working directory: ",
        );
        m.append(self.working_dir.as_str());
        m.append(", failed packages: ");
        let names = self.failed_package_names();
        let rendered = quoted_args(&names);
        m.append(rendered.as_str());
        Some(m)
    }
}

/// The outcome a decision leads to without running any operation: the
/// skip reason for non-drivers, the classification failure for malformed
/// configurations.
pub fn immediate_outcome(d: MemberDecision) -> (r: Result<DriverMetadata, PackageOutcome>)
    ensures
        (match d {
            MemberDecision::Skip(m) => r matches Err(o) && (o matches
                PackageOutcome::Skipped(msg) && msg == m),
            MemberDecision::FailClassification(e) => r matches Err(o) && (o matches
                PackageOutcome::Failed(g, c) && g == Stage::Classification && c
                == FailureCause::Metadata(e)),
            MemberDecision::BuildDriver(md) => r == Ok::<DriverMetadata, PackageOutcome>(
                md,
            ),
        }),
{
    match d {
        MemberDecision::Skip(m) => Err(PackageOutcome::Skipped(m)),
        MemberDecision::FailClassification(e) => Err(
            PackageOutcome::Failed(Stage::Classification, FailureCause::Metadata(e)),
        ),
        MemberDecision::BuildDriver(md) => Ok(md),
    }
}

} // verus!
