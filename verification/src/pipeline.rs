//! The per-driver-package packaging pipeline as an explicit state machine.
//! The stages run strictly in order — build, stamp, catalog, sign, package —
//! each entered only when the one before succeeded; the first failure is
//! terminal and records the stage in progress. The machine itself performs
//! nothing: it hands out one provider operation at a time and consumes the
//! result, and a ghost history records every state that issued an operation.

use vstd::prelude::*;
use vstd::string::StringExecFns;
use crate::errors::CommandError;
use crate::errors::FileError;
use crate::errors::MalformedDriverConfig;
use crate::plan::CommandPlan;
use crate::plan::PackagePlan;
use crate::provider::ProviderEvent;
use crate::provider::ProviderOp;

verus! {

/// The pipeline stage a member is in when it fails.
#[derive(Debug, Clone, Copy, PartialEq, Eq, Structural)]
pub enum Stage {
    Classification,
    Build,
    Stamp,
    Catalog,
    Sign,
    Package,
}

/// The order of the stages.
pub open spec fn stage_rank(s: Stage) -> nat {
    match s {
        Stage::Classification => 0,
        Stage::Build => 1,
        Stage::Stamp => 2,
        Stage::Catalog => 3,
        Stage::Sign => 4,
        Stage::Package => 5,
    }
}

/// What went wrong in a failed stage.
#[derive(Debug, Clone)]
pub enum FailureCause {
    Command(CommandError),
    File(FileError),
    Metadata(MalformedDriverConfig),
}

/// The one outcome every discovered member ends in.
#[derive(Debug)]
pub enum PackageOutcome {
    Skipped(String),
    Succeeded,
    Failed(Stage, FailureCause),
}

/// One step of the pipeline, fine enough that each asks for exactly one
/// provider operation.
#[derive(Debug, Clone, Copy, PartialEq, Eq, Structural)]
pub enum PipelineStep {
    RunBuild,
    CheckBinary,
    CopyInfTemplate,
    RunStamp,
    RunCatalog,
    CheckCert,
    GenerateCert,
    ImportCert,
    SignBinary,
    SignCatalog,
    VerifyBinary,
    VerifyCatalog,
    CreatePackageDir,
    CopyArtifact(usize),
}

/// The stage a step belongs to.
pub open spec fn stage_of_step(s: PipelineStep) -> Stage {
    match s {
        PipelineStep::RunBuild => Stage::Build,
        PipelineStep::CheckBinary => Stage::Build,
        PipelineStep::CopyInfTemplate => Stage::Stamp,
        PipelineStep::RunStamp => Stage::Stamp,
        PipelineStep::RunCatalog => Stage::Catalog,
        PipelineStep::CheckCert => Stage::Sign,
        PipelineStep::GenerateCert => Stage::Sign,
        PipelineStep::ImportCert => Stage::Sign,
        PipelineStep::SignBinary => Stage::Sign,
        PipelineStep::SignCatalog => Stage::Sign,
        PipelineStep::VerifyBinary => Stage::Sign,
        PipelineStep::VerifyCatalog => Stage::Sign,
        PipelineStep::CreatePackageDir => Stage::Package,
        PipelineStep::CopyArtifact(_) => Stage::Package,
    }
}

/// The machine's state: waiting to perform one step, or terminal.
#[derive(Debug)]
pub enum PipelineState {
    Pending(PipelineStep),
    Completed,
    Failed(Stage, FailureCause),
}

/// The stage a state stands in.
pub open spec fn state_stage(s: PipelineState) -> Stage {
    match s {
        PipelineState::Pending(st) => stage_of_step(st),
        PipelineState::Completed => Stage::Package,
        PipelineState::Failed(g, _) => g,
    }
}

/// Which kind of event answers each step's operation.
pub open spec fn event_fits(step: PipelineStep, ev: ProviderEvent) -> bool {
    match step {
        PipelineStep::RunBuild => ev is CommandDone,
        PipelineStep::CheckBinary => ev is ExistsResult,
        PipelineStep::CopyInfTemplate => ev is FileCopied,
        PipelineStep::RunStamp => ev is CommandDone,
        PipelineStep::RunCatalog => ev is CommandDone,
        PipelineStep::CheckCert => ev is ExistsResult,
        PipelineStep::GenerateCert => ev is CommandDone,
        PipelineStep::ImportCert => ev is CommandDone,
        PipelineStep::SignBinary => ev is CommandDone,
        PipelineStep::SignCatalog => ev is CommandDone,
        PipelineStep::VerifyBinary => ev is CommandDone,
        PipelineStep::VerifyCatalog => ev is CommandDone,
        PipelineStep::CreatePackageDir => ev is DirCreated,
        PipelineStep::CopyArtifact(_) => ev is FileCopied,
    }
}

/// The step that follows `step` when its operation succeeds. `CheckBinary`
/// and `CheckCert` branch on their answer and are not covered here.
pub open spec fn successor_step(plan: PackagePlan, step: PipelineStep) -> PipelineState {
    match step {
        PipelineStep::RunBuild => PipelineState::Pending(PipelineStep::CheckBinary),
        PipelineStep::CheckBinary => PipelineState::Pending(
            PipelineStep::CopyInfTemplate,
        ),
        PipelineStep::CopyInfTemplate => PipelineState::Pending(PipelineStep::RunStamp),
        PipelineStep::RunStamp => PipelineState::Pending(PipelineStep::RunCatalog),
        PipelineStep::RunCatalog => PipelineState::Pending(PipelineStep::CheckCert),
        PipelineStep::CheckCert => PipelineState::Pending(PipelineStep::SignBinary),
        PipelineStep::GenerateCert => PipelineState::Pending(PipelineStep::ImportCert),
        PipelineStep::ImportCert => PipelineState::Pending(PipelineStep::SignBinary),
        PipelineStep::SignBinary => PipelineState::Pending(PipelineStep::SignCatalog),
        PipelineStep::SignCatalog => if plan.runs_verify() {
            PipelineState::Pending(PipelineStep::VerifyBinary)
        } else {
            PipelineState::Pending(PipelineStep::CreatePackageDir)
        },
        PipelineStep::VerifyBinary => PipelineState::Pending(PipelineStep::VerifyCatalog),
        PipelineStep::VerifyCatalog => PipelineState::Pending(
            PipelineStep::CreatePackageDir,
        ),
        PipelineStep::CreatePackageDir => PipelineState::Pending(
            PipelineStep::CopyArtifact(0),
        ),
        PipelineStep::CopyArtifact(i) => if i + 1 < plan.artifacts@.len() {
            PipelineState::Pending(PipelineStep::CopyArtifact((i + 1) as usize))
        } else {
            PipelineState::Completed
        },
    }
}

/// Whether `op` is the command invocation `cmd` describes.
pub open spec fn command_op_matches(op: ProviderOp, cmd: CommandPlan) -> bool {
    op matches ProviderOp::RunCommand { program, args, env } && program@ == cmd.program@
        && args@.map_values(|a: String| a@) == cmd.args_seq() && env@.map_values(
        |p: (String, String)| (p.0@, p.1@),
    ) == cmd.env@.map_values(|p: (String, String)| (p.0@, p.1@))
}

/// Whether `op` is exactly the operation that `step` asks for under `plan`.
pub open spec fn op_for(plan: PackagePlan, step: PipelineStep, op: ProviderOp) -> bool {
    match step {
        PipelineStep::RunBuild => command_op_matches(op, plan.build_cmd),
        PipelineStep::CheckBinary => op matches ProviderOp::CheckExists { path } && path@
            == plan.binary_src@,
        PipelineStep::CopyInfTemplate => op matches ProviderOp::CopyFile { src, dst }
            && src@ == plan.inf_template_src@ && dst@ == plan.inf_src@,
        PipelineStep::RunStamp => command_op_matches(op, plan.stamp_cmd),
        PipelineStep::RunCatalog => command_op_matches(op, plan.catalog_cmd),
        PipelineStep::CheckCert => op matches ProviderOp::CheckExists { path } && path@
            == plan.cert_src@,
        PipelineStep::GenerateCert => command_op_matches(op, plan.makecert_cmd),
        PipelineStep::ImportCert => command_op_matches(op, plan.certmgr_cmd),
        PipelineStep::SignBinary => command_op_matches(op, plan.sign_binary_cmd),
        PipelineStep::SignCatalog => command_op_matches(op, plan.sign_catalog_cmd),
        PipelineStep::VerifyBinary => command_op_matches(op, plan.verify_binary_cmd),
        PipelineStep::VerifyCatalog => command_op_matches(op, plan.verify_catalog_cmd),
        PipelineStep::CreatePackageDir => op matches ProviderOp::CreateDirAll { path }
            && path@ == plan.package_dir@,
        PipelineStep::CopyArtifact(i) => op matches ProviderOp::CopyFile { src, dst }
            && i < plan.artifacts@.len() && src@ == plan.artifacts@[i as int].src@ && dst@
            == plan.artifacts@[i as int].dst@,
    }
}

/// Copies a vector of strings.
fn clone_string_vec(v: &Vec<String>) -> (r: Vec<String>)
    ensures
        r@.map_values(|s: String| s@) == v@.map_values(|s: String| s@),
{
    let mut out: Vec<String> = Vec::new();
    let mut i: usize = 0;
    while i < v.len()
        invariant
            0 <= i <= v.len(),
            out@.len() == i,
            forall|j: int| 0 <= j < i ==> (#[trigger] out@[j])@ == v@[j]@,
        decreases v.len() - i,
    {
        out.push(String::from_str(v[i].as_str()));
        i += 1;
    }
    proof {
        assert(out@.map_values(|s: String| s@) =~= v@.map_values(|s: String| s@));
    }
    out
}

/// Copies a vector of environment entries.
fn clone_env_vec(v: &Vec<(String, String)>) -> (r: Vec<(String, String)>)
    ensures
        r@.map_values(|p: (String, String)| (p.0@, p.1@)) == v@.map_values(
            |p: (String, String)| (p.0@, p.1@),
        ),
{
    let mut out: Vec<(String, String)> = Vec::new();
    let mut i: usize = 0;
    while i < v.len()
        invariant
            0 <= i <= v.len(),
            out@.len() == i,
            forall|j: int| 0 <= j < i ==> (#[trigger] out@[j]).0@ == v@[j].0@
                && out@[j].1@ == v@[j].1@,
        decreases v.len() - i,
    {
        let key = String::from_str(v[i].0.as_str());
        let value = String::from_str(v[i].1.as_str());
        out.push((key, value));
        i += 1;
    }
    proof {
        assert(out@.map_values(|p: (String, String)| (p.0@, p.1@)) =~= v@.map_values(
            |p: (String, String)| (p.0@, p.1@),
        ));
    }
    out
}

/// Builds the run operation of one planned command.
fn command_op(cmd: &CommandPlan) -> (op: ProviderOp)
    ensures
        command_op_matches(op, *cmd),
{
    ProviderOp::RunCommand {
        program: String::from_str(cmd.program.as_str()),
        args: clone_string_vec(&cmd.args),
        env: clone_env_vec(&cmd.env),
    }
}

/// The packaging state machine of one driver member.
pub struct PackagePipeline {
    pub plan: PackagePlan,
    pub state: PipelineState,
    pub history: Ghost<Seq<PipelineState>>,
}

impl PackagePipeline {
    /// Internal consistency: the artifact index stays in bounds, the
    /// history holds only pending states, and no recorded state stands in a
    /// later stage than the current one.
    pub open spec fn wf(&self) -> bool {
        &&& self.plan.artifacts@.len() == 6
        &&& (self.state matches PipelineState::Pending(PipelineStep::CopyArtifact(i))
            ==> i < 6)
        &&& (forall|k: int|
            0 <= k < self.history@.len() ==> #[trigger] self.history@[k] is Pending)
        &&& (forall|k: int|
            0 <= k < self.history@.len() ==> stage_rank(
                state_stage(#[trigger] self.history@[k]),
            ) <= stage_rank(state_stage(self.state)))
        &&& (self.state matches PipelineState::Pending(PipelineStep::CopyArtifact(i))
            ==> (forall|j: int|
                0 <= j < i ==> #[trigger] self.history@.contains(
                    PipelineState::Pending(PipelineStep::CopyArtifact(j as usize)),
                )))
        &&& (self.state is Completed ==> (forall|j: int|
            0 <= j < self.plan.artifacts@.len() ==> #[trigger] self.history@.contains(
                PipelineState::Pending(PipelineStep::CopyArtifact(j as usize)),
            )))
    }

    /// Starts the pipeline of one member at its first step, the compiler
    /// run, with an empty history.
    pub fn new(plan: PackagePlan) -> (m: PackagePipeline)
        requires
            plan.artifacts@.len() == 6,
        ensures
            m.wf(),
            m.plan == plan,
            m.state == PipelineState::Pending(PipelineStep::RunBuild),
            m.history@ =~= Seq::<PipelineState>::empty(),
    {
        PackagePipeline {
            plan,
            state: PipelineState::Pending(PipelineStep::RunBuild),
            history: Ghost(Seq::empty()),
        }
    }

    /// The operation the pending step asks for, or nothing once the
    /// pipeline is terminal.
    pub fn current_op(&self) -> (r: Option<ProviderOp>)
        requires
            self.wf(),
        ensures
            r is Some <==> self.state is Pending,
            (match r {
                Some(op) => op_for(self.plan, self.state->Pending_0, op) && (
                self.state matches PipelineState::Pending(step) ==> (forall|
                    ev: ProviderEvent,
                |
                    op.answered_by(ev) == event_fits(step, ev))),
                None => true,
            }),
    {
        let step = match &self.state {
            PipelineState::Pending(s) => *s,
            _ => {
                return None;
            },
        };
        match step {
            PipelineStep::RunBuild => Some(command_op(&self.plan.build_cmd)),
            PipelineStep::CheckBinary => Some(
                ProviderOp::CheckExists {
                    path: String::from_str(self.plan.binary_src.as_str()),
                },
            ),
            PipelineStep::CopyInfTemplate => Some(
                ProviderOp::CopyFile {
                    src: String::from_str(self.plan.inf_template_src.as_str()),
                    dst: String::from_str(self.plan.inf_src.as_str()),
                },
            ),
            PipelineStep::RunStamp => Some(command_op(&self.plan.stamp_cmd)),
            PipelineStep::RunCatalog => Some(command_op(&self.plan.catalog_cmd)),
            PipelineStep::CheckCert => Some(
                ProviderOp::CheckExists {
                    path: String::from_str(self.plan.cert_src.as_str()),
                },
            ),
            PipelineStep::GenerateCert => Some(command_op(&self.plan.makecert_cmd)),
            PipelineStep::ImportCert => Some(command_op(&self.plan.certmgr_cmd)),
            PipelineStep::SignBinary => Some(command_op(&self.plan.sign_binary_cmd)),
            PipelineStep::SignCatalog => Some(command_op(&self.plan.sign_catalog_cmd)),
            PipelineStep::VerifyBinary => Some(command_op(&self.plan.verify_binary_cmd)),
            PipelineStep::VerifyCatalog => Some(
                command_op(&self.plan.verify_catalog_cmd),
            ),
            PipelineStep::CreatePackageDir => Some(
                ProviderOp::CreateDirAll {
                    path: String::from_str(self.plan.package_dir.as_str()),
                },
            ),
            PipelineStep::CopyArtifact(i) => Some(
                ProviderOp::CopyFile {
                    src: String::from_str(self.plan.artifacts[i].src.as_str()),
                    dst: String::from_str(self.plan.artifacts[i].dst.as_str()),
                },
            ),
        }
    }

    /// Consumes the result of the pending step's operation and moves to the
    /// next state: forward one step on success, terminal failure recording
    /// the stage in progress otherwise. The old state joins the history.
    pub fn on_event(&mut self, ev: ProviderEvent)
        requires
            old(self).wf(),
            old(self).state matches PipelineState::Pending(step) && event_fits(step, ev),
        ensures
            final(self).wf(),
            final(self).plan == old(self).plan,
            final(self).history@ =~= old(self).history@.push(old(self).state),
            stage_rank(state_stage(final(self).state)) >= stage_rank(
                state_stage(old(self).state),
            ),
            ({
                let step = old(self).state->Pending_0;
                let plan = old(self).plan;
                let st = final(self).state;
                match ev {
                    ProviderEvent::CommandDone(r) => (match r {
                        Result::Ok(_) => st == successor_step(plan, step),
                        Result::Err(e) => st == PipelineState::Failed(
                            stage_of_step(step),
                            FailureCause::Command(e),
                        ),
                    }),
                    ProviderEvent::ExistsResult(found) => (if step
                        == PipelineStep::CheckBinary {
                        if found {
                            st == successor_step(plan, step)
                        } else {
                            st matches PipelineState::Failed(g, c) && g == Stage::Build
                                && (c matches FailureCause::File(f) && f.path@
                                == plan.binary_src@ && f.cause@
                                == "expected compiler output was not found"@)
                        }
                    } else {
                        if found {
                            st == successor_step(plan, step)
                        } else {
                            st == PipelineState::Pending(PipelineStep::GenerateCert)
                        }
                    }),
                    ProviderEvent::DirCreated(r) => (match r {
                        Result::Ok(_) => st == successor_step(plan, step),
                        Result::Err(f) => st == PipelineState::Failed(
                            stage_of_step(step),
                            FailureCause::File(f),
                        ),
                    }),
                    ProviderEvent::FileCopied(r) => (match r {
                        Result::Ok(_) => st == successor_step(plan, step),
                        Result::Err(f) => st == PipelineState::Failed(
                            stage_of_step(step),
                            FailureCause::File(f),
                        ),
                    }),
                }
            }),
    {
        let step = match &self.state {
            PipelineState::Pending(s) => *s,
            _ => {
                proof {
                    assert(false);
                }
                PipelineStep::RunBuild
            },
        };
        proof {
            self.history@ = self.history@.push(self.state);
        }
        match ev {
            ProviderEvent::CommandDone(r) => {
                match r {
                    Result::Ok(_) => {
                        self.state = next_success_state(&self.plan, step);
                    },
                    Result::Err(e) => {
                        self.state = PipelineState::Failed(
                            stage_of_step_exec(step),
                            FailureCause::Command(e),
                        );
                    },
                }
            },
            ProviderEvent::ExistsResult(found) => {
                if found {
                    self.state = next_success_state(&self.plan, step);
                } else {
                    if matches!(step, PipelineStep::CheckBinary) {
                        self.state = PipelineState::Failed(
                            Stage::Build,
                            FailureCause::File(
                                FileError {
                                    path: String::from_str(self.plan.binary_src.as_str()),
                                    cause: String::from_str(
                                        "expected compiler output was not found",
                                    ),
                                },
                            ),
                        );
                    } else {
                        self.state = PipelineState::Pending(PipelineStep::GenerateCert);
                    }
                }
            },
            ProviderEvent::DirCreated(r) => {
                match r {
                    Result::Ok(_) => {
                        self.state = next_success_state(&self.plan, step);
                    },
                    Result::Err(f) => {
                        self.state = PipelineState::Failed(
                            stage_of_step_exec(step),
                            FailureCause::File(f),
                        );
                    },
                }
            },
            ProviderEvent::FileCopied(r) => {
                match r {
                    Result::Ok(_) => {
                        self.state = next_success_state(&self.plan, step);
                    },
                    Result::Err(f) => {
                        self.state = PipelineState::Failed(
                            stage_of_step_exec(step),
                            FailureCause::File(f),
                        );
                    },
                }
            },
        }
        proof {
            assert forall|x: PipelineState| old(self).history@.contains(x)
                implies self.history@.contains(x) by {
                let k = choose|k: int|
                    0 <= k < old(self).history@.len() && old(self).history@[k] == x;
                assert(self.history@[k] == x);
            }
            assert(self.history@[self.history@.len() - 1] == old(self).state);
            assert(self.history@.contains(old(self).state));
        }
    }

    /// The outcome of a finished pipeline: success only from the completed
    /// state, failure with its stage and cause otherwise.
    pub fn outcome(self) -> (r: Option<PackageOutcome>)
        ensures
            (match self.state {
                PipelineState::Completed => r == Some(PackageOutcome::Succeeded),
                PipelineState::Failed(g, c) => r == Some(PackageOutcome::Failed(g, c)),
                PipelineState::Pending(_) => r is None,
            }),
    {
        match self.state {
            PipelineState::Completed => Some(PackageOutcome::Succeeded),
            PipelineState::Failed(g, c) => Some(PackageOutcome::Failed(g, c)),
            PipelineState::Pending(_) => None,
        }
    }
}

/// Computes the follow-up state of a successful step.
fn next_success_state(plan: &PackagePlan, step: PipelineStep) -> (r: PipelineState)
    requires
        plan.artifacts@.len() == 6,
        step matches PipelineStep::CopyArtifact(i) ==> i < 6,
    ensures
        r == successor_step(*plan, step),
        r matches PipelineState::Pending(PipelineStep::CopyArtifact(i)) ==> i < 6,
        stage_rank(state_stage(r)) >= stage_rank(stage_of_step(step)),
{
    match step {
        PipelineStep::RunBuild => PipelineState::Pending(PipelineStep::CheckBinary),
        PipelineStep::CheckBinary => PipelineState::Pending(
            PipelineStep::CopyInfTemplate,
        ),
        PipelineStep::CopyInfTemplate => PipelineState::Pending(PipelineStep::RunStamp),
        PipelineStep::RunStamp => PipelineState::Pending(PipelineStep::RunCatalog),
        PipelineStep::RunCatalog => PipelineState::Pending(PipelineStep::CheckCert),
        PipelineStep::CheckCert => PipelineState::Pending(PipelineStep::SignBinary),
        PipelineStep::GenerateCert => PipelineState::Pending(PipelineStep::ImportCert),
        PipelineStep::ImportCert => PipelineState::Pending(PipelineStep::SignBinary),
        PipelineStep::SignBinary => PipelineState::Pending(PipelineStep::SignCatalog),
        PipelineStep::SignCatalog => {
            if plan.verify_signature || plan.sample_class {
                PipelineState::Pending(PipelineStep::VerifyBinary)
            } else {
                PipelineState::Pending(PipelineStep::CreatePackageDir)
            }
        },
        PipelineStep::VerifyBinary => PipelineState::Pending(PipelineStep::VerifyCatalog),
        PipelineStep::VerifyCatalog => PipelineState::Pending(
            PipelineStep::CreatePackageDir,
        ),
        PipelineStep::CreatePackageDir => PipelineState::Pending(
            PipelineStep::CopyArtifact(0),
        ),
        PipelineStep::CopyArtifact(i) => {
            if i + 1 < plan.artifacts.len() {
                PipelineState::Pending(PipelineStep::CopyArtifact(i + 1))
            } else {
                PipelineState::Completed
            }
        },
    }
}

/// Computes the stage of a step.
fn stage_of_step_exec(step: PipelineStep) -> (r: Stage)
    ensures
        r == stage_of_step(step),
{
    match step {
        PipelineStep::RunBuild => Stage::Build,
        PipelineStep::CheckBinary => Stage::Build,
        PipelineStep::CopyInfTemplate => Stage::Stamp,
        PipelineStep::RunStamp => Stage::Stamp,
        PipelineStep::RunCatalog => Stage::Catalog,
        PipelineStep::CheckCert => Stage::Sign,
        PipelineStep::GenerateCert => Stage::Sign,
        PipelineStep::ImportCert => Stage::Sign,
        PipelineStep::SignBinary => Stage::Sign,
        PipelineStep::SignCatalog => Stage::Sign,
        PipelineStep::VerifyBinary => Stage::Sign,
        PipelineStep::VerifyCatalog => Stage::Sign,
        PipelineStep::CreatePackageDir => Stage::Package,
        PipelineStep::CopyArtifact(_) => Stage::Package,
    }
}

/// A member whose compiler invocation or binary check failed never went on:
/// every state that ever issued an operation stood in the build stage, so
/// no stamping, cataloguing, signing or copying operation was asked for and
/// no package directory was created.
pub proof fn lemma_failed_build_issued_build_ops_only(m: PackagePipeline)
    requires
        m.wf(),
        m.state matches PipelineState::Failed(g, _) && g == Stage::Build,
    ensures
        forall|k: int|
            0 <= k < m.history@.len() ==> ((#[trigger] m.history@[k]) matches
                PipelineState::Pending(st) && stage_of_step(st) == Stage::Build),
{
    assert forall|k: int| 0 <= k < m.history@.len() implies ((#[trigger] m.history@[k])
        matches PipelineState::Pending(st) && stage_of_step(st) == Stage::Build) by {
        assert(m.history@[k] is Pending);
        assert(stage_rank(state_stage(m.history@[k])) <= stage_rank(Stage::Build));
    }
}

/// A pipeline that completed performed the copy step of every artifact in
/// its plan: each one issued its operation, and each succeeded — a failed or
/// skipped copy would have ended the machine before completion.
pub proof fn lemma_completed_performed_all_copies(m: PackagePipeline)
    requires
        m.wf(),
        m.state is Completed,
    ensures
        forall|j: int|
            0 <= j < m.plan.artifacts@.len() ==> #[trigger] m.history@.contains(
                PipelineState::Pending(PipelineStep::CopyArtifact(j as usize)),
            ),
{
}

} // verus!
