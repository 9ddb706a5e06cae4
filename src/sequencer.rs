use vstd::prelude::*;

use crate::model::CliError;

verus! {

/// The phases of an apply, in the order they run. Each one drains its whole
/// fan-out group before the next begins.
#[derive(Debug, Clone, Copy, PartialEq, Eq, Structural)]
pub enum Phase {
    /// Ensure the namespace exists.
    Namespace,
    /// For every cluster: ensure it exists, then its variables, then its networks.
    Clusters,
    /// For every cargo: ensure it exists.
    Cargoes,
    /// For every cluster: join its cargoes, then start it if asked to.
    JoinsAndStart,
}

/// Where an apply stands after a phase.
#[derive(Debug, PartialEq, Eq)]
pub enum ApplyStep {
    Run(Phase),
    Finished(Result<(), CliError>),
}

/// The steps of one cluster's task, within the phase that runs it.
#[derive(Debug, Clone, Copy, PartialEq, Eq, Structural)]
pub enum ClusterStep {
    EnsureCluster,
    Variables,
    Networks,
    Joins,
    Start,
}

/// Where a cluster's task stands after a step.
#[derive(Debug, PartialEq, Eq)]
pub enum TaskStep {
    Run(ClusterStep),
    Finished(Result<(), CliError>),
}

/// Position of a phase in the apply.
pub open spec fn phase_rank(p: Phase) -> nat {
    match p {
        Phase::Namespace => 0,
        Phase::Clusters => 1,
        Phase::Cargoes => 2,
        Phase::JoinsAndStart => 3,
    }
}

/// A failed phase ends the apply with its error, and no later phase runs;
/// a phase that succeeded hands over to the next one, and the last one ends
/// the apply with success.
pub open spec fn phase_after(p: Phase, outcome: Result<(), CliError>) -> ApplyStep {
    match outcome {
        Err(_) => ApplyStep::Finished(outcome),
        Ok(()) => match p {
            Phase::Namespace => ApplyStep::Run(Phase::Clusters),
            Phase::Clusters => ApplyStep::Run(Phase::Cargoes),
            Phase::Cargoes => ApplyStep::Run(Phase::JoinsAndStart),
            Phase::JoinsAndStart => ApplyStep::Finished(Ok(())),
        },
    }
}

/// The steps of a cluster's task run in order, and its first failure ends it.
pub open spec fn cluster_step_after(s: ClusterStep, outcome: Result<(), CliError>) -> TaskStep {
    match outcome {
        Err(_) => TaskStep::Finished(outcome),
        Ok(()) => match s {
            ClusterStep::EnsureCluster => TaskStep::Run(ClusterStep::Variables),
            ClusterStep::Variables => TaskStep::Run(ClusterStep::Networks),
            ClusterStep::Networks => TaskStep::Finished(Ok(())),
            ClusterStep::Joins => TaskStep::Run(ClusterStep::Start),
            ClusterStep::Start => TaskStep::Finished(Ok(())),
        },
    }
}

/// The step a cluster's task starts with in a phase, if that phase runs one.
pub open spec fn first_cluster_step_of(p: Phase) -> Option<ClusterStep> {
    match p {
        Phase::Clusters => Some(ClusterStep::EnsureCluster),
        Phase::JoinsAndStart => Some(ClusterStep::Joins),
        _ => None,
    }
}

/// Decides what follows a phase, given the outcome of its fan-out group.
pub fn next_phase(p: Phase, outcome: Result<(), CliError>) -> (r: ApplyStep)
    ensures
        r == phase_after(p, outcome),
{
    match outcome {
        Err(e) => ApplyStep::Finished(Err(e)),
        Ok(()) => match p {
            Phase::Namespace => ApplyStep::Run(Phase::Clusters),
            Phase::Clusters => ApplyStep::Run(Phase::Cargoes),
            Phase::Cargoes => ApplyStep::Run(Phase::JoinsAndStart),
            Phase::JoinsAndStart => ApplyStep::Finished(Ok(())),
        },
    }
}

/// Decides what follows a step of a cluster's task, given its outcome.
pub fn next_cluster_step(s: ClusterStep, outcome: Result<(), CliError>) -> (r: TaskStep)
    ensures
        r == cluster_step_after(s, outcome),
{
    match outcome {
        Err(e) => TaskStep::Finished(Err(e)),
        Ok(()) => match s {
            ClusterStep::EnsureCluster => TaskStep::Run(ClusterStep::Variables),
            ClusterStep::Variables => TaskStep::Run(ClusterStep::Networks),
            ClusterStep::Networks => TaskStep::Finished(Ok(())),
            ClusterStep::Joins => TaskStep::Run(ClusterStep::Start),
            ClusterStep::Start => TaskStep::Finished(Ok(())),
        },
    }
}

/// The step a cluster's task starts with in a phase, if that phase runs one.
pub fn first_cluster_step(p: Phase) -> (r: Option<ClusterStep>)
    ensures
        r == first_cluster_step_of(p),
{
    match p {
        Phase::Clusters => Some(ClusterStep::EnsureCluster),
        Phase::JoinsAndStart => Some(ClusterStep::Joins),
        _ => None,
    }
}

/// The phases run one after the other, each only once the one before it has
/// succeeded: joins and starts are issued only after the cargo phase has
/// created every declared cargo, wherever the document lists them, and the
/// cargo phase only after every cluster with its networks is in place.
pub proof fn lemma_phases_run_in_order(p: Phase, outcome: Result<(), CliError>)
    ensures
        phase_after(p, outcome) is Run ==> outcome is Ok && phase_rank(
            phase_after(p, outcome)->Run_0,
        ) == phase_rank(p) + 1,
        phase_after(p, outcome) == ApplyStep::Run(Phase::JoinsAndStart) ==> p == Phase::Cargoes
            && outcome is Ok,
        phase_after(p, outcome) == ApplyStep::Run(Phase::Cargoes) ==> p == Phase::Clusters
            && outcome is Ok,
        outcome is Err ==> phase_after(p, outcome) == ApplyStep::Finished(outcome),
{
}

/// A cluster's variables and networks are reconciled only after the cluster
/// itself was found or created, and it is started only after all its joins
/// succeeded.
pub proof fn lemma_cluster_exists_before_its_parts(s: ClusterStep, outcome: Result<(), CliError>)
    ensures
        cluster_step_after(s, outcome) == TaskStep::Run(ClusterStep::Variables) ==> s
            == ClusterStep::EnsureCluster && outcome is Ok,
        cluster_step_after(s, outcome) == TaskStep::Run(ClusterStep::Networks) ==> s
            == ClusterStep::Variables && outcome is Ok,
        cluster_step_after(s, outcome) == TaskStep::Run(ClusterStep::Start) ==> s
            == ClusterStep::Joins && outcome is Ok,
{
}

} // verus!
