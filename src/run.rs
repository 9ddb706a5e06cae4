use vstd::prelude::*;

use crate::cargo::CargoPartial;
use crate::fanout::{call_outcome, conflict_absorbed};
use crate::model::{ClientError, CliError, ClusterJoinPartial, ClusterNetworkPartial, ClusterPartial, CONFLICT};
use crate::policy::{copy_scope, RemoteCall};

verus! {

/// What `run` is asked for: one cargo of one image, on one network of one cluster.
#[derive(Debug, PartialEq, Eq)]
pub struct RunArgs {
    /// Namespace to target, the default one when absent
    pub namespace: Option<String>,
    /// Name of the cargo
    pub name: String,
    /// Cluster to run it in
    pub cluster: String,
    /// Network of the cluster to join it to
    pub network: String,
    /// Image to run
    pub image: String,
}

/// Number of requests a run makes.
pub const RUN_STEPS: usize = 5;

/// Requests of a run, in the order they are issued: create the cluster, its
/// network and the cargo (one replica of the image), join the cargo to the
/// network, start the cluster.
pub open spec fn run_plan(a: RunArgs) -> Seq<RemoteCall> {
    seq![
        RemoteCall::CreateCluster {
            namespace: a.namespace,
            item: ClusterPartial { name: a.cluster, proxy_templates: None },
        },
        RemoteCall::CreateClusterNetwork {
            namespace: a.namespace,
            cluster: a.cluster,
            item: ClusterNetworkPartial { name: a.network },
        },
        RemoteCall::CreateCargo {
            namespace: a.namespace,
            item: CargoPartial {
                name: a.name,
                image_name: a.image,
                dns_entry: None,
                domainname: None,
                hostname: None,
                binds: None,
                environnements: None,
                replicas: Some(1),
            },
        },
        RemoteCall::JoinClusterCargo {
            namespace: a.namespace,
            cluster: a.cluster,
            join: ClusterJoinPartial { network: a.network, cargo: a.name },
        },
        RemoteCall::StartCluster { namespace: a.namespace, cluster: a.cluster },
    ]
}

/// A creation of a run that meets an existing entity reuses it; a failed join
/// or start is fatal, a conflict included.
pub open spec fn run_step_result(step: int, outcome: Result<(), ClientError>) -> Result<(), CliError> {
    if step < 3 {
        conflict_absorbed(outcome)
    } else {
        call_outcome(outcome)
    }
}

/// The requests of a run.
pub fn run_calls(args: RunArgs) -> (r: Vec<RemoteCall>)
    ensures
        r@ == run_plan(args),
        r@.len() == RUN_STEPS,
{
    let RunArgs { namespace, name, cluster, network, image } = args;
    let mut calls: Vec<RemoteCall> = Vec::new();
    calls.push(
        RemoteCall::CreateCluster {
            namespace: copy_scope(&namespace),
            item: ClusterPartial { name: cluster.clone(), proxy_templates: None },
        },
    );
    calls.push(
        RemoteCall::CreateClusterNetwork {
            namespace: copy_scope(&namespace),
            cluster: cluster.clone(),
            item: ClusterNetworkPartial { name: network.clone() },
        },
    );
    calls.push(
        RemoteCall::CreateCargo {
            namespace: copy_scope(&namespace),
            item: CargoPartial {
                name: name.clone(),
                image_name: image,
                dns_entry: None,
                domainname: None,
                hostname: None,
                binds: None,
                environnements: None,
                replicas: Some(1),
            },
        },
    );
    calls.push(
        RemoteCall::JoinClusterCargo {
            namespace: copy_scope(&namespace),
            cluster: cluster.clone(),
            join: ClusterJoinPartial { network, cargo: name },
        },
    );
    calls.push(RemoteCall::StartCluster { namespace, cluster });
    assert(calls@ =~= run_plan(args));
    calls
}

/// Classifies the result of the `step`-th request of a run.
pub fn run_step_outcome(step: usize, outcome: Result<(), ClientError>) -> (r: Result<(), CliError>)
    requires
        step < RUN_STEPS,
    ensures
        r == run_step_result(step as int, outcome),
{
    match outcome {
        Ok(()) => Ok(()),
        Err(e) => {
            let conflict = match &e {
                ClientError::Api(a) => a.status == CONFLICT,
                ClientError::Transport(_) => false,
            };
            if step < 3 && conflict {
                Ok(())
            } else {
                Err(CliError::Client(e))
            }
        },
    }
}

} // verus!
