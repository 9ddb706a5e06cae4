use nanocl::cargo::CargoPartial;
use nanocl::fanout::{classify_join, first_error, propagate};
use nanocl::model::{
    ApiError, CargoConfig, CliError, ClientError, ClusterConfig, ClusterJoinPartial,
    ClusterNetworkPartial, ClusterPartial, ClusterVarPartial, ClusterVariable, LiveCluster,
    NamespaceConfig, NetworkConfig,
};
use nanocl::policy::{
    cargo_call, cluster_calls, join_calls, namespace_call, network_call, start_call,
    variable_call, RemoteCall,
};
use nanocl::sequencer::{
    first_cluster_step, next_cluster_step, next_phase, ApplyStep, ClusterStep, Phase, TaskStep,
};
use std::collections::{BTreeMap, BTreeSet};

fn s(v: &str) -> String {
    v.to_string()
}

fn ns() -> Option<String> {
    Some(s("n1"))
}

fn api(status: u16) -> ClientError {
    ClientError::Api(ApiError { msg: s("refused"), status })
}

#[test]
fn live_templates_add_only_missing_one() {
    let declared = ClusterPartial { name: s("c1"), proxy_templates: Some(vec![s("B"), s("C")]) };
    let live = LiveCluster { name: s("c1"), proxy_templates: vec![s("A"), s("B")] };
    let calls = cluster_calls(ns(), declared, Some(live));
    assert_eq!(
        calls,
        vec![RemoteCall::LinkProxyTemplate { namespace: ns(), cluster: s("c1"), template: s("C") }]
    );
}

#[test]
fn absent_cluster_is_created_with_its_templates() {
    let declared = ClusterPartial { name: s("c1"), proxy_templates: Some(vec![s("t1")]) };
    let calls = cluster_calls(ns(), declared, None);
    assert_eq!(
        calls,
        vec![RemoteCall::CreateCluster {
            namespace: ns(),
            item: ClusterPartial { name: s("c1"), proxy_templates: Some(vec![s("t1")]) },
        }]
    );
}

#[test]
fn present_cluster_without_declared_templates_needs_nothing() {
    let declared = ClusterPartial { name: s("c1"), proxy_templates: None };
    let live = LiveCluster { name: s("c1"), proxy_templates: vec![s("A")] };
    assert!(cluster_calls(ns(), declared, Some(live)).is_empty());
}

#[test]
fn converged_state_needs_nothing() {
    assert_eq!(namespace_call(s("n1"), true), None);
    let declared = ClusterPartial { name: s("c1"), proxy_templates: Some(vec![s("A"), s("B")]) };
    let live = LiveCluster { name: s("c1"), proxy_templates: vec![s("B"), s("A"), s("Z")] };
    assert!(cluster_calls(ns(), declared, Some(live)).is_empty());
    let var = ClusterVarPartial { name: s("X"), value: s("2") };
    assert_eq!(variable_call(ns(), s("c1"), var, true), None);
    let net = ClusterNetworkPartial { name: s("net1") };
    assert_eq!(network_call(ns(), s("c1"), net, true), None);
    assert_eq!(cargo_call(ns(), cargo("w1", "nginx"), true), None);
}

#[test]
fn live_variable_keeps_its_value() {
    // X=1 is live; the document says X=2: nothing is sent.
    let var = ClusterVarPartial { name: s("X"), value: s("2") };
    assert_eq!(variable_call(ns(), s("c1"), var, true), None);
}

#[test]
fn absent_variable_is_created_with_declared_value() {
    let var = ClusterVarPartial { name: s("X"), value: s("2") };
    assert_eq!(
        variable_call(ns(), s("c1"), var, false),
        Some(RemoteCall::CreateClusterVar {
            namespace: ns(),
            cluster: s("c1"),
            item: ClusterVarPartial { name: s("X"), value: s("2") },
        })
    );
}

fn cargo(name: &str, image: &str) -> CargoConfig {
    CargoConfig {
        name: s(name),
        image_name: s(image),
        dns_entry: Some(s("10.0.0.1:w.local")),
        replicas: Some(2),
        environnements: Some(vec![s("A=1")]),
    }
}

#[test]
fn absent_cargo_is_created_from_its_declaration() {
    assert_eq!(
        cargo_call(None, cargo("w1", "nginx"), false),
        Some(RemoteCall::CreateCargo {
            namespace: None,
            item: CargoPartial {
                name: s("w1"),
                image_name: s("nginx"),
                dns_entry: Some(s("10.0.0.1:w.local")),
                domainname: None,
                hostname: None,
                binds: None,
                environnements: Some(vec![s("A=1")]),
                replicas: Some(2),
            },
        })
    );
}

#[test]
fn absent_namespace_and_network_are_created() {
    assert_eq!(namespace_call(s("n1"), false), Some(RemoteCall::CreateNamespace { name: s("n1") }));
    assert_eq!(
        network_call(ns(), s("c1"), ClusterNetworkPartial { name: s("net1") }, false),
        Some(RemoteCall::CreateClusterNetwork {
            namespace: ns(),
            cluster: s("c1"),
            item: ClusterNetworkPartial { name: s("net1") },
        })
    );
}

#[test]
fn joins_follow_declaration_order() {
    let joins = Some(vec![
        ClusterJoinPartial { network: s("a"), cargo: s("x") },
        ClusterJoinPartial { network: s("b"), cargo: s("y") },
    ]);
    let calls = join_calls(&ns(), &s("c1"), &joins);
    assert_eq!(calls.len(), 2);
    assert_eq!(
        calls[1],
        RemoteCall::JoinClusterCargo {
            namespace: ns(),
            cluster: s("c1"),
            join: ClusterJoinPartial { network: s("b"), cargo: s("y") },
        }
    );
    assert!(join_calls(&ns(), &s("c1"), &None).is_empty());
}

#[test]
fn start_only_when_flag_is_true() {
    assert_eq!(
        start_call(ns(), s("c1"), Some(true)),
        Some(RemoteCall::StartCluster { namespace: ns(), cluster: s("c1") })
    );
    assert_eq!(start_call(ns(), s("c1"), Some(false)), None);
    assert_eq!(start_call(ns(), s("c1"), None), None);
}

#[test]
fn join_conflict_is_success() {
    assert_eq!(classify_join(Err(api(409))), Ok(()));
    assert_eq!(classify_join(Ok(())), Ok(()));
}

#[test]
fn join_other_failure_is_fatal() {
    assert_eq!(classify_join(Err(api(500))), Err(CliError::Client(api(500))));
    let t = ClientError::Transport(s("closed"));
    assert_eq!(classify_join(Err(t)), Err(CliError::Client(ClientError::Transport(s("closed")))));
}

#[test]
fn conflict_outside_joins_is_fatal() {
    assert_eq!(propagate(Err(api(409))), Err(CliError::Client(api(409))));
    assert_eq!(propagate(Ok(())), Ok(()));
}

#[test]
fn join_group_with_conflict_and_success_succeeds() {
    let results = vec![classify_join(Ok(())), classify_join(Err(api(409)))];
    assert_eq!(first_error(results), Ok(()));
    let results = vec![classify_join(Err(api(409))), classify_join(Err(api(404)))];
    assert_eq!(first_error(results), Err(CliError::Client(api(404))));
}

#[test]
fn fan_out_runs_all_and_reports_second_failure() {
    let mut ran = [0u32; 3];
    let mut results = Vec::new();
    for i in 0..3 {
        ran[i] += 1;
        if i == 1 {
            results.push(Err(CliError::Config(s("second task"))));
        } else {
            results.push(Ok(()));
        }
    }
    assert_eq!(ran, [1, 1, 1]);
    assert_eq!(first_error(results), Err(CliError::Config(s("second task"))));
}

#[test]
fn fan_out_first_error_by_submission_order() {
    let results = vec![Ok(()), Err(CliError::Io(s("b"))), Err(CliError::Io(s("c")))];
    assert_eq!(first_error(results), Err(CliError::Io(s("b"))));
    assert_eq!(first_error(Vec::new()), Ok(()));
}

#[test]
fn phases_run_in_fixed_order() {
    let mut order = vec![Phase::Namespace];
    let mut step = next_phase(Phase::Namespace, Ok(()));
    while let ApplyStep::Run(p) = step {
        order.push(p);
        step = next_phase(p, Ok(()));
    }
    assert_eq!(order, vec![Phase::Namespace, Phase::Clusters, Phase::Cargoes, Phase::JoinsAndStart]);
    assert_eq!(step, ApplyStep::Finished(Ok(())));
}

#[test]
fn failed_phase_ends_the_apply() {
    assert_eq!(
        next_phase(Phase::Cargoes, Err(CliError::Config(s("x")))),
        ApplyStep::Finished(Err(CliError::Config(s("x"))))
    );
}

#[test]
fn cluster_task_stops_at_first_failure() {
    assert_eq!(first_cluster_step(Phase::Clusters), Some(ClusterStep::EnsureCluster));
    assert_eq!(first_cluster_step(Phase::JoinsAndStart), Some(ClusterStep::Joins));
    assert_eq!(first_cluster_step(Phase::Cargoes), None);
    assert_eq!(
        next_cluster_step(ClusterStep::EnsureCluster, Ok(())),
        TaskStep::Run(ClusterStep::Variables)
    );
    assert_eq!(
        next_cluster_step(ClusterStep::Variables, Err(CliError::Io(s("v")))),
        TaskStep::Finished(Err(CliError::Io(s("v"))))
    );
    assert_eq!(next_cluster_step(ClusterStep::Start, Ok(())), TaskStep::Finished(Ok(())));
}

/// An in-memory control plane that records every request it is sent.
#[derive(Default)]
struct Plane {
    namespaces: BTreeSet<String>,
    clusters: BTreeMap<String, Vec<String>>,
    vars: BTreeMap<(String, String), String>,
    networks: BTreeSet<(String, String)>,
    cargoes: BTreeSet<String>,
    joins: BTreeSet<(String, String, String)>,
    log: Vec<String>,
}

impl Plane {
    fn send(&mut self, call: RemoteCall) -> Result<(), ClientError> {
        match call {
            RemoteCall::CreateNamespace { name } => {
                self.log.push(format!("create_namespace({})", name));
                self.namespaces.insert(name);
            }
            RemoteCall::CreateCluster { item, .. } => {
                let ts = item.proxy_templates.unwrap_or_default();
                self.log.push(format!("create_cluster({},{:?})", item.name, ts));
                self.clusters.insert(item.name, ts);
            }
            RemoteCall::LinkProxyTemplate { cluster, template, .. } => {
                self.log.push(format!("link_proxy_template({},{})", cluster, template));
                self.clusters.get_mut(&cluster).unwrap().push(template);
            }
            RemoteCall::CreateClusterVar { cluster, item, .. } => {
                self.log.push(format!("create_cluster_var({},{})", cluster, item.name));
                self.vars.insert((cluster, item.name), item.value);
            }
            RemoteCall::CreateClusterNetwork { cluster, item, .. } => {
                self.log.push(format!("create_cluster_network({},{})", cluster, item.name));
                self.networks.insert((cluster, item.name));
            }
            RemoteCall::CreateCargo { item, .. } => {
                self.log.push(format!("create_cargo({})", item.name));
                self.cargoes.insert(item.name);
            }
            RemoteCall::JoinClusterCargo { cluster, join, .. } => {
                self.log.push(format!("join_cluster_cargo({},{},{})", cluster, join.network, join.cargo));
                assert!(self.cargoes.contains(&join.cargo));
                let key = (cluster, join.network, join.cargo);
                if self.joins.contains(&key) {
                    return Err(ClientError::Api(ApiError { msg: s("joined"), status: 409 }));
                }
                self.joins.insert(key);
            }
            RemoteCall::StartCluster { cluster, .. } => {
                self.log.push(format!("start_cluster({})", cluster));
            }
        }
        Ok(())
    }

    fn creates(&self) -> usize {
        self.log.iter().filter(|l| !l.starts_with("join") && !l.starts_with("start")).count()
    }
}

fn run_group(plane: &mut Plane, calls: Vec<RemoteCall>, join: bool) -> Result<(), CliError> {
    let results = calls
        .into_iter()
        .map(|c| {
            let r = plane.send(c);
            if join { classify_join(r) } else { propagate(r) }
        })
        .collect();
    first_error(results)
}

fn run_phase(plane: &mut Plane, doc: &NamespaceConfig, phase: Phase) -> Result<(), CliError> {
    let scope = Some(doc.name.clone());
    match phase {
        Phase::Namespace => {
            let exists = plane.namespaces.contains(&doc.name);
            let calls = namespace_call(doc.name.clone(), exists).into_iter().collect();
            run_group(plane, calls, false)
        }
        Phase::Clusters | Phase::JoinsAndStart => {
            let mut results = Vec::new();
            for c in &doc.clusters {
                let mut step = first_cluster_step(phase);
                let mut outcome = Ok(());
                while let Some(st) = step {
                    let calls: Vec<RemoteCall> = match st {
                        ClusterStep::EnsureCluster => {
                            let live = plane.clusters.get(&c.name).map(|ts| LiveCluster {
                                name: c.name.clone(),
                                proxy_templates: ts.clone(),
                            });
                            let item = ClusterPartial {
                                name: c.name.clone(),
                                proxy_templates: c.proxy_templates.clone(),
                            };
                            cluster_calls(scope.clone(), item, live)
                        }
                        ClusterStep::Variables => c
                            .variables
                            .iter()
                            .flatten()
                            .filter_map(|v| {
                                let exists = plane.vars.contains_key(&(c.name.clone(), v.name.clone()));
                                let item = ClusterVarPartial { name: v.name.clone(), value: v.value.clone() };
                                variable_call(scope.clone(), c.name.clone(), item, exists)
                            })
                            .collect(),
                        ClusterStep::Networks => doc
                            .networks
                            .iter()
                            .filter_map(|n| {
                                let exists = plane.networks.contains(&(c.name.clone(), n.name.clone()));
                                let item = ClusterNetworkPartial { name: n.name.clone() };
                                network_call(scope.clone(), c.name.clone(), item, exists)
                            })
                            .collect(),
                        ClusterStep::Joins => join_calls(&scope, &c.name, &c.joins),
                        ClusterStep::Start => {
                            start_call(scope.clone(), c.name.clone(), c.auto_start).into_iter().collect()
                        }
                    };
                    let r = run_group(plane, calls, st == ClusterStep::Joins);
                    match next_cluster_step(st, r) {
                        TaskStep::Run(next) => step = Some(next),
                        TaskStep::Finished(r) => {
                            outcome = r;
                            step = None;
                        }
                    }
                }
                results.push(outcome);
            }
            first_error(results)
        }
        Phase::Cargoes => {
            let calls = doc
                .cargoes
                .iter()
                .filter_map(|c| {
                    let exists = plane.cargoes.contains(&c.name);
                    let decl = CargoConfig {
                        name: c.name.clone(),
                        image_name: c.image_name.clone(),
                        dns_entry: c.dns_entry.clone(),
                        replicas: c.replicas,
                        environnements: c.environnements.clone(),
                    };
                    cargo_call(scope.clone(), decl, exists)
                })
                .collect();
            run_group(plane, calls, false)
        }
    }
}

fn apply(plane: &mut Plane, doc: &NamespaceConfig) -> Result<(), CliError> {
    let mut phase = Phase::Namespace;
    loop {
        let outcome = run_phase(plane, doc, phase);
        match next_phase(phase, outcome) {
            ApplyStep::Run(p) => phase = p,
            ApplyStep::Finished(r) => return r,
        }
    }
}

fn document() -> NamespaceConfig {
    NamespaceConfig {
        name: s("n1"),
        clusters: vec![ClusterConfig {
            name: s("c1"),
            proxy_templates: Some(vec![s("t1")]),
            variables: None,
            joins: Some(vec![ClusterJoinPartial { network: s("net1"), cargo: s("w1") }]),
            auto_start: Some(true),
        }],
        networks: vec![NetworkConfig { name: s("net1") }],
        cargoes: vec![CargoConfig {
            name: s("w1"),
            image_name: s("nginx"),
            dns_entry: None,
            replicas: None,
            environnements: None,
        }],
    }
}

#[test]
fn end_to_end_new_namespace() {
    let mut plane = Plane::default();
    assert_eq!(apply(&mut plane, &document()), Ok(()));
    assert_eq!(
        plane.log,
        vec![
            s("create_namespace(n1)"),
            s("create_cluster(c1,[\"t1\"])"),
            s("create_cluster_network(c1,net1)"),
            s("create_cargo(w1)"),
            s("join_cluster_cargo(c1,net1,w1)"),
            s("start_cluster(c1)"),
        ]
    );
}

#[test]
fn second_apply_creates_nothing() {
    let mut plane = Plane::default();
    let mut doc = document();
    doc.clusters[0].variables = Some(vec![ClusterVariable { name: s("X"), value: s("1") }]);
    assert_eq!(apply(&mut plane, &doc), Ok(()));
    let first = plane.creates();
    doc.clusters[0].variables = Some(vec![ClusterVariable { name: s("X"), value: s("2") }]);
    assert_eq!(apply(&mut plane, &doc), Ok(()));
    assert_eq!(plane.creates(), first);
    assert_eq!(plane.vars.get(&(s("c1"), s("X"))), Some(&s("1")));
}

#[test]
fn cargo_exists_before_join_whatever_the_listing() {
    let mut plane = Plane::default();
    let mut doc = document();
    doc.cargoes.insert(0, cargo("w0", "redis"));
    doc.clusters[0].joins =
        Some(vec![ClusterJoinPartial { network: s("net1"), cargo: s("w0") }]);
    assert_eq!(apply(&mut plane, &doc), Ok(()));
    let created = plane.log.iter().position(|l| l == "create_cargo(w0)").unwrap();
    let joined = plane.log.iter().position(|l| l.starts_with("join_cluster_cargo")).unwrap();
    assert!(created < joined);
}
