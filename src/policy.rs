use vstd::prelude::*;

use crate::cargo::CargoPartial;
use crate::model::{
    CargoConfig, ClusterJoinPartial, ClusterNetworkPartial, ClusterPartial, ClusterVarPartial,
    LiveCluster,
};

verus! {

broadcast use vstd::seq_lib::group_seq_properties;

/// A create, link, join or start request to the control plane, scoped to a
/// namespace (`None`: the default one).
#[derive(Debug, PartialEq, Eq)]
#[allow(inconsistent_fields)]
pub enum RemoteCall {
    CreateNamespace { name: String },
    CreateCluster { namespace: Option<String>, item: ClusterPartial },
    LinkProxyTemplate { namespace: Option<String>, cluster: String, template: String },
    CreateClusterVar { namespace: Option<String>, cluster: String, item: ClusterVarPartial },
    CreateClusterNetwork { namespace: Option<String>, cluster: String, item: ClusterNetworkPartial },
    CreateCargo { namespace: Option<String>, item: CargoPartial },
    JoinClusterCargo { namespace: Option<String>, cluster: String, join: ClusterJoinPartial },
    StartCluster { namespace: Option<String>, cluster: String },
}

/// Copies a namespace qualifier.
pub fn copy_scope(namespace: &Option<String>) -> (r: Option<String>)
    ensures
        r == *namespace,
{
    match namespace {
        Some(n) => Some(n.clone()),
        None => None,
    }
}

/// Whether `t` is among `live`, compared by text.
pub open spec fn is_listed(live: Seq<String>, t: String) -> bool {
    exists|j: int| 0 <= j < live.len() && (#[trigger] live[j])@ == t@
}

/// Holds of the templates that are not among `live`.
pub open spec fn unlisted(live: Seq<String>) -> spec_fn(String) -> bool {
    |t: String| !is_listed(live, t)
}

/// The declared templates that the live cluster does not have yet, in declared order.
pub open spec fn missing_templates(declared: Seq<String>, live: Seq<String>) -> Seq<String> {
    declared.filter(unlisted(live))
}

/// The request that links a template to a cluster.
pub open spec fn link_to(namespace: Option<String>, cluster: String) -> spec_fn(String) -> RemoteCall {
    |t: String| RemoteCall::LinkProxyTemplate { namespace, cluster, template: t }
}

/// One link request per template, in order.
pub open spec fn template_links(namespace: Option<String>, cluster: String, templates: Seq<String>) -> Seq<
    RemoteCall,
> {
    templates.map_values(link_to(namespace, cluster))
}

/// What reconciling one cluster asks of the control plane: an absent cluster is
/// created with its templates; a present one gets each declared template it
/// lacks, and nothing is ever unlinked.
pub open spec fn cluster_plan(
    namespace: Option<String>,
    declared: ClusterPartial,
    live: Option<LiveCluster>,
) -> Seq<RemoteCall> {
    match live {
        None => seq![RemoteCall::CreateCluster { namespace, item: declared }],
        Some(l) => match declared.proxy_templates {
            None => seq![],
            Some(ts) => template_links(
                namespace,
                l.name,
                missing_templates(ts@, l.proxy_templates@),
            ),
        },
    }
}

/// The payload a declared cargo is created with: the fields the create request
/// takes, the others left unset.
pub open spec fn cargo_partial_of(c: CargoConfig) -> CargoPartial {
    CargoPartial {
        name: c.name,
        image_name: c.image_name,
        dns_entry: c.dns_entry,
        domainname: None,
        hostname: None,
        binds: None,
        environnements: c.environnements,
        replicas: c.replicas,
    }
}

/// Turns a declared cargo into its creation payload.
pub fn cargo_partial(c: CargoConfig) -> (r: CargoPartial)
    ensures
        r == cargo_partial_of(c),
{
    CargoPartial {
        name: c.name,
        image_name: c.image_name,
        dns_entry: c.dns_entry,
        domainname: None,
        hostname: None,
        binds: None,
        environnements: c.environnements,
        replicas: c.replicas,
    }
}

/// Tells whether `t` is among `live`.
pub fn template_listed(live: &Vec<String>, t: &String) -> (r: bool)
    ensures
        r == is_listed(live@, *t),
{
    let mut j: usize = 0;
    while j < live.len()
        invariant
            j <= live.len(),
            forall|k: int| 0 <= k < j ==> (#[trigger] live@[k])@ != t@,
        decreases live.len() - j,
    {
        if live[j] == *t {
            return true;
        }
        j += 1;
    }
    false
}

/// The link requests for the declared templates that `live` lacks.
pub fn missing_template_links(
    namespace: &Option<String>,
    cluster: &String,
    declared: &Vec<String>,
    live: &Vec<String>,
) -> (r: Vec<RemoteCall>)
    ensures
        r@ == template_links(*namespace, *cluster, missing_templates(declared@, live@)),
{
    let mut calls: Vec<RemoteCall> = Vec::new();
    let mut i: usize = 0;
    while i < declared.len()
        invariant
            i <= declared.len(),
            calls@ == declared@.take(i as int).filter(unlisted(live@)).map_values(link_to(*namespace, *cluster)),
        decreases declared.len() - i,
    {
        let t = &declared[i];
        let listed = template_listed(live, t);
        proof {
            assert(declared@.take(i + 1) =~= declared@.take(i as int).push(declared@[i as int]));
            declared@.take(i as int).lemma_filter_push(declared@[i as int], unlisted(live@));
        }
        if !listed {
            let call = RemoteCall::LinkProxyTemplate {
                namespace: copy_scope(namespace),
                cluster: cluster.clone(),
                template: t.clone(),
            };
            calls.push(call);
            proof {
                let f = declared@.take(i as int).filter(unlisted(live@));
                assert(f.push(declared@[i as int]).map_values(link_to(*namespace, *cluster)) =~= f.map_values(link_to(*namespace, *cluster)).push(
                    link_to(*namespace, *cluster)(declared@[i as int]),
                ));
            }
        }
        i += 1;
    }
    assert(declared@.take(declared@.len() as int) =~= declared@);
    calls
}

/// Decides what reconciling one cluster asks of the control plane, given what
/// the control plane reported of it (`None`: not found).
pub fn cluster_calls(namespace: Option<String>, declared: ClusterPartial, live: Option<LiveCluster>) -> (r:
    Vec<RemoteCall>)
    ensures
        r@ == cluster_plan(namespace, declared, live),
{
    match live {
        None => vec![RemoteCall::CreateCluster { namespace, item: declared }],
        Some(l) => match declared.proxy_templates {
            None => Vec::new(),
            Some(ts) => missing_template_links(&namespace, &l.name, &ts, &l.proxy_templates),
        },
    }
}

/// The namespace is created only when it was not found; its content is not compared.
pub open spec fn namespace_plan(name: String, exists: bool) -> Option<RemoteCall> {
    if exists {
        None
    } else {
        Some(RemoteCall::CreateNamespace { name })
    }
}

/// A declared cluster variable is created only when no variable of that name
/// was found: a variable found keeps its live value, whatever is declared.
pub open spec fn variable_plan(
    namespace: Option<String>,
    cluster: String,
    item: ClusterVarPartial,
    exists: bool,
) -> Option<RemoteCall> {
    if exists {
        None
    } else {
        Some(RemoteCall::CreateClusterVar { namespace, cluster, item })
    }
}

/// A network is created on a cluster only when it was not found there.
pub open spec fn network_plan(
    namespace: Option<String>,
    cluster: String,
    item: ClusterNetworkPartial,
    exists: bool,
) -> Option<RemoteCall> {
    if exists {
        None
    } else {
        Some(RemoteCall::CreateClusterNetwork { namespace, cluster, item })
    }
}

/// A declared cargo is created from its full payload only when it was not
/// found; a cargo found is not compared field by field.
pub open spec fn cargo_plan(namespace: Option<String>, cargo: CargoConfig, exists: bool) -> Option<
    RemoteCall,
> {
    if exists {
        None
    } else {
        Some(RemoteCall::CreateCargo { namespace, item: cargo_partial_of(cargo) })
    }
}

/// A cluster is started only when its auto-start flag is set and true.
pub open spec fn start_plan(namespace: Option<String>, cluster: String, auto_start: Option<bool>) -> Option<
    RemoteCall,
> {
    if auto_start == Some(true) {
        Some(RemoteCall::StartCluster { namespace, cluster })
    } else {
        None
    }
}

/// Decides whether the namespace must be created.
pub fn namespace_call(name: String, exists: bool) -> (r: Option<RemoteCall>)
    ensures
        r == namespace_plan(name, exists),
{
    if exists {
        None
    } else {
        Some(RemoteCall::CreateNamespace { name })
    }
}

/// Decides whether a declared cluster variable must be created.
pub fn variable_call(namespace: Option<String>, cluster: String, item: ClusterVarPartial, exists: bool) -> (r:
    Option<RemoteCall>)
    ensures
        r == variable_plan(namespace, cluster, item, exists),
{
    if exists {
        None
    } else {
        Some(RemoteCall::CreateClusterVar { namespace, cluster, item })
    }
}

/// Decides whether a network must be created on a cluster.
pub fn network_call(
    namespace: Option<String>,
    cluster: String,
    item: ClusterNetworkPartial,
    exists: bool,
) -> (r: Option<RemoteCall>)
    ensures
        r == network_plan(namespace, cluster, item, exists),
{
    if exists {
        None
    } else {
        Some(RemoteCall::CreateClusterNetwork { namespace, cluster, item })
    }
}

/// Decides whether a declared cargo must be created.
pub fn cargo_call(namespace: Option<String>, cargo: CargoConfig, exists: bool) -> (r: Option<RemoteCall>)
    ensures
        r == cargo_plan(namespace, cargo, exists),
{
    if exists {
        None
    } else {
        Some(RemoteCall::CreateCargo { namespace, item: cargo_partial(cargo) })
    }
}

/// The request that joins a cargo to a cluster network.
pub open spec fn join_of(namespace: Option<String>, cluster: String) -> spec_fn(ClusterJoinPartial) -> RemoteCall {
    |j: ClusterJoinPartial| RemoteCall::JoinClusterCargo { namespace, cluster, join: j }
}

/// The join requests of a cluster: one per declared join, in declared order.
pub open spec fn join_plan(
    namespace: Option<String>,
    cluster: String,
    joins: Option<Seq<ClusterJoinPartial>>,
) -> Seq<RemoteCall> {
    match joins {
        None => seq![],
        Some(js) => js.map_values(join_of(namespace, cluster)),
    }
}

/// The join requests of a cluster.
pub fn join_calls(namespace: &Option<String>, cluster: &String, joins: &Option<Vec<ClusterJoinPartial>>) -> (r:
    Vec<RemoteCall>)
    ensures
        r@ == join_plan(
            *namespace,
            *cluster,
            match joins {
                None => None,
                Some(js) => Some(js@),
            },
        ),
{
    let mut calls: Vec<RemoteCall> = Vec::new();
    match joins {
        None => {},
        Some(js) => {
            let mut i: usize = 0;
            while i < js.len()
                invariant
                    i <= js.len(),
                    calls@ == js@.take(i as int).map_values(join_of(*namespace, *cluster)),
                decreases js.len() - i,
            {
                let call = RemoteCall::JoinClusterCargo {
                    namespace: copy_scope(namespace),
                    cluster: cluster.clone(),
                    join: js[i].duplicate(),
                };
                calls.push(call);
                proof {
                    assert(js@.take(i + 1) =~= js@.take(i as int).push(js@[i as int]));
                    assert(js@.take(i + 1).map_values(join_of(*namespace, *cluster))
                        =~= js@.take(i as int).map_values(join_of(*namespace, *cluster)).push(
                        join_of(*namespace, *cluster)(js@[i as int]),
                    ));
                }
                i += 1;
            }
            assert(js@.take(js@.len() as int) =~= js@);
        },
    }
    calls
}

/// Decides whether a cluster is started.
pub fn start_call(namespace: Option<String>, cluster: String, auto_start: Option<bool>) -> (r: Option<
    RemoteCall,
>)
    ensures
        r == start_plan(namespace, cluster, auto_start),
{
    match auto_start {
        Some(true) => Some(RemoteCall::StartCluster { namespace, cluster }),
        _ => None,
    }
}

/// Once every declared entity is found live, and every declared template is
/// linked to its live cluster, reconciling asks for no creation, link or
/// update at all: a second apply of the same document changes nothing.
pub proof fn lemma_converged_state_needs_nothing(
    name: String,
    namespace: Option<String>,
    cluster: ClusterPartial,
    live: LiveCluster,
    variable: ClusterVarPartial,
    network: ClusterNetworkPartial,
    cargo: CargoConfig,
)
    requires
        cluster.proxy_templates is Some ==> forall|i: int|
            0 <= i < cluster.proxy_templates->Some_0@.len() ==> is_listed(
                live.proxy_templates@,
                #[trigger] cluster.proxy_templates->Some_0@[i],
            ),
    ensures
        namespace_plan(name, true) is None,
        cluster_plan(namespace, cluster, Some(live)) == Seq::<RemoteCall>::empty(),
        variable_plan(namespace, cluster.name, variable, true) is None,
        network_plan(namespace, cluster.name, network, true) is None,
        cargo_plan(namespace, cargo, true) is None,
{
    if let Some(ts) = cluster.proxy_templates {
        lemma_nothing_missing(ts@, live.proxy_templates@);
    }
}

/// No template is missing when all declared ones are listed.
proof fn lemma_nothing_missing(declared: Seq<String>, live: Seq<String>)
    requires
        forall|i: int| 0 <= i < declared.len() ==> is_listed(live, #[trigger] declared[i]),
    ensures
        missing_templates(declared, live) == Seq::<String>::empty(),
{
    let m = missing_templates(declared, live);
    if m.len() > 0 {
        declared.lemma_filter_contains_rev(unlisted(live), m[0]);
        assert(m.contains(m[0]));
    }
    assert(m =~= Seq::<String>::empty());
}

/// For a cluster found live, the only requests are links, one per declared
/// template that the live cluster lacks, each made once: no template is
/// unlinked, none already present is linked again, and the cluster is not
/// created again.
pub proof fn lemma_cluster_adds_only_missing(namespace: Option<String>, cluster: ClusterPartial, live: LiveCluster)
    requires
        cluster.proxy_templates is Some,
    ensures
        forall|i: int|
            0 <= i < cluster_plan(namespace, cluster, Some(live)).len() ==> {
                let c = #[trigger] cluster_plan(namespace, cluster, Some(live))[i];
                &&& c is LinkProxyTemplate
                &&& c->LinkProxyTemplate_namespace == namespace
                &&& c->LinkProxyTemplate_cluster == live.name
                &&& cluster.proxy_templates->Some_0@.contains(c->template)
                &&& !is_listed(live.proxy_templates@, c->template)
            },
        forall|t: String|
            #![trigger cluster.proxy_templates->Some_0@.contains(t)]
            cluster.proxy_templates->Some_0@.contains(t) && !is_listed(live.proxy_templates@, t)
                ==> cluster_plan(namespace, cluster, Some(live)).contains(
                RemoteCall::LinkProxyTemplate { namespace, cluster: live.name, template: t },
            ),
{
    let declared = cluster.proxy_templates->Some_0@;
    let m = missing_templates(declared, live.proxy_templates@);
    let plan = cluster_plan(namespace, cluster, Some(live));
    let f = link_to(namespace, live.name);
    assert(plan == m.map_values(f));
    assert forall|i: int| 0 <= i < plan.len() implies {
        let c = #[trigger] plan[i];
        &&& c is LinkProxyTemplate
        &&& c->LinkProxyTemplate_namespace == namespace
        &&& c->LinkProxyTemplate_cluster == live.name
        &&& declared.contains(c->template)
        &&& !is_listed(live.proxy_templates@, c->template)
    } by {
        let t = m[i];
        assert(m.contains(t));
        declared.lemma_filter_contains_rev(unlisted(live.proxy_templates@), t);
        declared.lemma_filter_pred(unlisted(live.proxy_templates@), i);
        assert(plan[i] == f(t));
    }
    assert forall|t: String|
        #![trigger declared.contains(t)]
        declared.contains(t) && !is_listed(live.proxy_templates@, t) implies plan.contains(
        RemoteCall::LinkProxyTemplate { namespace, cluster: live.name, template: t },
    ) by {
        let k = choose|k: int| 0 <= k < declared.len() && declared[k] == t;
        declared.lemma_filter_contains(unlisted(live.proxy_templates@), k);
        let j = choose|j: int| 0 <= j < m.len() && m[j] == t;
        assert(plan[j] == f(t));
    }
}

/// Reconciling a cluster converges it: once the control plane holds what the
/// plan asked for (the cluster created with its templates, or the missing
/// templates linked after the live ones), reconciling the same declaration
/// again asks for nothing.
pub proof fn lemma_cluster_converges(
    namespace: Option<String>,
    declared: ClusterPartial,
    live: Option<LiveCluster>,
    after: LiveCluster,
)
    requires
        declared.proxy_templates is Some ==> match live {
            None => after.proxy_templates@ == declared.proxy_templates->Some_0@,
            Some(l) => after.proxy_templates@ == l.proxy_templates@ + missing_templates(
                declared.proxy_templates->Some_0@,
                l.proxy_templates@,
            ),
        },
    ensures
        cluster_plan(namespace, declared, Some(after)) == Seq::<RemoteCall>::empty(),
{
    if let Some(ts) = declared.proxy_templates {
        let d = ts@;
        let a = after.proxy_templates@;
        assert forall|i: int| 0 <= i < d.len() implies is_listed(a, #[trigger] d[i]) by {
            match live {
                None => {
                    assert(a[i] == d[i]);
                },
                Some(l) => {
                    let lt = l.proxy_templates@;
                    if is_listed(lt, d[i]) {
                        let j = choose|j: int| 0 <= j < lt.len() && (#[trigger] lt[j])@ == d[i]@;
                        assert(a[j] == lt[j]);
                    } else {
                        let m = missing_templates(d, lt);
                        d.lemma_filter_contains(unlisted(lt), i);
                        let k = choose|k: int| 0 <= k < m.len() && m[k] == d[i];
                        assert(a[lt.len() + k] == m[k]);
                    }
                },
            }
        }
        lemma_nothing_missing(d, a);
    }
}

/// Missing templates keep the declaration free of repeats.
proof fn lemma_missing_distinct(declared: Seq<String>, live: Seq<String>)
    requires
        declared.no_duplicates(),
    ensures
        missing_templates(declared, live).no_duplicates(),
    decreases declared.len(),
{
    if declared.len() > 0 {
        let init = declared.drop_last();
        let t = declared.last();
        assert(init.no_duplicates());
        lemma_missing_distinct(init, live);
        assert(declared =~= init.push(t));
        init.lemma_filter_push(t, unlisted(live));
        let m0 = missing_templates(init, live);
        if m0.contains(t) {
            init.lemma_filter_contains_rev(unlisted(live), t);
            let j = choose|j: int| 0 <= j < init.len() && init[j] == t;
            assert(declared[j] == declared[declared.len() - 1]);
        }
    }
}

/// A cluster declared with each template once gets each missing template
/// linked once: no link request is repeated.
pub proof fn lemma_each_template_linked_once(
    namespace: Option<String>,
    cluster: String,
    declared: Seq<String>,
    live: Seq<String>,
)
    requires
        declared.no_duplicates(),
    ensures
        template_links(namespace, cluster, missing_templates(declared, live)).no_duplicates(),
{
    lemma_missing_distinct(declared, live);
    let m = missing_templates(declared, live);
    let links = template_links(namespace, cluster, m);
    assert forall|i: int, j: int| 0 <= i < links.len() && 0 <= j < links.len() && i != j implies links[i]
        != links[j] by {
        assert(links[i] == link_to(namespace, cluster)(m[i]));
        assert(links[j] == link_to(namespace, cluster)(m[j]));
    }
}

} // verus!
