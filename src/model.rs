use vstd::prelude::*;

verus! {

/// Status the control plane answers with when an entity or an association
/// already exists.
pub const CONFLICT: u16 = 409;

/// A failure reported by the control plane: an HTTP status and its message.
#[derive(Debug, PartialEq, Eq)]
pub struct ApiError {
    pub msg: String,
    pub status: u16,
}

/// A failed remote call.
#[derive(Debug, PartialEq, Eq)]
pub enum ClientError {
    /// The control plane answered with an error status.
    Api(ApiError),
    /// The call did not reach the control plane, or its answer was unreadable.
    Transport(String),
}

/// What an apply, or one of its tasks, fails with.
#[derive(Debug, PartialEq, Eq)]
pub enum CliError {
    /// A remote call failed.
    Client(ClientError),
    /// The document could not be parsed or has an unknown kind.
    Config(String),
    /// The document could not be read.
    Io(String),
}

/// One variable declared on a cluster.
#[derive(Debug, PartialEq, Eq)]
pub struct ClusterVariable {
    pub name: String,
    pub value: String,
}

/// Attachment of a cargo to a cluster network.
#[derive(Debug, PartialEq, Eq)]
pub struct ClusterJoinPartial {
    pub network: String,
    pub cargo: String,
}

impl ClusterJoinPartial {
    pub fn duplicate(&self) -> (r: ClusterJoinPartial)
        ensures
            r == *self,
    {
        ClusterJoinPartial { network: self.network.clone(), cargo: self.cargo.clone() }
    }
}

/// A cluster as the document declares it.
#[derive(Debug, PartialEq, Eq)]
pub struct ClusterConfig {
    pub name: String,
    pub proxy_templates: Option<Vec<String>>,
    pub variables: Option<Vec<ClusterVariable>>,
    pub joins: Option<Vec<ClusterJoinPartial>>,
    pub auto_start: Option<bool>,
}

/// A network as the document declares it; every cluster of the namespace gets it.
#[derive(Debug, PartialEq, Eq)]
pub struct NetworkConfig {
    pub name: String,
}

/// A cargo as the document declares it.
#[derive(Debug, PartialEq, Eq)]
pub struct CargoConfig {
    pub name: String,
    pub image_name: String,
    pub dns_entry: Option<String>,
    pub replicas: Option<i32>,
    pub environnements: Option<Vec<String>>,
}

/// The desired state of one namespace: the root of an apply.
#[derive(Debug, PartialEq, Eq)]
pub struct NamespaceConfig {
    pub name: String,
    pub clusters: Vec<ClusterConfig>,
    pub networks: Vec<NetworkConfig>,
    pub cargoes: Vec<CargoConfig>,
}

/// Payload of a cluster creation.
#[derive(Debug, PartialEq, Eq)]
pub struct ClusterPartial {
    pub name: String,
    pub proxy_templates: Option<Vec<String>>,
}

/// Payload of a cluster variable creation.
#[derive(Debug, PartialEq, Eq)]
pub struct ClusterVarPartial {
    pub name: String,
    pub value: String,
}

/// Payload of a cluster network creation.
#[derive(Debug, PartialEq, Eq)]
pub struct ClusterNetworkPartial {
    pub name: String,
}

/// A cluster as the control plane reports it.
#[derive(Debug, PartialEq, Eq)]
pub struct LiveCluster {
    pub name: String,
    pub proxy_templates: Vec<String>,
}

} // verus!
