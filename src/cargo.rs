use vstd::prelude::*;

verus! {

/// Cargo delete options
#[derive(Debug, PartialEq, Eq)]
pub struct CargoDeleteOptions {
    /// Name of cargo to delete
    pub name: String,
}

/// Cargo start options
#[derive(Debug, PartialEq, Eq)]
pub struct CargoStartOptions {
    /// Name of cargo to start
    pub name: String,
}

/// Cargo inspect options
#[derive(Debug, PartialEq, Eq)]
pub struct CargoInspectOption {
    /// Name of cargo to inspect
    pub name: String,
}

/// Subcommands of a cargo patch
#[derive(Debug, PartialEq, Eq)]
pub enum CargoPatchCommands {
    /// Update the given fields
    Assign(CargoPatchPartial),
}

/// Cargo patch arguments
#[derive(Debug, PartialEq, Eq)]
pub struct CargoPatchArgs {
    pub name: String,
    pub commands: CargoPatchCommands,
}

/// Payload of a cargo creation
#[derive(Debug, PartialEq, Eq)]
pub struct CargoPartial {
    /// Name of the cargo
    pub name: String,
    /// Name of the image
    pub image_name: String,
    /// Optional domain to bind to in format ip:domain.com
    pub dns_entry: Option<String>,
    pub domainname: Option<String>,
    pub hostname: Option<String>,
    /// Directories or volumes to create
    pub binds: Option<Vec<String>>,
    /// Environment variables
    pub environnements: Option<Vec<String>>,
    /// Number of replicas, 1 when absent
    pub replicas: Option<i32>,
}

/// A cargo as it is stored by the control plane
#[derive(Debug, PartialEq, Eq)]
pub struct CargoItem {
    pub key: String,
    pub name: String,
    pub image: String,
    pub replicas: i32,
    pub namespace: String,
}

/// An environment variable of a stored cargo
#[derive(Debug, PartialEq, Eq)]
pub struct CargoEnvItem {
    pub key: String,
    pub cargo_key: String,
    pub name: String,
    pub value: String,
}

/// Fields of a cargo to update; absent ones are left as they are
#[derive(Debug, PartialEq, Eq)]
pub struct CargoPatchPartial {
    pub name: Option<String>,
    pub image_name: Option<String>,
    pub binds: Option<Vec<String>>,
    pub replicas: Option<i32>,
    pub dns_entry: Option<String>,
    pub domainname: Option<String>,
    pub hostname: Option<String>,
    pub environnements: Option<Vec<String>>,
}

} // verus!
