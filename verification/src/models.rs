//! The values that describe a deployment request and the resources in it.

use crate::text::concat3;
use vstd::prelude::*;

verus! {

/// Optional abilities of a cluster.
#[derive(Clone, Copy, Debug, PartialEq, Eq, Structural)]
pub enum Features {
    LogsHistory,
    MetricsHistory,
}

/// Settings of one deployment request.
#[derive(Clone, Copy, Debug, PartialEq, Eq, Structural)]
pub struct Metadata {
    pub dry_run_deploy: Option<bool>,
    pub resource_expiration_in_seconds: Option<u32>,
    pub forced_upgrade: Option<bool>,
}

/// What a deployment request is made in: who asks, for which cluster, and
/// where the engine keeps its files.
#[derive(Debug)]
pub struct Context {
    pub organization_id: String,
    pub cluster_id: String,
    pub execution_id: String,
    pub workspace_root_dir: String,
    pub lib_root_dir: String,
    pub test_cluster: bool,
    pub docker_host: Option<String>,
    pub features: Vec<Features>,
    pub metadata: Option<Metadata>,
}

impl Context {
    pub fn new(
        organization_id: String,
        cluster_id: String,
        execution_id: String,
        workspace_root_dir: String,
        lib_root_dir: String,
        test_cluster: bool,
        docker_host: Option<String>,
        features: Vec<Features>,
        metadata: Option<Metadata>,
    ) -> (r: Context)
        ensures
            r == (Context {
                organization_id,
                cluster_id,
                execution_id,
                workspace_root_dir,
                lib_root_dir,
                test_cluster,
                docker_host,
                features,
                metadata,
            }),
    {
        Context {
            organization_id,
            cluster_id,
            execution_id,
            workspace_root_dir,
            lib_root_dir,
            test_cluster,
            docker_host,
            features,
            metadata,
        }
    }

    pub fn organization_id(&self) -> (r: &str)
        ensures
            r@ == self.organization_id@,
    {
        self.organization_id.as_str()
    }

    pub fn cluster_id(&self) -> (r: &str)
        ensures
            r@ == self.cluster_id@,
    {
        self.cluster_id.as_str()
    }

    pub fn execution_id(&self) -> (r: &str)
        ensures
            r@ == self.execution_id@,
    {
        self.execution_id.as_str()
    }

    pub fn workspace_root_dir(&self) -> (r: &str)
        ensures
            r@ == self.workspace_root_dir@,
    {
        self.workspace_root_dir.as_str()
    }

    pub fn lib_root_dir(&self) -> (r: &str)
        ensures
            r@ == self.lib_root_dir@,
    {
        self.lib_root_dir.as_str()
    }

    pub fn is_test_cluster(&self) -> (r: bool)
        ensures
            r == self.test_cluster,
    {
        self.test_cluster
    }

    /// After how many seconds the resources of the request expire, where
    /// the request says so.
    pub open spec fn expiration(&self) -> Option<u32> {
        match self.metadata {
            Some(m) => m.resource_expiration_in_seconds,
            None => None,
        }
    }

    pub fn resource_expiration_in_seconds(&self) -> (r: Option<u32>)
        ensures
            r == self.expiration(),
    {
        match &self.metadata {
            Some(m) => m.resource_expiration_in_seconds,
            None => None,
        }
    }

    /// Whether the request is a dry run: only where its settings say so.
    pub fn is_dry_run_deploy(&self) -> (r: bool)
        ensures
            r == (self.metadata is Some && self.metadata->0.dry_run_deploy == Some(true)),
    {
        match &self.metadata {
            Some(m) => match m.dry_run_deploy {
                Some(true) => true,
                _ => false,
            },
            None => false,
        }
    }

    /// A copy of this context.
    pub fn duplicate(&self) -> (r: Context)
        ensures
            r.organization_id == self.organization_id,
            r.cluster_id == self.cluster_id,
            r.execution_id == self.execution_id,
            r.workspace_root_dir == self.workspace_root_dir,
            r.lib_root_dir == self.lib_root_dir,
            r.test_cluster == self.test_cluster,
            r.docker_host == self.docker_host,
            r.features@ == self.features@,
            r.metadata == self.metadata,
    {
        let mut features: Vec<Features> = Vec::new();
        let mut i: usize = 0;
        while i < self.features.len()
            invariant
                i <= self.features@.len(),
                features@ == self.features@.take(i as int),
            decreases self.features@.len() - i,
        {
            features.push(self.features[i]);
            assert(features@ =~= self.features@.take(i + 1));
            i = i + 1;
        }
        assert(self.features@.take(i as int) =~= self.features@);
        Context {
            organization_id: self.organization_id.clone(),
            cluster_id: self.cluster_id.clone(),
            execution_id: self.execution_id.clone(),
            workspace_root_dir: self.workspace_root_dir.clone(),
            lib_root_dir: self.lib_root_dir.clone(),
            test_cluster: self.test_cluster,
            docker_host: match &self.docker_host {
                Some(h) => Some(h.clone()),
                None => None,
            },
            features,
            metadata: self.metadata,
        }
    }
}

/// One port of an application.
#[derive(Debug)]
pub struct Port {
    pub id: String,
    pub port: u16,
    pub public_port: Option<u16>,
    pub name: Option<String>,
    pub publicly_accessible: bool,
}

/// The image an application runs.
#[derive(Debug)]
pub struct Image {
    pub application_id: String,
    pub name: String,
    pub tag: String,
    pub commit_id: String,
    pub registry_name: Option<String>,
    pub registry_docker_json_config: Option<String>,
    pub registry_url: Option<String>,
}

impl Image {
    /// The name and the tag with a colon between them.
    pub fn name_with_tag(&self) -> (r: String)
        ensures
            r@ == self.name@ + ":"@ + self.tag@,
    {
        concat3(self.name.as_str(), ":", self.tag.as_str())
    }
}

/// A volume of an application; `T` tells the kinds of storage apart.
#[derive(Debug)]
pub struct Storage<T> {
    pub id: String,
    pub name: String,
    pub storage_type: T,
    pub size_in_gib: u16,
    pub mount_point: String,
    pub snapshot_retention_in_days: u16,
}

/// One environment variable of an application.
#[derive(Debug)]
pub struct EnvironmentVariable {
    pub key: String,
    pub value: String,
}

/// A domain of the user's own, and the domain it has to point to.
#[derive(Debug)]
pub struct CustomDomain {
    pub domain: String,
    pub target_domain: String,
}

/// A path of a router and the application behind it.
#[derive(Debug)]
pub struct Route {
    pub path: String,
    pub application_name: String,
}

/// Whether a database is run by the cloud provider or in the cluster.
#[allow(non_camel_case_types)]
#[derive(Clone, Copy, Debug, PartialEq, Eq, Structural)]
pub enum DatabaseMode {
    MANAGED,
    CONTAINER,
}

} // verus!
