use vstd::prelude::*;
use crate::text::str_eq;

verus! {

/// Identifies a cluster.
#[derive(Clone, Debug, PartialEq, Eq)]
pub struct ClusterId(pub String);

/// Identifies a backup.
#[derive(Clone, Debug, PartialEq, Eq)]
pub struct BackupId(pub String);

/// Identifies a network.
#[derive(Clone, Debug, PartialEq, Eq)]
pub struct NetworkId(pub String);

/// Identifies an organization.
#[derive(Clone, Debug, PartialEq, Eq)]
pub struct OrganizationId(pub String);

/// Identifies a project.
#[derive(Clone, Debug, PartialEq, Eq)]
pub struct ProjectId(pub String);

/// An access list: either a reference to an existing one or a new one.
#[derive(Clone, Debug, PartialEq, Eq)]
pub enum Acl {
    ResourceIdentifier(ResourceIdentifier),
    CreateAclRequest(CreateAclRequest),
}

#[derive(Clone, Debug, PartialEq, Eq)]
pub struct AclCidrBlock {
    pub address: String,
    pub comment: Option<String>,
}

#[derive(Clone, Debug, PartialEq, Eq)]
pub struct ClusterCreateVersion {
    pub name: String,
    pub lts: bool,
    pub recommended: bool,
    pub tag: String,
    pub version: String,
}

#[derive(Clone, Debug, PartialEq, Eq)]
pub struct ClusterUpgradeVersion {
    pub change: UpgradeChangeType,
    pub name: String,
    pub lts: bool,
    pub recommended: bool,
    pub tag: String,
    pub version: String,
    pub warnings: Vec<String>,
}

#[derive(Clone, Debug, PartialEq, Eq)]
pub struct CreateAclRequest {
    pub cidr_blocks: Vec<AclCidrBlock>,
    pub description: String,
}

#[derive(Clone, Debug, PartialEq, Eq)]
pub struct CreateBackupRequest {
    pub description: String,
    pub source_cluster_id: ClusterId,
}

#[derive(Clone, Debug, PartialEq, Eq)]
pub struct CreateBackupResponse {
    pub id: BackupId,
}

#[derive(Clone, Debug, PartialEq, Eq)]
pub struct CreateClusterRequest {
    pub acl_id: Option<String>,
    pub description: String,
    pub disk_size_gb: i32,
    pub disk_type: String,
    pub disk_iops: Option<i32>,
    pub disk_throughput: Option<i32>,
    pub instance_type: String,
    pub network_id: NetworkId,
    pub projection_level: ProjectionLevel,
    pub provider: Option<String>,
    pub region: Option<String>,
    pub server_version: String,
    pub source_backup_id: Option<String>,
    pub source_node_index: Option<i32>,
    pub topology: Topology,
    pub protected: Option<bool>,
    pub public_access: Option<bool>,
    pub source_backup_project_id: Option<String>,
}

#[derive(Clone, Debug, PartialEq, Eq)]
pub struct CreateClusterResponse {
    pub id: ClusterId,
}

#[derive(Clone, Debug, PartialEq, Eq)]
pub struct CreateSharedClusterDeploymentRequest {
    pub cluster: CreateSharedClusterRequest,
    pub acl: Acl,
}

#[derive(Clone, Debug, PartialEq, Eq)]
pub struct CreateSharedClusterRequest {
    pub name: String,
    pub provider: String,
    pub region: String,
    pub projection_level: ProjectionLevel,
    pub server_version: String,
    pub topology: Topology,
    pub deployment_tier: String,
    pub mutual_tls_enabled: bool,
}

#[derive(Clone, Debug, PartialEq, Eq)]
pub struct CreateSharedClusterResponse {
    pub id: ClusterId,
}

#[derive(Clone, Debug, PartialEq, Eq)]
pub struct Credentials {
    pub username: String,
    pub password: String,
}

#[derive(Clone, Debug, PartialEq, Eq)]
pub struct ExpandClusterDiskRequest {
    pub disk_size_gb: i32,
    pub disk_iops: Option<i32>,
    pub disk_throughput: Option<i32>,
    pub disk_type: Option<String>,
}

#[derive(Clone, Debug, PartialEq, Eq)]
pub struct GetSharedClusterInitialCredentialsResponse {
    pub credentials: Option<Credentials>,
}

#[derive(Clone, Debug, PartialEq, Eq)]
pub struct ListClusterCreateVersionsResponse {
    pub versions: Vec<ClusterCreateVersion>,
}

#[derive(Clone, Debug, PartialEq, Eq)]
pub struct ListClusterUpgradeVersionsResponse {
    pub versions: Vec<ClusterUpgradeVersion>,
}

#[derive(Clone, Debug, PartialEq, Eq)]
pub struct ResizeClusterRequest {
    pub target_size: String,
}

#[derive(Clone, Debug, PartialEq, Eq)]
pub struct ResizeClusterResponse {
    pub id: String,
}

#[derive(Clone, Debug, PartialEq, Eq)]
pub struct ResourceIdentifier {
    pub id: String,
}

#[derive(Clone, Debug, PartialEq, Eq)]
pub struct RestartClusterResponse {
    pub id: String,
}

#[derive(Clone, Debug, PartialEq, Eq)]
pub struct StartClusterResponse {
    pub id: String,
}

#[derive(Clone, Debug, PartialEq, Eq)]
pub struct StopClusterResponse {
    pub id: String,
}

#[derive(Clone, Debug, PartialEq, Eq)]
pub struct UpdateClusterRequest {
    pub acl_id: Option<String>,
    pub description: Option<String>,
    pub protected: Option<bool>,
}

#[derive(Clone, Debug, PartialEq, Eq)]
pub struct UpdateSharedClusterRequest {
    pub mutual_tls_enabled: Option<bool>,
    pub acl_id: Option<String>,
}

#[derive(Clone, Debug, PartialEq, Eq)]
pub struct UpgradeClusterRequest {
    pub target_tag: String,
}

#[derive(Clone, Debug, PartialEq, Eq)]
pub struct UpgradeClusterResponse {
    pub id: String,
}

/// The status of a backup.
#[derive(Clone, Copy, Debug, PartialEq, Eq, Structural)]
pub enum BackupStatus {
    Creating,
    Available,
    Deleted,
    Deleting,
    Defunct,
}

impl BackupStatus {
    /// The name of the value on the wire and on screen.
    pub open spec fn name(&self) -> Seq<char> {
        match self {
            BackupStatus::Creating => "creating"@,
            BackupStatus::Available => "available"@,
            BackupStatus::Deleted => "deleted"@,
            BackupStatus::Deleting => "deleting"@,
            BackupStatus::Defunct => "defunct"@,
        }
    }

    pub fn as_str(&self) -> (r: &'static str)
        ensures
            r@ == self.name(),
    {
        match self {
            BackupStatus::Creating => "creating",
            BackupStatus::Available => "available",
            BackupStatus::Deleted => "deleted",
            BackupStatus::Deleting => "deleting",
            BackupStatus::Defunct => "defunct",
        }
    }

    pub fn to_string(&self) -> (r: String)
        ensures
            r@ == self.name(),
    {
        String::from_str(self.as_str())
    }

    /// Whether `other` is the name of this value.
    pub fn eq_str(&self, other: &str) -> (r: bool)
        ensures
            r == (self.name() == other@),
    {
        str_eq(self.as_str(), other)
    }
}

/// The status of a cluster.
#[derive(Clone, Copy, Debug, PartialEq, Eq, Structural)]
pub enum ClusterStatus {
    Provisioning,
    DisksAvailable,
    ExpandingDisks,
    Restarting,
    Available,
    Defunct,
    Inconsistent,
    Upgrading,
    DeletingInstances,
    InstancesDeleted,
    DeletingDisks,
    Deleted,
    Resizing,
    Stopping,
    Starting,
    UpdatingConfiguration,
    ComputeAvailable,
    Installing,
    Deploying,
    Updating,
    Deleting,
}

impl ClusterStatus {
    /// The name of the value on the wire and on screen.
    pub open spec fn name(&self) -> Seq<char> {
        match self {
            ClusterStatus::Provisioning => "provisioning"@,
            ClusterStatus::DisksAvailable => "disks available"@,
            ClusterStatus::ExpandingDisks => "expanding disks"@,
            ClusterStatus::Restarting => "restarting"@,
            ClusterStatus::Available => "available"@,
            ClusterStatus::Defunct => "defunct"@,
            ClusterStatus::Inconsistent => "inconsistent"@,
            ClusterStatus::Upgrading => "upgrading"@,
            ClusterStatus::DeletingInstances => "deleting instances"@,
            ClusterStatus::InstancesDeleted => "instances deleted"@,
            ClusterStatus::DeletingDisks => "deleting disks"@,
            ClusterStatus::Deleted => "deleted"@,
            ClusterStatus::Resizing => "resizing"@,
            ClusterStatus::Stopping => "stopping"@,
            ClusterStatus::Starting => "starting"@,
            ClusterStatus::UpdatingConfiguration => "updating configuration"@,
            ClusterStatus::ComputeAvailable => "compute available"@,
            ClusterStatus::Installing => "installing"@,
            ClusterStatus::Deploying => "deploying"@,
            ClusterStatus::Updating => "updating"@,
            ClusterStatus::Deleting => "deleting"@,
        }
    }

    pub fn as_str(&self) -> (r: &'static str)
        ensures
            r@ == self.name(),
    {
        match self {
            ClusterStatus::Provisioning => "provisioning",
            ClusterStatus::DisksAvailable => "disks available",
            ClusterStatus::ExpandingDisks => "expanding disks",
            ClusterStatus::Restarting => "restarting",
            ClusterStatus::Available => "available",
            ClusterStatus::Defunct => "defunct",
            ClusterStatus::Inconsistent => "inconsistent",
            ClusterStatus::Upgrading => "upgrading",
            ClusterStatus::DeletingInstances => "deleting instances",
            ClusterStatus::InstancesDeleted => "instances deleted",
            ClusterStatus::DeletingDisks => "deleting disks",
            ClusterStatus::Deleted => "deleted",
            ClusterStatus::Resizing => "resizing",
            ClusterStatus::Stopping => "stopping",
            ClusterStatus::Starting => "starting",
            ClusterStatus::UpdatingConfiguration => "updating configuration",
            ClusterStatus::ComputeAvailable => "compute available",
            ClusterStatus::Installing => "installing",
            ClusterStatus::Deploying => "deploying",
            ClusterStatus::Updating => "updating",
            ClusterStatus::Deleting => "deleting",
        }
    }

    pub fn to_string(&self) -> (r: String)
        ensures
            r@ == self.name(),
    {
        String::from_str(self.as_str())
    }

    /// Whether `other` is the name of this value.
    pub fn eq_str(&self, other: &str) -> (r: bool)
        ensures
            r == (self.name() == other@),
    {
        str_eq(self.as_str(), other)
    }
}

/// The health of a database.
#[derive(Clone, Copy, Debug, PartialEq, Eq, Structural)]
pub enum Health {
    Degraded,
    Down,
    HealthReportingError,
    Healthy,
    IssuesDetected,
}

impl Health {
    /// The name of the value on the wire and on screen.
    pub open spec fn name(&self) -> Seq<char> {
        match self {
            Health::Degraded => "degraded"@,
            Health::Down => "down"@,
            Health::HealthReportingError => "health-reporting-error"@,
            Health::Healthy => "ok"@,
            Health::IssuesDetected => "issues-detected"@,
        }
    }

    pub fn as_str(&self) -> (r: &'static str)
        ensures
            r@ == self.name(),
    {
        match self {
            Health::Degraded => "degraded",
            Health::Down => "down",
            Health::HealthReportingError => "health-reporting-error",
            Health::Healthy => "ok",
            Health::IssuesDetected => "issues-detected",
        }
    }

    pub fn to_string(&self) -> (r: String)
        ensures
            r@ == self.name(),
    {
        String::from_str(self.as_str())
    }

    /// Whether `other` is the name of this value.
    pub fn eq_str(&self, other: &str) -> (r: bool)
        ensures
            r == (self.name() == other@),
    {
        str_eq(self.as_str(), other)
    }
}

/// The projection level of a database: off, system or user.
#[derive(Clone, Copy, Debug, PartialEq, Eq, Structural)]
pub enum ProjectionLevel {
    Off,
    System,
    User,
}

impl ProjectionLevel {
    /// The name of the value on the wire and on screen.
    pub open spec fn name(&self) -> Seq<char> {
        match self {
            ProjectionLevel::Off => "off"@,
            ProjectionLevel::System => "system"@,
            ProjectionLevel::User => "user"@,
        }
    }

    pub fn as_str(&self) -> (r: &'static str)
        ensures
            r@ == self.name(),
    {
        match self {
            ProjectionLevel::Off => "off",
            ProjectionLevel::System => "system",
            ProjectionLevel::User => "user",
        }
    }

    pub fn to_string(&self) -> (r: String)
        ensures
            r@ == self.name(),
    {
        String::from_str(self.as_str())
    }

    /// Whether `other` is the name of this value.
    pub fn eq_str(&self, other: &str) -> (r: bool)
        ensures
            r == (self.name() == other@),
    {
        str_eq(self.as_str(), other)
    }
}

/// The shape of a cluster: single-node, three-node-multi-zone, three-node or five-node.
#[derive(Clone, Copy, Debug, PartialEq, Eq, Structural)]
pub enum Topology {
    SingleNode,
    ThreeNodeMultiZone,
    ThreeNode,
    FiveNode,
}

impl Topology {
    /// The name of the value on the wire and on screen.
    pub open spec fn name(&self) -> Seq<char> {
        match self {
            Topology::SingleNode => "single-node"@,
            Topology::ThreeNodeMultiZone => "three-node-multi-zone"@,
            Topology::ThreeNode => "three-node"@,
            Topology::FiveNode => "five-node"@,
        }
    }

    pub fn as_str(&self) -> (r: &'static str)
        ensures
            r@ == self.name(),
    {
        match self {
            Topology::SingleNode => "single-node",
            Topology::ThreeNodeMultiZone => "three-node-multi-zone",
            Topology::ThreeNode => "three-node",
            Topology::FiveNode => "five-node",
        }
    }

    pub fn to_string(&self) -> (r: String)
        ensures
            r@ == self.name(),
    {
        String::from_str(self.as_str())
    }

    /// Whether `other` is the name of this value.
    pub fn eq_str(&self, other: &str) -> (r: bool)
        ensures
            r == (self.name() == other@),
    {
        str_eq(self.as_str(), other)
    }
}

/// The kind of change an upgrade makes.
#[derive(Clone, Copy, Debug, PartialEq, Eq, Structural)]
pub enum UpgradeChangeType {
    Downgrade,
    Major,
    Patch,
}

impl UpgradeChangeType {
    /// The name of the value on the wire and on screen.
    pub open spec fn name(&self) -> Seq<char> {
        match self {
            UpgradeChangeType::Downgrade => "downgrade"@,
            UpgradeChangeType::Major => "major"@,
            UpgradeChangeType::Patch => "patch"@,
        }
    }

    pub fn as_str(&self) -> (r: &'static str)
        ensures
            r@ == self.name(),
    {
        match self {
            UpgradeChangeType::Downgrade => "downgrade",
            UpgradeChangeType::Major => "major",
            UpgradeChangeType::Patch => "patch",
        }
    }

    pub fn to_string(&self) -> (r: String)
        ensures
            r@ == self.name(),
    {
        String::from_str(self.as_str())
    }

    /// Whether `other` is the name of this value.
    pub fn eq_str(&self, other: &str) -> (r: bool)
        ensures
            r == (self.name() == other@),
    {
        str_eq(self.as_str(), other)
    }
}

} // verus!
