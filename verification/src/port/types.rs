//! Request parameters, filters and response records of the cloud APIs,
//! and the token scope used to key cached credentials.
use vstd::prelude::*;
use crate::text::{cat4, lowercase_of, to_lower};

verus! {

// --- Pagination ---

/// Paging request parameters.
#[derive(Debug, Clone, Default, PartialEq)]
pub struct PaginationParams {
    pub marker: Option<String>,
    pub limit: Option<u32>,
    pub sort_key: Option<String>,
    pub sort_dir: Option<SortDirection>,
}

/// Sort order of a listing.
#[derive(Debug, Clone, Copy, PartialEq, Eq, Structural)]
pub enum SortDirection {
    Asc,
    Desc,
}

/// One page of a listing.
#[derive(Debug, Clone, PartialEq)]
pub struct PaginatedResponse<T> {
    pub items: Vec<T>,
    pub next_marker: Option<String>,
    pub has_more: bool,
}

impl<T> PaginatedResponse<T> {
    /// A page with no items and nothing after it.
    pub fn empty() -> (r: Self)
        ensures
            r.items@.len() == 0,
            r.next_marker.is_none(),
            !r.has_more,
    {
        PaginatedResponse { items: Vec::new(), next_marker: None, has_more: false }
    }
}

// --- Auth ---

/// The scope of a token: a project (by lower-cased name and domain) or none.
#[derive(Debug, Clone, PartialEq, Eq, Hash)]
pub enum TokenScope {
    Project { name: String, domain: String },
    Unscoped,
}

/// A character that may not appear in a cache file name.
pub open spec fn unsafe_filename_char(c: char) -> bool {
    c == '/' || c == '\\' || c == '\0' || c == '.'
}

/// `s` with every path separator, backslash, NUL and dot replaced by `_`.
pub open spec fn sanitized(s: Seq<char>) -> Seq<char> {
    s.map_values(|c: char| if unsafe_filename_char(c) { '_' } else { c })
}

/// The cache key of a project scope: `project@<name>@<domain>`, both parts
/// sanitized.
pub open spec fn project_cache_key(name: Seq<char>, domain: Seq<char>) -> Seq<char> {
    "project@"@ + sanitized(name) + "@"@ + sanitized(domain)
}

impl TokenScope {
    /// The scope requested by a credential: its project, name and domain
    /// lower-cased, or unscoped when it names no project.
    pub fn from_credential(credential: &AuthCredential) -> (r: Self)
        ensures
            match credential.project_scope {
                Some(p) => r == (TokenScope::Project {
                    name: r->name,
                    domain: r->domain,
                }) && r->name@ == lowercase_of(p.name@) && r->domain@ == lowercase_of(p.domain_name@),
                None => r == TokenScope::Unscoped,
            },
    {
        match &credential.project_scope {
            Some(p) => TokenScope::Project {
                name: to_lower(p.name.as_str()),
                domain: to_lower(p.domain_name.as_str()),
            },
            None => TokenScope::Unscoped,
        }
    }

    /// A file-name-safe key for this scope: `project@<name>@<domain>` with
    /// `/`, `\`, NUL and `.` replaced by `_`, or `unscoped`.
    pub fn cache_key(&self) -> (r: String)
        ensures
            r@ == match self {
                TokenScope::Project { name, domain } => project_cache_key(name@, domain@),
                TokenScope::Unscoped => "unscoped"@,
            },
    {
        match self {
            TokenScope::Project { name, domain } => {
                let safe_name = sanitize_for_filename(name.as_str());
                let safe_domain = sanitize_for_filename(domain.as_str());
                let r = cat4("project@", safe_name.as_str(), "@", safe_domain.as_str());
                r
            },
            TokenScope::Unscoped => String::from_str("unscoped"),
        }
    }
}

/// Replace path-traversal and file-system-unsafe characters by `_`.
pub fn sanitize_for_filename(s: &str) -> (r: String)
    ensures
        r@ == sanitized(s@),
{
    let n = s.unicode_len();
    let mut out = String::new();
    let mut i: usize = 0;
    proof {
        reveal_strlit("_");
    }
    while i < n
        invariant
            n == s@.len(),
            i <= n,
            out@ == sanitized(s@.subrange(0, i as int)),
        decreases n - i,
    {
        let c = s.get_char(i);
        if c == '/' || c == '\\' || c == '\0' || c == '.' {
            proof {
                reveal_strlit("_");
            }
            out.append("_");
        } else {
            let piece = s.substring_char(i, i + 1);
            proof {
                assert(piece@ =~= seq![c]);
            }
            out.append(piece);
        }
        proof {
            assert(s@.subrange(0, i + 1) == s@.subrange(0, i as int).push(c));
            assert(sanitized(s@.subrange(0, i + 1)) =~= sanitized(s@.subrange(0, i as int)).push(
                if unsafe_filename_char(c) { '_' } else { c },
            ));
        }
        i = i + 1;
    }
    proof {
        assert(s@.subrange(0, n as int) =~= s@);
    }
    out
}

/// A validated token with its project, roles and service catalog.
#[derive(Debug, Clone, PartialEq)]
pub struct ProjectScope {
    pub id: String,
    pub name: String,
    pub domain_id: String,
    pub domain_name: String,
}

/// A role granted by a token.
#[derive(Debug, Clone, PartialEq)]
pub struct TokenRole {
    pub id: String,
    pub name: String,
}

/// One service of the catalog.
#[derive(Debug, Clone, PartialEq)]
pub struct CatalogEntry {
    pub service_type: String,
    pub service_name: String,
    pub endpoints: Vec<Endpoint>,
}

/// One endpoint of a service.
#[derive(Debug, Clone, PartialEq)]
pub struct Endpoint {
    pub region: String,
    pub interface: EndpointInterface,
    pub url: String,
}

/// Visibility of an endpoint.
#[derive(Debug, Clone, Copy, PartialEq, Eq, Structural)]
pub enum EndpointInterface {
    Public,
    Internal,
    Admin,
}

/// How to authenticate, and to which project.
#[derive(Clone, PartialEq)]
pub struct AuthCredential {
    pub auth_url: String,
    pub method: AuthMethod,
    pub project_scope: Option<ProjectScopeParam>,
}

/// A way to authenticate.
#[derive(Clone, PartialEq)]
pub enum AuthMethod {
    Password { username: String, password: String, domain_name: String },
    ApplicationCredential { id: String, secret: String },
}

/// The project a credential asks to be scoped to.
#[derive(Debug, Clone, PartialEq)]
pub struct ProjectScopeParam {
    pub name: String,
    pub domain_name: String,
}

/// Headers to send on authenticated requests.
#[derive(Clone, PartialEq)]
pub struct AuthHeaders {
    pub headers: Vec<(String, String)>,
}

/// An action on a resource type that the current role allows.
#[derive(Debug, Clone, PartialEq, Eq, Hash)]
pub struct Capability {
    pub resource: String,
    pub action: String,
}

// --- Filters ---

/// Server listing filter.
#[derive(Debug, Clone, Default, PartialEq)]
pub struct ServerListFilter {
    pub name: Option<String>,
    pub status: Option<String>,
    pub host: Option<String>,
    pub flavor: Option<String>,
    pub all_tenants: bool,
}

/// Volume listing filter.
#[derive(Debug, Clone, Default, PartialEq)]
pub struct VolumeListFilter {
    pub name: Option<String>,
    pub status: Option<String>,
    pub all_tenants: bool,
}

/// Image listing filter.
#[derive(Debug, Clone, Default, PartialEq)]
pub struct ImageListFilter {
    pub name: Option<String>,
    pub status: Option<String>,
    pub visibility: Option<String>,
    pub all_tenants: bool,
}

/// Network listing filter.
#[derive(Debug, Clone, Default, PartialEq)]
pub struct NetworkListFilter {
    pub all_tenants: bool,
}

/// Security group listing filter.
#[derive(Debug, Clone, Default, PartialEq)]
pub struct SecurityGroupListFilter {
    pub all_tenants: bool,
}

/// Floating IP listing filter.
#[derive(Debug, Clone, Default, PartialEq)]
pub struct FloatingIpListFilter {
    pub all_tenants: bool,
}

/// Snapshot listing filter.
#[derive(Debug, Clone, Default, PartialEq)]
pub struct SnapshotListFilter {
    pub all_tenants: bool,
}

// --- Nova params ---

/// Soft or hard reboot.
#[derive(Debug, Clone, Copy, PartialEq, Eq, Structural)]
pub enum RebootType {
    Soft,
    Hard,
}

/// A state a server can be forced into.
#[derive(Debug, Clone, Copy, PartialEq, Eq, Structural)]
pub enum ServerState {
    Active,
    Error,
    Paused,
    Suspended,
    Stopped,
}

/// Parameters of a new server.
#[derive(Debug, Clone, PartialEq)]
pub struct ServerCreateParams {
    pub name: String,
    pub image_id: String,
    pub flavor_id: String,
    pub networks: Vec<NetworkAttachment>,
    pub security_groups: Option<Vec<String>>,
    pub key_name: Option<String>,
    pub availability_zone: Option<String>,
}

/// A network to attach a new server to.
#[derive(Debug, Clone, PartialEq)]
pub struct NetworkAttachment {
    pub uuid: String,
    pub fixed_ip: Option<String>,
}

/// Live migration target.
#[derive(Debug, Clone, PartialEq)]
pub struct LiveMigrateParams {
    pub host: Option<String>,
}

/// Evacuation parameters.
#[derive(Debug, Default, PartialEq)]
pub struct EvacuateParams {
    pub host: Option<String>,
    pub on_shared_storage: Option<bool>,
    pub force: Option<bool>,
}

impl Clone for EvacuateParams {
    fn clone(&self) -> (r: Self)
        ensures
            r == *self,
    {
        EvacuateParams {
            host: self.host.clone(),
            on_shared_storage: self.on_shared_storage,
            force: self.force,
        }
    }
}

impl EvacuateParams {
    /// No target host, no storage or force flags.
    pub fn none() -> (r: Self)
        ensures
            r.host.is_none(),
            r.on_shared_storage.is_none(),
            r.force.is_none(),
    {
        EvacuateParams { host: None, on_shared_storage: None, force: None }
    }
}

/// Parameters of a new flavor.
#[derive(Debug, Clone, PartialEq)]
pub struct FlavorCreateParams {
    pub name: String,
    pub vcpus: u32,
    pub ram_mb: u32,
    pub disk_gb: u32,
    pub is_public: bool,
}

/// Parameters of a new host aggregate.
#[derive(Debug, Clone, PartialEq)]
pub struct AggregateCreateParams {
    pub name: String,
    pub availability_zone: Option<String>,
}

/// Changes to a host aggregate.
#[derive(Debug, Clone, PartialEq)]
pub struct AggregateUpdateParams {
    pub name: Option<String>,
    pub availability_zone: Option<String>,
}

/// Changes to a project's compute quota.
#[derive(Debug, Clone, PartialEq)]
pub struct ComputeQuotaUpdateParams {
    pub cores: Option<i64>,
    pub ram: Option<i64>,
    pub instances: Option<i64>,
}

// --- Nova response types ---

/// One entry of a server's action log.
#[derive(Debug, Clone, PartialEq)]
pub struct ServerEvent {
    pub action: String,
    pub start_time: Option<String>,
    pub finish_time: Option<String>,
    pub result: Option<String>,
    pub message: Option<String>,
}

/// A project's compute quota.
#[derive(Debug, Clone, PartialEq)]
pub struct ComputeQuota {
    pub cores: i64,
    pub ram: i64,
    pub instances: i64,
}

// --- Neutron params ---

/// Parameters of a new network.
#[derive(Debug, Clone, PartialEq)]
pub struct NetworkCreateParams {
    pub name: String,
    pub admin_state_up: bool,
    pub shared: Option<bool>,
    pub external: Option<bool>,
    pub mtu: Option<u32>,
    pub port_security_enabled: Option<bool>,
}

/// Changes to a network.
#[derive(Debug, Clone, PartialEq)]
pub struct NetworkUpdateParams {
    pub name: Option<String>,
    pub admin_state_up: Option<bool>,
    pub shared: Option<bool>,
    pub mtu: Option<u32>,
}

/// Parameters of a new security group.
#[derive(Debug, Clone, PartialEq)]
pub struct SecurityGroupCreateParams {
    pub name: String,
    pub description: Option<String>,
}

/// Changes to a security group.
#[derive(Debug, Clone, PartialEq)]
pub struct SecurityGroupUpdateParams {
    pub name: Option<String>,
    pub description: Option<String>,
}

/// Parameters of a new security group rule.
#[derive(Debug, Clone, PartialEq)]
pub struct SecurityGroupRuleCreateParams {
    pub security_group_id: String,
    pub direction: RuleDirection,
    pub protocol: Option<String>,
    pub port_range_min: Option<u16>,
    pub port_range_max: Option<u16>,
    pub remote_ip_prefix: Option<String>,
    pub remote_group_id: Option<String>,
    pub ethertype: Option<String>,
}

/// Direction of a security group rule.
#[derive(Debug, Clone, Copy, PartialEq, Eq, Structural)]
pub enum RuleDirection {
    Ingress,
    Egress,
}

/// Parameters of a new floating IP.
#[derive(Debug, Clone, PartialEq)]
pub struct FloatingIpCreateParams {
    pub floating_network_id: String,
    pub port_id: Option<String>,
    pub fixed_ip_address: Option<String>,
}

/// A Neutron subnet.
#[derive(Debug, PartialEq)]
pub struct Subnet {
    pub id: String,
    pub name: String,
    pub network_id: String,
    pub cidr: String,
    pub ip_version: u8,
    pub gateway_ip: Option<String>,
}

impl Clone for Subnet {
    fn clone(&self) -> (r: Self)
        ensures
            r == *self,
    {
        Subnet {
            id: self.id.clone(),
            name: self.name.clone(),
            network_id: self.network_id.clone(),
            cidr: self.cidr.clone(),
            ip_version: self.ip_version,
            gateway_ip: self.gateway_ip.clone(),
        }
    }
}

// --- Cinder params ---

/// Parameters of a new volume.
#[derive(Debug, Clone, PartialEq)]
pub struct VolumeCreateParams {
    pub name: String,
    pub size_gb: u32,
    pub volume_type: Option<String>,
    pub description: Option<String>,
    pub availability_zone: Option<String>,
}

/// Parameters of a new snapshot.
#[derive(Debug, Clone, PartialEq)]
pub struct SnapshotCreateParams {
    pub volume_id: String,
    pub name: String,
    pub description: Option<String>,
    pub force: bool,
}

/// A QoS specification.
#[derive(Debug, Clone, PartialEq)]
pub struct QosSpec {
    pub id: String,
    pub name: String,
    pub consumer: String,
    pub specs: Vec<(String, String)>,
}

/// Parameters of a new QoS specification.
#[derive(Debug, Clone, PartialEq)]
pub struct QosCreateParams {
    pub name: String,
    pub consumer: String,
    pub specs: Vec<(String, String)>,
}

/// A project's block storage quota.
#[derive(Debug, Clone, PartialEq)]
pub struct VolumeQuota {
    pub volumes: i64,
    pub gigabytes: i64,
    pub snapshots: i64,
}

/// Changes to a project's block storage quota.
#[derive(Debug, Clone, PartialEq)]
pub struct VolumeQuotaUpdateParams {
    pub volumes: Option<i64>,
    pub gigabytes: Option<i64>,
    pub snapshots: Option<i64>,
}

// --- Keystone params ---

/// Parameters of a new project.
#[derive(Debug, Clone, PartialEq)]
pub struct ProjectCreateParams {
    pub name: String,
    pub description: Option<String>,
    pub domain_id: String,
    pub enabled: Option<bool>,
}

/// Changes to a project.
#[derive(Debug, Clone, PartialEq)]
pub struct ProjectUpdateParams {
    pub name: Option<String>,
    pub description: Option<String>,
    pub enabled: Option<bool>,
}

/// Parameters of a new user.
#[derive(Clone, PartialEq)]
pub struct UserCreateParams {
    pub name: String,
    pub password: String,
    pub email: Option<String>,
    pub default_project_id: Option<String>,
    pub domain_id: String,
    pub enabled: Option<bool>,
}

/// Changes to a user.
#[derive(Clone, PartialEq)]
pub struct UserUpdateParams {
    pub name: Option<String>,
    pub password: Option<String>,
    pub email: Option<String>,
    pub enabled: Option<bool>,
}

/// A role to grant a user on a project.
#[derive(Debug, Clone, PartialEq)]
pub struct RoleAssignmentParams {
    pub user_id: String,
    pub project_id: String,
    pub role_id: String,
}

/// Role assignment listing filter.
#[derive(Debug, Clone, Default, PartialEq)]
pub struct RoleAssignmentFilter {
    pub user_id: Option<String>,
    pub project_id: Option<String>,
    pub role_id: Option<String>,
}

/// A Keystone domain.
#[derive(Debug, Clone, PartialEq)]
pub struct Domain {
    pub id: String,
    pub name: String,
    pub enabled: bool,
}

// --- Glance params ---

/// Parameters of a new image.
#[derive(Debug, Clone, PartialEq)]
pub struct ImageCreateParams {
    pub name: String,
    pub disk_format: String,
    pub container_format: String,
    pub visibility: Option<String>,
    pub min_disk: Option<u32>,
    pub min_ram: Option<u32>,
}

/// Changes to an image.
#[derive(Debug, Clone, PartialEq)]
pub struct ImageUpdateParams {
    pub name: Option<String>,
    pub visibility: Option<String>,
}

} // verus!
