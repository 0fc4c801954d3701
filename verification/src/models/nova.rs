//! Compute records.
use vstd::prelude::*;

verus! {

/// The flavor a server was booted with, as embedded in the server record.
#[derive(Debug, PartialEq)]
pub struct FlavorRef {
    pub id: String,
    pub original_name: Option<String>,
    pub vcpus: Option<u32>,
    pub ram: Option<u32>,
    pub disk: Option<u32>,
}

impl Clone for FlavorRef {
    fn clone(&self) -> (r: Self)
        ensures
            r == *self,
    {
        FlavorRef {
            id: self.id.clone(),
            original_name: self.original_name.clone(),
            vcpus: self.vcpus,
            ram: self.ram,
            disk: self.disk,
        }
    }
}

/// The image a server was booted from.
#[derive(Debug, PartialEq)]
pub struct ImageRef {
    pub id: String,
}

impl Clone for ImageRef {
    fn clone(&self) -> (r: Self)
        ensures
            r == *self,
    {
        ImageRef { id: self.id.clone() }
    }
}

/// One address of a server on a network.
#[derive(Debug, PartialEq)]
pub struct Address {
    pub addr: String,
    pub version: u32,
    pub mac_addr: Option<String>,
    pub ip_type: Option<String>,
}

impl Clone for Address {
    fn clone(&self) -> (r: Self)
        ensures
            r == *self,
    {
        Address {
            addr: self.addr.clone(),
            version: self.version,
            mac_addr: self.mac_addr.clone(),
            ip_type: self.ip_type.clone(),
        }
    }
}

/// The addresses a server holds on one named network (one entry of the
/// server's network-name to addresses map).
#[derive(Debug, PartialEq)]
pub struct NetworkAddresses {
    pub network: String,
    pub addrs: Vec<Address>,
}

impl NetworkAddresses {
    /// Field-wise equality, the addresses compared by their elements.
    pub open spec fn eqv(&self, other: &Self) -> bool {
        self.network == other.network && self.addrs@ == other.addrs@
    }
}

impl Clone for NetworkAddresses {
    fn clone(&self) -> (r: Self)
        ensures
            r.eqv(self),
    {
        let addrs = self.addrs.clone();
        proof {
            assert forall|i: int| 0 <= i < addrs@.len() implies addrs@[i] == self.addrs@[i] by {
                assert(cloned(self.addrs[i], addrs[i]));
            }
            assert(addrs@ =~= self.addrs@);
        }
        NetworkAddresses { network: self.network.clone(), addrs }
    }
}

/// A volume attached to a server, as listed in the server record.
#[derive(Debug, PartialEq)]
pub struct AttachedVolume {
    pub id: String,
}

impl Clone for AttachedVolume {
    fn clone(&self) -> (r: Self)
        ensures
            r == *self,
    {
        AttachedVolume { id: self.id.clone() }
    }
}

/// A security group named in the server record.
#[derive(Debug, PartialEq)]
pub struct ServerSecurityGroup {
    pub name: String,
}

impl Clone for ServerSecurityGroup {
    fn clone(&self) -> (r: Self)
        ensures
            r == *self,
    {
        ServerSecurityGroup { name: self.name.clone() }
    }
}

/// A Nova server. Its addresses come from the service as a map keyed by
/// network name; `networks_distinct` holds of them as delivered.
#[derive(Debug, PartialEq)]
pub struct Server {
    pub id: String,
    pub name: String,
    pub status: String,
    pub tenant_id: Option<String>,
    pub host: Option<String>,
    pub host_id: Option<String>,
    pub availability_zone: Option<String>,
    pub flavor: FlavorRef,
    pub image: Option<ImageRef>,
    pub addresses: Vec<NetworkAddresses>,
    pub created: String,
    pub updated: Option<String>,
    pub key_name: Option<String>,
    pub volumes_attached: Vec<AttachedVolume>,
    pub security_groups: Vec<ServerSecurityGroup>,
}

/// Each network is listed once, as the keys of the service's address map
/// are.
pub open spec fn networks_distinct(addrs: Seq<NetworkAddresses>) -> bool {
    forall|i: int, j: int| 0 <= i < addrs.len() && 0 <= j < addrs.len() && i != j ==> (#[trigger] addrs[i]).network@ != (
    #[trigger] addrs[j]).network@
}

/// Element-wise equivalence of two network address lists.
pub open spec fn addresses_eqv(a: Seq<NetworkAddresses>, b: Seq<NetworkAddresses>) -> bool {
    a.len() == b.len() && forall|i: int| 0 <= i < a.len() ==> (#[trigger] a[i]).eqv(&b[i])
}

impl Server {
    /// Field-wise equality, the lists compared by their elements.
    pub open spec fn eqv(&self, other: &Self) -> bool {
        &&& self.id == other.id
        &&& self.name == other.name
        &&& self.status == other.status
        &&& self.tenant_id == other.tenant_id
        &&& self.host == other.host
        &&& self.host_id == other.host_id
        &&& self.availability_zone == other.availability_zone
        &&& self.flavor == other.flavor
        &&& self.image == other.image
        &&& addresses_eqv(self.addresses@, other.addresses@)
        &&& self.created == other.created
        &&& self.updated == other.updated
        &&& self.key_name == other.key_name
        &&& self.volumes_attached@ == other.volumes_attached@
        &&& self.security_groups@ == other.security_groups@
    }
}

/// Two server lists hold equivalent servers, position by position.
pub open spec fn servers_eqv(a: Seq<Server>, b: Seq<Server>) -> bool {
    a.len() == b.len() && forall|i: int| 0 <= i < a.len() ==> (#[trigger] a[i]).eqv(&b[i])
}

impl Clone for Server {
    fn clone(&self) -> (r: Self)
        ensures
            r.eqv(self),
    {
        let addresses = self.addresses.clone();
        let vols = self.volumes_attached.clone();
        let sgs = self.security_groups.clone();
        proof {
            assert forall|i: int| 0 <= i < addresses@.len() implies (#[trigger] addresses@[i]).eqv(
                &self.addresses@[i],
            ) by {
                assert(cloned(self.addresses[i], addresses[i]));
            }
            assert forall|i: int| 0 <= i < vols@.len() implies vols@[i]
                == self.volumes_attached@[i] by {
                assert(cloned(self.volumes_attached[i], vols[i]));
            }
            assert(vols@ =~= self.volumes_attached@);
            assert forall|i: int| 0 <= i < sgs@.len() implies sgs@[i]
                == self.security_groups@[i] by {
                assert(cloned(self.security_groups[i], sgs[i]));
            }
            assert(sgs@ =~= self.security_groups@);
        }
        Server {
            id: self.id.clone(),
            name: self.name.clone(),
            status: self.status.clone(),
            tenant_id: self.tenant_id.clone(),
            host: self.host.clone(),
            host_id: self.host_id.clone(),
            availability_zone: self.availability_zone.clone(),
            flavor: self.flavor.clone(),
            image: self.image.clone(),
            addresses,
            created: self.created.clone(),
            updated: self.updated.clone(),
            key_name: self.key_name.clone(),
            volumes_attached: vols,
            security_groups: sgs,
        }
    }
}

/// A Nova flavor.
#[derive(Debug, PartialEq)]
pub struct Flavor {
    pub id: String,
    pub name: String,
    pub vcpus: u32,
    pub ram: u32,
    pub disk: u32,
    pub is_public: bool,
}

impl Clone for Flavor {
    fn clone(&self) -> (r: Self)
        ensures
            r == *self,
    {
        Flavor {
            id: self.id.clone(),
            name: self.name.clone(),
            vcpus: self.vcpus,
            ram: self.ram,
            disk: self.disk,
            is_public: self.is_public,
        }
    }
}

/// A compute hypervisor with its resource counters.
#[derive(Debug, PartialEq)]
pub struct Hypervisor {
    pub id: String,
    pub hypervisor_hostname: String,
    pub hypervisor_type: String,
    pub vcpus: u32,
    pub vcpus_used: u32,
    pub memory_mb: u32,
    pub memory_mb_used: u32,
    pub local_gb: u32,
    pub local_gb_used: u32,
    pub running_vms: u32,
    pub status: String,
    pub state: String,
}

impl Clone for Hypervisor {
    fn clone(&self) -> (r: Self)
        ensures
            r == *self,
    {
        Hypervisor {
            id: self.id.clone(),
            hypervisor_hostname: self.hypervisor_hostname.clone(),
            hypervisor_type: self.hypervisor_type.clone(),
            vcpus: self.vcpus,
            vcpus_used: self.vcpus_used,
            memory_mb: self.memory_mb,
            memory_mb_used: self.memory_mb_used,
            local_gb: self.local_gb,
            local_gb_used: self.local_gb_used,
            running_vms: self.running_vms,
            status: self.status.clone(),
            state: self.state.clone(),
        }
    }
}

/// A Nova compute service.
#[derive(Debug, PartialEq)]
pub struct ComputeService {
    pub id: String,
    pub binary: String,
    pub host: String,
    pub state: String,
    pub status: String,
    pub updated_at: Option<String>,
    pub disabled_reason: Option<String>,
}

impl Clone for ComputeService {
    fn clone(&self) -> (r: Self)
        ensures
            r == *self,
    {
        ComputeService {
            id: self.id.clone(),
            binary: self.binary.clone(),
            host: self.host.clone(),
            state: self.state.clone(),
            status: self.status.clone(),
            updated_at: self.updated_at.clone(),
            disabled_reason: self.disabled_reason.clone(),
        }
    }
}

/// One metadata entry of a host aggregate.
#[derive(Debug, PartialEq)]
pub struct MetadataEntry {
    pub key: String,
    pub value: String,
}

impl Clone for MetadataEntry {
    fn clone(&self) -> (r: Self)
        ensures
            r == *self,
    {
        MetadataEntry { key: self.key.clone(), value: self.value.clone() }
    }
}

/// A Nova host aggregate.
#[derive(Debug, PartialEq)]
pub struct Aggregate {
    pub id: u64,
    pub name: String,
    pub availability_zone: Option<String>,
    pub hosts: Vec<String>,
    pub metadata: Vec<MetadataEntry>,
}

impl Aggregate {
    /// Field-wise equality, the lists compared by their elements.
    pub open spec fn eqv(&self, other: &Self) -> bool {
        &&& self.id == other.id
        &&& self.name == other.name
        &&& self.availability_zone == other.availability_zone
        &&& self.hosts@ == other.hosts@
        &&& self.metadata@ == other.metadata@
    }
}

impl Clone for Aggregate {
    fn clone(&self) -> (r: Self)
        ensures
            r.eqv(self),
    {
        let hosts = self.hosts.clone();
        let metadata = self.metadata.clone();
        proof {
            assert forall|i: int| 0 <= i < hosts@.len() implies hosts@[i] == self.hosts@[i] by {
                assert(cloned(self.hosts[i], hosts[i]));
            }
            assert(hosts@ =~= self.hosts@);
            assert forall|i: int| 0 <= i < metadata@.len() implies metadata@[i]
                == self.metadata@[i] by {
                assert(cloned(self.metadata[i], metadata[i]));
            }
            assert(metadata@ =~= self.metadata@);
        }
        Aggregate {
            id: self.id,
            name: self.name.clone(),
            availability_zone: self.availability_zone.clone(),
            hosts,
            metadata,
        }
    }
}

/// Progress of a server migration.
#[derive(Debug, PartialEq)]
pub struct ServerMigration {
    pub id: u64,
    pub status: String,
    pub source_compute: String,
    pub dest_compute: String,
    pub memory_total_bytes: Option<i64>,
    pub memory_processed_bytes: Option<i64>,
    pub memory_remaining_bytes: Option<i64>,
    pub disk_total_bytes: Option<i64>,
    pub disk_processed_bytes: Option<i64>,
    pub disk_remaining_bytes: Option<i64>,
    pub created_at: Option<String>,
    pub updated_at: Option<String>,
}

impl Clone for ServerMigration {
    fn clone(&self) -> (r: Self)
        ensures
            r == *self,
    {
        ServerMigration {
            id: self.id,
            status: self.status.clone(),
            source_compute: self.source_compute.clone(),
            dest_compute: self.dest_compute.clone(),
            memory_total_bytes: self.memory_total_bytes,
            memory_processed_bytes: self.memory_processed_bytes,
            memory_remaining_bytes: self.memory_remaining_bytes,
            disk_total_bytes: self.disk_total_bytes,
            disk_processed_bytes: self.disk_processed_bytes,
            disk_remaining_bytes: self.disk_remaining_bytes,
            created_at: self.created_at.clone(),
            updated_at: self.updated_at.clone(),
        }
    }
}

} // verus!
