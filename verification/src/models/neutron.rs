//! Networking records.
use vstd::prelude::*;

verus! {

/// A Neutron network.
#[derive(Debug, PartialEq)]
pub struct Network {
    pub id: String,
    pub name: String,
    pub status: String,
    pub description: Option<String>,
    pub admin_state_up: bool,
    pub external: bool,
    pub shared: bool,
    pub mtu: Option<u32>,
    pub port_security_enabled: Option<bool>,
    pub subnets: Vec<String>,
    pub provider_network_type: Option<String>,
    pub provider_physical_network: Option<String>,
    pub provider_segmentation_id: Option<u32>,
    pub tenant_id: Option<String>,
}

impl Network {
    /// Field-wise equality, the subnet list compared by its elements.
    pub open spec fn eqv(&self, other: &Self) -> bool {
        &&& self.id == other.id
        &&& self.name == other.name
        &&& self.status == other.status
        &&& self.description == other.description
        &&& self.admin_state_up == other.admin_state_up
        &&& self.external == other.external
        &&& self.shared == other.shared
        &&& self.mtu == other.mtu
        &&& self.port_security_enabled == other.port_security_enabled
        &&& self.subnets@ == other.subnets@
        &&& self.provider_network_type == other.provider_network_type
        &&& self.provider_physical_network == other.provider_physical_network
        &&& self.provider_segmentation_id == other.provider_segmentation_id
        &&& self.tenant_id == other.tenant_id
    }
}

impl Clone for Network {
    fn clone(&self) -> (r: Self)
        ensures
            r.eqv(self),
    {
        let subnets = self.subnets.clone();
        proof {
            assert forall|i: int| 0 <= i < subnets@.len() implies subnets@[i]
                == self.subnets@[i] by {
                assert(cloned(self.subnets[i], subnets[i]));
            }
            assert(subnets@ =~= self.subnets@);
        }
        Network {
            id: self.id.clone(),
            name: self.name.clone(),
            status: self.status.clone(),
            description: self.description.clone(),
            admin_state_up: self.admin_state_up,
            external: self.external,
            shared: self.shared,
            mtu: self.mtu,
            port_security_enabled: self.port_security_enabled,
            subnets,
            provider_network_type: self.provider_network_type.clone(),
            provider_physical_network: self.provider_physical_network.clone(),
            provider_segmentation_id: self.provider_segmentation_id,
            tenant_id: self.tenant_id.clone(),
        }
    }
}

/// A Neutron floating IP.
#[derive(Debug, PartialEq)]
pub struct FloatingIp {
    pub id: String,
    pub floating_ip_address: String,
    pub status: String,
    pub port_id: Option<String>,
    pub floating_network_id: String,
    pub fixed_ip_address: Option<String>,
    pub router_id: Option<String>,
    pub tenant_id: Option<String>,
}

impl Clone for FloatingIp {
    fn clone(&self) -> (r: Self)
        ensures
            r == *self,
    {
        FloatingIp {
            id: self.id.clone(),
            floating_ip_address: self.floating_ip_address.clone(),
            status: self.status.clone(),
            port_id: self.port_id.clone(),
            floating_network_id: self.floating_network_id.clone(),
            fixed_ip_address: self.fixed_ip_address.clone(),
            router_id: self.router_id.clone(),
            tenant_id: self.tenant_id.clone(),
        }
    }
}

/// One fixed address of a port.
#[derive(Debug, PartialEq)]
pub struct FixedIp {
    pub subnet_id: String,
    pub ip_address: String,
}

impl Clone for FixedIp {
    fn clone(&self) -> (r: Self)
        ensures
            r == *self,
    {
        FixedIp { subnet_id: self.subnet_id.clone(), ip_address: self.ip_address.clone() }
    }
}

/// A Neutron port.
#[derive(Debug, PartialEq)]
pub struct Port {
    pub id: String,
    pub name: Option<String>,
    pub network_id: String,
    pub fixed_ips: Vec<FixedIp>,
    pub device_id: Option<String>,
    pub device_owner: Option<String>,
    pub status: String,
    pub tenant_id: Option<String>,
}

impl Port {
    /// Field-wise equality, the fixed addresses compared by their elements.
    pub open spec fn eqv(&self, other: &Self) -> bool {
        &&& self.id == other.id
        &&& self.name == other.name
        &&& self.network_id == other.network_id
        &&& self.fixed_ips@ == other.fixed_ips@
        &&& self.device_id == other.device_id
        &&& self.device_owner == other.device_owner
        &&& self.status == other.status
        &&& self.tenant_id == other.tenant_id
    }
}

impl Clone for Port {
    fn clone(&self) -> (r: Self)
        ensures
            r.eqv(self),
    {
        let fixed_ips = self.fixed_ips.clone();
        proof {
            assert forall|i: int| 0 <= i < fixed_ips@.len() implies fixed_ips@[i]
                == self.fixed_ips@[i] by {
                assert(cloned(self.fixed_ips[i], fixed_ips[i]));
            }
            assert(fixed_ips@ =~= self.fixed_ips@);
        }
        Port {
            id: self.id.clone(),
            name: self.name.clone(),
            network_id: self.network_id.clone(),
            fixed_ips,
            device_id: self.device_id.clone(),
            device_owner: self.device_owner.clone(),
            status: self.status.clone(),
            tenant_id: self.tenant_id.clone(),
        }
    }
}

/// One rule of a security group.
#[derive(Debug, PartialEq)]
pub struct SecurityGroupRule {
    pub id: String,
    pub direction: String,
    pub protocol: Option<String>,
    pub port_range_min: Option<u16>,
    pub port_range_max: Option<u16>,
    pub remote_ip_prefix: Option<String>,
    pub remote_group_id: Option<String>,
    pub ethertype: String,
}

impl Clone for SecurityGroupRule {
    fn clone(&self) -> (r: Self)
        ensures
            r == *self,
    {
        SecurityGroupRule {
            id: self.id.clone(),
            direction: self.direction.clone(),
            protocol: self.protocol.clone(),
            port_range_min: self.port_range_min,
            port_range_max: self.port_range_max,
            remote_ip_prefix: self.remote_ip_prefix.clone(),
            remote_group_id: self.remote_group_id.clone(),
            ethertype: self.ethertype.clone(),
        }
    }
}

/// A Neutron security group.
#[derive(Debug, PartialEq)]
pub struct SecurityGroup {
    pub id: String,
    pub name: String,
    pub description: Option<String>,
    pub security_group_rules: Vec<SecurityGroupRule>,
    pub tenant_id: Option<String>,
}

impl SecurityGroup {
    /// Field-wise equality, the rules compared by their elements.
    pub open spec fn eqv(&self, other: &Self) -> bool {
        &&& self.id == other.id
        &&& self.name == other.name
        &&& self.description == other.description
        &&& self.security_group_rules@ == other.security_group_rules@
        &&& self.tenant_id == other.tenant_id
    }
}

impl Clone for SecurityGroup {
    fn clone(&self) -> (r: Self)
        ensures
            r.eqv(self),
    {
        let rules = self.security_group_rules.clone();
        proof {
            assert forall|i: int| 0 <= i < rules@.len() implies rules@[i]
                == self.security_group_rules@[i] by {
                assert(cloned(self.security_group_rules[i], rules[i]));
            }
            assert(rules@ =~= self.security_group_rules@);
        }
        SecurityGroup {
            id: self.id.clone(),
            name: self.name.clone(),
            description: self.description.clone(),
            security_group_rules: rules,
            tenant_id: self.tenant_id.clone(),
        }
    }
}

/// A Neutron agent.
#[derive(Debug, PartialEq)]
pub struct NetworkAgent {
    pub id: String,
    pub agent_type: String,
    pub host: String,
    pub admin_state_up: bool,
    pub alive: bool,
    pub binary: String,
}

impl Clone for NetworkAgent {
    fn clone(&self) -> (r: Self)
        ensures
            r == *self,
    {
        NetworkAgent {
            id: self.id.clone(),
            agent_type: self.agent_type.clone(),
            host: self.host.clone(),
            admin_state_up: self.admin_state_up,
            alive: self.alive,
            binary: self.binary.clone(),
        }
    }
}

} // verus!
