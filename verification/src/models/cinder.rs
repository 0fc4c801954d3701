//! Block storage records.
use vstd::prelude::*;

verus! {

/// Where a volume is attached.
#[derive(Debug, PartialEq)]
pub struct VolumeAttachment {
    pub server_id: String,
    pub device: String,
    pub id: String,
}

impl Clone for VolumeAttachment {
    fn clone(&self) -> (r: Self)
        ensures
            r == *self,
    {
        VolumeAttachment {
            server_id: self.server_id.clone(),
            device: self.device.clone(),
            id: self.id.clone(),
        }
    }
}

/// A Cinder volume.
#[derive(Debug, PartialEq)]
pub struct Volume {
    pub id: String,
    pub name: Option<String>,
    pub description: Option<String>,
    pub status: String,
    pub size: u64,
    pub volume_type: Option<String>,
    pub encrypted: bool,
    pub bootable: String,
    pub attachments: Vec<VolumeAttachment>,
    pub availability_zone: Option<String>,
    pub created_at: Option<String>,
}

impl Volume {
    /// Field-wise equality, the attachment list compared by its elements.
    pub open spec fn eqv(&self, other: &Self) -> bool {
        &&& self.id == other.id
        &&& self.name == other.name
        &&& self.description == other.description
        &&& self.status == other.status
        &&& self.size == other.size
        &&& self.volume_type == other.volume_type
        &&& self.encrypted == other.encrypted
        &&& self.bootable == other.bootable
        &&& self.attachments@ == other.attachments@
        &&& self.availability_zone == other.availability_zone
        &&& self.created_at == other.created_at
    }
}

/// Two lists hold equivalent volumes, position by position.
pub open spec fn volumes_eqv(a: Seq<Volume>, b: Seq<Volume>) -> bool {
    a.len() == b.len() && forall|i: int| 0 <= i < a.len() ==> (#[trigger] a[i]).eqv(&b[i])
}

impl Clone for Volume {
    fn clone(&self) -> (r: Self)
        ensures
            r.eqv(self),
    {
        let attachments = self.attachments.clone();
        proof {
            assert forall|i: int| 0 <= i < attachments@.len() implies attachments@[i]
                == self.attachments@[i] by {
                assert(cloned(self.attachments[i], attachments[i]));
            }
            assert(attachments@ =~= self.attachments@);
        }
        Volume {
            id: self.id.clone(),
            name: self.name.clone(),
            description: self.description.clone(),
            status: self.status.clone(),
            size: self.size,
            volume_type: self.volume_type.clone(),
            encrypted: self.encrypted,
            bootable: self.bootable.clone(),
            attachments,
            availability_zone: self.availability_zone.clone(),
            created_at: self.created_at.clone(),
        }
    }
}

/// A Cinder volume snapshot.
#[derive(Debug, PartialEq)]
pub struct VolumeSnapshot {
    pub id: String,
    pub name: Option<String>,
    pub status: String,
    pub size: u64,
    pub volume_id: String,
    pub created_at: Option<String>,
    pub tenant_id: Option<String>,
}

impl Clone for VolumeSnapshot {
    fn clone(&self) -> (r: Self)
        ensures
            r == *self,
    {
        VolumeSnapshot {
            id: self.id.clone(),
            name: self.name.clone(),
            status: self.status.clone(),
            size: self.size,
            volume_id: self.volume_id.clone(),
            created_at: self.created_at.clone(),
            tenant_id: self.tenant_id.clone(),
        }
    }
}

} // verus!
