//! Image records.
use vstd::prelude::*;

verus! {

/// A Glance image.
#[derive(Debug, PartialEq)]
pub struct Image {
    pub id: String,
    pub name: String,
    pub status: String,
    pub disk_format: Option<String>,
    pub container_format: Option<String>,
    pub size: Option<u64>,
    pub visibility: String,
    pub min_disk: u32,
    pub min_ram: u32,
    pub checksum: Option<String>,
    pub created_at: Option<String>,
}

impl Clone for Image {
    fn clone(&self) -> (r: Self)
        ensures
            r == *self,
    {
        Image {
            id: self.id.clone(),
            name: self.name.clone(),
            status: self.status.clone(),
            disk_format: self.disk_format.clone(),
            container_format: self.container_format.clone(),
            size: self.size,
            visibility: self.visibility.clone(),
            min_disk: self.min_disk,
            min_ram: self.min_ram,
            checksum: self.checksum.clone(),
            created_at: self.created_at.clone(),
        }
    }
}

} // verus!
