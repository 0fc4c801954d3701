//! Identity records.
use vstd::prelude::*;

verus! {

/// A Keystone project.
#[derive(Debug, PartialEq)]
pub struct Project {
    pub id: String,
    pub name: String,
    pub description: Option<String>,
    pub enabled: bool,
    pub domain_id: Option<String>,
}

impl Clone for Project {
    fn clone(&self) -> (r: Self)
        ensures
            r == *self,
    {
        Project {
            id: self.id.clone(),
            name: self.name.clone(),
            description: self.description.clone(),
            enabled: self.enabled,
            domain_id: self.domain_id.clone(),
        }
    }
}

/// A Keystone user.
#[derive(Debug, PartialEq)]
pub struct User {
    pub id: String,
    pub name: String,
    pub email: Option<String>,
    pub enabled: bool,
    pub default_project_id: Option<String>,
    pub domain_id: Option<String>,
}

impl Clone for User {
    fn clone(&self) -> (r: Self)
        ensures
            r == *self,
    {
        User {
            id: self.id.clone(),
            name: self.name.clone(),
            email: self.email.clone(),
            enabled: self.enabled,
            default_project_id: self.default_project_id.clone(),
            domain_id: self.domain_id.clone(),
        }
    }
}

} // verus!
