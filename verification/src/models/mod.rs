//! Domain records of the cloud resources the console shows.
pub mod cinder;
pub mod common;
pub mod glance;
pub mod keystone;
pub mod neutron;
pub mod nova;
