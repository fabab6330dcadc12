//! Process-local health reporting: a component's lifecycle state, its resource
//! statistics and the availability of the services it depends on, combined
//! into one record.

pub mod health;
pub mod health_dependency;
pub mod host;
pub mod laws;
