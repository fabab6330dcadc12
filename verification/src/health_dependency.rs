//! One external service that a component relies on, with its last known
//! availability.

use vstd::prelude::*;

verus! {

/// What the service is and whether it was reachable when last looked at.
/// Nothing here probes the service: the caller supplies the flag.
#[derive(Debug)]
pub struct HealthDependency {
    pub component: String,
    pub url: String,
    pub is_available: bool,
    pub description: String,
    pub availability_message: String,
    pub auth_type: String,
}

/// The mathematical value of a [`HealthDependency`]: its texts as sequences
/// of characters.
pub struct DependencyView {
    pub component: Seq<char>,
    pub url: Seq<char>,
    pub is_available: bool,
    pub description: Seq<char>,
    pub availability_message: Seq<char>,
    pub auth_type: Seq<char>,
}

impl View for HealthDependency {
    type V = DependencyView;

    open spec fn view(&self) -> DependencyView {
        DependencyView {
            component: self.component@,
            url: self.url@,
            is_available: self.is_available,
            description: self.description@,
            availability_message: self.availability_message@,
            auth_type: self.auth_type@,
        }
    }
}

impl Clone for HealthDependency {
    fn clone(&self) -> (copy: Self)
        ensures
            copy == *self,
    {
        HealthDependency {
            component: self.component.clone(),
            url: self.url.clone(),
            is_available: self.is_available,
            description: self.description.clone(),
            availability_message: self.availability_message.clone(),
            auth_type: self.auth_type.clone(),
        }
    }
}

impl HealthDependency {
    /// The record that [`HealthDependency::example`] builds for a given flag.
    pub open spec fn example_view(available: bool) -> DependencyView {
        DependencyView {
            component: "ExampleComponent"@,
            url: "https://dep-service.com"@,
            is_available: available,
            description: "Main app has dependency on this service"@,
            availability_message: "Is available for testing"@,
            auth_type: "LDAP"@,
        }
    }

    /// A sample record for demonstrations, available or not as asked.
    pub fn example(available: bool) -> (dep: Self)
        ensures
            dep@ == Self::example_view(available),
    {
        HealthDependency {
            component: String::from_str("ExampleComponent"),
            url: String::from_str("https://dep-service.com"),
            is_available: available,
            description: String::from_str("Main app has dependency on this service"),
            availability_message: String::from_str("Is available for testing"),
            auth_type: String::from_str("LDAP"),
        }
    }
}

/// The records of a list, in the order of the list.
pub open spec fn dependency_views(deps: Seq<HealthDependency>) -> Seq<DependencyView> {
    deps.map_values(|dep: HealthDependency| dep@)
}

/// Whether every record of a list is marked available. A list without
/// records is available.
pub open spec fn all_available(deps: Seq<DependencyView>) -> bool {
    forall|i: int| 0 <= i < deps.len() ==> (#[trigger] deps[i]).is_available
}

/// Whether every dependency of a list is marked available: `true` exactly
/// when none is marked unavailable, and so `true` for an empty list.
pub fn dependencies_available(deps: &Vec<HealthDependency>) -> (available: bool)
    ensures
        available == all_available(dependency_views(deps@)),
{
    let mut i: usize = 0;
    while i < deps.len()
        invariant
            i <= deps.len(),
            forall|j: int| 0 <= j < i ==> (#[trigger] dependency_views(deps@)[j]).is_available,
        decreases deps.len() - i,
    {
        if !deps[i].is_available {
            assert(!dependency_views(deps@)[i as int].is_available);
            return false;
        }
        i += 1;
    }
    true
}

/// Copies a list of dependencies, record by record and in order.
pub fn copy_dependencies(deps: &Vec<HealthDependency>) -> (copy: Vec<HealthDependency>)
    ensures
        copy@ == deps@,
{
    let mut copy: Vec<HealthDependency> = Vec::new();
    let mut i: usize = 0;
    while i < deps.len()
        invariant
            i <= deps.len(),
            copy@ == deps@.subrange(0, i as int),
        decreases deps.len() - i,
    {
        copy.push(deps[i].clone());
        assert(copy@ == deps@.subrange(0, i + 1));
        i += 1;
    }
    assert(deps@.subrange(0, deps@.len() as int) == deps@);
    copy
}

} // verus!
