//! What holds of the health record across its operations, stated over the
//! values that the operations' contracts speak of.

use crate::health::{AppState, HealthError, HealthView, Stats};
use crate::health_dependency::{all_available, DependencyView};
use vstd::prelude::*;

verus! {

/// A list of dependencies is available exactly when every record in it is,
/// which is to say when no record in it is unavailable.
pub proof fn available_iff_every_record_is(deps: Seq<DependencyView>)
    ensures
        all_available(deps) <==> (forall|i: int| 0 <= i < deps.len() ==> deps[i].is_available),
        all_available(deps) <==> !(exists|i: int| 0 <= i < deps.len() && !deps[i].is_available),
{
}

/// A list without dependencies is available.
pub proof fn empty_list_is_available()
    ensures
        all_available(Seq::<DependencyView>::empty()),
{
}

/// Availability is the conjunction of the flags: a list with one more record
/// is available exactly when the list was and the record is.
pub proof fn availability_of_longer_list(deps: Seq<DependencyView>, last: DependencyView)
    ensures
        all_available(deps.push(last)) <==> all_available(deps) && last.is_available,
{
    let longer = deps.push(last);
    if all_available(longer) {
        assert(longer[deps.len() as int].is_available);
        assert forall|i: int| 0 <= i < deps.len() implies (#[trigger] deps[i]).is_available by {
            assert(longer[i].is_available);
        }
    }
    if all_available(deps) && last.is_available {
        assert forall|i: int| 0 <= i < longer.len() implies (#[trigger] longer[i]).is_available by {
            if i < deps.len() {
                assert(deps[i].is_available);
            }
        }
    }
}

/// Once the dependencies have been replaced by a list, a snapshot shows that
/// list, in its order, and the availability that the list gives.
pub proof fn snapshot_after_update(record: HealthView, deps: Seq<DependencyView>, stats: Stats)
    ensures
        record.with_dependencies(deps).snapshot(stats).dependencies == deps,
        record.with_dependencies(deps).snapshot(stats).is_available == all_available(deps),
{
}

/// A flag asserted by hand never reaches a snapshot: the snapshot's
/// availability is the one that the stored dependencies give, whatever was
/// asserted and whether or not the process could be sampled.
pub proof fn snapshot_ignores_asserted_flag(
    record: HealthView,
    asserted: bool,
    sample: Result<Stats, HealthError>,
    stats: Stats,
)
    ensures
        record.with_available(asserted, sample).snapshot(stats).is_available == all_available(
            record.dependencies,
        ),
        record.with_available(asserted, sample).snapshot(stats) == record.snapshot(stats),
{
}

/// Every snapshot is consistent: its availability is the conjunction of the
/// flags of the dependencies it shows.
pub proof fn snapshot_is_consistent(record: HealthView, stats: Stats)
    ensures
        record.snapshot(stats).is_consistent(),
{
}

/// Two snapshots of one record show the same start time, the one the record
/// was created with.
pub proof fn snapshots_share_start(record: HealthView, first: Stats, second: Stats)
    ensures
        record.snapshot(first).service_started == record.service_started,
        record.snapshot(second).service_started == record.service_started,
{
}

/// No operation on a record changes its start time, nor its identity.
pub proof fn operations_keep_start(
    record: HealthView,
    new_state: AppState,
    deps: Seq<DependencyView>,
    asserted: bool,
    sample: Result<Stats, HealthError>,
)
    ensures
        same_origin(record.with_state(new_state), record),
        same_origin(record.with_dependencies(deps), record),
        same_origin(record.with_available(asserted, sample), record),
{
}

/// Whether two records describe the same component, started at the same time.
pub open spec fn same_origin(a: HealthView, b: HealthView) -> bool {
    &&& a.component == b.component
    &&& a.component_description == b.component_description
    &&& a.version == b.version
    &&& a.service_started == b.service_started
}

/// After a move into a lifecycle phase a snapshot shows that phase, whatever
/// phase the record was in before.
pub proof fn snapshot_after_set_state(record: HealthView, new_state: AppState, stats: Stats)
    ensures
        record.with_state(new_state).snapshot(stats).app_state == new_state,
{
}

} // verus!
