//! One polling cycle's decisions, separated from the I/O that surrounds
//! them. The driver loop performs the query round trip, hands the outcome
//! in as plain values, performs whatever external call is planned, and
//! reports that call's outcome back to the synchronizer.

use vstd::prelude::*;

use crate::cache::SharedStateCache;
use crate::extract::{build_server_info, extracted};
use crate::replies::{channel_name, derived_channel_name};
use crate::info::{DayzMonitorError, QueryResponse, SnapshotView};
use crate::sync::{needs_update, Synchronizer};

verus! {

/// Processes the outcome of one query round trip.
///
/// A failed query, or a response without the status blob, leaves the cache
/// untouched and hands the failure back for the driver to log: it is retried
/// only by the next scheduled cycle. A successful extraction replaces the
/// cached snapshot and plans an external call exactly when the derived
/// channel name differs from the synchronized baseline; the planned name is
/// returned for the caller to display and then report back through
/// [`Synchronizer::record`].
pub fn poll_cycle(
    cache: &SharedStateCache,
    sync: &Synchronizer,
    server_name: &str,
    response: Result<QueryResponse, DayzMonitorError>,
) -> (outcome: Result<Option<String>, DayzMonitorError>)
    requires
        cache.wf(),
    ensures
        response matches Err(why) ==> (outcome matches Err(e) && e == why),
        response matches Ok(q) ==> q.keywords is None ==> (outcome matches Err(e)
            && e is ExtractServerInfoKeywordsNonExistant),
        response matches Ok(q) ==> q.keywords matches Some(blob) ==> ({
            let v = SnapshotView {
                players: q.players,
                max_players: q.max_players,
                ..extracted(blob@)
            };
            let name = channel_name(server_name@, v);
            if needs_update(sync.baseline_view(), name) {
                outcome matches Ok(plan) && plan matches Some(p) && p@ == name
            } else {
                outcome matches Ok(plan) && plan is None
            }
        }),
{
    let q = match response {
        Ok(q) => q,
        Err(why) => {
            return Err(why);
        },
    };
    let info = match build_server_info(q.keywords, q.players, q.max_players) {
        Ok(info) => info,
        Err(why) => {
            return Err(why);
        },
    };
    let name = derived_channel_name(server_name, &info);
    let _prev = cache.replace(info);
    if sync.plan(name.as_str()) {
        Ok(Some(name))
    } else {
        Ok(None)
    }
}

} // verus!
