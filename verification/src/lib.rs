//! Monitoring core for a game server's live state.
//!
//! The library parses the server's ad hoc status encoding into a typed
//! snapshot, caches the latest snapshot for concurrent readers, formats the
//! human-facing replies derived from it, and decides when the downstream
//! display (a channel name) actually needs an external update.

pub mod cache;
pub mod extract;
pub mod info;
pub mod poller;
pub mod replies;
pub mod sync;

pub use cache::SharedStateCache;
pub use extract::{build_server_info, extract_time_and_queue};
pub use info::{DayzMonitorError, QueryResponse, ServerInfo};
pub use poller::poll_cycle;
pub use replies::{derived_channel_name, pretty_print_players_in_queue, time_reply, u32_to_string};
pub use sync::{decide_sync_action, SyncAction, Synchronizer};
