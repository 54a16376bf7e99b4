//! The typed snapshot of server state and the library's error type.

use vstd::prelude::*;
use vstd::string::StringExecFns;

verus! {

/// Mathematical model of one snapshot: the optional time-of-day token as a
/// character sequence, the optional queue depth, and the two player counts.
pub ghost struct SnapshotView {
    pub server_time: Option<Seq<char>>,
    pub players_in_queue: Option<u32>,
    pub players: u32,
    pub max_players: u32,
}

/// One fully formed, immutable point-in-time reading of server state.
/// Replaced wholesale each polling cycle; never mutated field by field.
#[derive(Debug)]
pub struct ServerInfo {
    /// The one token from the raw status blob containing a `:`; `None` if absent.
    pub server_time: Option<String>,
    /// Parsed from the one token prefixed `lqs`; `None` if absent or unparsable.
    pub players_in_queue: Option<u32>,
    /// Current online count.
    pub players: u32,
    /// Server capacity. `players <= max_players` is expected of a well-behaved
    /// server but deliberately not required here: an overfull server is
    /// reported as observed rather than rejected.
    pub max_players: u32,
}

impl View for ServerInfo {
    type V = SnapshotView;

    open spec fn view(&self) -> SnapshotView {
        SnapshotView {
            server_time: match self.server_time {
                Some(t) => Some(t@),
                None => None,
            },
            players_in_queue: self.players_in_queue,
            players: self.players,
            max_players: self.max_players,
        }
    }
}

impl ServerInfo {
    /// A faithful copy: equal to `self` in every field.
    pub fn duplicate(&self) -> (r: ServerInfo)
        ensures
            r == *self,
    {
        ServerInfo {
            server_time: match &self.server_time {
                Some(t) => Some(t.clone()),
                None => None,
            },
            players_in_queue: self.players_in_queue,
            players: self.players,
            max_players: self.max_players,
        }
    }
}

/// Everything the monitoring core can fail with. The two transport variants
/// carry the failure rendered as text by the caller that performed the I/O;
/// the third is the extractor's own failure.
#[derive(Debug)]
pub enum DayzMonitorError {
    /// A socket-level failure while querying the server.
    TokioIOError(String),
    /// A query-protocol failure: malformed or unexpected response shape.
    A2SError(String),
    /// The protocol response carried no status-blob field at all.
    ExtractServerInfoKeywordsNonExistant,
}

impl DayzMonitorError {
    /// The human-readable description of each failure.
    pub open spec fn message_view(&self) -> Seq<char> {
        match self {
            DayzMonitorError::TokioIOError(why) => "Tokio IO error: "@ + why@,
            DayzMonitorError::A2SError(why) => "A2S error: "@ + why@,
            DayzMonitorError::ExtractServerInfoKeywordsNonExistant => "Failed to extract server info from a2s response, 'keywords' did not exist in response."@,
        }
    }

    /// Renders the failure for a log line or a startup abort, exactly as
    /// [`DayzMonitorError::message_view`] describes.
    pub fn message(&self) -> (r: String)
        ensures
            r@ == self.message_view(),
    {
        match self {
            DayzMonitorError::TokioIOError(why) => {
                let mut s = String::from_str("Tokio IO error: ");
                s.append(why.as_str());
                s
            },
            DayzMonitorError::A2SError(why) => {
                let mut s = String::from_str("A2S error: ");
                s.append(why.as_str());
                s
            },
            DayzMonitorError::ExtractServerInfoKeywordsNonExistant => String::from_str(
                "Failed to extract server info from a2s response, 'keywords' did not exist in response.",
            ),
        }
    }
}

/// The plain values a query round trip yields: the optional status blob and
/// the two counts. The transport that obtained them stays outside the library.
#[derive(Debug)]
pub struct QueryResponse {
    /// The comma-delimited status blob, absent when the response carried none.
    pub keywords: Option<String>,
    /// Current online count reported by the server.
    pub players: u32,
    /// Server capacity reported by the server.
    pub max_players: u32,
}

} // verus!
