use dayz_monitor::{
    decide_sync_action, poll_cycle, DayzMonitorError, QueryResponse, ServerInfo, SharedStateCache,
    SyncAction, Synchronizer,
};

fn snapshot(players: u32, max_players: u32) -> ServerInfo {
    ServerInfo {
        server_time: None,
        players_in_queue: None,
        players,
        max_players,
    }
}

#[test]
fn cache_read_returns_the_stored_snapshot() {
    let cache = SharedStateCache::new(snapshot(1, 2));
    let got = cache.read();
    assert_eq!(got.players, 1);
    assert_eq!(got.max_players, 2);
}

#[test]
fn cache_replace_swaps_wholesale_and_returns_previous() {
    let cache = SharedStateCache::new(snapshot(1, 2));
    let prev = cache.replace(ServerInfo {
        server_time: Some("08:00".to_string()),
        players_in_queue: Some(9),
        players: 3,
        max_players: 4,
    });
    assert_eq!(prev.players, 1);
    let got = cache.read();
    assert_eq!(got.players, 3);
    assert_eq!(got.max_players, 4);
    assert_eq!(got.players_in_queue, Some(9));
    assert_eq!(got.server_time, Some("08:00".to_string()));
}

#[test]
fn synchronizer_always_updates_first() {
    let sync = Synchronizer::new();
    assert!(sync.plan("DayZ: 1 / 2 players online."));
}

#[test]
fn synchronizer_skips_an_unchanged_name() {
    let mut sync = Synchronizer::new();
    let name = "DayZ: 1 / 2 players online.".to_string();
    assert!(sync.plan(&name));
    sync.record(name.clone(), true);
    assert!(!sync.plan(&name));
    assert!(sync.plan("DayZ: 2 / 2 players online."));
}

#[test]
fn synchronizer_baseline_stays_pinned_after_failure() {
    let mut sync = Synchronizer::new();
    let first = "DayZ: 1 / 2 players online.".to_string();
    sync.record(first.clone(), true);
    let second = "DayZ: 2 / 2 players online.".to_string();
    sync.record(second.clone(), false);
    assert!(sync.plan(&second));
    assert!(!sync.plan(&first));
}

#[test]
fn poll_cycle_failure_touches_nothing() {
    let cache = SharedStateCache::new(snapshot(1, 2));
    let sync = Synchronizer::new();
    let outcome = poll_cycle(
        &cache,
        &sync,
        "DayZ",
        Err(DayzMonitorError::A2SError("request timed out".to_string())),
    );
    assert!(matches!(outcome, Err(DayzMonitorError::A2SError(why)) if why == "request timed out"));
    assert_eq!(cache.read().players, 1);
}

#[test]
fn poll_cycle_without_blob_touches_nothing() {
    let cache = SharedStateCache::new(snapshot(1, 2));
    let sync = Synchronizer::new();
    let outcome = poll_cycle(
        &cache,
        &sync,
        "DayZ",
        Ok(QueryResponse {
            keywords: None,
            players: 40,
            max_players: 60,
        }),
    );
    assert!(matches!(
        outcome,
        Err(DayzMonitorError::ExtractServerInfoKeywordsNonExistant)
    ));
    assert_eq!(cache.read().players, 1);
}

#[test]
fn poll_cycle_updates_cache_and_plans_once() {
    let cache = SharedStateCache::new(snapshot(1, 2));
    let mut sync = Synchronizer::new();
    let response = || {
        Ok(QueryResponse {
            keywords: Some("lqs5,12:34".to_string()),
            players: 40,
            max_players: 60,
        })
    };

    let outcome = poll_cycle(&cache, &sync, "DayZ", response()).unwrap();
    let name = outcome.expect("the first differing name must be planned");
    assert_eq!(name, "DayZ: 40 (+ 5) / 60 players online.");
    let cached = cache.read();
    assert_eq!(cached.players, 40);
    assert_eq!(cached.max_players, 60);
    assert_eq!(cached.players_in_queue, Some(5));
    assert_eq!(cached.server_time, Some("12:34".to_string()));

    sync.record(name, true);
    for _ in 0..3 {
        assert_eq!(poll_cycle(&cache, &sync, "DayZ", response()).unwrap(), None);
    }

    let changed = poll_cycle(
        &cache,
        &sync,
        "DayZ",
        Ok(QueryResponse {
            keywords: Some("lqs4,12:35".to_string()),
            players: 41,
            max_players: 60,
        }),
    );
    assert_eq!(
        changed.unwrap(),
        Some("DayZ: 41 (+ 4) / 60 players online.".to_string())
    );
}

#[test]
fn error_messages_render() {
    assert_eq!(
        DayzMonitorError::TokioIOError("broken pipe".to_string()).message(),
        "Tokio IO error: broken pipe"
    );
    assert_eq!(
        DayzMonitorError::A2SError("bad header".to_string()).message(),
        "A2S error: bad header"
    );
    assert_eq!(
        DayzMonitorError::ExtractServerInfoKeywordsNonExistant.message(),
        "Failed to extract server info from a2s response, 'keywords' did not exist in response."
    );
}

#[test]
fn sync_action_renames_first_prefix_match() {
    let existing = vec![
        "general".to_string(),
        "DayZ: 1 / 2 players online.".to_string(),
        "DayZ".to_string(),
    ];
    assert_eq!(decide_sync_action(&existing, "DayZ"), SyncAction::Rename(1));
}

#[test]
fn sync_action_creates_when_nothing_matches() {
    let existing = vec!["general".to_string(), "Day".to_string()];
    assert_eq!(decide_sync_action(&existing, "DayZ"), SyncAction::Create);
    assert_eq!(
        decide_sync_action(&Vec::new(), "DayZ"),
        SyncAction::Create
    );
}

#[test]
fn sync_action_exact_name_counts_as_prefix_match() {
    let existing = vec!["DayZ".to_string()];
    assert_eq!(decide_sync_action(&existing, "DayZ"), SyncAction::Rename(0));
}
