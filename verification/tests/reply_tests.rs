use dayz_monitor::{
    derived_channel_name, pretty_print_players_in_queue, time_reply, u32_to_string, ServerInfo,
};

#[test]
fn count_reply_without_queue() {
    let info = ServerInfo {
        server_time: None,
        players_in_queue: None,
        players: 40,
        max_players: 60,
    };
    assert_eq!(
        pretty_print_players_in_queue(&info),
        "40 / 60 players online."
    );
}

#[test]
fn count_reply_with_queue() {
    let info = ServerInfo {
        server_time: None,
        players_in_queue: Some(5),
        players: 40,
        max_players: 60,
    };
    assert_eq!(
        pretty_print_players_in_queue(&info),
        "40 (+ 5) / 60 players online."
    );
}

#[test]
fn time_reply_with_time() {
    let info = ServerInfo {
        server_time: Some("12:34".to_string()),
        players_in_queue: None,
        players: 1,
        max_players: 2,
    };
    assert_eq!(time_reply(&info), "Time on the DayZ server is: 12:34");
}

#[test]
fn time_reply_without_time() {
    let info = ServerInfo {
        server_time: None,
        players_in_queue: None,
        players: 1,
        max_players: 2,
    };
    assert_eq!(
        time_reply(&info),
        "Unable to get the current time of the DayZ server."
    );
}

#[test]
fn channel_name_embeds_the_count_reply() {
    let info = ServerInfo {
        server_time: None,
        players_in_queue: Some(2),
        players: 41,
        max_players: 60,
    };
    assert_eq!(
        derived_channel_name("DayZ", &info),
        "DayZ: 41 (+ 2) / 60 players online."
    );
}

#[test]
fn decimal_rendering() {
    assert_eq!(u32_to_string(0), "0");
    assert_eq!(u32_to_string(7), "7");
    assert_eq!(u32_to_string(10), "10");
    assert_eq!(u32_to_string(100), "100");
    assert_eq!(u32_to_string(4294967295), "4294967295");
}
