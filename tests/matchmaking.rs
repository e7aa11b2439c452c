use striker_ball::matchmaking::{CancelAction, MatchmakerPlugin, Poll, ServerInfo, DEFAULT_REFRESH};

#[test]
fn matchmaker_search_refresh() {
    let mut m = MatchmakerPlugin::new("sb1player").build();
    assert_eq!(m.refresh.duration, DEFAULT_REFRESH);
    m.enable_search();
    let a = m.update(2_100_000_000);
    assert!(a.search);
    assert_eq!(a.poll, Poll::GameStart);
    assert_eq!(m.refresh.elapsed, 0);
    let b = m.update(500_000_000);
    assert!(!b.search);
    assert_eq!(m.refresh.elapsed, 500_000_000);
}

#[test]
fn matchmaker_no_search_when_disabled_or_hosting() {
    let mut m = MatchmakerPlugin::new("sb1player").build();
    assert!(!m.update(3_000_000_000).search);
    m.enable_search();
    assert!(m.lan_host());
    let a = m.update(3_000_000_000);
    assert!(!a.search);
    assert_eq!(a.poll, Poll::Players);
}

#[test]
fn matchmaker_host_and_join_exclusive() {
    let mut m = MatchmakerPlugin::new("sb1player").build();
    assert!(m.lan_host());
    assert!(!m.lan_host());
    assert!(m.is_hosting());
    assert_eq!(m.joined_players(), Some(0));
    let r = m.lan_join(&ServerInfo { name: String::from("other") });
    assert_eq!(r, CancelAction::StopServer);
    assert!(!m.is_hosting());
    assert!(m.is_joining());
    assert!(m.lan_host());
    assert!(!m.is_joining());
    m.players_polled(2, Some(9));
    assert!(m.is_joined());
    assert_eq!(m.network_match_socket(), Some(9));
    assert_eq!(m.update(1).poll, Poll::Nothing);
    assert_eq!(m.lan_cancel(), CancelAction::StopServer);
    assert!(!m.is_hosting() && !m.is_joining() && !m.is_joined());
    assert!(m.lan_servers().is_empty());
    assert!(!m.discovering);
}

#[test]
fn matchmaker_service_name_change_cancels() {
    let mut m = MatchmakerPlugin::new("sb1player").start_searching().build();
    assert!(m.search_enabled);
    assert_eq!(m.service_type(), "_sb1player._udp.local.");
    assert_eq!(m.update_service_name("sb1player"), None);
    m.set_lan_servers(vec![ServerInfo { name: String::from("a") }]);
    assert_eq!(m.update_service_name("sb2player"), Some(CancelAction::LeaveServer));
    assert_eq!(m.service_name(), "sb2player");
    assert!(m.lan_servers().is_empty());
}
