use flatline::remote_pane::{
    pane_title, ConfigError, RemotePaneMsg, ServerAddress, SizeTracker, CONTROL_QUEUE_CAPACITY,
    MAX_PORT,
};

#[test]
fn tracker_has_seen_nothing_at_first() {
    assert_eq!(SizeTracker::new().last(), (-1, -1));
}

#[test]
fn first_geometry_is_announced_columns_first() {
    let mut tracker = SizeTracker::new();
    assert_eq!(tracker.observe(Some((24, 80))), Some(RemotePaneMsg::SizeChanged(80, 24)));
    assert_eq!(tracker.last(), (24, 80));
}

#[test]
fn same_geometry_is_announced_once() {
    let mut tracker = SizeTracker::new();
    tracker.observe(Some((24, 80)));
    assert_eq!(tracker.observe(Some((24, 80))), None);
    assert_eq!(tracker.observe(Some((24, 80))), None);
    assert_eq!(tracker.last(), (24, 80));
}

#[test]
fn each_change_is_announced() {
    let mut tracker = SizeTracker::new();
    tracker.observe(Some((24, 80)));
    assert_eq!(tracker.observe(Some((24, 81))), Some(RemotePaneMsg::SizeChanged(81, 24)));
    assert_eq!(tracker.observe(Some((25, 81))), Some(RemotePaneMsg::SizeChanged(81, 25)));
    assert_eq!(tracker.observe(Some((24, 80))), Some(RemotePaneMsg::SizeChanged(80, 24)));
}

#[test]
fn no_geometry_changes_nothing() {
    let mut tracker = SizeTracker::new();
    assert_eq!(tracker.observe(None), None);
    assert_eq!(tracker.last(), (-1, -1));
    tracker.observe(Some((24, 80)));
    assert_eq!(tracker.observe(None), None);
    assert_eq!(tracker.last(), (24, 80));
}

#[test]
fn unseen_geometry_reported_is_not_announced() {
    let mut tracker = SizeTracker::new();
    assert_eq!(tracker.observe(Some((-1, -1))), None);
    assert_eq!(tracker.observe(Some((-1, 80))), Some(RemotePaneMsg::SizeChanged(80, -1)));
}

#[test]
fn control_queue_holds_ten_messages() {
    assert_eq!(CONTROL_QUEUE_CAPACITY, 10);
}

#[test]
fn address_needs_a_host() {
    assert_eq!(ServerAddress::new(None, Some(22)).err(), Some(ConfigError::MissingAddress));
    assert_eq!(ServerAddress::new(None, None).err(), Some(ConfigError::MissingAddress));
}

#[test]
fn address_needs_a_port() {
    let address = ServerAddress::new(Some(String::from("localhost")), None);
    assert_eq!(address.err(), Some(ConfigError::MissingPort));
}

#[test]
fn address_needs_a_port_in_range() {
    assert_eq!(MAX_PORT, 65_535);
    let address = ServerAddress::new(Some(String::from("localhost")), Some(65_536));
    assert_eq!(address.err(), Some(ConfigError::PortOutOfRange));
    let address = ServerAddress::new(Some(String::from("localhost")), Some(u32::MAX));
    assert_eq!(address.err(), Some(ConfigError::PortOutOfRange));
    assert!(ServerAddress::new(Some(String::from("localhost")), Some(65_535)).is_ok());
    assert!(ServerAddress::new(Some(String::from("localhost")), Some(0)).is_ok());
}

#[test]
fn address_keeps_its_parts() {
    let address = ServerAddress::new(Some(String::from("example.org")), Some(2222)).ok().unwrap();
    assert_eq!(address.host(), "example.org");
    assert_eq!(address.port(), 2222);
}

#[test]
fn address_as_host_and_port() {
    let text = |host: &str, port: u32| {
        ServerAddress::new(Some(String::from(host)), Some(port)).ok().unwrap().to_host_port()
    };
    assert_eq!(text("localhost", 22), "localhost:22");
    assert_eq!(text("localhost", 0), "localhost:0");
    assert_eq!(text("localhost", 9), "localhost:9");
    assert_eq!(text("localhost", 10), "localhost:10");
    assert_eq!(text("10.0.0.1", 65_535), "10.0.0.1:65535");
    assert_eq!(text("h\u{e9}te", 1234567 % 65_536), "h\u{e9}te:54919");
    assert_eq!(text("", 100), ":100");
}

#[test]
fn title_without_terminal_title_is_the_server() {
    assert_eq!(pane_title("", "localhost"), "localhost");
    assert_eq!(pane_title("", ""), "");
}

#[test]
fn title_with_terminal_title() {
    assert_eq!(pane_title("vim", "localhost"), "vim - localhost");
    assert_eq!(pane_title(" ", ""), "  - ");
}

#[test]
fn only_a_resize_may_be_dropped() {
    assert!(RemotePaneMsg::SizeChanged(80, 24).is_droppable());
    assert!(!RemotePaneMsg::Close.is_droppable());
}
