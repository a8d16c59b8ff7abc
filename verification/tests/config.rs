use zendns::config::{cycle_sources, Config, StartupError};

fn config() -> Config {
    Config {
        blocklist_sources: None,
        listen_addr: "127.0.0.1:5353".to_string(),
        dot_listen_addr: None,
        doh_listen_addr: None,
        upstream_addr: "9.9.9.9:53".to_string(),
        tls_cert: None,
        tls_key: None,
        enable_udp: None,
        enable_dot: None,
        enable_doh: None,
    }
}

#[test]
fn by_default_only_the_datagram_listener_runs() {
    let plan = config().plan().unwrap();
    assert_eq!(plan.udp, Some("127.0.0.1:5353".to_string()));
    assert!(plan.dot.is_none());
    assert!(plan.doh.is_none());
    assert_eq!(plan.upstream_addr, "9.9.9.9:53");
    assert_eq!(plan.blocklist_sources, Vec::<String>::new());
}

#[test]
fn datagram_listener_can_be_switched_off() {
    let mut c = config();
    c.enable_udp = Some(false);
    assert_eq!(c.plan().unwrap().udp, None);
    c.enable_udp = Some(true);
    assert_eq!(c.plan().unwrap().udp, Some("127.0.0.1:5353".to_string()));
}

#[test]
fn tls_listener_needs_certificate_and_key() {
    let mut c = config();
    c.enable_dot = Some(true);
    assert_eq!(c.plan().err(), Some(StartupError::MissingTlsCert));
    c.tls_key = Some("/etc/zendns/key.pem".to_string());
    assert_eq!(c.plan().err(), Some(StartupError::MissingTlsCert));
    c.tls_key = None;
    c.tls_cert = Some("/etc/zendns/cert.pem".to_string());
    assert_eq!(c.plan().err(), Some(StartupError::MissingTlsKey));
    c.tls_key = Some("/etc/zendns/key.pem".to_string());
    let plan = c.plan().unwrap();
    let dot = plan.dot.unwrap();
    assert_eq!(dot.addr, "0.0.0.0:853");
    assert_eq!(dot.tls.cert, "/etc/zendns/cert.pem");
    assert_eq!(dot.tls.key, "/etc/zendns/key.pem");
}

#[test]
fn missing_tls_material_matters_only_where_the_tls_listener_is_enabled() {
    let mut c = config();
    c.enable_dot = Some(false);
    assert!(c.plan().is_ok());
    c.enable_dot = None;
    c.enable_doh = Some(true);
    assert!(c.plan().is_ok());
}

#[test]
fn configured_addresses_win_over_the_defaults() {
    let mut c = config();
    c.enable_dot = Some(true);
    c.enable_doh = Some(true);
    c.tls_cert = Some("cert.pem".to_string());
    c.tls_key = Some("key.pem".to_string());
    c.dot_listen_addr = Some("127.0.0.1:8853".to_string());
    c.doh_listen_addr = Some("127.0.0.1:8080".to_string());
    let plan = c.plan().unwrap();
    assert_eq!(plan.dot.unwrap().addr, "127.0.0.1:8853");
    assert_eq!(plan.doh.unwrap().addr, "127.0.0.1:8080");
}

#[test]
fn http_listener_falls_back_to_plain_http_without_tls_material() {
    let mut c = config();
    c.enable_doh = Some(true);
    let doh = c.plan().unwrap().doh.unwrap();
    assert_eq!(doh.addr, "0.0.0.0:8443");
    assert!(doh.tls.is_none());

    c.tls_cert = Some("cert.pem".to_string());
    assert!(c.plan().unwrap().doh.unwrap().tls.is_none());

    c.tls_cert = None;
    c.tls_key = Some("key.pem".to_string());
    assert!(c.plan().unwrap().doh.unwrap().tls.is_none());

    c.tls_cert = Some("cert.pem".to_string());
    let tls = c.plan().unwrap().doh.unwrap().tls.unwrap();
    assert_eq!(tls.cert, "cert.pem");
    assert_eq!(tls.key, "key.pem");
}

#[test]
fn blocklist_sources_are_copied_in_order() {
    let mut c = config();
    c.blocklist_sources = Some(vec!["https://lists.example/a.txt".to_string(), "/var/lib/b.txt".to_string()]);
    assert_eq!(c.blocklist_sources(), vec!["https://lists.example/a.txt", "/var/lib/b.txt"]);
    assert_eq!(c.plan().unwrap().blocklist_sources, vec!["https://lists.example/a.txt", "/var/lib/b.txt"]);
    c.blocklist_sources = Some(Vec::new());
    assert_eq!(c.blocklist_sources(), Vec::<String>::new());
    c.blocklist_sources = None;
    assert_eq!(c.blocklist_sources(), Vec::<String>::new());
}

#[test]
fn refresh_cycle_takes_the_sources_of_the_configuration_read_again() {
    let last = vec!["/var/lib/old.txt".to_string()];
    let mut c = config();
    c.blocklist_sources = Some(vec!["https://lists.example/new.txt".to_string()]);
    assert_eq!(cycle_sources(Some(&c), last.clone()), vec!["https://lists.example/new.txt"]);
    c.blocklist_sources = None;
    assert_eq!(cycle_sources(Some(&c), last.clone()), Vec::<String>::new());
    assert_eq!(cycle_sources(None, last), vec!["/var/lib/old.txt"]);
    assert_eq!(cycle_sources(None, Vec::new()), Vec::<String>::new());
}

#[test]
fn configuration_can_be_copied_and_shown() {
    let mut c = config();
    c.blocklist_sources = Some(vec!["/var/lib/b.txt".to_string()]);
    c.enable_doh = Some(true);
    let copy = c.clone();
    assert_eq!(copy.listen_addr, c.listen_addr);
    assert_eq!(copy.upstream_addr, c.upstream_addr);
    assert_eq!(copy.blocklist_sources, c.blocklist_sources);
    assert_eq!(copy.enable_doh, Some(true));
    assert_eq!(copy.tls_cert, None);
    let shown = format!("{:?}", c);
    assert!(shown.contains("listen_addr"));
    assert!(shown.contains("127.0.0.1:5353"));
}
