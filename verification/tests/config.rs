use rclip::config::{
    build_clipboard_cmd, needs_clipboard_source, ClientCertificate, ClientConfig, Server,
    ServerCertificate, ServerConfig, DEFAULT_SERVER_PORT,
};

#[test]
fn server_defaults_to_local_endpoint() {
    let s = Server::default();
    assert_eq!(s.host.as_deref(), Some("127.0.0.1"));
    assert_eq!(s.port, Some(10080));
    assert_eq!(DEFAULT_SERVER_PORT, 10080);
}

#[test]
fn certificate_sections_default_to_no_paths() {
    let c = ServerCertificate::default();
    assert!(c.der_cert_pub.is_none());
    assert!(c.der_cert_priv.is_none());
    let c = ClientCertificate::default();
    assert!(c.der_cert_pub.is_none());
}

#[test]
fn composite_configs_default_section_by_section() {
    let c = ServerConfig::default();
    assert_eq!(c.server.host.as_deref(), Some("127.0.0.1"));
    assert_eq!(c.server.port, Some(10080));
    assert!(c.certificate.der_cert_pub.is_none());
    assert!(c.certificate.der_cert_priv.is_none());

    let c = ClientConfig::default();
    assert_eq!(c.server.host.as_deref(), Some("127.0.0.1"));
    assert_eq!(c.server.port, Some(10080));
    assert!(c.certificate.der_cert_pub.is_none());
}

#[test]
fn discovered_cert_path_only_fills_a_gap() {
    let mut c = ClientConfig::default();
    c.fill_default_cert(Some(String::from("/data/der-cert-pub.der")));
    assert_eq!(c.certificate.der_cert_pub.as_deref(), Some("/data/der-cert-pub.der"));

    let mut c = ClientConfig::default();
    c.certificate.der_cert_pub = Some(String::from("/explicit.der"));
    c.fill_default_cert(Some(String::from("/data/der-cert-pub.der")));
    assert_eq!(c.certificate.der_cert_pub.as_deref(), Some("/explicit.der"));

    let mut c = ClientConfig::default();
    c.fill_default_cert(None);
    assert!(c.certificate.der_cert_pub.is_none());
}

#[test]
fn cli_overrides_win_over_loaded_values() {
    let mut c = ClientConfig::default();
    c.apply_cli_overrides(
        Some(String::from("example.org")),
        Some(4433),
        Some(String::from("/cli.der")),
    );
    assert_eq!(c.server.host.as_deref(), Some("example.org"));
    assert_eq!(c.server.port, Some(4433));
    assert_eq!(c.certificate.der_cert_pub.as_deref(), Some("/cli.der"));
}

#[test]
fn absent_cli_arguments_leave_the_config_untouched() {
    let mut c = ClientConfig::default();
    c.certificate.der_cert_pub = Some(String::from("/loaded.der"));
    c.apply_cli_overrides(None, None, None);
    assert_eq!(c.server.host.as_deref(), Some("127.0.0.1"));
    assert_eq!(c.server.port, Some(10080));
    assert_eq!(c.certificate.der_cert_pub.as_deref(), Some("/loaded.der"));
}

#[test]
fn command_construction_follows_the_command_word() {
    let cmd = build_clipboard_cmd("READ", None);
    assert_eq!(cmd.name, "READ");
    assert!(cmd.text.is_none());

    let cmd = build_clipboard_cmd("CLEAR", Some(String::from("ignored")));
    assert_eq!(cmd.name, "CLEAR");
    assert_eq!(cmd.text.as_deref(), Some(""));

    let cmd = build_clipboard_cmd("WRITE", Some(String::from("abc")));
    assert_eq!(cmd.name, "WRITE");
    assert_eq!(cmd.text.as_deref(), Some("abc"));

    let cmd = build_clipboard_cmd("WRITE", None);
    assert_eq!(cmd.name, "WRITE");
    assert!(cmd.text.is_none());
}

#[test]
fn only_a_write_without_text_needs_the_clipboard() {
    assert!(needs_clipboard_source("WRITE", &None));
    assert!(!needs_clipboard_source("WRITE", &Some(String::from("x"))));
    assert!(!needs_clipboard_source("READ", &None));
    assert!(!needs_clipboard_source("CLEAR", &None));
}
