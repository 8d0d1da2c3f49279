use mail_client::autoconfig::{
    autoconfig_url_for, find_ssl_incoming_server, parse_port, wellknown_url_for,
    IncomingServerXML,
};

fn server(socket_type: &str, host: &str) -> IncomingServerXML {
    IncomingServerXML {
        servertype: "imap".to_string(),
        hostname: host.to_string(),
        port: "993".to_string(),
        socket_type: socket_type.to_string(),
        authentication: "password-cleartext".to_string(),
        username: "%EMAILADDRESS%".to_string(),
    }
}

#[test]
fn autoconfig_url_exact() {
    assert_eq!(
        autoconfig_url_for("example.org", "user@example.org"),
        "https://autoconfig.example.org/mail/config-v1.1.xml?emailaddress=user@example.org"
    );
}

#[test]
fn wellknown_url_exact() {
    assert_eq!(
        wellknown_url_for("example.org"),
        "https://example.org/.well-known/autoconfig/mail/config-v1.1.xml"
    );
}

#[test]
fn ssl_server_none_in_empty_list() {
    assert_eq!(find_ssl_incoming_server(&vec![]), None);
}

#[test]
fn ssl_server_none_without_ssl() {
    let servers = vec![server("STARTTLS", "a"), server("plain", "b")];
    assert_eq!(find_ssl_incoming_server(&servers), None);
}

#[test]
fn ssl_server_first_of_several() {
    let servers = vec![server("STARTTLS", "a"), server("SSL", "b"), server("SSL", "c")];
    assert_eq!(find_ssl_incoming_server(&servers), Some(1));
}

#[test]
fn ssl_server_is_case_sensitive() {
    let servers = vec![server("ssl", "a"), server("SSL", "b")];
    assert_eq!(find_ssl_incoming_server(&servers), Some(1));
}

#[test]
fn port_plain_digits() {
    assert_eq!(parse_port("993"), Some(993));
    assert_eq!(parse_port("0"), Some(0));
    assert_eq!(parse_port("65535"), Some(65535));
}

#[test]
fn port_leading_plus_and_zeros() {
    assert_eq!(parse_port("+143"), Some(143));
    assert_eq!(parse_port("000993"), Some(993));
}

#[test]
fn port_rejected_texts() {
    assert_eq!(parse_port(""), None);
    assert_eq!(parse_port("+"), None);
    assert_eq!(parse_port("-1"), None);
    assert_eq!(parse_port("-0"), None);
    assert_eq!(parse_port(" 993"), None);
    assert_eq!(parse_port("993 "), None);
    assert_eq!(parse_port("9a3"), None);
    assert_eq!(parse_port("++1"), None);
}

#[test]
fn port_too_large() {
    assert_eq!(parse_port("65536"), None);
    assert_eq!(parse_port("99999999999999999999"), None);
}

#[test]
fn port_agrees_with_std_parse() {
    for text in ["993", "+143", "", "+", "-5", "65536", "65535", "0x10", "12_3", "007", "١٢"] {
        assert_eq!(parse_port(text), text.parse::<u16>().ok(), "{:?}", text);
    }
}
