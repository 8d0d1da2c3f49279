use mail_client::autoconfig::{AutoconfigXML, EmailProviderXML, IncomingServerXML};
use mail_client::login::{
    AsyncLoginHandler, AsyncLoginHandlerMsg, LoginAction, LoginError, LoginEvent, LoginMsg,
    LoginState, LoginView, LoginViewAction,
};
use mail_client::views::AppMsg;

fn server(socket_type: &str, host: &str, port: &str, username: &str) -> IncomingServerXML {
    IncomingServerXML {
        servertype: "imap".to_string(),
        hostname: host.to_string(),
        port: port.to_string(),
        socket_type: socket_type.to_string(),
        authentication: "password-cleartext".to_string(),
        username: username.to_string(),
    }
}

fn config(servers: Vec<IncomingServerXML>) -> AutoconfigXML {
    AutoconfigXML {
        version: "1.1".to_string(),
        email_provider: EmailProviderXML {
            id: "example.org".to_string(),
            domains: vec!["example.org".to_string()],
            display_name: "Example Mail".to_string(),
            display_short_name: "Example".to_string(),
            documentation: None,
            incoming_servers: servers,
            outgoing_servers: vec![],
        },
    }
}

fn started() -> AsyncLoginHandler {
    let (handler, action) = AsyncLoginHandler::start(AsyncLoginHandlerMsg::StartLogin(
        "user@example.org".to_string(),
        "secret".to_string(),
    ));
    match action {
        LoginAction::Fetch(url) => assert_eq!(
            url,
            "https://autoconfig.example.org/mail/config-v1.1.xml?emailaddress=user@example.org"
        ),
        _ => panic!("a login starts with a request"),
    }
    handler
}

fn expect_fail(action: LoginAction, error: LoginError) {
    match action {
        LoginAction::Fail { error: e, detail } => {
            assert_eq!(e, error);
            assert_eq!(detail, error.message());
        }
        _ => panic!("expected a failure"),
    }
}

fn expect_fail_with(action: LoginAction, error: LoginError, text: &str) {
    match action {
        LoginAction::Fail { error: e, detail } => {
            assert_eq!(e, error);
            assert_eq!(detail, text);
        }
        _ => panic!("expected a failure"),
    }
}

const WELL_KNOWN: &str = "https://example.org/.well-known/autoconfig/mail/config-v1.1.xml";

#[test]
fn login_view_start_sends_entered_values() {
    let view = LoginView { email: "user@example.org".to_string(), password: "pw".to_string() };
    match view.update(LoginMsg::StartLogin) {
        LoginViewAction::StartWorker(AsyncLoginHandlerMsg::StartLogin(e, p)) => {
            assert_eq!(e, "user@example.org");
            assert_eq!(p, "pw");
        }
        _ => panic!("StartLogin goes to the worker"),
    }
}

#[test]
fn login_view_finished_goes_to_main_view() {
    let view = LoginView { email: String::new(), password: String::new() };
    assert!(matches!(view.update(LoginMsg::Finished), LoginViewAction::Output(AppMsg::ToMainView)));
}

#[test]
fn login_succeeds_through_autoconfig_host() {
    let mut h = started();
    assert!(matches!(h.handle(LoginEvent::Responded(200)), LoginAction::ReadConfig));
    let cfg = config(vec![
        server("STARTTLS", "imap.example.org", "143", "%EMAILADDRESS%"),
        server("SSL", "imaps.example.org", "993", "%EMAILLOCALPART%"),
    ]);
    match h.handle(LoginEvent::ConfigParsed(cfg)) {
        LoginAction::Connect { hostname, port } => {
            assert_eq!(hostname, "imaps.example.org");
            assert_eq!(port, 993);
        }
        _ => panic!("expected a connection"),
    }
    match h.handle(LoginEvent::Connected) {
        LoginAction::Authenticate { response } => assert_eq!(response, "\0user\0secret"),
        _ => panic!("expected authentication"),
    }
    assert!(matches!(h.handle(LoginEvent::Authenticated), LoginAction::Finish));
    assert!(matches!(h.state, LoginState::Finished));
}

#[test]
fn login_falls_back_on_bad_status() {
    let mut h = started();
    match h.handle(LoginEvent::Responded(404)) {
        LoginAction::Fetch(url) => assert_eq!(url, WELL_KNOWN),
        _ => panic!("expected the well-known address"),
    }
    assert!(matches!(h.handle(LoginEvent::Responded(200)), LoginAction::ReadConfig));
}

#[test]
fn login_falls_back_on_request_failure() {
    let mut h = started();
    match h.handle(LoginEvent::RequestFailed("dns error".to_string())) {
        LoginAction::Fetch(url) => assert_eq!(url, WELL_KNOWN),
        _ => panic!("expected the well-known address"),
    }
}

#[test]
fn login_fails_when_well_known_not_found() {
    let mut h = started();
    h.handle(LoginEvent::Responded(500));
    expect_fail(h.handle(LoginEvent::Responded(404)), LoginError::AutoconfigNotFound);
    assert!(matches!(h.state, LoginState::Failed(LoginError::AutoconfigNotFound)));
}

#[test]
fn login_fails_when_well_known_unreachable() {
    let mut h = started();
    h.handle(LoginEvent::RequestFailed("dns error".to_string()));
    expect_fail_with(
        h.handle(LoginEvent::RequestFailed("tls handshake failed".to_string())),
        LoginError::AutoconfigUnreachable,
        "tls handshake failed",
    );
}

#[test]
fn login_fails_on_unreadable_config() {
    let mut h = started();
    h.handle(LoginEvent::Responded(200));
    expect_fail_with(
        h.handle(LoginEvent::ConfigUnreadable("missing field `hostname`".to_string())),
        LoginError::ConfigUnreadable,
        "missing field `hostname`",
    );
}

#[test]
fn login_fails_without_ssl_server() {
    let mut h = started();
    h.handle(LoginEvent::Responded(200));
    let cfg = config(vec![server("STARTTLS", "imap.example.org", "143", "%EMAILADDRESS%")]);
    expect_fail(h.handle(LoginEvent::ConfigParsed(cfg)), LoginError::NoSslServer);
}

#[test]
fn login_fails_on_bad_port() {
    let mut h = started();
    h.handle(LoginEvent::Responded(200));
    let cfg = config(vec![server("SSL", "imap.example.org", "99999", "%EMAILADDRESS%")]);
    expect_fail(h.handle(LoginEvent::ConfigParsed(cfg)), LoginError::InvalidPort);
}

#[test]
fn login_fails_on_connect_failure() {
    let mut h = started();
    h.handle(LoginEvent::Responded(200));
    let cfg = config(vec![server("SSL", "imap.example.org", "993", "%EMAILADDRESS%")]);
    h.handle(LoginEvent::ConfigParsed(cfg));
    expect_fail(h.handle(LoginEvent::ConnectFailed), LoginError::ConnectFailed);
}

#[test]
fn login_fails_on_unsupported_username() {
    let mut h = started();
    h.handle(LoginEvent::Responded(200));
    let cfg = config(vec![server("SSL", "imap.example.org", "993", "%EMAILUSER%")]);
    h.handle(LoginEvent::ConfigParsed(cfg));
    expect_fail(h.handle(LoginEvent::Connected), LoginError::UnsupportedUsername);
}

#[test]
fn login_fails_on_refused_credentials() {
    let mut h = started();
    h.handle(LoginEvent::Responded(200));
    let cfg = config(vec![server("SSL", "imap.example.org", "993", "%EMAILDOMAIN%")]);
    h.handle(LoginEvent::ConfigParsed(cfg));
    match h.handle(LoginEvent::Connected) {
        LoginAction::Authenticate { response } => assert_eq!(response, "\0example.org\0secret"),
        _ => panic!("expected authentication"),
    }
    expect_fail(h.handle(LoginEvent::AuthenticationFailed), LoginError::AuthenticationFailed);
}

#[test]
fn settled_login_stays() {
    let mut h = started();
    h.handle(LoginEvent::RequestFailed("dns error".to_string()));
    h.handle(LoginEvent::RequestFailed("dns error".to_string()));
    assert!(matches!(h.handle(LoginEvent::Responded(200)), LoginAction::Wait));
    assert!(matches!(h.handle(LoginEvent::Authenticated), LoginAction::Wait));
    assert!(matches!(h.state, LoginState::Failed(LoginError::AutoconfigUnreachable)));
}

#[test]
fn unexpected_event_changes_nothing() {
    let mut h = started();
    assert!(matches!(h.handle(LoginEvent::Connected), LoginAction::Wait));
    match &h.state {
        LoginState::FetchingAutoconfig { email, password } => {
            assert_eq!(email, "user@example.org");
            assert_eq!(password, "secret");
        }
        _ => panic!("state must stay"),
    }
}

#[test]
fn login_domain_is_after_last_at() {
    let (_, action) = LoginState::start("a@b@mail.example", "pw");
    match action {
        LoginAction::Fetch(url) => assert_eq!(
            url,
            "https://autoconfig.mail.example/mail/config-v1.1.xml?emailaddress=a@b@mail.example"
        ),
        _ => panic!("a login starts with a request"),
    }
}

#[test]
fn well_known_not_found_message() {
    let mut h = started();
    h.handle(LoginEvent::Responded(404));
    expect_fail_with(
        h.handle(LoginEvent::Responded(404)),
        LoginError::AutoconfigNotFound,
        "Unable to find server autoconfig",
    );
}

#[test]
fn error_messages() {
    assert_eq!(LoginError::AutoconfigNotFound.message(), "Unable to find server autoconfig");
    assert_eq!(LoginError::UnsupportedUsername.message(), "Username type not supported");
    assert_eq!(LoginError::AutoconfigUnreachable.message(), "Unable to reach server autoconfig");
    assert_eq!(LoginError::ConfigUnreadable.message(), "Unable to read server autoconfig");
    assert_eq!(LoginError::NoSslServer.message(), "No incoming server with socket type SSL");
    assert_eq!(LoginError::InvalidPort.message(), "Invalid port of the incoming server");
    assert_eq!(LoginError::ConnectFailed.message(), "Unable to connect to the incoming server");
    assert_eq!(LoginError::AuthenticationFailed.message(), "Authentication failed");
}

#[test]
fn finish_is_asked_once() {
    let mut h = started();
    h.handle(LoginEvent::Responded(200));
    let cfg = config(vec![server("SSL", "imap.example.org", "993", "%EMAILADDRESS%")]);
    h.handle(LoginEvent::ConfigParsed(cfg));
    h.handle(LoginEvent::Connected);
    assert!(matches!(h.handle(LoginEvent::Authenticated), LoginAction::Finish));
    assert!(matches!(h.handle(LoginEvent::Authenticated), LoginAction::Wait));
    assert!(matches!(h.handle(LoginEvent::Connected), LoginAction::Wait));
}

#[test]
fn which_errors_panic() {
    assert!(LoginError::NoSslServer.panics());
    assert!(LoginError::InvalidPort.panics());
    assert!(LoginError::ConnectFailed.panics());
    assert!(LoginError::AuthenticationFailed.panics());
    assert!(!LoginError::AutoconfigUnreachable.panics());
    assert!(!LoginError::AutoconfigNotFound.panics());
    assert!(!LoginError::ConfigUnreadable.panics());
    assert!(!LoginError::UnsupportedUsername.panics());
}

#[test]
fn no_ssl_server_stops_before_connecting() {
    let mut h = started();
    h.handle(LoginEvent::Responded(200));
    let cfg = config(vec![server("STARTTLS", "imap.example.org", "143", "%EMAILADDRESS%")]);
    match h.handle(LoginEvent::ConfigParsed(cfg)) {
        LoginAction::Fail { error, .. } => assert!(error.panics()),
        _ => panic!("expected a failure"),
    }
    assert!(matches!(h.handle(LoginEvent::Connected), LoginAction::Wait));
}
