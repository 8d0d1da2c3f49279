use vstd::prelude::*;

use crate::autoconfig::{
    autoconfig_url, autoconfig_url_for, config_servers, find_ssl_incoming_server, parse_port,
    port_value, servers_view, ssl_server_index, status_ok, wellknown_url, wellknown_url_for,
    AutoconfigXML, IncomingServerView,
};
use crate::email::{
    domain_part, email_domain, plain_auth_response, plain_response, resolve_username,
    username_for,
};
use crate::views::AppMsg;

verus! {

/// Messages of the login page.
#[derive(PartialEq, Eq, Structural, Debug, Clone, Copy)]
pub enum LoginMsg {
    Finished,
    StartLogin,
}

/// Messages of the login worker: start a login with an address and a password.
#[derive(Debug)]
pub enum AsyncLoginHandlerMsg {
    StartLogin(String, String),
}

/// What the login page does about a message.
pub enum LoginViewAction {
    /// Hand the message to the login worker.
    StartWorker(AsyncLoginHandlerMsg),
    /// Send the message to the application window.
    Output(AppMsg),
}

/// The login page: the address and the password entered so far.
pub struct LoginView {
    pub email: String,
    pub password: String,
}

impl LoginView {
    /// `StartLogin` hands the entered address and password to the worker;
    /// `Finished` asks the window to show the main page.
    pub fn update(&self, msg: LoginMsg) -> (r: LoginViewAction)
        ensures
            msg == LoginMsg::StartLogin ==> (r matches LoginViewAction::StartWorker(
                AsyncLoginHandlerMsg::StartLogin(e, p),
            ) && e@ == self.email@ && p@ == self.password@),
            msg == LoginMsg::Finished ==> r == LoginViewAction::Output(AppMsg::ToMainView),
    {
        match msg {
            LoginMsg::StartLogin => LoginViewAction::StartWorker(
                AsyncLoginHandlerMsg::StartLogin(self.email.clone(), self.password.clone()),
            ),
            LoginMsg::Finished => LoginViewAction::Output(AppMsg::ToMainView),
        }
    }
}

/// Why a login stopped. On the errors for which `panics` is true the
/// worker ends with a panic, before any session is kept or any message is
/// sent; on the others it logs the error and ends.
#[derive(PartialEq, Eq, Structural, Debug, Clone, Copy)]
pub enum LoginError {
    /// The well-known autoconfig address could not be reached.
    AutoconfigUnreachable,
    /// The well-known autoconfig address answered with a status other than OK.
    AutoconfigNotFound,
    /// The autoconfig answer could not be read or parsed.
    ConfigUnreadable,
    /// The autoconfig file lists no incoming server with socket type `SSL`.
    NoSslServer,
    /// The port of the chosen incoming server is no 16-bit number.
    InvalidPort,
    /// The connection to the incoming server failed.
    ConnectFailed,
    /// The username template of the incoming server is not supported.
    UnsupportedUsername,
    /// The server refused the credentials.
    AuthenticationFailed,
}

/// Where a login stands.
pub enum LoginState {
    /// Waiting for the answer of the autoconfig host of the domain.
    FetchingAutoconfig { email: String, password: String },
    /// Waiting for the answer of the domain's well-known autoconfig address.
    FetchingWellKnown { email: String, password: String },
    /// Waiting for the autoconfig file of an OK answer.
    ReadingConfig { email: String, password: String },
    /// Waiting for the connection to the incoming server, whose username
    /// template is kept.
    Connecting { email: String, password: String, username: String },
    /// Waiting for the server to accept the credentials.
    Authenticating,
    /// Logged in.
    Finished,
    /// Stopped.
    Failed(LoginError),
}

/// What happened to the last action of a login.
pub enum LoginEvent {
    /// The request for an autoconfig file failed, with this error.
    RequestFailed(String),
    /// The autoconfig host answered with this HTTP status.
    Responded(u16),
    /// The body of an OK answer could not be read or parsed, with this error.
    ConfigUnreadable(String),
    /// The body of an OK answer, parsed.
    ConfigParsed(AutoconfigXML),
    /// The connection to the incoming server is open.
    Connected,
    /// The connection to the incoming server failed.
    ConnectFailed,
    /// The server accepted the credentials.
    Authenticated,
    /// The server refused the credentials.
    AuthenticationFailed,
}

/// What a login asks its driver to do next.
pub enum LoginAction {
    /// Send a GET request to this address.
    Fetch(String),
    /// Read the body of the answer and parse it as an autoconfig file.
    ReadConfig,
    /// Open a TLS connection to this IMAP server.
    Connect { hostname: String, port: u16 },
    /// Authenticate with the `PLAIN` mechanism, answering with `response`.
    Authenticate { response: String },
    /// Keep the session and report the login as finished.
    Finish,
    /// Stop with this error; `detail` is what to report of it.
    Fail { error: LoginError, detail: String },
    /// Nothing: the event did not fit the state.
    Wait,
}

pub enum LoginStateView {
    FetchingAutoconfig { email: Seq<char>, password: Seq<char> },
    FetchingWellKnown { email: Seq<char>, password: Seq<char> },
    ReadingConfig { email: Seq<char>, password: Seq<char> },
    Connecting { email: Seq<char>, password: Seq<char>, username: Seq<char> },
    Authenticating,
    Finished,
    Failed(LoginError),
}

pub enum LoginEventView {
    RequestFailed(Seq<char>),
    Responded(u16),
    ConfigUnreadable(Seq<char>),
    ConfigParsed(Seq<IncomingServerView>),
    Connected,
    ConnectFailed,
    Authenticated,
    AuthenticationFailed,
}

pub enum LoginActionView {
    Fetch(Seq<char>),
    ReadConfig,
    Connect { hostname: Seq<char>, port: u16 },
    Authenticate { response: Seq<char> },
    Finish,
    Fail { error: LoginError, detail: Seq<char> },
    Wait,
}

impl View for LoginState {
    type V = LoginStateView;

    open spec fn view(&self) -> LoginStateView {
        match self {
            LoginState::FetchingAutoconfig { email, password } => LoginStateView::FetchingAutoconfig {
                email: email@,
                password: password@,
            },
            LoginState::FetchingWellKnown { email, password } => LoginStateView::FetchingWellKnown {
                email: email@,
                password: password@,
            },
            LoginState::ReadingConfig { email, password } => LoginStateView::ReadingConfig {
                email: email@,
                password: password@,
            },
            LoginState::Connecting { email, password, username } => LoginStateView::Connecting {
                email: email@,
                password: password@,
                username: username@,
            },
            LoginState::Authenticating => LoginStateView::Authenticating,
            LoginState::Finished => LoginStateView::Finished,
            LoginState::Failed(e) => LoginStateView::Failed(*e),
        }
    }
}

impl View for LoginEvent {
    type V = LoginEventView;

    open spec fn view(&self) -> LoginEventView {
        match self {
            LoginEvent::RequestFailed(d) => LoginEventView::RequestFailed(d@),
            LoginEvent::Responded(s) => LoginEventView::Responded(*s),
            LoginEvent::ConfigUnreadable(d) => LoginEventView::ConfigUnreadable(d@),
            LoginEvent::ConfigParsed(c) => LoginEventView::ConfigParsed(config_servers(*c)),
            LoginEvent::Connected => LoginEventView::Connected,
            LoginEvent::ConnectFailed => LoginEventView::ConnectFailed,
            LoginEvent::Authenticated => LoginEventView::Authenticated,
            LoginEvent::AuthenticationFailed => LoginEventView::AuthenticationFailed,
        }
    }
}

impl View for LoginAction {
    type V = LoginActionView;

    open spec fn view(&self) -> LoginActionView {
        match self {
            LoginAction::Fetch(u) => LoginActionView::Fetch(u@),
            LoginAction::ReadConfig => LoginActionView::ReadConfig,
            LoginAction::Connect { hostname, port } => LoginActionView::Connect {
                hostname: hostname@,
                port: *port,
            },
            LoginAction::Authenticate { response } => LoginActionView::Authenticate {
                response: response@,
            },
            LoginAction::Finish => LoginActionView::Finish,
            LoginAction::Fail { error, detail } => LoginActionView::Fail { error: *error, detail: detail@ },
            LoginAction::Wait => LoginActionView::Wait,
        }
    }
}

/// A login starts by asking the autoconfig host of the address's domain.
pub open spec fn login_start(email: Seq<char>, password: Seq<char>) -> (LoginStateView, LoginActionView) {
    (
        LoginStateView::FetchingAutoconfig { email, password },
        LoginActionView::Fetch(autoconfig_url(domain_part(email), email)),
    )
}

/// What a login reports of an error that carries no error of its own.
pub open spec fn error_message(e: LoginError) -> Seq<char> {
    match e {
        LoginError::AutoconfigUnreachable => "Unable to reach server autoconfig"@,
        LoginError::AutoconfigNotFound => "Unable to find server autoconfig"@,
        LoginError::ConfigUnreadable => "Unable to read server autoconfig"@,
        LoginError::NoSslServer => "No incoming server with socket type SSL"@,
        LoginError::InvalidPort => "Invalid port of the incoming server"@,
        LoginError::ConnectFailed => "Unable to connect to the incoming server"@,
        LoginError::UnsupportedUsername => "Username type not supported"@,
        LoginError::AuthenticationFailed => "Authentication failed"@,
    }
}

/// Stop with an error, reporting its message.
pub open spec fn fail_with(e: LoginError) -> (LoginStateView, LoginActionView) {
    (LoginStateView::Failed(e), LoginActionView::Fail { error: e, detail: error_message(e) })
}

/// Stop with an error, reporting the error that caused it.
pub open spec fn fail_because(e: LoginError, detail: Seq<char>) -> (LoginStateView, LoginActionView) {
    (LoginStateView::Failed(e), LoginActionView::Fail { error: e, detail })
}

/// The next state of a login and what to do, from the state and the event.
pub open spec fn login_next(s: LoginStateView, e: LoginEventView) -> (LoginStateView, LoginActionView) {
    match s {
        LoginStateView::FetchingAutoconfig { email, password } => match e {
            LoginEventView::Responded(st) if status_ok(st) => (
                LoginStateView::ReadingConfig { email, password },
                LoginActionView::ReadConfig,
            ),
            LoginEventView::RequestFailed(_) | LoginEventView::Responded(_) => (
                LoginStateView::FetchingWellKnown { email, password },
                LoginActionView::Fetch(wellknown_url(domain_part(email))),
            ),
            _ => (s, LoginActionView::Wait),
        },
        LoginStateView::FetchingWellKnown { email, password } => match e {
            LoginEventView::RequestFailed(d) => fail_because(LoginError::AutoconfigUnreachable, d),
            LoginEventView::Responded(st) => if status_ok(st) {
                (LoginStateView::ReadingConfig { email, password }, LoginActionView::ReadConfig)
            } else {
                fail_with(LoginError::AutoconfigNotFound)
            },
            _ => (s, LoginActionView::Wait),
        },
        LoginStateView::ReadingConfig { email, password } => match e {
            LoginEventView::ConfigUnreadable(d) => fail_because(LoginError::ConfigUnreadable, d),
            LoginEventView::ConfigParsed(servers) => match ssl_server_index(servers) {
                None => fail_with(LoginError::NoSslServer),
                Some(i) => match port_value(servers[i].port) {
                    None => fail_with(LoginError::InvalidPort),
                    Some(port) => (
                        LoginStateView::Connecting { email, password, username: servers[i].username },
                        LoginActionView::Connect { hostname: servers[i].hostname, port },
                    ),
                },
            },
            _ => (s, LoginActionView::Wait),
        },
        LoginStateView::Connecting { email, password, username } => match e {
            LoginEventView::ConnectFailed => fail_with(LoginError::ConnectFailed),
            LoginEventView::Connected => match username_for(username, email) {
                None => fail_with(LoginError::UnsupportedUsername),
                Some(user) => (
                    LoginStateView::Authenticating,
                    LoginActionView::Authenticate { response: plain_response(user, password) },
                ),
            },
            _ => (s, LoginActionView::Wait),
        },
        LoginStateView::Authenticating => match e {
            LoginEventView::AuthenticationFailed => fail_with(LoginError::AuthenticationFailed),
            LoginEventView::Authenticated => (LoginStateView::Finished, LoginActionView::Finish),
            _ => (s, LoginActionView::Wait),
        },
        LoginStateView::Finished | LoginStateView::Failed(_) => (s, LoginActionView::Wait),
    }
}

impl LoginState {
    /// The first state and action of a login with `email` and `password`.
    pub fn start(email: &str, password: &str) -> (r: (LoginState, LoginAction))
        ensures
            (r.0@, r.1@) == login_start(email@, password@),
    {
        let server_url = email_domain(email);
        let url = autoconfig_url_for(server_url.as_str(), email);
        (
            LoginState::FetchingAutoconfig {
                email: String::from_str(email),
                password: String::from_str(password),
            },
            LoginAction::Fetch(url),
        )
    }

    /// The next state and action of a login, after `event`.
    pub fn step(self, event: LoginEvent) -> (r: (LoginState, LoginAction))
        ensures
            (r.0@, r.1@) == login_next(self@, event@),
    {
        match self {
            LoginState::FetchingAutoconfig { email, password } => match event {
                LoginEvent::Responded(st) if st == 200 => (
                    LoginState::ReadingConfig { email, password },
                    LoginAction::ReadConfig,
                ),
                LoginEvent::RequestFailed(_) | LoginEvent::Responded(_) => {
                    let server_url = email_domain(email.as_str());
                    let url = wellknown_url_for(server_url.as_str());
                    (LoginState::FetchingWellKnown { email, password }, LoginAction::Fetch(url))
                },
                _ => (LoginState::FetchingAutoconfig { email, password }, LoginAction::Wait),
            },
            LoginState::FetchingWellKnown { email, password } => match event {
                LoginEvent::RequestFailed(detail) => fail_for(LoginError::AutoconfigUnreachable, detail),
                LoginEvent::Responded(st) => if st == 200 {
                    (LoginState::ReadingConfig { email, password }, LoginAction::ReadConfig)
                } else {
                    fail(LoginError::AutoconfigNotFound)
                },
                _ => (LoginState::FetchingWellKnown { email, password }, LoginAction::Wait),
            },
            LoginState::ReadingConfig { email, password } => match event {
                LoginEvent::ConfigUnreadable(detail) => fail_for(LoginError::ConfigUnreadable, detail),
                LoginEvent::ConfigParsed(config) => {
                    let servers = &config.email_provider.incoming_servers;
                    let ghost sv = servers_view(servers@);
                    match find_ssl_incoming_server(servers) {
                        None => fail(LoginError::NoSslServer),
                        Some(i) => {
                            let server = &servers[i];
                            assert(sv[i as int] == server@);
                            match parse_port(server.port.as_str()) {
                                None => fail(LoginError::InvalidPort),
                                Some(port) => (
                                    LoginState::Connecting {
                                        email,
                                        password,
                                        username: server.username.clone(),
                                    },
                                    LoginAction::Connect { hostname: server.hostname.clone(), port },
                                ),
                            }
                        },
                    }
                },
                _ => (LoginState::ReadingConfig { email, password }, LoginAction::Wait),
            },
            LoginState::Connecting { email, password, username } => match event {
                LoginEvent::ConnectFailed => fail(LoginError::ConnectFailed),
                LoginEvent::Connected => match resolve_username(username.as_str(), email.as_str()) {
                    None => fail(LoginError::UnsupportedUsername),
                    Some(user) => (
                        LoginState::Authenticating,
                        LoginAction::Authenticate {
                            response: plain_auth_response(user.as_str(), password.as_str()),
                        },
                    ),
                },
                _ => (LoginState::Connecting { email, password, username }, LoginAction::Wait),
            },
            LoginState::Authenticating => match event {
                LoginEvent::AuthenticationFailed => fail(LoginError::AuthenticationFailed),
                LoginEvent::Authenticated => (LoginState::Finished, LoginAction::Finish),
                _ => (LoginState::Authenticating, LoginAction::Wait),
            },
            LoginState::Finished => (LoginState::Finished, LoginAction::Wait),
            LoginState::Failed(e) => (LoginState::Failed(e), LoginAction::Wait),
        }
    }
}

/// Stop with an error.
fn fail(e: LoginError) -> (r: (LoginState, LoginAction))
    ensures
        (r.0@, r.1@) == fail_with(e),
{
    (LoginState::Failed(e), LoginAction::Fail { error: e, detail: e.message() })
}

/// Stop with an error, reporting the error that caused it.
fn fail_for(e: LoginError, detail: String) -> (r: (LoginState, LoginAction))
    ensures
        (r.0@, r.1@) == fail_because(e, detail@),
{
    (LoginState::Failed(e), LoginAction::Fail { error: e, detail })
}

impl LoginError {
    /// The message of the error: for `AutoconfigNotFound`,
    /// "Unable to find server autoconfig".
    pub fn message(&self) -> (r: String)
        ensures
            r@ == error_message(*self),
    {
        match self {
            LoginError::AutoconfigUnreachable => String::from_str("Unable to reach server autoconfig"),
            LoginError::AutoconfigNotFound => String::from_str("Unable to find server autoconfig"),
            LoginError::ConfigUnreadable => String::from_str("Unable to read server autoconfig"),
            LoginError::NoSslServer => String::from_str("No incoming server with socket type SSL"),
            LoginError::InvalidPort => String::from_str("Invalid port of the incoming server"),
            LoginError::ConnectFailed => String::from_str("Unable to connect to the incoming server"),
            LoginError::UnsupportedUsername => String::from_str("Username type not supported"),
            LoginError::AuthenticationFailed => String::from_str("Authentication failed"),
        }
    }
}

/// The login worker: it runs one login at a time.
pub struct AsyncLoginHandler {
    pub state: LoginState,
}

impl AsyncLoginHandler {
    /// Starts a login for a `StartLogin` message, and says what to do first.
    pub fn start(msg: AsyncLoginHandlerMsg) -> (r: (AsyncLoginHandler, LoginAction))
        ensures
            match msg {
                AsyncLoginHandlerMsg::StartLogin(email, password) =>
                    (r.0.state@, r.1@) == login_start(email@, password@),
            },
    {
        match msg {
            AsyncLoginHandlerMsg::StartLogin(email, password) => {
                let (state, action) = LoginState::start(email.as_str(), password.as_str());
                (AsyncLoginHandler { state }, action)
            },
        }
    }

    /// Moves the login on after `event`, and says what to do next.
    pub fn handle(&mut self, event: LoginEvent) -> (r: LoginAction)
        ensures
            (final(self).state@, r@) == login_next(old(self).state@, event@),
    {
        let mut current = LoginState::Finished;
        std::mem::swap(&mut current, &mut self.state);
        let (next, action) = current.step(event);
        self.state = next;
        action
    }
}

/// How far a login has come: each state is further on than the ones it
/// can be reached from.
pub open spec fn login_progress(s: LoginStateView) -> nat {
    match s {
        LoginStateView::FetchingAutoconfig { .. } => 0,
        LoginStateView::FetchingWellKnown { .. } => 1,
        LoginStateView::ReadingConfig { .. } => 2,
        LoginStateView::Connecting { .. } => 3,
        LoginStateView::Authenticating => 4,
        LoginStateView::Finished | LoginStateView::Failed(_) => 5,
    }
}

/// A login never goes back: an event either moves it strictly further on,
/// or does not fit its state and leaves it as it is with nothing to do.
/// (`lemma_run_fetches_at_most_once` draws from it that a run asks the
/// well-known address at most once.)
pub proof fn lemma_login_moves_forward(s: LoginStateView, e: LoginEventView)
    ensures
        login_progress(login_next(s, e).0) > login_progress(s) || login_next(s, e) == (
        s,
        LoginActionView::Wait,
        ),
{
}

/// A finished or stopped login stays as it is, whatever happens, and asks
/// for nothing more.
pub proof fn lemma_settled_login_stays(s: LoginStateView, e: LoginEventView)
    requires
        s is Finished || s is Failed,
    ensures
        login_next(s, e) == (s, LoginActionView::Wait),
{
}

/// A login finishes only when the server has accepted the credentials.
pub proof fn lemma_finish_only_after_authentication(s: LoginStateView, e: LoginEventView)
    requires
        login_next(s, e).1 is Finish,
    ensures
        s is Authenticating,
        e is Authenticated,
        login_next(s, e).0 is Finished,
{
}

/// After the start, the only address asked is the well-known one, and only
/// when the autoconfig host failed or answered with a status other than OK.
pub proof fn lemma_wellknown_only_after_autoconfig_fails(s: LoginStateView, e: LoginEventView)
    requires
        login_next(s, e).1 is Fetch,
    ensures
        s is FetchingAutoconfig,
        e is RequestFailed || (e matches LoginEventView::Responded(st) && !status_ok(st)),
        login_next(s, e).1 == LoginActionView::Fetch(wellknown_url(domain_part(s->FetchingAutoconfig_email))),
{
}

/// The login connects to the first incoming server with socket type `SSL`,
/// at the port that its text names.
pub proof fn lemma_connect_to_first_ssl_server(s: LoginStateView, e: LoginEventView)
    requires
        login_next(s, e).1 is Connect,
    ensures
        s is ReadingConfig,
        e matches LoginEventView::ConfigParsed(servers) && ssl_server_index(servers) matches Some(i)
            && login_next(s, e).1 == (LoginActionView::Connect {
                hostname: servers[i].hostname,
                port: port_value(servers[i].port).unwrap(),
            }),
{
}

/// The credentials sent are the user that the server's username template
/// names for the address, and the password entered, in a `PLAIN` response.
pub proof fn lemma_authenticate_with_entered_credentials(s: LoginStateView, e: LoginEventView)
    requires
        login_next(s, e).1 is Authenticate,
    ensures
        e is Connected,
        s matches LoginStateView::Connecting { email, password, username }
            && username_for(username, email) is Some
            && login_next(s, e).1 == (LoginActionView::Authenticate {
                response: plain_response(username_for(username, email).unwrap(), password),
            }),
{
}

/// The state that a login reaches from `s` after the events `es`, in order.
pub open spec fn run_state(s: LoginStateView, es: Seq<LoginEventView>) -> LoginStateView
    decreases es.len(),
{
    if es.len() == 0 {
        s
    } else {
        login_next(run_state(s, es.drop_last()), es.last()).0
    }
}

/// What a login that started in `s` asks for after the event `es[i]`.
pub open spec fn run_action(s: LoginStateView, es: Seq<LoginEventView>, i: int) -> LoginActionView {
    login_next(run_state(s, es.take(i)), es[i]).1
}

proof fn lemma_run_state_step(s: LoginStateView, es: Seq<LoginEventView>, i: int)
    requires
        0 <= i < es.len(),
    ensures
        run_state(s, es.take(i + 1)) == login_next(run_state(s, es.take(i)), es[i]).0,
{
    assert(es.take(i + 1).drop_last() =~= es.take(i));
    assert(es.take(i + 1).last() == es[i]);
}

proof fn lemma_run_stays_finished(s: LoginStateView, es: Seq<LoginEventView>, i: int, k: int)
    requires
        0 <= i < k <= es.len(),
        run_state(s, es.take(i + 1)) is Finished,
    ensures
        run_state(s, es.take(k)) is Finished,
    decreases k - i,
{
    if k > i + 1 {
        lemma_run_stays_finished(s, es, i, k - 1);
        lemma_run_state_step(s, es, k - 1);
    }
}

proof fn lemma_authenticating_was_asked(s: LoginStateView, es: Seq<LoginEventView>, i: int)
    requires
        0 <= i <= es.len(),
        !(s is Authenticating),
        run_state(s, es.take(i)) is Authenticating,
    ensures
        exists|k: int| 0 <= k < i && #[trigger] run_action(s, es, k) is Authenticate,
    decreases i,
{
    if i == 0 {
        assert(es.take(0) =~= Seq::<LoginEventView>::empty());
    } else {
        lemma_run_state_step(s, es, i - 1);
        if run_state(s, es.take(i - 1)) is Authenticating {
            lemma_authenticating_was_asked(s, es, i - 1);
            let k = choose|k: int| 0 <= k < i - 1 && #[trigger] run_action(s, es, k) is Authenticate;
            assert(run_action(s, es, k) is Authenticate);
        } else {
            assert(run_action(s, es, i - 1) is Authenticate);
        }
    }
}

/// Over a whole run, a login asks to finish at most once: only on the
/// event that the server accepted the credentials, after it had asked to
/// authenticate, and every later event asks for nothing.
pub proof fn lemma_run_finishes_once(s: LoginStateView, es: Seq<LoginEventView>, i: int, j: int)
    requires
        0 <= i < es.len(),
        run_action(s, es, i) is Finish,
    ensures
        es[i] is Authenticated,
        run_state(s, es.take(i)) is Authenticating,
        !(s is Authenticating) ==> exists|k: int| 0 <= k < i && #[trigger] run_action(s, es, k) is Authenticate,
        i < j < es.len() ==> run_action(s, es, j) is Wait,
{
    lemma_finish_only_after_authentication(run_state(s, es.take(i)), es[i]);
    if !(s is Authenticating) {
        lemma_authenticating_was_asked(s, es, i);
    }
    if i < j < es.len() {
        lemma_run_state_step(s, es, i);
        lemma_run_stays_finished(s, es, i, j);
        lemma_settled_login_stays(run_state(s, es.take(j)), es[j]);
    }
}

/// Along a run, a login never goes back.
proof fn lemma_run_progress_grows(s: LoginStateView, es: Seq<LoginEventView>, i: int, k: int)
    requires
        0 <= i <= k <= es.len(),
    ensures
        login_progress(run_state(s, es.take(k))) >= login_progress(run_state(s, es.take(i))),
    decreases k - i,
{
    if k > i {
        lemma_run_progress_grows(s, es, i, k - 1);
        lemma_run_state_step(s, es, k - 1);
        lemma_login_moves_forward(run_state(s, es.take(k - 1)), es[k - 1]);
    }
}

/// Over a whole run, a login asks for an address after an event at most
/// once: that request is the well-known address, asked when the
/// autoconfig host failed, and no later event asks for any address.
pub proof fn lemma_run_fetches_at_most_once(s: LoginStateView, es: Seq<LoginEventView>, i: int, j: int)
    requires
        0 <= i < j < es.len(),
        run_action(s, es, i) is Fetch,
    ensures
        !(run_action(s, es, j) is Fetch),
{
    lemma_wellknown_only_after_autoconfig_fails(run_state(s, es.take(i)), es[i]);
    lemma_run_state_step(s, es, i);
    lemma_run_progress_grows(s, es, i + 1, j);
    if run_action(s, es, j) is Fetch {
        lemma_wellknown_only_after_autoconfig_fails(run_state(s, es.take(j)), es[j]);
    }
}

/// The state holds the address `e` and password `p` that were entered, in
/// every state that holds an address and a password.
pub open spec fn holds_entries(s: LoginStateView, e: Seq<char>, p: Seq<char>) -> bool {
    match s {
        LoginStateView::FetchingAutoconfig { email, password } => email == e && password == p,
        LoginStateView::FetchingWellKnown { email, password } => email == e && password == p,
        LoginStateView::ReadingConfig { email, password } => email == e && password == p,
        LoginStateView::Connecting { email, password, .. } => email == e && password == p,
        _ => true,
    }
}

/// A login starts waiting for the autoconfig host with the address and the
/// password exactly as entered, and asks the autoconfig host of the whole
/// domain of the address.
pub proof fn lemma_start_keeps_entries(e: Seq<char>, p: Seq<char>)
    ensures
        login_start(e, p).0 == (LoginStateView::FetchingAutoconfig { email: e, password: p }),
        login_start(e, p).1 == LoginActionView::Fetch(autoconfig_url(domain_part(e), e)),
{
}

/// No event changes the address or the password that a login holds.
pub proof fn lemma_step_keeps_entries(s: LoginStateView, ev: LoginEventView, e: Seq<char>, p: Seq<char>)
    requires
        holds_entries(s, e, p),
    ensures
        holds_entries(login_next(s, ev).0, e, p),
{
}

/// Along any run from the start of a login with `e` and `p`, every state
/// holds `e` and `p` unchanged, whichever autoconfig address answered.
pub proof fn lemma_run_keeps_entries(e: Seq<char>, p: Seq<char>, es: Seq<LoginEventView>, i: int)
    requires
        0 <= i <= es.len(),
    ensures
        holds_entries(run_state(login_start(e, p).0, es.take(i)), e, p),
    decreases i,
{
    let s0 = login_start(e, p).0;
    if i == 0 {
        assert(es.take(0) =~= Seq::<LoginEventView>::empty());
    } else {
        lemma_run_keeps_entries(e, p, es, i - 1);
        lemma_run_state_step(s0, es, i - 1);
        lemma_step_keeps_entries(run_state(s0, es.take(i - 1)), es[i - 1], e, p);
    }
}

/// Along any run from the start of a login with `e` and `p`: a request for
/// an address asks the well-known address of the whole domain of `e`, and
/// an authentication sends the user that the chosen server's template names
/// for `e` and the password `p`, whichever autoconfig address answered.
pub proof fn lemma_run_uses_entries(e: Seq<char>, p: Seq<char>, es: Seq<LoginEventView>, i: int)
    requires
        0 <= i < es.len(),
    ensures
        run_action(login_start(e, p).0, es, i) matches LoginActionView::Fetch(url) ==> url
            == wellknown_url(domain_part(e)),
        run_action(login_start(e, p).0, es, i) matches LoginActionView::Authenticate { response }
            ==> (run_state(login_start(e, p).0, es.take(i)) matches LoginStateView::Connecting {
            username,
            ..
        } && username_for(username, e) matches Some(u) && response == plain_response(u, p)),
{
    let s0 = login_start(e, p).0;
    lemma_run_keeps_entries(e, p, es, i);
    let si = run_state(s0, es.take(i));
    if run_action(s0, es, i) is Fetch {
        lemma_wellknown_only_after_autoconfig_fails(si, es[i]);
    }
    if run_action(s0, es, i) is Authenticate {
        lemma_authenticate_with_entered_credentials(si, es[i]);
    }
}

/// Whether the login stops the program on this error: a missing `SSL`
/// server, a port that is no 16-bit number, a failed connection and refused
/// credentials end the worker with a panic; the other errors are logged.
pub open spec fn error_panics(e: LoginError) -> bool {
    match e {
        LoginError::NoSslServer | LoginError::InvalidPort | LoginError::ConnectFailed
        | LoginError::AuthenticationFailed => true,
        LoginError::AutoconfigUnreachable | LoginError::AutoconfigNotFound
        | LoginError::ConfigUnreadable | LoginError::UnsupportedUsername => false,
    }
}

impl LoginError {
    /// Whether the login stops the program on this error (`error_panics`).
    pub fn panics(&self) -> (r: bool)
        ensures
            r == error_panics(*self),
    {
        match self {
            LoginError::NoSslServer | LoginError::InvalidPort | LoginError::ConnectFailed
            | LoginError::AuthenticationFailed => true,
            LoginError::AutoconfigUnreachable | LoginError::AutoconfigNotFound
            | LoginError::ConfigUnreadable | LoginError::UnsupportedUsername => false,
        }
    }
}

} // verus!
