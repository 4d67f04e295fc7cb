//! Connecting to a Proxmox cluster, and what is answered when that fails.

use vstd::prelude::*;

use crate::auth::{Settings, SettingsView};
use crate::json::{Json, JsonView, json_reading, list_view, read_json};
use crate::proxmox::discovery::DiscoveredProxmox;
use crate::seqs::{ends_of, first_some, first_some_step, this_is_first};
use crate::text::{
    begins, contains, cut, cut_is_at_the_first, decimal, decimal_of, held_is_a_part, holds, is_part,
    is_part_of_part, part_of_longer, same, split_once, stand_together,
};

verus! {

/// The port of the Proxmox API.
pub const PROXMOX_PORT: u16 = 8006;

/// What a search for Proxmox hosts found.
#[derive(Debug, PartialEq, Eq)]
pub struct ProxmoxDiscoverResponse {
    pub machines: Vec<DiscoveredProxmox>,
}

/// Where to connect to, and as whom.
#[derive(Debug, PartialEq, Eq)]
pub struct ProxmoxConnectRequest {
    pub host: String,
    pub port: Option<u16>,
    pub username: String,
    pub password: String,
    pub vm_selection_option: Option<String>,
    pub skip_tls_verify: Option<bool>,
}

/// How connecting went.
#[derive(Debug, PartialEq, Eq)]
pub struct ProxmoxConnectResponse {
    pub message: String,
    pub suggest_disable_tls_verify: bool,
    pub added_vms: Option<usize>,
    pub failed_vms: Option<usize>,
    pub machines: Option<Vec<DiscoveredProxmox>>,
}

/// A user of a cluster, with the realm that knows them.
#[derive(Clone, Debug, PartialEq, Eq)]
pub struct Authid {
    pub username: String,
    pub realm: Option<String>,
}

/// A user as the cluster writes them.
pub open spec fn authid_text(username: Seq<char>, realm: Option<Seq<char>>) -> Seq<char> {
    match realm {
        Some(r) => username + "@"@ + r,
        None => username,
    }
}

impl Authid {
    /// The user of that name in that realm.
    pub fn new(username: &str, realm: Option<&str>) -> (r: Authid)
        ensures
            r.username@ == username@,
            r.realm.deep_view() == (match realm {
                Some(s) => Some(s@),
                None => None,
            }),
    {
        Authid {
            username: username.to_owned(),
            realm: match realm {
                Some(s) => Some(s.to_owned()),
                None => None,
            },
        }
    }

    /// The user as the cluster writes them.
    pub fn to_text(&self) -> (r: String)
        ensures
            r@ == authid_text(self.username@, self.realm.deep_view()),
    {
        let mut text = self.username.clone();
        match &self.realm {
            Some(realm) => {
                text.append("@");
                text.append(realm.as_str());
            },
            None => {},
        }
        text
    }
}

/// A user name taken apart: what stands before the first `@` is the name, what stands behind it
/// the realm, which is `pam` where there is none.
pub open spec fn login_parts(username: Seq<char>) -> (Seq<char>, Seq<char>) {
    match cut(username, '@') {
        Some(parts) => parts,
        None => (username, "pam"@),
    }
}

/// The user as whom to log in.
pub open spec fn login_user(username: Seq<char>) -> Seq<char> {
    authid_text(login_parts(username).0, Some(login_parts(username).1))
}

/// Reads a user name that may name its realm.
pub fn parse_login(username: &str) -> (r: Authid)
    ensures
        (r.username@, r.realm.deep_view()) == (
            login_parts(username@).0,
            Some(login_parts(username@).1),
        ),
{
    match split_once(username, '@') {
        Some((name, realm)) => Authid { username: name, realm: Some(realm) },
        None => Authid { username: username.to_owned(), realm: Some("pam".to_owned()) },
    }
}

/// A user who names their realm logs in exactly as they wrote it; any other as a user of `pam`.
pub proof fn named_realm_is_kept(username: Seq<char>)
    ensures
        username.contains('@') ==> login_user(username) == username,
        !username.contains('@') ==> login_user(username) == username + "@"@ + "pam"@,
{
    crate::text::position_is_first(username, seq!['@'], 0);
    reveal_strlit("@");
    match crate::text::position(username, seq!['@']) {
        Some(i) => {
            assert(username.subrange(i, i + 1) == seq!['@']);
            assert(username.subrange(i, i + 1)[0] == username[i]);
            assert("@"@ =~= seq!['@']);
            assert(login_user(username) =~= username);
        },
        None => {
            if username.contains('@') {
                let i = choose|i: int| 0 <= i < username.len() && username[i] == '@';
                assert(username.subrange(i, i + 1) =~= seq!['@']);
                assert(crate::text::stands_at(username, seq!['@'], i));
            }
        },
    }
}

// ---------------------------------------------------------------------------------------------
// Errors
// ---------------------------------------------------------------------------------------------

/// Why the work with a cluster failed. The texts are those of the errors behind it.
#[derive(Clone, Debug, PartialEq, Eq)]
pub enum ProxmoxHandlerError {
    ApiError(String),
    DbError(String),
    ConfigError(String),
    InternalError(String),
    LoginError(String),
    HttpClientError(String),
    TlsValidationError(String),
}

/// `ProxmoxHandlerError` as a mathematical value.
pub enum HandlerErrorView {
    ApiError(Seq<char>),
    DbError(Seq<char>),
    ConfigError(Seq<char>),
    InternalError(Seq<char>),
    LoginError(Seq<char>),
    HttpClientError(Seq<char>),
    TlsValidationError(Seq<char>),
}

impl DeepView for ProxmoxHandlerError {
    type V = HandlerErrorView;

    open spec fn deep_view(&self) -> HandlerErrorView {
        match self {
            ProxmoxHandlerError::ApiError(m) => HandlerErrorView::ApiError(m@),
            ProxmoxHandlerError::DbError(m) => HandlerErrorView::DbError(m@),
            ProxmoxHandlerError::ConfigError(m) => HandlerErrorView::ConfigError(m@),
            ProxmoxHandlerError::InternalError(m) => HandlerErrorView::InternalError(m@),
            ProxmoxHandlerError::LoginError(m) => HandlerErrorView::LoginError(m@),
            ProxmoxHandlerError::HttpClientError(m) => HandlerErrorView::HttpClientError(m@),
            ProxmoxHandlerError::TlsValidationError(m) => HandlerErrorView::TlsValidationError(m@),
        }
    }
}

/// What is answered to a failed request.
#[derive(Clone, Debug, PartialEq, Eq)]
pub struct ErrorReply {
    pub status: u16,
    pub error: String,
    pub message: String,
    pub suggest_disable_tls_verify: bool,
}

/// `ErrorReply` as a mathematical value.
pub struct ErrorReplyView {
    pub status: u16,
    pub error: Seq<char>,
    pub message: Seq<char>,
    pub suggest_disable_tls_verify: bool,
}

impl DeepView for ErrorReply {
    type V = ErrorReplyView;

    open spec fn deep_view(&self) -> ErrorReplyView {
        ErrorReplyView {
            status: self.status,
            error: self.error@,
            message: self.message@,
            suggest_disable_tls_verify: self.suggest_disable_tls_verify,
        }
    }
}

/// The text of an error speaks of certificates; `self_signed` is how it would call one that was
/// signed by its owner.
pub open spec fn speaks_of_certificates(e: Seq<char>, self_signed: Seq<char>) -> bool {
    holds(e, "certificate"@) || holds(e, "SSL"@) || holds(e, "TLS"@) || holds(e, self_signed)
        || holds(e, "unknown issuer"@)
}

fn mentions_certificates(e: &str, self_signed: &str) -> (r: bool)
    ensures
        r == speaks_of_certificates(e@, self_signed@),
{
    contains(e, "certificate") || contains(e, "SSL") || contains(e, "TLS") || contains(
        e,
        self_signed,
    ) || contains(e, "unknown issuer")
}

/// What is said of an error.
pub open spec fn handler_message(e: HandlerErrorView) -> Seq<char> {
    match e {
        HandlerErrorView::ApiError(m) => "Proxmox API error: "@ + m,
        HandlerErrorView::DbError(m) => "Database error: "@ + m,
        HandlerErrorView::ConfigError(m) => "Configuration error: "@ + m,
        HandlerErrorView::InternalError(m) => "Internal error: "@ + m,
        HandlerErrorView::LoginError(m) => "Login error: "@ + m,
        HandlerErrorView::HttpClientError(m) => "HTTP client error: "@ + m,
        HandlerErrorView::TlsValidationError(m) => "TLS Certificate validation error: "@ + m,
    }
}

/// The answer to a request that failed with this error.
pub open spec fn error_reply(e: HandlerErrorView) -> ErrorReplyView {
    match e {
        HandlerErrorView::ApiError(m) => if speaks_of_certificates(m, "self-signed"@) {
            ErrorReplyView {
                status: 400,
                error: "TLS_VALIDATION_ERROR"@,
                message: "Proxmox SSL certificate validation failed. You may need to try again with certificate validation disabled: "@
                    + m,
                suggest_disable_tls_verify: true,
            }
        } else {
            ErrorReplyView {
                status: 500,
                error: "API_ERROR"@,
                message: "Proxmox API interaction failed: "@ + m,
                suggest_disable_tls_verify: false,
            }
        },
        HandlerErrorView::TlsValidationError(m) => ErrorReplyView {
            status: 400,
            error: "TLS_VALIDATION_ERROR"@,
            message: "Proxmox SSL certificate validation failed: "@ + m
                + ". Try again with certificate validation disabled."@,
            suggest_disable_tls_verify: true,
        },
        HandlerErrorView::DbError(m) => ErrorReplyView {
            status: 500,
            error: "DB_ERROR"@,
            message: "Database operation failed: "@ + m,
            suggest_disable_tls_verify: false,
        },
        HandlerErrorView::ConfigError(m) => ErrorReplyView {
            status: 400,
            error: "CONFIG_ERROR"@,
            message: m,
            suggest_disable_tls_verify: false,
        },
        HandlerErrorView::InternalError(_) => ErrorReplyView {
            status: 500,
            error: "INTERNAL_ERROR"@,
            message: "An internal server error occurred."@,
            suggest_disable_tls_verify: false,
        },
        HandlerErrorView::LoginError(m) => ErrorReplyView {
            status: 401,
            error: "LOGIN_ERROR"@,
            message: "Proxmox authentication failed: "@ + m,
            suggest_disable_tls_verify: false,
        },
        HandlerErrorView::HttpClientError(m) => if speaks_of_certificates(m, "self signed"@) {
            ErrorReplyView {
                status: 400,
                error: "TLS_VALIDATION_ERROR"@,
                message: "Proxmox SSL certificate validation failed: "@ + m
                    + ". Try again with certificate validation disabled."@,
                suggest_disable_tls_verify: true,
            }
        } else {
            ErrorReplyView {
                status: 500,
                error: "HTTP_ERROR"@,
                message: "Proxmox HTTP communication failed: "@ + m,
                suggest_disable_tls_verify: false,
            }
        },
    }
}

fn reply(status: u16, error: &str, message: String, suggest: bool) -> (r: ErrorReply)
    ensures
        r.deep_view() == (ErrorReplyView {
            status,
            error: error@,
            message: message@,
            suggest_disable_tls_verify: suggest,
        }),
{
    ErrorReply { status, error: error.to_owned(), message, suggest_disable_tls_verify: suggest }
}

impl ProxmoxHandlerError {
    /// What is said of the error.
    pub fn message(&self) -> (r: String)
        ensures
            r@ == handler_message(self.deep_view()),
    {
        match self {
            ProxmoxHandlerError::ApiError(m) => "Proxmox API error: ".to_owned().concat(m.as_str()),
            ProxmoxHandlerError::DbError(m) => "Database error: ".to_owned().concat(m.as_str()),
            ProxmoxHandlerError::ConfigError(m) => "Configuration error: ".to_owned().concat(
                m.as_str(),
            ),
            ProxmoxHandlerError::InternalError(m) => "Internal error: ".to_owned().concat(
                m.as_str(),
            ),
            ProxmoxHandlerError::LoginError(m) => "Login error: ".to_owned().concat(m.as_str()),
            ProxmoxHandlerError::HttpClientError(m) => "HTTP client error: ".to_owned().concat(
                m.as_str(),
            ),
            ProxmoxHandlerError::TlsValidationError(m) =>
                "TLS Certificate validation error: ".to_owned().concat(
                m.as_str(),
            ),
        }
    }

    /// The answer to a request that failed with this error.
    pub fn into_response(&self) -> (r: ErrorReply)
        ensures
            r.deep_view() == error_reply(self.deep_view()),
    {
        match self {
            ProxmoxHandlerError::ApiError(m) => {
                if mentions_certificates(m.as_str(), "self-signed") {
                    reply(
                        400,
                        "TLS_VALIDATION_ERROR",
                        "Proxmox SSL certificate validation failed. You may need to try again with certificate validation disabled: ".to_owned()
                            .concat(
                            m.as_str(),
                        ),
                        true,
                    )
                } else {
                    reply(
                        500,
                        "API_ERROR",
                        "Proxmox API interaction failed: ".to_owned().concat(m.as_str()),
                        false,
                    )
                }
            },
            ProxmoxHandlerError::TlsValidationError(m) => reply(
                400,
                "TLS_VALIDATION_ERROR",
                "Proxmox SSL certificate validation failed: ".to_owned().concat(
                    m.as_str(),
                ).concat(". Try again with certificate validation disabled."),
                true,
            ),
            ProxmoxHandlerError::DbError(m) => reply(
                500,
                "DB_ERROR",
                "Database operation failed: ".to_owned().concat(m.as_str()),
                false,
            ),
            ProxmoxHandlerError::ConfigError(m) => reply(400, "CONFIG_ERROR", m.clone(), false),
            ProxmoxHandlerError::InternalError(_) => reply(
                500,
                "INTERNAL_ERROR",
                "An internal server error occurred.".to_owned(),
                false,
            ),
            ProxmoxHandlerError::LoginError(m) => reply(
                401,
                "LOGIN_ERROR",
                "Proxmox authentication failed: ".to_owned().concat(m.as_str()),
                false,
            ),
            ProxmoxHandlerError::HttpClientError(m) => {
                if mentions_certificates(m.as_str(), "self signed") {
                    reply(
                        400,
                        "TLS_VALIDATION_ERROR",
                        "Proxmox SSL certificate validation failed: ".to_owned().concat(
                            m.as_str(),
                        ).concat(". Try again with certificate validation disabled."),
                        true,
                    )
                } else {
                    reply(
                        500,
                        "HTTP_ERROR",
                        "Proxmox HTTP communication failed: ".to_owned().concat(m.as_str()),
                        false,
                    )
                }
            },
        }
    }
}

/// The error that a failed request to the cluster amounts to.
pub open spec fn client_error(e: Seq<char>, skip_tls_verify: bool) -> HandlerErrorView {
    if speaks_of_certificates(e, "self signed"@) {
        if !skip_tls_verify {
            HandlerErrorView::TlsValidationError(
                "Could not verify SSL certificate. Try again with certificate validation disabled."@,
            )
        } else {
            HandlerErrorView::ApiError(e)
        }
    } else if holds(e, "unauthorized"@) || holds(e, "authentication"@) || holds(e, "401"@) {
        HandlerErrorView::LoginError("Proxmox authentication failed: "@ + e)
    } else {
        HandlerErrorView::ApiError(e)
    }
}

/// Judges a failed request to the cluster by the text of its error.
pub fn handle_proxmox_error(e: String, skip_tls_verify: bool) -> (r: ProxmoxHandlerError)
    ensures
        r.deep_view() == client_error(e@, skip_tls_verify),
{
    if mentions_certificates(e.as_str(), "self signed") {
        if !skip_tls_verify {
            ProxmoxHandlerError::TlsValidationError(
                "Could not verify SSL certificate. Try again with certificate validation disabled.".to_owned(),
            )
        } else {
            ProxmoxHandlerError::ApiError(e)
        }
    } else if contains(e.as_str(), "unauthorized") || contains(e.as_str(), "authentication")
        || contains(e.as_str(), "401") {
        ProxmoxHandlerError::LoginError(
            "Proxmox authentication failed: ".to_owned().concat(e.as_str()),
        )
    } else {
        ProxmoxHandlerError::ApiError(e)
    }
}

/// Whoever already goes without certificate validation is not told to switch it off by the
/// judgement on a failed request.
pub proof fn no_hint_twice(e: Seq<char>)
    ensures
        !(client_error(e, true) is TlsValidationError),
{
}

// ---------------------------------------------------------------------------------------------
// Connecting
// ---------------------------------------------------------------------------------------------

/// What `hyper::Uri` says against a text that it does not read: nothing where it reads it.
pub uninterp spec fn uri_objection(s: Seq<char>) -> Option<Seq<char>>;

/// Parsing as a `hyper::Uri`: the message of its error, where there is one.
#[verifier::external_body]
fn object_to_uri(s: &str) -> (r: Option<String>)
    ensures
        r.deep_view() == uri_objection(s@),
{
    s.parse::<hyper::Uri>().err().map(|e| e.to_string())
}

/// The address of the API.
pub open spec fn api_url(host: Seq<char>, port: u16) -> Seq<char> {
    "https://"@ + host + ":"@ + decimal(port as nat)
}

fn url_of_api(host: &str, port: u16) -> (r: String)
    ensures
        r@ == api_url(host@, port),
{
    let mut url = "https://".to_owned();
    url.append(host);
    url.append(":");
    url.append(decimal_of(port as u64).as_str());
    url
}

/// How to log in.
#[derive(Debug, PartialEq, Eq)]
pub struct LoginPlan {
    pub url: String,
    pub user: String,
    pub password: String,
    pub skip_tls_verify: bool,
}

/// `LoginPlan` as a mathematical value.
pub struct LoginPlanView {
    pub url: Seq<char>,
    pub user: Seq<char>,
    pub password: Seq<char>,
    pub skip_tls_verify: bool,
}

impl DeepView for LoginPlan {
    type V = LoginPlanView;

    open spec fn deep_view(&self) -> LoginPlanView {
        LoginPlanView {
            url: self.url@,
            user: self.user@,
            password: self.password@,
            skip_tls_verify: self.skip_tls_verify,
        }
    }
}

/// How to log in with these details, given what is said against the address.
pub open spec fn login_plan(
    host: Seq<char>,
    port: Option<u16>,
    username: Seq<char>,
    password: Seq<char>,
    skip_tls_verify: Option<bool>,
    objection: Option<Seq<char>>,
) -> Result<LoginPlanView, Seq<char>> {
    match objection {
        Some(e) => Err(e),
        None => Ok(
            LoginPlanView {
                url: api_url(host, port.unwrap_or(PROXMOX_PORT)),
                user: login_user(username),
                password,
                skip_tls_verify: skip_tls_verify.unwrap_or(false),
            },
        ),
    }
}

/// How to log in by a request, or the error where host and port make no address.
pub open spec fn request_plan(
    host: Seq<char>,
    port: Option<u16>,
    username: Seq<char>,
    password: Seq<char>,
    skip_tls_verify: Option<bool>,
    objection: Option<Seq<char>>,
) -> Result<LoginPlanView, HandlerErrorView> {
    match login_plan(host, port, username, password, skip_tls_verify, objection) {
        Ok(p) => Ok(p),
        Err(e) => Err(
            HandlerErrorView::ConfigError(
                "Invalid Proxmox URL '"@ + api_url(host, port.unwrap_or(PROXMOX_PORT)) + "': "@ + e,
            ),
        ),
    }
}

/// A plan, or the error, as a mathematical value.
pub open spec fn plan_result(r: Result<LoginPlan, ProxmoxHandlerError>) -> Result<
    LoginPlanView,
    HandlerErrorView,
> {
    match r {
        Ok(p) => Ok(p.deep_view()),
        Err(e) => Err(e.deep_view()),
    }
}

/// What is said against the address of the API on that host.
pub open spec fn api_objection(host: Seq<char>, port: Option<u16>) -> Option<Seq<char>> {
    uri_objection(api_url(host, port.unwrap_or(PROXMOX_PORT)))
}

fn plan_login(
    host: &str,
    port: Option<u16>,
    username: &str,
    password: &str,
    skip_tls_verify: Option<bool>,
) -> (r: Result<LoginPlan, String>)
    ensures
        (match r {
            Ok(p) => Ok(p.deep_view()),
            Err(e) => Err(e@),
        }) == login_plan(
            host@,
            port,
            username@,
            password@,
            skip_tls_verify,
            api_objection(host@, port),
        ),
{
    let url = url_of_api(
        host,
        match port {
            Some(p) => p,
            None => PROXMOX_PORT,
        },
    );
    match object_to_uri(url.as_str()) {
        Some(e) => Err(e),
        None => Ok(
            LoginPlan {
                url,
                user: parse_login(username).to_text(),
                password: password.to_owned(),
                skip_tls_verify: match skip_tls_verify {
                    Some(b) => b,
                    None => false,
                },
            },
        ),
    }
}

/// The settings with the details of a connection in them.
pub open spec fn with_connection(
    s: SettingsView,
    host: Seq<char>,
    port: Option<u16>,
    username: Seq<char>,
    password: Seq<char>,
    skip_tls_verify: Option<bool>,
) -> SettingsView {
    SettingsView {
        proxmox_host: Some(host),
        proxmox_username: Some(username),
        proxmox_password: Some(password),
        proxmox_port: Some(port.unwrap_or(PROXMOX_PORT)),
        proxmox_skip_tls_verify: Some(skip_tls_verify.unwrap_or(false)),
        ..s
    }
}

impl ProxmoxConnectRequest {
    /// Keeps the details of the connection in the settings, whether or not it comes about.
    pub fn remember(&self, settings: &mut Settings)
        ensures
            final(settings).deep_view() == with_connection(
                old(settings).deep_view(),
                self.host@,
                self.port,
                self.username@,
                self.password@,
                self.skip_tls_verify,
            ),
    {
        settings.proxmox_host = Some(self.host.clone());
        settings.proxmox_username = Some(self.username.clone());
        settings.proxmox_password = Some(self.password.clone());
        settings.proxmox_port = Some(match self.port {
            Some(p) => p,
            None => PROXMOX_PORT,
        });
        settings.proxmox_skip_tls_verify = Some(match self.skip_tls_verify {
            Some(b) => b,
            None => false,
        });
    }

    /// How to log in, or the error where host and port make no address.
    pub fn plan(&self) -> (r: Result<LoginPlan, ProxmoxHandlerError>)
        ensures
            plan_result(r) == request_plan(
                self.host@,
                self.port,
                self.username@,
                self.password@,
                self.skip_tls_verify,
                api_objection(self.host@, self.port),
            ),
    {
        match plan_login(
            self.host.as_str(),
            self.port,
            self.username.as_str(),
            self.password.as_str(),
            self.skip_tls_verify,
        ) {
            Ok(p) => Ok(p),
            Err(e) => {
                let mut m = "Invalid Proxmox URL '".to_owned();
                m.append(
                    url_of_api(
                        self.host.as_str(),
                        match self.port {
                            Some(p) => p,
                            None => PROXMOX_PORT,
                        },
                    ).as_str(),
                );
                m.append("': ");
                m.append(e.as_str());
                Err(ProxmoxHandlerError::ConfigError(m))
            },
        }
    }
}

/// Takes up a request: it is remembered in the settings, whatever comes of it, and then it is
/// planned how to log in.
pub fn connect_proxmox_handler(request: &ProxmoxConnectRequest, settings: &mut Settings) -> (r: Result<
    LoginPlan,
    ProxmoxHandlerError,
>)
    ensures
        final(settings).deep_view() == with_connection(
            old(settings).deep_view(),
            request.host@,
            request.port,
            request.username@,
            request.password@,
            request.skip_tls_verify,
        ),
        plan_result(r) == request_plan(
            request.host@,
            request.port,
            request.username@,
            request.password@,
            request.skip_tls_verify,
            api_objection(request.host@, request.port),
        ),
{
    request.remember(settings);
    request.plan()
}

/// The settings hold what a connection needs.
pub open spec fn is_configured(s: SettingsView) -> bool {
    s.proxmox_host is Some && s.proxmox_username is Some && s.proxmox_password is Some
}

/// Whether the settings hold what a connection needs.
pub fn proxmox_configured(settings: &Settings) -> (r: bool)
    ensures
        r == is_configured(settings.deep_view()),
{
    settings.proxmox_host.is_some() && settings.proxmox_username.is_some()
        && settings.proxmox_password.is_some()
}

/// How to log in with the details in the settings.
pub open spec fn saved_plan(s: SettingsView) -> Result<LoginPlanView, Seq<char>> {
    match (s.proxmox_host, s.proxmox_username, s.proxmox_password) {
        (None, _, _) => Err("Proxmox host not configured"@),
        (Some(_), None, _) => Err("Proxmox username not configured"@),
        (Some(_), Some(_), None) => Err("Proxmox password not configured"@),
        (Some(host), Some(username), Some(password)) => match login_plan(
            host,
            s.proxmox_port,
            username,
            password,
            s.proxmox_skip_tls_verify,
            api_objection(host, s.proxmox_port),
        ) {
            Ok(p) => Ok(p),
            Err(e) => Err("Invalid Proxmox URL: "@ + e),
        },
    }
}

/// How to log in with the details in the settings, or why that cannot be done.
pub fn plan_saved_login(settings: &Settings) -> (r: Result<LoginPlan, String>)
    ensures
        (match r {
            Ok(p) => Ok(p.deep_view()),
            Err(e) => Err(e@),
        }) == saved_plan(settings.deep_view()),
{
    match &settings.proxmox_host {
        None => Err("Proxmox host not configured".to_owned()),
        Some(host) => match &settings.proxmox_username {
            None => Err("Proxmox username not configured".to_owned()),
            Some(username) => match &settings.proxmox_password {
                None => Err("Proxmox password not configured".to_owned()),
                Some(password) => match plan_login(
                    host.as_str(),
                    settings.proxmox_port,
                    username.as_str(),
                    password.as_str(),
                    settings.proxmox_skip_tls_verify,
                ) {
                    Ok(p) => Ok(p),
                    Err(e) => Err("Invalid Proxmox URL: ".to_owned().concat(e.as_str())),
                },
            },
        },
    }
}

/// What a request remembers is what a later connection from the settings uses.
pub proof fn remembered_connection_is_used(
    s: SettingsView,
    host: Seq<char>,
    port: Option<u16>,
    username: Seq<char>,
    password: Seq<char>,
    skip_tls_verify: Option<bool>,
)
    ensures
        is_configured(with_connection(s, host, port, username, password, skip_tls_verify)),
        api_objection(host, port) is None ==> saved_plan(
            with_connection(s, host, port, username, password, skip_tls_verify),
        ) == login_plan(host, port, username, password, skip_tls_verify, None),
{
}

/// How a login went.
#[derive(Debug, PartialEq, Eq)]
pub enum ClusterLogin {
    Accepted,
    SecondFactorWanted,
    Failed(String),
}

/// The error that a login amounts to, if it did not succeed.
pub open spec fn login_error(outcome: ClusterLogin, skip_tls_verify: bool) -> Option<
    HandlerErrorView,
> {
    match outcome {
        ClusterLogin::Accepted => None,
        ClusterLogin::SecondFactorWanted => Some(
            HandlerErrorView::LoginError("Proxmox authentication failed: TFA Required"@),
        ),
        ClusterLogin::Failed(e) => Some(client_error(e@, skip_tls_verify)),
    }
}

/// Judges a login: on success the path of the state of the cluster, which is to be fetched next.
pub fn after_login(outcome: ClusterLogin, skip_tls_verify: bool) -> (r: Result<
    String,
    ProxmoxHandlerError,
>)
    ensures
        match r {
            Ok(path) => login_error(outcome, skip_tls_verify) is None && path@
                == "/api2/json/cluster/status"@,
            Err(e) => login_error(outcome, skip_tls_verify) == Some(e.deep_view()),
        },
{
    match outcome {
        ClusterLogin::Accepted => Ok("/api2/json/cluster/status".to_owned()),
        ClusterLogin::SecondFactorWanted => Err(
            ProxmoxHandlerError::LoginError(
                "Proxmox authentication failed: TFA Required".to_owned(),
            ),
        ),
        ClusterLogin::Failed(e) => Err(handle_proxmox_error(e, skip_tls_verify)),
    }
}

/// An entry of the state of a cluster, if it speaks of the cluster itself.
pub open spec fn cluster_entry(item: JsonView) -> Option<JsonView> {
    if item.text_at("type"@) == Some("cluster"@) {
        Some(item)
    } else {
        None
    }
}

/// The name of the cluster: that of the first entry which speaks of the cluster itself.
pub open spec fn cluster_name(value: JsonView) -> Seq<char> {
    match value.items_at("data"@) {
        Some(items) => match first_some(items.map_values(|i: JsonView| cluster_entry(i))) {
            Some(entry) => entry.text_at("name"@).unwrap_or("proxmox-cluster"@),
            None => "proxmox-cluster"@,
        },
        None => "proxmox-cluster"@,
    }
}

/// Reads the name of the cluster from its state.
pub fn read_cluster_name(value: &Json) -> (r: String)
    ensures
        r@ == cluster_name(value.deep_view()),
{
    match value.items_at("data") {
        Some(items) => {
            let ghost found = list_view(items@).map_values(|i: JsonView| cluster_entry(i));
            let mut i: usize = 0;
            proof {
                ends_of(found);
            }
            while i < items.len()
                invariant
                    i <= items.len(),
                    value.deep_view().items_at("data"@) == Some(list_view(items@)),
                    found == list_view(items@).map_values(|i: JsonView| cluster_entry(i)),
                    first_some(found) == first_some(found.skip(i as int)),
                decreases items.len() - i,
            {
                proof {
                    first_some_step(found, i as int);
                }
                let fits = match items[i].text_at("type") {
                    Some(kind) => same(kind, "cluster"),
                    None => false,
                };
                if fits {
                    assert(found[i as int] == Some(items@[i as int].deep_view()));
                    return match items[i].text_at("name") {
                        Some(name) => name.to_owned(),
                        None => "proxmox-cluster".to_owned(),
                    };
                }
                i = i + 1;
            }
            proof {
                ends_of(found);
            }
            "proxmox-cluster".to_owned()
        },
        None => "proxmox-cluster".to_owned(),
    }
}

/// The name of the cluster that a reply about its state gives.
pub open spec fn cluster_of_reply(
    reading: Result<JsonView, Seq<char>>,
) -> Result<Seq<char>, HandlerErrorView> {
    match reading {
        Ok(v) => Ok(cluster_name(v)),
        Err(e) => Err(
            HandlerErrorView::ApiError("Failed to parse cluster status JSON: "@ + e),
        ),
    }
}

/// Judges the reply about the state of the cluster: its body, or the text of the error.
pub fn after_cluster_status(
    reply: Result<Vec<u8>, String>,
    skip_tls_verify: bool,
) -> (r: Result<String, ProxmoxHandlerError>)
    ensures
        (match r {
            Ok(name) => Ok(name@),
            Err(e) => Err(e.deep_view()),
        }) == (match reply {
            Ok(body) => cluster_of_reply(json_reading(body@)),
            Err(e) => Err(client_error(e@, skip_tls_verify)),
        }),
{
    match reply {
        Ok(body) => match read_json(body.as_slice()) {
            Ok(value) => Ok(read_cluster_name(&value)),
            Err(e) => Err(
                ProxmoxHandlerError::ApiError(
                    "Failed to parse cluster status JSON: ".to_owned().concat(e.as_str()),
                ),
            ),
        },
        Err(e) => Err(handle_proxmox_error(e, skip_tls_verify)),
    }
}

/// What is said of a connection that came about.
pub open spec fn connected_message(cluster: Seq<char>, added: nat, failed: nat) -> Seq<char> {
    "Successfully connected to Proxmox cluster: "@ + cluster + " and registered "@ + decimal(added)
        + " VMs ("@ + decimal(failed) + " failed)"@
}

/// The answer to a request that succeeded.
pub fn connected(
    cluster: &str,
    added: usize,
    failed: usize,
    machines: Vec<DiscoveredProxmox>,
) -> (r: ProxmoxConnectResponse)
    ensures
        r.message@ == connected_message(cluster@, added as nat, failed as nat),
        !r.suggest_disable_tls_verify,
        r.added_vms == Some(added),
        r.failed_vms == Some(failed),
        r.machines == Some(machines),
{
    let mut message = "Successfully connected to Proxmox cluster: ".to_owned();
    message.append(cluster);
    message.append(" and registered ");
    message.append(decimal_of(added as u64).as_str());
    message.append(" VMs (");
    message.append(decimal_of(failed as u64).as_str());
    message.append(" failed)");
    ProxmoxConnectResponse {
        message,
        suggest_disable_tls_verify: false,
        added_vms: Some(added),
        failed_vms: Some(failed),
        machines: Some(machines),
    }
}

/// The answer to a request, once the machines of the cluster were recorded: how many were and how
/// many could not be, and which there are; or nothing where they could not be listed.
pub fn finish_connect(
    cluster: &str,
    discovered: Option<(usize, usize, Vec<DiscoveredProxmox>)>,
) -> (r: Result<ProxmoxConnectResponse, ProxmoxHandlerError>)
    ensures
        match discovered {
            Some((added, failed, machines)) => r matches Ok(reply) && {
                &&& reply.message@ == connected_message(cluster@, added as nat, failed as nat)
                &&& !reply.suggest_disable_tls_verify
                &&& reply.added_vms == Some(added)
                &&& reply.failed_vms == Some(failed)
                &&& reply.machines == Some(machines)
            },
            None => r matches Err(e) && e.deep_view() == HandlerErrorView::InternalError(
                "Failed during Proxmox VM discovery and registration"@,
            ),
        },
{
    match discovered {
        Some((added, failed, machines)) => Ok(connected(cluster, added, failed, machines)),
        None => Err(
            ProxmoxHandlerError::InternalError(
                "Failed during Proxmox VM discovery and registration".to_owned(),
            ),
        ),
    }
}

// ---------------------------------------------------------------------------------------------
// What connecting amounts to
// ---------------------------------------------------------------------------------------------

/// A user who names a realm is that user in that realm, whatever stands behind the first `@`; any other
/// is a user of `pam`.
pub proof fn users_log_in_to_their_realm(name: Seq<char>, realm: Seq<char>)
    requires
        !name.contains('@'),
    ensures
        login_parts(name + seq!['@'] + realm) == (name, realm),
        login_parts(name) == (name, "pam"@),
        login_user(name + seq!['@'] + realm) == name + seq!['@'] + realm,
{
    reveal_strlit("@");
    assert("@"@ =~= seq!['@']);
    cut_is_at_the_first(name, '@', realm);
}

/// The address of the API names the host and the port, and is read as a secure one.
pub proof fn api_is_on_its_port(host: Seq<char>, port: u16)
    ensures
        begins(api_url(host, port), "https://"@),
        api_url(host, port).skip(8) == host + seq![':'] + decimal(port as nat),
        api_url(host, PROXMOX_PORT) == "https://"@ + host + ":8006"@,
{
    reveal_strlit("https://");
    reveal_strlit(":");
    reveal_strlit(":8006");
    reveal_with_fuel(decimal, 5);
    let url = api_url(host, port);
    assert(url.subrange(0, 8) =~= "https://"@);
    assert(url.skip(8) =~= host + seq![':'] + decimal(port as nat));
    assert(decimal(8006) =~= seq!['8', '0', '0', '6']);
    assert(api_url(host, PROXMOX_PORT) =~= "https://"@ + host + ":8006"@);
}

/// A request is carried out with its own user, password and choice of validation, on the port it
/// names or the standard one; where host and port make no address, that is said and nothing is tried.
pub proof fn request_is_planned_as_it_says(
    host: Seq<char>,
    port: Option<u16>,
    username: Seq<char>,
    password: Seq<char>,
    skip: Option<bool>,
    objection: Seq<char>,
)
    ensures
        request_plan(host, port, username, password, skip, None) matches Ok(p) && p.password
            == password && p.user == login_user(username) && (p.skip_tls_verify <==> skip == Some(
            true,
        )) && (port matches Some(n) ==> p.url == api_url(host, n)) && (port is None ==> p.url
            == api_url(host, 8006)),
        request_plan(host, port, username, password, skip, Some(objection)) matches Err(
            HandlerErrorView::ConfigError(m),
        ) && is_part(objection, m) && is_part(host, m),
{
    let url = api_url(host, port.unwrap_or(PROXMOX_PORT));
    let port_text = decimal(port.unwrap_or(PROXMOX_PORT) as nat);
    stand_together("https://"@, host);
    part_of_longer(host, "https://"@ + host, ":"@);
    part_of_longer(host, "https://"@ + host + ":"@, port_text);
    stand_together("Invalid Proxmox URL '"@, url);
    is_part_of_part(host, url, "Invalid Proxmox URL '"@ + url);
    part_of_longer(host, "Invalid Proxmox URL '"@ + url, "': "@);
    part_of_longer(host, "Invalid Proxmox URL '"@ + url + "': "@, objection);
    stand_together("Invalid Proxmox URL '"@ + url + "': "@, objection);
}

/// Remembering a connection changes what is kept of connections, as the request says, and nothing else
/// of the settings.
pub proof fn connection_is_remembered(
    s: SettingsView,
    host: Seq<char>,
    port: Option<u16>,
    username: Seq<char>,
    password: Seq<char>,
    skip: Option<bool>,
)
    ensures
        ({
            let t = with_connection(s, host, port, username, password, skip);
            &&& t.proxmox_host == Some(host)
            &&& t.proxmox_username == Some(username)
            &&& t.proxmox_password == Some(password)
            &&& port is Some ==> t.proxmox_port == port
            &&& port is None ==> t.proxmox_port == Some(8006u16)
            &&& t.proxmox_skip_tls_verify == Some(skip == Some(true))
            &&& t.require_login == s.require_login
            &&& t.default_os == s.default_os
            &&& t.setup_completed == s.setup_completed
            &&& t.admin_username == s.admin_username
            &&& t.admin_password_hash == s.admin_password_hash
            &&& t.admin_email == s.admin_email
            &&& t.oauth_enabled == s.oauth_enabled
            &&& t.oauth_provider == s.oauth_provider
            &&& t.oauth_client_id == s.oauth_client_id
            &&& t.oauth_client_secret == s.oauth_client_secret
        }),
{
}

/// Settings that hold what a connection needs are enough to plan one; where one of the three is
/// missing, that one is asked for.
pub proof fn saved_connection_needs_all_three(s: SettingsView)
    ensures
        is_configured(s) <==> s.proxmox_host is Some && s.proxmox_username is Some
            && s.proxmox_password is Some,
        saved_plan(s) is Ok ==> is_configured(s),
        is_configured(s) && api_objection(s.proxmox_host->0, s.proxmox_port) is None ==> (saved_plan(s)
            matches Ok(p) && p.password == s.proxmox_password->0 && p.user == login_user(
            s.proxmox_username->0,
        ) && (p.skip_tls_verify <==> s.proxmox_skip_tls_verify == Some(true)) && p.url == api_url(
            s.proxmox_host->0,
            match s.proxmox_port {
                Some(n) => n,
                None => 8006,
            },
        )),
        s.proxmox_host is None ==> saved_plan(s) == Err::<LoginPlanView, Seq<char>>(
            "Proxmox host not configured"@,
        ),
        s.proxmox_host is Some && s.proxmox_username is None ==> saved_plan(s) == Err::<
            LoginPlanView,
            Seq<char>,
        >("Proxmox username not configured"@),
        s.proxmox_host is Some && s.proxmox_username is Some && s.proxmox_password is None
            ==> saved_plan(s) == Err::<LoginPlanView, Seq<char>>("Proxmox password not configured"@),
{
}

/// A failed request is put down to the certificate exactly where its error speaks of one and
/// certificates are validated, and else to the login where it speaks of that.
pub proof fn failures_are_told_apart(e: Seq<char>, skip: bool)
    ensures
        ({
            let about_certificates = is_part("certificate"@, e) || is_part("SSL"@, e) || is_part(
                "TLS"@,
                e,
            ) || is_part("self signed"@, e) || is_part("unknown issuer"@, e);
            let about_login = is_part("unauthorized"@, e) || is_part("authentication"@, e)
                || is_part("401"@, e);
            &&& client_error(e, skip) is TlsValidationError <==> about_certificates && !skip
            &&& client_error(e, skip) is LoginError <==> !about_certificates && about_login
            &&& client_error(e, skip) matches HandlerErrorView::LoginError(m) ==> is_part(e, m)
            &&& (about_certificates && skip) || (!about_certificates && !about_login)
                ==> client_error(e, skip) == HandlerErrorView::ApiError(e)
        }),
{
    held_is_a_part(e, "certificate"@);
    held_is_a_part(e, "SSL"@);
    held_is_a_part(e, "TLS"@);
    held_is_a_part(e, "self signed"@);
    held_is_a_part(e, "unknown issuer"@);
    held_is_a_part(e, "unauthorized"@);
    held_is_a_part(e, "authentication"@);
    held_is_a_part(e, "401"@);
    stand_together("Proxmox authentication failed: "@, e);
}

/// An answer suggests going without the validation of certificates exactly where it says that this is
/// what failed; only an internal error does not say what went wrong.
pub proof fn suggestions_fit_the_error(e: HandlerErrorView)
    ensures
        error_reply(e).suggest_disable_tls_verify <==> error_reply(e).error
            == "TLS_VALIDATION_ERROR"@,
        error_reply(e).suggest_disable_tls_verify ==> error_reply(e).status == 400,
        e is TlsValidationError ==> error_reply(e).suggest_disable_tls_verify,
        e is LoginError ==> error_reply(e).status == 401,
        e is ConfigError ==> error_reply(e).status == 400,
        e is DbError || e is InternalError ==> error_reply(e).status == 500,
        e matches HandlerErrorView::DbError(m) ==> is_part(m, error_reply(e).message),
        e matches HandlerErrorView::LoginError(m) ==> is_part(m, error_reply(e).message),
        e matches HandlerErrorView::ConfigError(m) ==> m == error_reply(e).message,
        e matches HandlerErrorView::ApiError(m) ==> is_part(m, error_reply(e).message),
        e matches HandlerErrorView::HttpClientError(m) ==> is_part(m, error_reply(e).message),
        e matches HandlerErrorView::TlsValidationError(m) ==> is_part(m, error_reply(e).message),
        e matches HandlerErrorView::InternalError(m) ==> error_reply(e)
            == error_reply(HandlerErrorView::InternalError(Seq::empty())),
{
    reveal_strlit("TLS_VALIDATION_ERROR");
    reveal_strlit("API_ERROR");
    reveal_strlit("DB_ERROR");
    reveal_strlit("CONFIG_ERROR");
    reveal_strlit("INTERNAL_ERROR");
    reveal_strlit("LOGIN_ERROR");
    reveal_strlit("HTTP_ERROR");
    assert("TLS_VALIDATION_ERROR"@.len() == 20);
    assert("API_ERROR"@.len() == 9);
    assert("DB_ERROR"@.len() == 8);
    assert("CONFIG_ERROR"@.len() == 12);
    assert("INTERNAL_ERROR"@.len() == 14);
    assert("LOGIN_ERROR"@.len() == 11);
    assert("HTTP_ERROR"@.len() == 10);
    let m = match e {
        HandlerErrorView::ApiError(m) => m,
        HandlerErrorView::DbError(m) => m,
        HandlerErrorView::ConfigError(m) => m,
        HandlerErrorView::InternalError(m) => m,
        HandlerErrorView::LoginError(m) => m,
        HandlerErrorView::HttpClientError(m) => m,
        HandlerErrorView::TlsValidationError(m) => m,
    };
    stand_together(
        "Proxmox SSL certificate validation failed. You may need to try again with certificate validation disabled: "@,
        m,
    );
    stand_together("Proxmox API interaction failed: "@, m);
    stand_together("Proxmox SSL certificate validation failed: "@, m);
    part_of_longer(
        m,
        "Proxmox SSL certificate validation failed: "@ + m,
        ". Try again with certificate validation disabled."@,
    );
    stand_together("Database operation failed: "@, m);
    stand_together("Proxmox authentication failed: "@, m);
    stand_together("Proxmox HTTP communication failed: "@, m);
}

/// The cluster goes by the name in the first entry that speaks of the cluster itself, wherever that
/// stands among the entries for its nodes.
pub proof fn cluster_goes_by_its_entry(value: JsonView, items: Seq<JsonView>, i: int, name: Seq<char>)
    requires
        value.items_at("data"@) == Some(items),
        0 <= i < items.len(),
        items[i].text_at("type"@) == Some("cluster"@),
        items[i].text_at("name"@) == Some(name),
        forall|j: int|
            0 <= j < i ==> (#[trigger] items[j]).text_at("type"@) != Some("cluster"@),
    ensures
        cluster_name(value) == name,
{
    let all = items.map_values(|i: JsonView| cluster_entry(i));
    assert forall|j: int| 0 <= j < i implies (#[trigger] all[j]) is None by {
        assert(items[j].text_at("type"@) != Some("cluster"@));
    }
    this_is_first(all, i);
}

/// A login that was accepted goes on; one that wants a second factor, or failed, does not.
pub proof fn logins_that_fail_are_errors(outcome: ClusterLogin, skip: bool)
    ensures
        login_error(outcome, skip) is None <==> outcome is Accepted,
        outcome is SecondFactorWanted ==> (login_error(outcome, skip) matches Some(e) && e
            is LoginError),
        outcome matches ClusterLogin::Failed(e) ==> login_error(outcome, skip) == Some(
            client_error(e@, skip),
        ),
{
}

} // verus!
