//! Administrators: their credentials, their sessions and the settings they keep.

use vstd::prelude::*;
use vstd::utf8::encode_utf8;

use crate::text::{
    blank, blanks_are_trimmed_away, is_part, only_white_space_is_trimmed, same, stand_together,
    trim, trimmed,
};

verus! {

// ---------------------------------------------------------------------------------------------
// Passwords
// ---------------------------------------------------------------------------------------------

/// What `argon2::Argon2::hash_password`, with its default parameters, makes of a password and a
/// salt in B64: the hash as text, or the message of its error.
pub uninterp spec fn argon2_hash(password: Seq<u8>, salt: Seq<char>) -> Result<
    Seq<char>,
    Seq<char>,
>;

/// `argon2::Argon2::verify_password` accepts the password for a hash given as text.
pub uninterp spec fn argon2_accepts(hash: Seq<char>, password: Seq<u8>) -> bool;

/// `argon2::Argon2::hash_password`, with its default parameters. A hash that it made is one for
/// which `argon2::Argon2::verify_password` accepts the same password.
#[verifier::external_body]
fn hash_with_salt(password: &[u8], salt: &str) -> (r: Result<String, String>)
    ensures
        (match r {
            Ok(h) => Ok(h@),
            Err(e) => Err(e@),
        }) == argon2_hash(password@, salt@),
        r matches Ok(h) ==> argon2_accepts(h@, password@),
{
    let salt = argon2::password_hash::SaltString::from_b64(salt).map_err(|e| e.to_string())?;
    argon2::PasswordHasher::hash_password(&argon2::Argon2::default(), password, &salt)
        .map(|hash| hash.to_string())
        .map_err(|e| e.to_string())
}

/// `argon2::Argon2::verify_password`, with a hash given as text. Text that is no hash accepts no
/// password.
#[verifier::external_body]
fn verify_with_hash(hash: &str, password: &[u8]) -> (r: bool)
    ensures
        r == argon2_accepts(hash@, password@),
{
    match argon2::PasswordHash::new(hash) {
        Ok(parsed) => argon2::PasswordVerifier::verify_password(&argon2::Argon2::default(),
            password, &parsed).is_ok(),
        Err(_) => false,
    }
}

/// `argon2::password_hash::SaltString::generate` with the random numbers of the system: sixteen
/// random bytes, which take twenty-two characters of B64.
#[verifier::external_body]
fn fresh_salt() -> (r: String)
    ensures
        r@.len() == 22,
{
    argon2::password_hash::SaltString::generate(&mut rand::rngs::OsRng).as_str().to_owned()
}

/// A digit or a letter of ASCII.
pub open spec fn is_alphanumeric(c: char) -> bool {
    '0' <= c <= '9' || 'a' <= c <= 'z' || 'A' <= c <= 'Z'
}

/// A text of digits and letters of ASCII.
pub open spec fn all_alphanumeric(s: Seq<char>) -> bool {
    forall|i: int| 0 <= i < s.len() ==> is_alphanumeric(#[trigger] s[i])
}

/// `rand::distributions::Alphanumeric`, sampled `len` times: digits and letters of ASCII.
#[verifier::external_body]
fn random_alphanumeric(len: usize) -> (r: String)
    ensures
        r@.len() == len,
        all_alphanumeric(r@),
{
    rand::Rng::sample_iter(rand::thread_rng(), &rand::distributions::Alphanumeric)
        .take(len)
        .map(char::from)
        .collect()
}

/// Who may log in: a name and the hash of a password. The password itself is only there while a
/// login is being tried.
#[derive(Clone, Debug, PartialEq, Eq)]
pub struct Credentials {
    pub username: String,
    pub password: Option<String>,
    pub password_hash: String,
}

/// `Credentials` as a mathematical value.
pub struct CredentialsView {
    pub username: Seq<char>,
    pub password: Option<Seq<char>>,
    pub password_hash: Seq<char>,
}

impl DeepView for Credentials {
    type V = CredentialsView;

    open spec fn deep_view(&self) -> CredentialsView {
        CredentialsView {
            username: self.username@,
            password: self.password.deep_view(),
            password_hash: self.password_hash@,
        }
    }
}

impl Default for Credentials {
    /// The name of the administrator, with no password.
    fn default() -> (r: Credentials)
        ensures
            r.deep_view() == (CredentialsView {
                username: "admin"@,
                password: None,
                password_hash: Seq::empty(),
            }),
    {
        Credentials {
            username: "admin".to_owned(),
            password: None,
            password_hash: String::new(),
        }
    }
}

/// The credentials made from a name and what hashing the password gave.
pub open spec fn hashed_credentials(
    username: Seq<char>,
    hashed: Result<Seq<char>, Seq<char>>,
) -> Result<CredentialsView, Seq<char>> {
    match hashed {
        Ok(password_hash) => Ok(CredentialsView { username, password: None, password_hash }),
        Err(e) => Err("Failed to hash password: "@ + e),
    }
}

/// What a fallible result holds.
pub open spec fn credentials_result(r: Result<Credentials, String>) -> Result<
    CredentialsView,
    Seq<char>,
> {
    match r {
        Ok(c) => Ok(c.deep_view()),
        Err(e) => Err(e@),
    }
}

impl Credentials {
    /// Credentials from a name and the outcome of hashing a password.
    pub fn from_hash(username: String, hashed: Result<String, String>) -> (r: Result<
        Credentials,
        String,
    >)
        ensures
            credentials_result(r) == hashed_credentials(
                username@,
                match hashed {
                    Ok(h) => Ok(h@),
                    Err(e) => Err(e@),
                },
            ),
    {
        match hashed {
            Ok(password_hash) => Ok(Credentials { username, password: None, password_hash }),
            Err(e) => {
                let mut m = "Failed to hash password: ".to_owned();
                m.append(e.as_str());
                Err(m)
            },
        }
    }

    /// Credentials for a name and a password, hashed with the given salt.
    pub fn create_with_salt(username: String, password: &str, salt: &str) -> (r: Result<
        Credentials,
        String,
    >)
        ensures
            credentials_result(r) == hashed_credentials(
                username@,
                argon2_hash(encode_utf8(password@), salt@),
            ),
            r matches Ok(c) ==> argon2_accepts(c.password_hash@, encode_utf8(password@)),
    {
        Credentials::from_hash(username, hash_with_salt(password.as_bytes(), salt))
    }

    /// Credentials for a name and a password, hashed with a fresh salt. Which hash comes out
    /// depends on the salt; it is one that accepts the password, which is not kept.
    pub fn create(username: String, password: String) -> (r: Result<Credentials, String>)
        ensures
            exists|salt: Seq<char>|
                salt.len() == 22 && credentials_result(r) == hashed_credentials(
                    username@,
                    #[trigger] argon2_hash(encode_utf8(password@), salt),
                ),
            r matches Ok(c) ==> c.username@ == username@ && c.password is None && argon2_accepts(
                c.password_hash@,
                encode_utf8(password@),
            ),
    {
        let salt = fresh_salt();
        Credentials::create_with_salt(username, password.as_str(), salt.as_str())
    }
}

/// A password was given, and the stored hash accepts it.
pub open spec fn password_fits(password: Option<Seq<char>>, stored_hash: Seq<char>) -> bool {
    password matches Some(p) && argon2_accepts(stored_hash, encode_utf8(p))
}

/// Whether a password was given that the stored hash accepts.
pub fn password_accepted(password: &Option<String>, stored_hash: &str) -> (r: bool)
    ensures
        r == password_fits(password.deep_view(), stored_hash@),
{
    match password {
        Some(p) => verify_with_hash(stored_hash, p.as_str().as_bytes()),
        None => false,
    }
}

/// How the first half of an authentication ends.
#[derive(Debug, PartialEq, Eq)]
pub enum AuthStep {
    /// The user may be loaded and logged in.
    Accepted,
    /// There is no such user, or the password is not theirs.
    Refused,
    /// It could not be found out.
    Failed(String),
}

/// What follows a look-up of the stored hash, and the verdict on the password.
pub open spec fn auth_step(
    lookup: Result<Option<Seq<char>>, Seq<char>>,
    fits: bool,
) -> Result<bool, Seq<char>> {
    match lookup {
        Err(e) => Err("Database error: "@ + e),
        Ok(None) => Ok(false),
        Ok(Some(_)) => Ok(fits),
    }
}

/// An authentication step as a mathematical value.
pub open spec fn step_view(s: AuthStep) -> Result<bool, Seq<char>> {
    match s {
        AuthStep::Accepted => Ok(true),
        AuthStep::Refused => Ok(false),
        AuthStep::Failed(m) => Err(m@),
    }
}

/// What a look-up of a stored hash gave.
pub open spec fn lookup_view(l: Result<Option<String>, String>) -> Result<
    Option<Seq<char>>,
    Seq<char>,
> {
    match l {
        Ok(h) => Ok(h.deep_view()),
        Err(e) => Err(e@),
    }
}

/// Decides on a login by the hash that is stored for the name, if one is.
pub fn authenticate(password: &Option<String>, lookup: Result<Option<String>, String>) -> (r: AuthStep)
    ensures
        step_view(r) == auth_step(
            lookup_view(lookup),
            lookup matches Ok(Some(h)) && password_fits(password.deep_view(), h@),
        ),
{
    match lookup {
        Err(e) => {
            let mut m = "Database error: ".to_owned();
            m.append(e.as_str());
            AuthStep::Failed(m)
        },
        Ok(None) => AuthStep::Refused,
        Ok(Some(hash)) => if password_accepted(password, hash.as_str()) {
            AuthStep::Accepted
        } else {
            AuthStep::Refused
        },
    }
}

/// Credentials that were made for a password let that password in, and without a password
/// nobody gets in.
pub proof fn created_credentials_accept_their_password(c: CredentialsView, password: Seq<char>)
    requires
        argon2_accepts(c.password_hash, encode_utf8(password)),
    ensures
        auth_step(
            Ok(Some(c.password_hash)),
            password_fits(Some(password), c.password_hash),
        ) == Ok::<bool, Seq<char>>(true),
        auth_step(Ok(Some(c.password_hash)), password_fits(None, c.password_hash)) == Ok::<
            bool,
            Seq<char>,
        >(false),
{
}

// ---------------------------------------------------------------------------------------------
// Logging in and out
// ---------------------------------------------------------------------------------------------

/// What a login form holds.
#[derive(Debug, PartialEq, Eq)]
pub struct LoginForm {
    pub username: String,
    pub password: String,
}

/// An administrator who is logged in.
#[derive(Clone, Debug, PartialEq, Eq)]
pub struct AdminUser {
    pub id: i64,
    pub username: String,
}

/// `AdminUser` as a mathematical value.
pub struct AdminView {
    pub id: i64,
    pub username: Seq<char>,
}

impl DeepView for AdminUser {
    type V = AdminView;

    open spec fn deep_view(&self) -> AdminView {
        AdminView { id: self.id, username: self.username@ }
    }
}

impl AdminUser {
    /// The number that identifies the user in a session.
    pub fn id(&self) -> (r: i64)
        ensures
            r == self.id,
    {
        self.id
    }

    /// The bytes whose change ends the sessions of the user: those of the name.
    pub fn session_auth_hash(&self) -> (r: &[u8])
        ensures
            r@ == encode_utf8(self.username@),
    {
        self.username.as_str().as_bytes()
    }
}

/// The credentials to authenticate a login form with.
pub fn form_credentials(form: LoginForm) -> (r: Credentials)
    ensures
        r.deep_view() == (CredentialsView {
            username: form.username@,
            password: Some(form.password@),
            password_hash: Seq::empty(),
        }),
{
    Credentials {
        username: form.username,
        password: Some(form.password),
        password_hash: String::new(),
    }
}

/// The name that a visitor of the demonstration goes by.
pub open spec fn demo_name(username: Seq<char>) -> Seq<char> {
    if trimmed(username).len() == 0 {
        "demo_user"@
    } else {
        username
    }
}

/// The user as which a login form is accepted in the demonstration.
pub fn demo_user(form: &LoginForm) -> (r: AdminUser)
    ensures
        r.deep_view() == (AdminView { id: 1, username: demo_name(form.username@) }),
{
    let username = if trim(form.username.as_str()).as_str().is_empty() {
        "demo_user".to_owned()
    } else {
        form.username.clone()
    };
    AdminUser { id: 1, username }
}

/// How a login went.
#[derive(Clone, Copy, Debug, PartialEq, Eq, Structural)]
pub enum LoginOutcome {
    /// The session of an authenticated user stands.
    LoggedIn,
    /// The user was authenticated, but no session could be made.
    SessionFailed,
    /// The user was not authenticated.
    Refused,
    /// It could not be found out.
    Failed,
    /// In the demonstration: the session stands.
    DemoLoggedIn,
    /// In the demonstration: no session could be made.
    DemoSessionFailed,
}

/// What a visitor is answered.
#[derive(Clone, Debug, PartialEq, Eq)]
pub enum PageReply {
    /// Go to this page.
    Redirect(String),
    /// This status, with this text.
    Status(u16, String),
}

/// `PageReply` as a mathematical value.
pub enum PageReplyView {
    Redirect(Seq<char>),
    Status(u16, Seq<char>),
}

impl DeepView for PageReply {
    type V = PageReplyView;

    open spec fn deep_view(&self) -> PageReplyView {
        match self {
            PageReply::Redirect(to) => PageReplyView::Redirect(to@),
            PageReply::Status(code, text) => PageReplyView::Status(*code, text@),
        }
    }
}

/// The answer to a login: the front page if and only if there is a session, the login page again
/// where the user was refused.
pub open spec fn login_answer(outcome: LoginOutcome) -> PageReplyView {
    match outcome {
        LoginOutcome::LoggedIn | LoginOutcome::DemoLoggedIn => PageReplyView::Redirect("/"@),
        LoginOutcome::Refused => PageReplyView::Redirect("/login?error=invalid_credentials"@),
        LoginOutcome::SessionFailed | LoginOutcome::Failed => PageReplyView::Status(
            500,
            Seq::empty(),
        ),
        LoginOutcome::DemoSessionFailed => PageReplyView::Status(
            500,
            "Internal error setting demo session"@,
        ),
    }
}

/// Answers a login.
pub fn login_reply(outcome: LoginOutcome) -> (r: PageReply)
    ensures
        r.deep_view() == login_answer(outcome),
{
    match outcome {
        LoginOutcome::LoggedIn | LoginOutcome::DemoLoggedIn => PageReply::Redirect("/".to_owned()),
        LoginOutcome::Refused => PageReply::Redirect(
            "/login?error=invalid_credentials".to_owned(),
        ),
        LoginOutcome::SessionFailed | LoginOutcome::Failed => PageReply::Status(
            500,
            String::new(),
        ),
        LoginOutcome::DemoSessionFailed => PageReply::Status(
            500,
            "Internal error setting demo session".to_owned(),
        ),
    }
}

/// Answers a logout, with the notice to show.
pub fn logout_reply(ended: bool) -> (r: (PageReply, String))
    ensures
        ended ==> r.0.deep_view() == PageReplyView::Redirect("/login"@) && r.1@
            == "Successfully logged out."@,
        !ended ==> r.0.deep_view() == PageReplyView::Status(500, Seq::empty()) && r.1@
            == "Failed to log out."@,
{
    if ended {
        (PageReply::Redirect("/login".to_owned()), "Successfully logged out.".to_owned())
    } else {
        (PageReply::Status(500, String::new()), "Failed to log out.".to_owned())
    }
}

/// Lets administrators pass; anyone else is sent to the login page.
pub fn require_admin(user: &Option<AdminUser>) -> (r: Result<(), PageReply>)
    ensures
        r is Ok <==> user is Some,
        r matches Err(reply) ==> reply.deep_view() == PageReplyView::Redirect("/login"@),
{
    match user {
        Some(_) => Ok(()),
        None => Err(PageReply::Redirect("/login".to_owned())),
    }
}

/// The page that shows the state of the session, up to the look of its panel.
pub const LOGIN_TEST_1: &'static str = r#"<!DOCTYPE html>
        <html>
        <head>
            <title>Login Test</title>
            <style>
                body { font-family: Arial, sans-serif; padding: 2rem; }
                .container { max-width: 800px; margin: 0 auto; }
                .panel { background-color: #f5f5f5; padding: 1rem; border-radius: 0.5rem; margin-bottom: 1rem; }
                .demo { background-color: #fff3cd; }
                h1 { color: #333; }
                .label { font-weight: bold; margin-right: 0.5rem; }
                .success { color: green; }
                .error { color: red; }
            </style>
        </head>
        <body>
            <div class="container">
                <h1>Login Test Page</h1>
                
                <div class="panel "#;

/// The page that shows the state of the session, up to whether the demonstration runs.
pub const LOGIN_TEST_2: &'static str = r#"">
                    <div><span class="label">Demo Mode:</span> "#;

/// The page that shows the state of the session, up to the look of the status.
pub const LOGIN_TEST_3: &'static str = r#"</div>
                    <div><span class="label">Session Status:</span> 
                         <span class=""#;

/// The page that shows the state of the session, up to the user.
pub const LOGIN_TEST_4: &'static str = r#"</span>
                    </div>
                    <div><span class="label">Username:</span> "#;

/// The page that shows the state of the session, behind the user.
pub const LOGIN_TEST_5: &'static str = r#"</div>
                </div>
                
                <div>
                    <a href="/">Go to Dashboard</a> | 
                    <a href="/login">Go to Login</a>
                </div>
            </div>
        </body>
        </html>
        "#;

/// What a page that shows the state of the session says.
pub open spec fn login_test_page(is_demo_mode: bool, username: Option<Seq<char>>) -> Seq<char> {
    LOGIN_TEST_1@
        + (if is_demo_mode { "demo"@ } else { ""@ })
        + LOGIN_TEST_2@
        + (if is_demo_mode { "Enabled"@ } else { "Disabled"@ })
        + LOGIN_TEST_3@
        + (if username is Some { "success"@ } else { "error"@ })
        + "\">"@
        + (if username is Some { "Authenticated"@ } else { "Not Authenticated"@ })
        + LOGIN_TEST_4@
        + username.unwrap_or("Not logged in"@)
        + LOGIN_TEST_5@
}

/// The page that shows the state of the session.
pub fn render_login_test(is_demo_mode: bool, user: &Option<AdminUser>) -> (r: String)
    ensures
        r@ == login_test_page(
            is_demo_mode,
            match user {
                Some(u) => Some(u.username@),
                None => None,
            },
        ),
{
    let mut page = LOGIN_TEST_1.to_owned();
    page.append(if is_demo_mode { "demo" } else { "" });
    page.append(LOGIN_TEST_2);
    page.append(if is_demo_mode { "Enabled" } else { "Disabled" });
    page.append(LOGIN_TEST_3);
    page.append(if user.is_some() { "success" } else { "error" });
    page.append("\">");
    page.append(if user.is_some() { "Authenticated" } else { "Not Authenticated" });
    page.append(LOGIN_TEST_4);
    match user {
        Some(u) => {
            page.append(u.username.as_str());
        },
        None => {
            page.append("Not logged in");
        },
    }
    page.append(LOGIN_TEST_5);
    page
}

// ---------------------------------------------------------------------------------------------
// Login by a third party
// ---------------------------------------------------------------------------------------------

/// Why a login by a third party failed.
#[derive(Clone, Debug, PartialEq, Eq)]
pub enum AuthError {
    StateMismatch,
    MissingParam(String),
    CookieError(String),
    TokenExchangeFailed(String),
    UserInfoFailed(String),
    SessionLoginError(String),
    RequestTokenError(String),
    Other(String),
}

/// `AuthError` as a mathematical value.
pub enum AuthErrorView {
    StateMismatch,
    MissingParam(Seq<char>),
    CookieError(Seq<char>),
    TokenExchangeFailed(Seq<char>),
    UserInfoFailed(Seq<char>),
    SessionLoginError(Seq<char>),
    RequestTokenError(Seq<char>),
    Other(Seq<char>),
}

impl DeepView for AuthError {
    type V = AuthErrorView;

    open spec fn deep_view(&self) -> AuthErrorView {
        match self {
            AuthError::StateMismatch => AuthErrorView::StateMismatch,
            AuthError::MissingParam(m) => AuthErrorView::MissingParam(m@),
            AuthError::CookieError(m) => AuthErrorView::CookieError(m@),
            AuthError::TokenExchangeFailed(m) => AuthErrorView::TokenExchangeFailed(m@),
            AuthError::UserInfoFailed(m) => AuthErrorView::UserInfoFailed(m@),
            AuthError::SessionLoginError(m) => AuthErrorView::SessionLoginError(m@),
            AuthError::RequestTokenError(m) => AuthErrorView::RequestTokenError(m@),
            AuthError::Other(m) => AuthErrorView::Other(m@),
        }
    }
}

/// What is said of an error.
pub open spec fn auth_message(e: AuthErrorView) -> Seq<char> {
    match e {
        AuthErrorView::StateMismatch => "OAuth state mismatch"@,
        AuthErrorView::MissingParam(m) => "Missing query parameter: "@ + m,
        AuthErrorView::CookieError(m) => "Cookie error: "@ + m,
        AuthErrorView::TokenExchangeFailed(m) => "OAuth token exchange failed: "@ + m,
        AuthErrorView::UserInfoFailed(m) => "Failed to get user info: "@ + m,
        AuthErrorView::SessionLoginError(m) => "Session login error: "@ + m,
        AuthErrorView::RequestTokenError(m) => m,
        AuthErrorView::Other(m) => m,
    }
}

/// The byte is one that stands for itself in a URL.
pub open spec fn is_unreserved(b: u8) -> bool {
    0x30 <= b <= 0x39 || 0x41 <= b <= 0x5A || 0x61 <= b <= 0x7A || b == 0x2D || b == 0x2E || b
        == 0x5F || b == 0x7E
}

/// A hexadecimal digit, letters as capitals.
pub open spec fn capital_digit(d: u8) -> char {
    if d < 10 {
        (0x30 + d) as char
    } else {
        (0x37 + d) as char
    }
}

/// Bytes as they stand in a URL: digits, ASCII letters and `-`, `.`, `_`, `~` as they are, any
/// other byte as a percent sign and two hexadecimal digits.
pub open spec fn percent_encoded(bytes: Seq<u8>) -> Seq<char>
    decreases bytes.len(),
{
    if bytes.len() == 0 {
        Seq::empty()
    } else {
        let b = bytes.last();
        let before = percent_encoded(bytes.drop_last());
        if is_unreserved(b) {
            before.push(b as char)
        } else {
            before.push('%').push(capital_digit(b / 16)).push(capital_digit(b % 16))
        }
    }
}

fn capital_digit_of(d: u8) -> (r: char)
    requires
        d < 16,
    ensures
        r == capital_digit(d),
{
    if d < 10 {
        (0x30 + d) as char
    } else {
        (0x37 + d) as char
    }
}

/// The UTF-8 bytes of a text as they stand in a URL.
fn url_encode(data: &str) -> (r: String)
    ensures
        r@ == percent_encoded(encode_utf8(data@)),
{
    let bytes: &[u8] = data.as_bytes();
    let mut encoded = String::new();
    let mut i: usize = 0;
    assert(bytes@.take(0) =~= Seq::empty());
    while i < bytes.len()
        invariant
            i <= bytes.len(),
            encoded@ == percent_encoded(bytes@.take(i as int)),
        decreases bytes.len() - i,
    {
        let b: u8 = bytes[i];
        assert(bytes@.take(i + 1).drop_last() =~= bytes@.take(i as int));
        assert(bytes@.take(i + 1).last() == b);
        let stays = (0x30 <= b && b <= 0x39) || (0x41 <= b && b <= 0x5A) || (0x61 <= b && b <= 0x7A)
            || b == 0x2D || b == 0x2E || b == 0x5F || b == 0x7E;
        if stays {
            encoded.push(b as char);
        } else {
            encoded.push('%');
            encoded.push(capital_digit_of(b / 16));
            encoded.push(capital_digit_of(b % 16));
        }
        i = i + 1;
    }
    assert(bytes@.take(bytes@.len() as int) =~= bytes@);
    encoded
}

impl AuthError {
    /// What is said of the error.
    pub fn message(&self) -> (r: String)
        ensures
            r@ == auth_message(self.deep_view()),
    {
        match self {
            AuthError::StateMismatch => "OAuth state mismatch".to_owned(),
            AuthError::MissingParam(m) => "Missing query parameter: ".to_owned().concat(m.as_str()),
            AuthError::CookieError(m) => "Cookie error: ".to_owned().concat(m.as_str()),
            AuthError::TokenExchangeFailed(m) => "OAuth token exchange failed: ".to_owned().concat(
                m.as_str(),
            ),
            AuthError::UserInfoFailed(m) => "Failed to get user info: ".to_owned().concat(
                m.as_str(),
            ),
            AuthError::SessionLoginError(m) => "Session login error: ".to_owned().concat(
                m.as_str(),
            ),
            AuthError::RequestTokenError(m) => m.clone(),
            AuthError::Other(m) => m.clone(),
        }
    }

    /// The page that shows the error: the login page, told what happened.
    pub fn into_response(&self) -> (r: PageReply)
        ensures
            r.deep_view() == PageReplyView::Redirect(
                "/login?error="@ + percent_encoded(encode_utf8(auth_message(self.deep_view()))),
            ),
    {
        let mut to = "/login?error=".to_owned();
        to.append(url_encode(self.message().as_str()).as_str());
        PageReply::Redirect(to)
    }
}

/// What the callback of a third party brings: the cookies that were set when the login began,
/// and the parameters of the request.
#[derive(Debug, PartialEq, Eq)]
pub struct OauthReturn {
    pub state_cookie: Option<String>,
    pub state_param: Option<String>,
    pub verifier_cookie: Option<String>,
    pub code_param: Option<String>,
}

/// What a returned login is exchanged with, as far as it is in order: its first fault in the
/// order cookie, state, mismatch, verifier, code, or else the code and its verifier.
pub open spec fn oauth_check(
    state_cookie: Option<Seq<char>>,
    state_param: Option<Seq<char>>,
    verifier_cookie: Option<Seq<char>>,
    code_param: Option<Seq<char>>,
) -> Result<(Seq<char>, Seq<char>), AuthErrorView> {
    if state_cookie is None {
        Err(AuthErrorView::CookieError("Missing state cookie"@))
    } else if state_param is None {
        Err(AuthErrorView::MissingParam("state"@))
    } else if state_cookie != state_param {
        Err(AuthErrorView::StateMismatch)
    } else if verifier_cookie is None {
        Err(AuthErrorView::CookieError("Missing PKCE verifier cookie"@))
    } else if code_param is None {
        Err(AuthErrorView::MissingParam("code"@))
    } else {
        Ok((code_param->0, verifier_cookie->0))
    }
}

/// Checks what the callback of a third party brings; gives the code and its verifier.
pub fn check_oauth_return(back: OauthReturn) -> (r: Result<(String, String), AuthError>)
    ensures
        (match r {
            Ok(p) => Ok((p.0@, p.1@)),
            Err(e) => Err(e.deep_view()),
        }) == oauth_check(
            back.state_cookie.deep_view(),
            back.state_param.deep_view(),
            back.verifier_cookie.deep_view(),
            back.code_param.deep_view(),
        ),
{
    match back.state_cookie {
        None => Err(AuthError::CookieError("Missing state cookie".to_owned())),
        Some(expected) => match back.state_param {
            None => Err(AuthError::MissingParam("state".to_owned())),
            Some(received) => {
                if !same(expected.as_str(), received.as_str()) {
                    return Err(AuthError::StateMismatch);
                }
                match back.verifier_cookie {
                    None => Err(AuthError::CookieError("Missing PKCE verifier cookie".to_owned())),
                    Some(verifier) => match back.code_param {
                        None => Err(AuthError::MissingParam("code".to_owned())),
                        Some(code) => Ok((code, verifier)),
                    },
                }
            },
        },
    }
}

/// The user as whom a login by a third party is accepted.
pub fn oauth_user() -> (r: AdminUser)
    ensures
        r.deep_view() == (AdminView { id: 1, username: "oauth_user"@ }),
{
    AdminUser { id: 1, username: "oauth_user".to_owned() }
}

/// How a login by a third party ends, once the code has been exchanged and the session made.
pub fn finish_oauth(exchanged: Result<(), String>, session: Result<(), String>) -> (r: Result<
    PageReply,
    AuthError,
>)
    ensures
        (match r {
            Ok(p) => Ok(p.deep_view()),
            Err(e) => Err(e.deep_view()),
        }) == (match (exchanged, session) {
            (Err(e), _) => Err(AuthErrorView::TokenExchangeFailed(e@)),
            (Ok(_), Err(e)) => Err(
                AuthErrorView::SessionLoginError("Session login failed: "@ + e@),
            ),
            (Ok(_), Ok(_)) => Ok(PageReplyView::Redirect("/"@)),
        }),
{
    match exchanged {
        Err(e) => Err(AuthError::TokenExchangeFailed(e)),
        Ok(_) => match session {
            Err(e) => Err(
                AuthError::SessionLoginError("Session login failed: ".to_owned().concat(e.as_str())),
            ),
            Ok(_) => Ok(PageReply::Redirect("/".to_owned())),
        },
    }
}

/// A login by a third party goes through only where the state that came back is the one that was
/// sent.
pub proof fn oauth_needs_the_same_state(
    state_cookie: Option<Seq<char>>,
    state_param: Option<Seq<char>>,
    verifier_cookie: Option<Seq<char>>,
    code_param: Option<Seq<char>>,
)
    ensures
        oauth_check(state_cookie, state_param, verifier_cookie, code_param) is Ok <==> state_cookie
            is Some && state_cookie == state_param && verifier_cookie is Some && code_param is Some,
{
}

// ---------------------------------------------------------------------------------------------
// The first administrator
// ---------------------------------------------------------------------------------------------

/// What to do about the credentials of the first administrator.
#[derive(Clone, Copy, Debug, PartialEq, Eq, Structural)]
pub enum FirstLogin {
    /// Use those that are stored.
    UseStored,
    /// Make new ones, and remove the file with a password that no longer fits.
    ReplaceStaleFile,
    /// Make new ones.
    Generate,
}

/// Decides about the credentials of the first administrator, by whether the file with the
/// initial password exists and whether credentials are stored.
pub fn first_login(password_file_exists: bool, stored: bool) -> (r: FirstLogin)
    ensures
        r == (if !password_file_exists {
            FirstLogin::Generate
        } else if stored {
            FirstLogin::UseStored
        } else {
            FirstLogin::ReplaceStaleFile
        }),
{
    if !password_file_exists {
        FirstLogin::Generate
    } else if stored {
        FirstLogin::UseStored
    } else {
        FirstLogin::ReplaceStaleFile
    }
}

/// What is said where the credentials of the first administrator could not be made.
pub open spec fn creation_failure(e: Seq<char>) -> Seq<char> {
    "Failed to create admin credentials: "@ + e
}

/// New credentials of the first administrator, and their password: twelve random digits and
/// letters. The credentials hold what hashing the password with some salt gives, and the password
/// is one that they accept; it fails only where that hashing does.
pub fn new_admin_credentials() -> (r: Result<(Credentials, String), String>)
    ensures
        r matches Ok((c, password)) ==> c.username@ == "admin"@ && c.password is None
            && password@.len() == 12 && all_alphanumeric(password@) && argon2_accepts(
            c.password_hash@,
            encode_utf8(password@),
        ),
        exists|password: Seq<char>, salt: Seq<char>|
            password.len() == 12 && all_alphanumeric(password) && salt.len() == 22 && (match r {
                Ok((c, p)) => Ok((c.deep_view(), p@)),
                Err(m) => Err(m@),
            }) == (match hashed_credentials(
                "admin"@,
                #[trigger] argon2_hash(encode_utf8(password), salt),
            ) {
                Ok(c) => Ok((c, password)),
                Err(e) => Err(creation_failure(e)),
            }),
{
    let password = random_alphanumeric(12);
    match Credentials::create("admin".to_owned(), password.clone()) {
        Ok(c) => Ok((c, password)),
        Err(e) => {
            let m = "Failed to create admin credentials: ".to_owned().concat(e.as_str());
            assert(m@ == creation_failure(e@));
            Err(m)
        },
    }
}

/// What loading the stored credentials gives: an error where there are none, or where they could
/// not be read.
pub fn loaded_credentials(stored: Result<Option<Credentials>, String>) -> (r: Result<
    Credentials,
    String,
>)
    ensures
        credentials_result(r) == (match stored {
            Ok(Some(c)) => Ok(c.deep_view()),
            Ok(None) => Err("No admin credentials found in database"@),
            Err(e) => Err("Database error: "@ + e@),
        }),
{
    match stored {
        Ok(Some(c)) => Ok(c),
        Ok(None) => Err("No admin credentials found in database".to_owned()),
        Err(e) => Err("Database error: ".to_owned().concat(e.as_str())),
    }
}

// ---------------------------------------------------------------------------------------------
// Settings
// ---------------------------------------------------------------------------------------------

/// The settings of the server.
#[derive(Clone, Debug, PartialEq, Eq)]
pub struct Settings {
    pub require_login: bool,
    pub default_os: Option<String>,
    pub setup_completed: bool,
    pub admin_username: String,
    pub admin_password_hash: String,
    pub admin_email: String,
    pub oauth_enabled: bool,
    pub oauth_provider: Option<String>,
    pub oauth_client_id: Option<String>,
    pub oauth_client_secret: Option<String>,
    pub proxmox_host: Option<String>,
    pub proxmox_username: Option<String>,
    pub proxmox_password: Option<String>,
    pub proxmox_port: Option<u16>,
    pub proxmox_skip_tls_verify: Option<bool>,
}

/// `Settings` as a mathematical value.
pub struct SettingsView {
    pub require_login: bool,
    pub default_os: Option<Seq<char>>,
    pub setup_completed: bool,
    pub admin_username: Seq<char>,
    pub admin_password_hash: Seq<char>,
    pub admin_email: Seq<char>,
    pub oauth_enabled: bool,
    pub oauth_provider: Option<Seq<char>>,
    pub oauth_client_id: Option<Seq<char>>,
    pub oauth_client_secret: Option<Seq<char>>,
    pub proxmox_host: Option<Seq<char>>,
    pub proxmox_username: Option<Seq<char>>,
    pub proxmox_password: Option<Seq<char>>,
    pub proxmox_port: Option<u16>,
    pub proxmox_skip_tls_verify: Option<bool>,
}

impl DeepView for Settings {
    type V = SettingsView;

    open spec fn deep_view(&self) -> SettingsView {
        SettingsView {
            require_login: self.require_login,
            default_os: self.default_os.deep_view(),
            setup_completed: self.setup_completed,
            admin_username: self.admin_username@,
            admin_password_hash: self.admin_password_hash@,
            admin_email: self.admin_email@,
            oauth_enabled: self.oauth_enabled,
            oauth_provider: self.oauth_provider.deep_view(),
            oauth_client_id: self.oauth_client_id.deep_view(),
            oauth_client_secret: self.oauth_client_secret.deep_view(),
            proxmox_host: self.proxmox_host.deep_view(),
            proxmox_username: self.proxmox_username.deep_view(),
            proxmox_password: self.proxmox_password.deep_view(),
            proxmox_port: self.proxmox_port,
            proxmox_skip_tls_verify: self.proxmox_skip_tls_verify,
        }
    }
}

/// The settings of a server that nobody has set up.
pub open spec fn default_settings() -> SettingsView {
    SettingsView {
        require_login: false,
        default_os: None,
        setup_completed: false,
        admin_username: "admin"@,
        admin_password_hash: Seq::empty(),
        admin_email: Seq::empty(),
        oauth_enabled: false,
        oauth_provider: None,
        oauth_client_id: None,
        oauth_client_secret: None,
        proxmox_host: None,
        proxmox_username: None,
        proxmox_password: None,
        proxmox_port: None,
        proxmox_skip_tls_verify: None,
    }
}

impl Default for Settings {
    /// The settings of a server that nobody has set up.
    fn default() -> (r: Settings)
        ensures
            r.deep_view() == default_settings(),
    {
        Settings {
            require_login: false,
            default_os: None,
            setup_completed: false,
            admin_username: "admin".to_owned(),
            admin_password_hash: String::new(),
            admin_email: String::new(),
            oauth_enabled: false,
            oauth_provider: None,
            oauth_client_id: None,
            oauth_client_secret: None,
            proxmox_host: None,
            proxmox_username: None,
            proxmox_password: None,
            proxmox_port: None,
            proxmox_skip_tls_verify: None,
        }
    }
}

/// The settings to work with: those that are stored, or the defaults where they could not be
/// read.
pub fn usable_settings(stored: Option<Settings>) -> (r: Settings)
    ensures
        r.deep_view() == (match stored {
            Some(s) => s.deep_view(),
            None => default_settings(),
        }),
{
    match stored {
        Some(s) => s,
        None => Settings::default(),
    }
}

// ---------------------------------------------------------------------------------------------
// What logging in amounts to
// ---------------------------------------------------------------------------------------------

/// A login is accepted exactly where a hash is stored and the password fits it; whether it fits does
/// not matter where none is stored, and an error of the database is neither.
pub proof fn login_needs_a_fitting_password(
    lookup: Result<Option<Seq<char>>, Seq<char>>,
    fits: bool,
)
    ensures
        auth_step(lookup, fits) == Ok::<bool, Seq<char>>(true) <==> fits && (lookup matches Ok(Some(
            _,
        ))),
        auth_step(lookup, fits) is Err <==> lookup is Err,
        lookup matches Err(e) ==> (auth_step(lookup, fits) matches Err(m) && is_part(e, m)
            && is_part("Database error: "@, m)),
{
    if lookup is Err {
        let e = lookup->Err_0;
        stand_together("Database error: "@, e);
    }
}

/// No password, no access; with one, the stored hash decides.
pub proof fn absent_password_never_fits(password: Seq<char>, stored_hash: Seq<char>)
    ensures
        !password_fits(None, stored_hash),
        password_fits(Some(password), stored_hash) <==> argon2_accepts(
            stored_hash,
            encode_utf8(password),
        ),
{
}

/// New credentials keep the name and the hash, and never the password itself; a failure of the hashing
/// is told.
pub proof fn passwords_are_not_kept(
    username: Seq<char>,
    hashed: Result<Seq<char>, Seq<char>>,
)
    ensures
        hashed matches Ok(h) ==> (hashed_credentials(username, hashed) matches Ok(c) && c.username
            == username && c.password_hash == h && c.password is None),
        hashed matches Err(e) ==> (hashed_credentials(username, hashed) matches Err(m) && is_part(
            e,
            m,
        )),
{
    if hashed is Err {
        stand_together("Failed to hash password: "@, hashed->Err_0);
    }
}

/// In the demonstration a user goes by the name that they gave, unless it is blank.
pub proof fn demo_users_are_named(username: Seq<char>)
    ensures
        (exists|i: int| 0 <= i < username.len() && !#[trigger] blank(username[i])) ==> demo_name(
            username,
        ) == username,
        (forall|i: int| 0 <= i < username.len() ==> #[trigger] blank(username[i])) ==> demo_name(
            username,
        ) == "demo_user"@,
{
    only_white_space_is_trimmed(username);
    blanks_are_trimmed_away(username);
}

/// A session leads to the front page, a refusal back to the login, and everything else is an error of
/// the server.
pub proof fn logins_are_answered(outcome: LoginOutcome)
    ensures
        login_answer(outcome) == PageReplyView::Redirect("/"@) <==> outcome == LoginOutcome::LoggedIn
            || outcome == LoginOutcome::DemoLoggedIn,
        login_answer(outcome) == PageReplyView::Redirect("/login?error=invalid_credentials"@) <==>
            outcome == LoginOutcome::Refused,
        login_answer(outcome) is Status ==> login_answer(outcome)->Status_0 == 500,
{
    reveal_strlit("/");
    reveal_strlit("/login?error=invalid_credentials");
    assert("/"@.len() == 1);
    assert("/login?error=invalid_credentials"@.len() == 32);
}

/// A returned login is exchanged with its own code and its own verifier, and with nothing else.
pub proof fn login_is_exchanged_with_its_code(
    state: Seq<char>,
    other: Seq<char>,
    verifier: Option<Seq<char>>,
    code: Option<Seq<char>>,
)
    ensures
        verifier is Some && code is Some ==> oauth_check(
            Some(state),
            Some(state),
            verifier,
            code,
        ) == Ok::<(Seq<char>, Seq<char>), AuthErrorView>((code->0, verifier->0)),
        other != state ==> oauth_check(Some(state), Some(other), verifier, code) == Err::<
            (Seq<char>, Seq<char>),
            AuthErrorView,
        >(AuthErrorView::StateMismatch),
        oauth_check(None, Some(other), verifier, code) == Err::<
            (Seq<char>, Seq<char>),
            AuthErrorView,
        >(AuthErrorView::CookieError("Missing state cookie"@)),
        oauth_check(Some(state), None, verifier, code) == Err::<
            (Seq<char>, Seq<char>),
            AuthErrorView,
        >(AuthErrorView::MissingParam("state"@)),
        oauth_check(Some(state), Some(state), None, code) == Err::<
            (Seq<char>, Seq<char>),
            AuthErrorView,
        >(AuthErrorView::CookieError("Missing PKCE verifier cookie"@)),
        verifier is Some ==> oauth_check(Some(state), Some(state), verifier, None) == Err::<
            (Seq<char>, Seq<char>),
            AuthErrorView,
        >(AuthErrorView::MissingParam("code"@)),
{
}

/// What is said of an error holds what it was about.
pub proof fn auth_errors_say_what_went_wrong(m: Seq<char>)
    ensures
        is_part(m, auth_message(AuthErrorView::MissingParam(m))),
        is_part(m, auth_message(AuthErrorView::CookieError(m))),
        is_part(m, auth_message(AuthErrorView::TokenExchangeFailed(m))),
        is_part(m, auth_message(AuthErrorView::UserInfoFailed(m))),
        is_part(m, auth_message(AuthErrorView::SessionLoginError(m))),
        auth_message(AuthErrorView::RequestTokenError(m)) == m,
        auth_message(AuthErrorView::Other(m)) == m,
{
    stand_together("Missing query parameter: "@, m);
    stand_together("Cookie error: "@, m);
    stand_together("OAuth token exchange failed: "@, m);
    stand_together("Failed to get user info: "@, m);
    stand_together("Session login error: "@, m);
}

/// The number that a hexadecimal digit stands for, if it is one.
pub open spec fn digit_value(c: char) -> Option<int> {
    if '0' <= c <= '9' {
        Some(c as int - '0' as int)
    } else if 'A' <= c <= 'F' {
        Some(c as int - 'A' as int + 10)
    } else {
        None
    }
}

/// The bytes that a text in a URL stands for: `%` and two digits for the byte with that number, any
/// other character for itself.
pub open spec fn url_bytes(s: Seq<char>) -> Seq<int>
    decreases s.len(),
{
    if s.len() == 0 {
        Seq::empty()
    } else if s.len() >= 3 && s[0] == '%' && digit_value(s[1]) is Some && digit_value(s[2]) is Some {
        seq![digit_value(s[1])->0 * 16 + digit_value(s[2])->0] + url_bytes(s.skip(3))
    } else {
        seq![s[0] as int] + url_bytes(s.skip(1))
    }
}

/// Bytes that were written for a URL are read back from it, every one of them, and what is written
/// holds only characters that a URL may hold.
pub proof fn bytes_in_urls_are_read_back(bytes: Seq<u8>)
    ensures
        url_bytes(percent_encoded(bytes)) == bytes.map_values(|b: u8| b as int),
        forall|i: int| 0 <= i < percent_encoded(bytes).len() ==> {
            let c = #[trigger] percent_encoded(bytes)[i];
            is_alphanumeric(c) || c == '-' || c == '.' || c == '_' || c == '~' || c == '%'
        },
    decreases bytes.len(),
{
    if bytes.len() > 0 {
        let front = bytes.drop_last();
        let b = bytes.last();
        bytes_in_urls_are_read_back(front);
        let before = percent_encoded(front);
        let one: Seq<char> = if is_unreserved(b) {
            seq![b as char]
        } else {
            seq!['%', capital_digit(b / 16), capital_digit(b % 16)]
        };
        assert(percent_encoded(bytes) =~= before + one);
        assert(url_bytes(one) =~= seq![b as int]) by {
            reveal_with_fuel(url_bytes, 2);
            if is_unreserved(b) {
                assert(one.skip(1) =~= Seq::empty());
            } else {
                assert(one.skip(3) =~= Seq::empty());
            }
        }
        encoded_bytes_are_read_in_turn(front, one);
        assert(bytes.map_values(|b: u8| b as int) =~= front.map_values(|b: u8| b as int).push(
            b as int,
        ));
        assert(url_bytes(before + one) =~= front.map_values(|b: u8| b as int).push(b as int));
    } else {
        assert(percent_encoded(bytes) =~= Seq::empty());
        assert(url_bytes(percent_encoded(bytes)) =~= bytes.map_values(|b: u8| b as int));
    }
}

/// The encoding of bytes begins with that of the first of them.
proof fn first_byte_is_encoded_first(b: u8, rest: Seq<u8>)
    ensures
        percent_encoded(seq![b] + rest) == percent_encoded(seq![b]) + percent_encoded(rest),
    decreases rest.len(),
{
    let all = seq![b] + rest;
    if rest.len() == 0 {
        assert(all =~= seq![b]);
        assert(percent_encoded(rest) =~= Seq::empty());
        assert(percent_encoded(seq![b]) + percent_encoded(rest) =~= percent_encoded(seq![b]));
    } else {
        first_byte_is_encoded_first(b, rest.drop_last());
        assert(all.drop_last() =~= seq![b] + rest.drop_last());
        assert(all.last() == rest.last());
        assert(percent_encoded(all) =~= percent_encoded(seq![b]) + percent_encoded(rest));
    }
}

proof fn encoded_bytes_are_read_in_turn(bytes: Seq<u8>, more: Seq<char>)
    ensures
        url_bytes(percent_encoded(bytes) + more) == url_bytes(percent_encoded(bytes)) + url_bytes(
            more,
        ),
    decreases bytes.len(),
{
    if bytes.len() == 0 {
        assert(percent_encoded(bytes) =~= Seq::empty());
        assert(Seq::<char>::empty() + more =~= more);
        assert(url_bytes(Seq::<char>::empty()) =~= Seq::empty());
        assert(Seq::<int>::empty() + url_bytes(more) =~= url_bytes(more));
    } else {
        let b = bytes[0];
        let rest = bytes.drop_first();
        assert(bytes =~= seq![b] + rest);
        first_byte_is_encoded_first(b, rest);
        let one = percent_encoded(seq![b]);
        assert(seq![b].drop_last() =~= Seq::empty());
        assert(percent_encoded(Seq::empty()) =~= Seq::empty());
        let tail = percent_encoded(rest);
        encoded_bytes_are_read_in_turn(rest, more);
        let n: int = if is_unreserved(b) {
            1
        } else {
            3
        };
        assert(one.len() == n);
        assert((one + tail).skip(n) =~= tail);
        assert((one + tail + more).skip(n) =~= tail + more);
        if is_unreserved(b) {
            assert(one[0] == b as char);
            assert((one + tail)[0] == b as char);
            assert((one + tail + more)[0] == b as char);
        } else {
            assert(one =~= seq!['%', capital_digit(b / 16), capital_digit(b % 16)]);
            assert((one + tail)[0] == '%');
            assert((one + tail)[1] == capital_digit(b / 16));
            assert((one + tail)[2] == capital_digit(b % 16));
            assert((one + tail + more)[0] == '%');
            assert((one + tail + more)[1] == capital_digit(b / 16));
            assert((one + tail + more)[2] == capital_digit(b % 16));
        }
        assert(url_bytes(one + tail + more) =~= url_bytes(one + tail) + url_bytes(more));
    }
}

/// A server that nobody has set up asks nobody to log in, has no default system, no third party and no
/// cluster.
pub proof fn nothing_is_set_up_at_first()
    ensures
        ({
            let s = default_settings();
            &&& !s.require_login
            &&& !s.setup_completed
            &&& !s.oauth_enabled
            &&& s.default_os is None
            &&& s.admin_username == "admin"@
            &&& s.admin_password_hash.len() == 0
            &&& s.admin_email.len() == 0
            &&& s.oauth_provider is None && s.oauth_client_id is None && s.oauth_client_secret
                is None
            &&& s.proxmox_host is None && s.proxmox_username is None && s.proxmox_password is None
            &&& s.proxmox_port is None && s.proxmox_skip_tls_verify is None
        }),
{
}

} // verus!
