//! Credentials, logins and settings.

use dragonfly::auth::{
    authenticate, check_oauth_return, demo_user, finish_oauth, first_login, form_credentials,
    loaded_credentials, login_reply, logout_reply, new_admin_credentials, oauth_user,
    password_accepted, render_login_test, require_admin, usable_settings, AdminUser, AuthError,
    AuthStep, Credentials, FirstLogin, LoginForm, LoginOutcome, OauthReturn, PageReply, Settings,
};

fn form(username: &str, password: &str) -> LoginForm {
    LoginForm { username: username.to_string(), password: password.to_string() }
}

/// Logs in where the only user is the administrator with the password `password`.
fn log_in(form: LoginForm) -> PageReply {
    let stored = Credentials::create("admin".to_string(), "password".to_string()).unwrap();
    let given = form_credentials(form);
    let lookup = if given.username == stored.username {
        Ok(Some(stored.password_hash.clone()))
    } else {
        Ok(None)
    };
    login_reply(match authenticate(&given.password, lookup) {
        AuthStep::Accepted => LoginOutcome::LoggedIn,
        AuthStep::Refused => LoginOutcome::Refused,
        AuthStep::Failed(_) => LoginOutcome::Failed,
    })
}

#[test]
fn test_login_success() {
    match log_in(form("admin", "password")) {
        PageReply::Redirect(to) => {
            assert!(to.contains("/"));
            assert!(!to.contains("/login"));
        }
        other => panic!("expected a redirect, got {other:?}"),
    }
}

#[test]
fn test_login_failure_wrong_password() {
    match log_in(form("admin", "wrongpassword")) {
        PageReply::Redirect(to) => assert!(to.contains("/login")),
        other => panic!("expected a redirect, got {other:?}"),
    }
}

#[test]
fn test_login_failure_user_not_found() {
    match log_in(form("unknownuser", "password")) {
        PageReply::Redirect(to) => assert!(to.contains("/login")),
        other => panic!("expected a redirect, got {other:?}"),
    }
}

#[test]
fn login_without_a_password_is_refused() {
    assert_eq!(authenticate(&None, Ok(Some(String::new()))), AuthStep::Refused);
    assert!(!password_accepted(&Some("password".to_string()), "no hash at all"));
}

#[test]
fn login_that_cannot_be_looked_up_fails() {
    match authenticate(&Some("p".to_string()), Err("locked".to_string())) {
        AuthStep::Failed(e) => assert!(e.contains("locked")),
        other => panic!("expected a failure, got {other:?}"),
    }
}

#[test]
fn hashes_depend_on_the_salt() {
    let a = Credentials::create_with_salt("u".to_string(), "p", "c29tZXNhbHRzb21lc2FsdA").unwrap();
    let b = Credentials::create_with_salt("u".to_string(), "p", "c29tZXNhbHRzb21lc2FsdA").unwrap();
    let c = Credentials::create_with_salt("u".to_string(), "p", "b3RoZXJzYWx0b3RoZXJzYQ").unwrap();
    assert_eq!(a.password_hash, b.password_hash);
    assert_ne!(a.password_hash, c.password_hash);
    assert!(a.password_hash.starts_with("$argon2id$v=19$"));
    assert!(a.password.is_none());
    assert!(password_accepted(&Some("p".to_string()), &c.password_hash));
    assert!(!password_accepted(&Some("q".to_string()), &c.password_hash));
    assert!(Credentials::create_with_salt("u".to_string(), "p", "!").is_err());
}

#[test]
fn failed_hashes_make_no_credentials() {
    assert!(Credentials::from_hash("u".to_string(), Err("x".to_string())).is_err());
    let c = Credentials::from_hash("u".to_string(), Ok("h".to_string())).unwrap();
    assert_eq!((c.username.as_str(), c.password_hash.as_str()), ("u", "h"));
    let c = Credentials::default();
    assert!(c.password.is_none());
}

#[test]
fn first_administrators_get_a_random_password() {
    let (c, password) = new_admin_credentials().unwrap();
    assert_eq!(c.username, "admin");
    assert_eq!(password.len(), 12);
    assert!(password.chars().all(|c| c.is_ascii_alphanumeric()));
    assert!(password_accepted(&Some(password.clone()), &c.password_hash));
    let (_, other) = new_admin_credentials().unwrap();
    assert_ne!(password, other);
    assert_eq!(first_login(false, true), FirstLogin::Generate);
    assert_eq!(first_login(true, true), FirstLogin::UseStored);
    assert_eq!(first_login(true, false), FirstLogin::ReplaceStaleFile);
}

#[test]
fn stored_credentials_are_loaded() {
    let c = Credentials::from_hash("u".to_string(), Ok("h".to_string())).unwrap();
    assert_eq!(loaded_credentials(Ok(Some(c))).unwrap().username, "u");
    assert_eq!(loaded_credentials(Ok(None)).unwrap_err(), "No admin credentials found in database");
    assert_eq!(loaded_credentials(Err("x".to_string())).unwrap_err(), "Database error: x");
}

#[test]
fn replies_to_logins() {
    assert_eq!(login_reply(LoginOutcome::LoggedIn), PageReply::Redirect("/".to_string()));
    assert_eq!(
        login_reply(LoginOutcome::Refused),
        PageReply::Redirect("/login?error=invalid_credentials".to_string())
    );
    assert_eq!(login_reply(LoginOutcome::SessionFailed), PageReply::Status(500, String::new()));
    assert_eq!(
        login_reply(LoginOutcome::DemoSessionFailed),
        PageReply::Status(500, "Internal error setting demo session".to_string())
    );
    assert_eq!(logout_reply(true).0, PageReply::Redirect("/login".to_string()));
    assert_eq!(logout_reply(false).1, "Failed to log out.");
    assert!(require_admin(&Some(oauth_user())).is_ok());
    assert_eq!(require_admin(&None), Err(PageReply::Redirect("/login".to_string())));
}

#[test]
fn visitors_of_the_demonstration_have_a_name() {
    assert_eq!(demo_user(&form("  ", "x")).username, "demo_user");
    assert_eq!(demo_user(&form("ada", "x")).username, "ada");
    let user = AdminUser { id: 7, username: "ada".to_string() };
    assert_eq!(user.id(), 7);
    assert_eq!(user.session_auth_hash(), b"ada");
}

#[test]
fn the_session_is_shown() {
    let page = render_login_test(true, &Some(oauth_user()));
    assert!(page.contains("<span class=\"label\">Username:</span> oauth_user</div>"));
    assert!(page.contains("panel demo"));
    assert!(page.contains(">Authenticated<"));
    let page = render_login_test(false, &None);
    assert!(page.contains("Not logged in"));
    assert!(page.contains("Disabled"));
    assert!(page.contains("Not Authenticated"));
}

fn back(state: Option<&str>) -> OauthReturn {
    OauthReturn {
        state_cookie: Some("s".to_string()),
        state_param: state.map(str::to_string),
        verifier_cookie: Some("v".to_string()),
        code_param: Some("c".to_string()),
    }
}

#[test]
fn logins_by_third_parties_are_checked() {
    assert_eq!(check_oauth_return(back(Some("s"))), Ok(("c".to_string(), "v".to_string())));
    assert_eq!(check_oauth_return(back(Some("t"))), Err(AuthError::StateMismatch));
    assert_eq!(
        check_oauth_return(back(None)),
        Err(AuthError::MissingParam("state".to_string()))
    );
    let mut no_cookie = back(Some("s"));
    no_cookie.state_cookie = None;
    assert_eq!(
        check_oauth_return(no_cookie),
        Err(AuthError::CookieError("Missing state cookie".to_string()))
    );
    let mut no_verifier = back(Some("s"));
    no_verifier.verifier_cookie = None;
    assert_eq!(
        check_oauth_return(no_verifier),
        Err(AuthError::CookieError("Missing PKCE verifier cookie".to_string()))
    );
    let mut no_code = back(Some("s"));
    no_code.code_param = None;
    assert_eq!(check_oauth_return(no_code), Err(AuthError::MissingParam("code".to_string())));
    assert_eq!(finish_oauth(Ok(()), Ok(())), Ok(PageReply::Redirect("/".to_string())));
    assert_eq!(
        finish_oauth(Err("x".to_string()), Ok(())),
        Err(AuthError::TokenExchangeFailed("x".to_string()))
    );
    assert_eq!(
        finish_oauth(Ok(()), Err("x".to_string())),
        Err(AuthError::SessionLoginError("Session login failed: x".to_string()))
    );
}

#[test]
fn errors_are_told_on_the_login_page() {
    assert_eq!(
        AuthError::StateMismatch.into_response(),
        PageReply::Redirect("/login?error=OAuth%20state%20mismatch".to_string())
    );
    assert_eq!(
        AuthError::CookieError("é/~".to_string()).into_response(),
        PageReply::Redirect("/login?error=Cookie%20error%3A%20%C3%A9%2F~".to_string())
    );
    // Every ASCII character, as the crate for it writes them.
    let all: String = (0u8..128).map(char::from).collect();
    let written = urlencoding::encode(&all).into_owned();
    assert_eq!(
        AuthError::Other(all).into_response(),
        PageReply::Redirect(format!("/login?error={written}"))
    );
    assert_eq!(AuthError::MissingParam("m".into()).message(), "Missing query parameter: m");
    assert_eq!(
        AuthError::TokenExchangeFailed("m".into()).message(),
        "OAuth token exchange failed: m"
    );
    assert_eq!(AuthError::UserInfoFailed("m".into()).message(), "Failed to get user info: m");
    assert_eq!(AuthError::SessionLoginError("m".into()).message(), "Session login error: m");
    assert_eq!(AuthError::RequestTokenError("m".into()).message(), "m");
    assert_eq!(AuthError::Other("m".into()).message(), "m");
}

#[test]
fn settings_have_defaults() {
    let s = usable_settings(None);
    assert_eq!(s.admin_username, "admin");
    assert!(!s.require_login && !s.setup_completed && s.default_os.is_none());
    let mut stored = Settings::default();
    stored.require_login = true;
    assert!(usable_settings(Some(stored)).require_login);
}
