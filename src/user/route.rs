use vstd::prelude::*;

use crate::text::labelled;
use crate::user::form::{register_errors, UserRegisterForm};
use crate::user::model::UserContext;
use crate::user::service::{PasswordHashing, UserLoginService, UserRegisterService};
use crate::validation::{merged_items, ValidateErrorMap};

verus! {

/// A redirect that carries a one-time message.
#[derive(Debug)]
pub struct FlashRedirect {
    pub success: bool,
    pub location: String,
    pub message: String,
}

pub open spec fn is_redirect(r: FlashRedirect, success: bool, location: Seq<char>, message: Seq<char>) -> bool {
    r.success == success && r.location@ == location && r.message@ == message
}

fn redirect(success: bool, location: &str, message: &str) -> (r: FlashRedirect)
    ensures
        is_redirect(r, success, location@, message@),
{
    FlashRedirect {
        success,
        location: String::from_str(location),
        message: String::from_str(message),
    }
}

/// The title of the user page: `User: <name>` for an account, `Visitor` otherwise.
pub fn display_title(user_context: &UserContext) -> (r: String)
    ensures
        user_context.is_user ==> r@ == "User: "@ + user_context.username@,
        !user_context.is_user ==> r@ == "Visitor"@,
{
    if user_context.is_user {
        labelled("User: ", user_context.username.as_str())
    } else {
        String::from_str("Visitor")
    }
}

/// The name of the session cookie.
pub const LOGIN_COOKIE: &'static str = "login-token";

/// How long a session cookie lives: 30 days, in seconds.
pub const SESSION_MAX_AGE_SECONDS: i64 = 2592000;

/// A cookie that a response sets.
#[derive(Debug)]
pub struct SessionCookie {
    pub name: String,
    pub value: String,
    pub path: String,
    pub max_age_seconds: i64,
}

/// The session cookie for `token`: named `login-token`, for every path, kept 30 days.
pub fn session_cookie(token: String) -> (r: SessionCookie)
    ensures
        r.name@ == LOGIN_COOKIE@,
        r.value@ == token@,
        r.path@ == "/"@,
        r.max_age_seconds == 30 * 24 * 60 * 60,
{
    SessionCookie {
        name: String::from_str(LOGIN_COOKIE),
        value: token,
        path: String::from_str("/"),
        max_age_seconds: SESSION_MAX_AGE_SECONDS,
    }
}

/// The answer to a login form.
#[derive(Debug)]
pub struct LoginPostResponse {
    pub redirect: FlashRedirect,
    /// The session cookie to set, when a session was opened.
    pub set_cookie: Option<SessionCookie>,
}

/// The answer for the token that a login issued, if any: on success the
/// session cookie carries exactly that token.
pub fn login_response(token: Option<String>) -> (r: LoginPostResponse)
    ensures
        token matches Some(t) ==> (r.set_cookie matches Some(c) && c.name@ == LOGIN_COOKIE@
            && c.value@ == t@ && c.path@ == "/"@ && c.max_age_seconds == 30 * 24 * 60 * 60),
        token is Some ==> is_redirect(r.redirect, true, "/user/"@, "Login succeeded."@),
        token is None ==> r.set_cookie is None && is_redirect(
            r.redirect,
            false,
            "/user/login/"@,
            "Login failed."@,
        ),
{
    match token {
        Some(t) => LoginPostResponse {
            redirect: redirect(true, "/user/", "Login succeeded."),
            set_cookie: Some(session_cookie(t)),
        },
        None => LoginPostResponse {
            redirect: redirect(false, "/user/login/", "Login failed."),
            set_cookie: None,
        },
    }
}

/// A submitted login form.
#[derive(Debug)]
pub struct UserLoginForm {
    pub username: String,
    pub password: String,
}

/// Logs in with the submitted credentials; the answer is `login_response` of
/// the token that `validate_login` issued.
pub fn login_post<H: PasswordHashing>(
    data: &UserLoginForm,
    user_login: &UserLoginService,
    hashing: &H,
) -> (r: LoginPostResponse)
    ensures
        r.set_cookie matches Some(c) ==> c.value@.len() == 36 && c.name@ == LOGIN_COOKIE@
            && is_redirect(r.redirect, true, "/user/"@, "Login succeeded."@),
        r.set_cookie is None ==> is_redirect(r.redirect, false, "/user/login/"@, "Login failed."@),
{
    let token = user_login.validate_login(data.username.clone(), data.password.clone(), hashing);
    login_response(token)
}

/// The answer to a logout.
#[derive(Debug)]
pub struct LogoutResponse {
    pub redirect: FlashRedirect,
    /// The cookie to remove: always the session cookie.
    pub remove_cookie: String,
}

/// Ends the session of the request's cookie. The session cookie is removed
/// whether or not the store could end the session.
pub fn logout(user_login: &UserLoginService) -> (r: LogoutResponse)
    ensures
        is_redirect(r.redirect, true, "/user"@, "Logout succeeded."@),
        r.remove_cookie@ == LOGIN_COOKIE@,
{
    let _ended = user_login.logout();
    LogoutResponse {
        redirect: redirect(true, "/user", "Logout succeeded."),
        remove_cookie: String::from_str(LOGIN_COOKIE),
    }
}

/// What a submitted registration leads to.
#[derive(Debug)]
pub enum RegisterPostResponse {
    Redirect(FlashRedirect),
    /// The form again, with the messages of each failing field.
    Form(ValidateErrorMap),
}

/// The redirect after a valid registration: to the login page when the account
/// was stored, back to the form when it was not.
pub fn register_redirect(stored: bool) -> (r: FlashRedirect)
    ensures
        stored ==> is_redirect(r, true, "/user/login"@, "Register succeeded."@),
        !stored ==> is_redirect(r, false, "/user/register"@, "Register failed."@),
{
    if stored {
        redirect(true, "/user/login", "Register succeeded.")
    } else {
        redirect(false, "/user/register", "Register failed.")
    }
}

/// Validates the registration and stores the account; the redirect is
/// `register_redirect` of whether it was stored.
pub fn register_post<H: PasswordHashing>(
    data: &UserRegisterForm,
    user_register_service: &UserRegisterService,
    hashing: &H,
) -> (r: RegisterPostResponse)
    ensures
        r is Redirect <==> register_errors(data.username@, data.password@, data.password_confirm@).len()
            == 0,
        r matches RegisterPostResponse::Form(m) ==> m.spec_items() == merged_items(
            register_errors(data.username@, data.password@, data.password_confirm@),
        ),
        r matches RegisterPostResponse::Redirect(f) ==> (is_redirect(
            f,
            true,
            "/user/login"@,
            "Register succeeded."@,
        ) || is_redirect(f, false, "/user/register"@, "Register failed."@)),
{
    match data.as_validated() {
        Ok(validated) => {
            let stored = user_register_service.register_user(
                String::from_str(validated.username.as_str()),
                String::from_str(validated.password.as_str()),
                hashing,
            );
            RegisterPostResponse::Redirect(register_redirect(stored))
        },
        Err(err) => RegisterPostResponse::Form(err.as_map()),
    }
}

/// The user routes.
pub struct UserRoute;

impl UserRoute {
    /// Where the routes are mounted.
    pub fn mount_point() -> (r: &'static str)
        ensures
            r@ == "/user"@,
    {
        "/user"
    }
}

} // verus!
