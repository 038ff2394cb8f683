use vstd::prelude::*;

use crate::dependency::{
    DefaultFlag, DependencyError, DependencyFlag, DependencyFlagData, DependencyGlobalContext,
    FromGlobalContext,
};
use crate::user::dependency::{DependencyUserContext, FromUserContext};
use crate::user::model::{is_visitor, IdUsername, UserContext};
use crate::user::repository::{UserRepository, UserRepositoryError};
use crate::user::validate::username::IsUsernameTaken;

verus! {

/// Relies on uuid's `Uuid::new_v4` and its `Display`, the hyphenated form of
/// 32 hex digits and 4 hyphens: a fresh random session token of 36 characters.
#[verifier::external_body]
fn new_session_token() -> (r: String)
    ensures
        r@.len() == 36,
{
    uuid::Uuid::new_v4().to_string()
}

/// The password hashing scheme that the application chooses.
pub trait PasswordHashing {
    /// The stored form of `password`; `None` when hashing fails.
    fn hash_password(&self, password: &str) -> Option<Vec<u8>>;

    /// Whether `password` matches the stored form `hash`.
    fn verify_password(&self, hash: &Vec<u8>, password: &str) -> bool;
}

/// A copy of a session token.
fn copy_token(token: &Option<String>) -> (r: Option<String>)
    ensures
        r == *token,
{
    match token {
        Some(t) => Some(t.clone()),
        None => None,
    }
}

/// The identity that a session lookup gives: the account it found, or the
/// visitor when the lookup failed in any way.
pub fn user_context_from(found: Result<IdUsername, UserRepositoryError>) -> (r: UserContext)
    ensures
        found matches Ok(f) ==> r.id == f.id && r.is_user && r.username == f.username,
        found is Err ==> is_visitor(r),
{
    match found {
        Ok(f) => UserContext::user(f),
        Err(_) => UserContext::visitor(),
    }
}

/// The token that a login issues: `token` when the password was accepted and
/// the session was stored, else none.
pub fn issued_token(verified: bool, token: String, stored: Result<(), UserRepositoryError>) -> (r:
    Option<String>)
    ensures
        r is Some <==> verified && stored is Ok,
        r matches Some(t) ==> t == token,
{
    if verified && stored.is_ok() {
        Some(token)
    } else {
        None
    }
}

/// A consumer that needs nothing.
pub struct NoopService;

/// Resolves the caller's identity from the session cookie.
pub struct UserCheckService {
    user_repository: UserRepository,
    token_cookie: Option<String>,
}

impl UserCheckService {
    pub closed spec fn token(&self) -> Option<String> {
        self.token_cookie
    }

    fn new(user_repository: UserRepository, token_cookie: Option<String>) -> (r: Self)
        ensures
            r.token() == token_cookie,
    {
        Self { user_repository, token_cookie }
    }

    /// The account of the session, or the visitor when there is no session
    /// cookie or its token is unknown or cannot be looked up; the lookup's
    /// outcome is turned into the identity by `user_context_from`.
    pub fn get_user_context(&self) -> (r: UserContext)
        ensures
            self.token() is None ==> is_visitor(r),
            r.is_user || is_visitor(r),
    {
        match &self.token_cookie {
            Some(token) => user_context_from(self.user_repository.find_by_token(token.clone())),
            None => UserContext::visitor(),
        }
    }

    /// Builds the service for the request of `dependency_global_context`; there
    /// must be one.
    pub fn resolve(dependency_global_context: &DependencyGlobalContext<'_>) -> (r: Result<
        Self,
        DependencyError,
    >)
        ensures
            dependency_global_context.request is None <==> r matches Err(
                DependencyError::NeedsRequest,
            ),
            r is Err ==> dependency_global_context.request is None,
            r matches Ok(s) ==> s.token() == dependency_global_context.request->Some_0.login_token,
    {
        let request = match dependency_global_context.request {
            Some(request) => request,
            None => return Err(DependencyError::NeedsRequest),
        };
        let repository = UserRepository::new(
            dependency_global_context.global_context.sqlite_client.clone(),
        );
        let token = copy_token(&request.login_token);
        Ok(Self::new(repository, token))
    }
}

impl FromGlobalContext for UserCheckService {
    fn from_global_context(
        dependency_global_context: &DependencyGlobalContext<'_>,
        _flag: &DependencyFlagData,
    ) -> Result<Self, DependencyError> {
        Self::resolve(dependency_global_context)
    }
}

impl FromGlobalContext for NoopService {
    fn from_global_context(
        _dependency_global_context: &DependencyGlobalContext<'_>,
        _flag: &DependencyFlagData,
    ) -> Result<Self, DependencyError> {
        Ok(NoopService)
    }
}

impl FromUserContext for NoopService {
    fn from_user_context(_dependency_user_context: &DependencyUserContext<'_>) -> Result<
        Self,
        DependencyError,
    > {
        Ok(NoopService)
    }
}

/// Logs accounts in and out.
pub struct UserLoginService {
    user_repository: UserRepository,
    token_cookie: Option<String>,
}

impl UserLoginService {
    pub closed spec fn token(&self) -> Option<String> {
        self.token_cookie
    }

    fn new(user_repository: UserRepository, token_cookie: Option<String>) -> (r: Self)
        ensures
            r.token() == token_cookie,
    {
        Self { user_repository, token_cookie }
    }

    /// Checks `password` against the stored hash of `username` with `hashing`;
    /// on a match, opens a session and returns its new token, as `issued_token`
    /// states. A failed lookup issues none.
    pub fn validate_login<H: PasswordHashing>(&self, username: String, password: String, hashing: &H) -> (r:
        Option<String>)
        ensures
            r matches Some(t) ==> t@.len() == 36,
    {
        let id_password = match self.user_repository.get_user_password(username) {
            Ok(found) => found,
            Err(_) => return None,
        };
        let verified = hashing.verify_password(&id_password.password, password.as_str());
        if !verified {
            return None;
        }
        let token = new_session_token();
        let stored = self.user_repository.add_token(token.clone(), id_password.id);
        issued_token(verified, token, stored)
    }

    /// Ends the session of the request's cookie; false when there is none or the
    /// store refused.
    pub fn logout(&self) -> (r: bool)
        ensures
            self.token() is None ==> !r,
    {
        match &self.token_cookie {
            Some(token) => self.user_repository.delete_token(token.clone()).is_ok(),
            None => false,
        }
    }

    /// Builds the service for the request of `dependency_user_context`; there
    /// must be one.
    pub fn resolve(dependency_user_context: &DependencyUserContext<'_>) -> (r: Result<
        Self,
        DependencyError,
    >)
        ensures
            dependency_user_context.dependency_global_context.request is None <==> r matches Err(
                DependencyError::NeedsRequest,
            ),
            r is Err ==> dependency_user_context.dependency_global_context.request is None,
            r matches Ok(s) ==> s.token()
                == dependency_user_context.dependency_global_context.request->Some_0.login_token,
    {
        let request = match dependency_user_context.dependency_global_context.request {
            Some(request) => request,
            None => return Err(DependencyError::NeedsRequest),
        };
        let repository = UserRepository::new(
            dependency_user_context.dependency_global_context.global_context.sqlite_client.clone(),
        );
        let token = copy_token(&request.login_token);
        Ok(Self::new(repository, token))
    }
}

impl FromUserContext for UserLoginService {
    fn from_user_context(dependency_user_context: &DependencyUserContext<'_>) -> Result<
        Self,
        DependencyError,
    > {
        Self::resolve(dependency_user_context)
    }
}

/// Creates accounts.
pub struct UserRegisterService {
    user_repository: UserRepository,
}

impl UserRegisterService {
    pub fn new(user_repository: UserRepository) -> Self {
        Self { user_repository }
    }

    /// Stores the account `username` with `password` hashed by `hashing`; false
    /// when hashing or storing fails.
    pub fn register_user<H: PasswordHashing>(&self, username: String, password: String, hashing: &H) -> (r:
        bool) {
        let hash = match hashing.hash_password(password.as_str()) {
            Some(hash) => hash,
            None => return false,
        };
        self.user_repository.register_user(username, hash).is_ok()
    }
}

impl IsUsernameTaken for UserRegisterService {
    fn is_username_taken(&self, username: &str) -> bool {
        self.user_repository.username_taken(String::from_str(username)).is_ok()
    }
}

impl FromUserContext for UserRegisterService {
    fn from_user_context(dependency_user_context: &DependencyUserContext<'_>) -> Result<
        Self,
        DependencyError,
    > {
        let flag = DefaultFlag::build_flag_data();
        Ok(Self::new(dependency_user_context.inject_global(&flag)?))
    }
}

} // verus!
