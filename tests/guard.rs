use bucket_list_app::config::Config;
use bucket_list_app::dependency::{
    DefaultFlag, DependencyError, DependencyFlag, DependencyFlagData, DependencyGuard,
    GlobalContext, Outcome, RequestData, Status,
};
use bucket_list_app::bucket_list::repository::BucketListRepository;
use bucket_list_app::user::dependency::{
    DependencyUserContext, FromUserContext, IdentityCache, UserDependencyGuard,
};
use bucket_list_app::user::flag::{LoginFlag, LogoutFlag};
use bucket_list_app::user::repository::UserRepository;
use bucket_list_app::user::route::{login_post, logout, UserLoginForm};
use bucket_list_app::user::service::{NoopService, PasswordHashing, UserLoginService};

/// Stores passwords reversed: enough to tell a match from a mismatch.
struct ReversedHashing;

impl PasswordHashing for ReversedHashing {
    fn hash_password(&self, password: &str) -> Option<Vec<u8>> {
        Some(password.bytes().rev().collect())
    }

    fn verify_password(&self, hash: &Vec<u8>, password: &str) -> bool {
        let expected: Vec<u8> = password.bytes().rev().collect();
        &expected == hash
    }
}

/// A consumer whose construction must never happen.
struct MustNotBuild;

impl FromUserContext for MustNotBuild {
    fn from_user_context(_c: &DependencyUserContext<'_>) -> Result<Self, DependencyError> {
        panic!("the consumer was built although the policy rejected the caller");
    }
}

/// A consumer whose construction always fails.
struct Failing;

impl FromUserContext for Failing {
    fn from_user_context(_c: &DependencyUserContext<'_>) -> Result<Self, DependencyError> {
        Err(DependencyError::Other("unavailable".to_string()))
    }
}

fn context() -> GlobalContext {
    let config = Config { sqlite_path: ":memory:".to_string() };
    match GlobalContext::init(config, false, &ReversedHashing) {
        Ok(g) => g,
        Err(e) => panic!("context did not open: {:?}", e),
    }
}

/// Registers `alice` and opens the session `token` for her.
fn logged_in(global: &GlobalContext, token: &str) -> i64 {
    let repo = UserRepository::new(global.sqlite_client.clone());
    let hash = ReversedHashing.hash_password("Secret@123").unwrap();
    assert!(repo.register_user("alice".to_string(), hash).is_ok());
    let id = repo.get_user_password("alice".to_string()).expect("alice exists").id;
    assert!(repo.add_token(token.to_string(), id).is_ok());
    id
}

fn forwarding(allow_user: bool, allow_visitor: bool) -> DependencyFlagData {
    DependencyFlagData::new("default", true, allow_user, allow_visitor)
}

#[test]
fn request_without_cookie_is_visitor_for_every_guard() {
    let global = context();
    let request = RequestData { login_token: None };
    let ctx = global.make_request_context(Some(&request));
    let mut cache = IdentityCache::new();
    let flag = DefaultFlag::build_flag_data();
    for _ in 0..3 {
        match UserDependencyGuard::<NoopService>::from_request(&ctx, &mut cache, &flag) {
            Outcome::Success(g) => {
                assert!(!g.1.is_user);
                assert_eq!(g.1.id, 0);
                assert_eq!(g.1.username, "Visitor");
            }
            _ => panic!("a visitor may use a default route"),
        }
    }
}

#[test]
fn identity_is_looked_up_once_per_request() {
    let global = context();
    let id = logged_in(&global, "tok-1");
    let request = RequestData { login_token: Some("tok-1".to_string()) };
    let ctx = global.make_request_context(Some(&request));
    let mut cache = IdentityCache::new();
    let flag = DefaultFlag::build_flag_data();
    let first = cache.resolve(&ctx).expect("identity resolves");
    assert!(first.is_user);
    assert_eq!(first.id, id);
    assert_eq!(first.username, "alice");
    // With the session gone from the store, only the cached identity can say "alice".
    let repo = UserRepository::new(global.sqlite_client.clone());
    assert!(repo.delete_token("tok-1".to_string()).is_ok());
    match UserDependencyGuard::<NoopService>::from_request(&ctx, &mut cache, &flag) {
        Outcome::Success(g) => {
            assert!(g.1.is_user);
            assert_eq!(g.1.username, "alice");
        }
        _ => panic!("the cached account may use a default route"),
    }
    // A new request with the same token is the visitor.
    let mut next = IdentityCache::new();
    let again = next.resolve(&ctx).expect("identity resolves");
    assert!(!again.is_user);
}

#[test]
fn account_is_unauthorized_before_consumer_is_built() {
    let global = context();
    logged_in(&global, "tok-2");
    let request = RequestData { login_token: Some("tok-2".to_string()) };
    let ctx = global.make_request_context(Some(&request));
    let mut cache = IdentityCache::new();
    let flag = LoginFlag::build_flag_data();
    match UserDependencyGuard::<MustNotBuild>::from_request(&ctx, &mut cache, &flag) {
        Outcome::Error(s) => assert_eq!(s, Status::Unauthorized),
        _ => panic!("an account must be rejected by a visitor-only route"),
    }
}

#[test]
fn visitor_is_forbidden_where_only_accounts_go() {
    let global = context();
    let request = RequestData { login_token: None };
    let ctx = global.make_request_context(Some(&request));
    let mut cache = IdentityCache::new();
    let flag = LogoutFlag::build_flag_data();
    match UserDependencyGuard::<MustNotBuild>::from_request(&ctx, &mut cache, &flag) {
        Outcome::Error(s) => {
            assert_eq!(s, Status::Forbidden);
            assert_eq!(s.code(), 403);
        }
        _ => panic!("the visitor must be rejected by an account-only route"),
    }
}

#[test]
fn forwarding_flag_forwards_every_failure() {
    let global = context();
    logged_in(&global, "tok-3");
    let request = RequestData { login_token: Some("tok-3".to_string()) };
    let ctx = global.make_request_context(Some(&request));
    let mut cache = IdentityCache::new();
    match UserDependencyGuard::<MustNotBuild>::from_request(&ctx, &mut cache, &forwarding(false, true)) {
        Outcome::Forward(s) => assert_eq!(s, Status::Unauthorized),
        _ => panic!("a policy failure must be forwarded"),
    }
    match UserDependencyGuard::<Failing>::from_request(&ctx, &mut cache, &forwarding(true, true)) {
        Outcome::Forward(s) => assert_eq!(s, Status::InternalServerError),
        _ => panic!("a construction failure must be forwarded"),
    }
    let no_request = global.make_request_context(None);
    let mut fresh = IdentityCache::new();
    match UserDependencyGuard::<NoopService>::from_request(&no_request, &mut fresh, &forwarding(true, true)) {
        Outcome::Forward(s) => assert_eq!(s.code(), 500),
        _ => panic!("an identity that cannot be resolved must be forwarded"),
    }
}

#[test]
fn construction_failure_without_forwarding_is_an_error() {
    let global = context();
    let request = RequestData { login_token: None };
    let ctx = global.make_request_context(Some(&request));
    let mut cache = IdentityCache::new();
    let flag = DefaultFlag::build_flag_data();
    match UserDependencyGuard::<Failing>::from_request(&ctx, &mut cache, &flag) {
        Outcome::Error(s) => assert_eq!(s, Status::InternalServerError),
        _ => panic!("a construction failure must be an error"),
    }
}

#[test]
fn login_session_listing_and_logout() {
    let global = context();
    logged_in(&global, "unused");
    // Log in.
    let request = RequestData { login_token: None };
    let ctx = global.make_request_context(Some(&request));
    let mut cache = IdentityCache::new();
    let service = match UserDependencyGuard::<UserLoginService>::from_request(
        &ctx,
        &mut cache,
        &LoginFlag::build_flag_data(),
    ) {
        Outcome::Success(g) => g.0,
        _ => panic!("the visitor may log in"),
    };
    let wrong_form = UserLoginForm { username: "alice".to_string(), password: "nope".to_string() };
    let wrong = login_post(&wrong_form, &service, &ReversedHashing);
    assert!(wrong.set_cookie.is_none());
    assert!(!wrong.redirect.success);
    assert_eq!(wrong.redirect.location, "/user/login/");
    let form = UserLoginForm { username: "alice".to_string(), password: "Secret@123".to_string() };
    let answer = login_post(&form, &service, &ReversedHashing);
    let cookie = answer.set_cookie.expect("valid credentials open a session");
    assert!(answer.redirect.success);
    assert_eq!(answer.redirect.message, "Login succeeded.");
    assert_eq!(cookie.name, "login-token");
    assert_eq!(cookie.path, "/");
    assert_eq!(cookie.max_age_seconds, 30 * 24 * 60 * 60);
    let token = cookie.value;
    assert_eq!(token.len(), 36);
    // The session cookie identifies alice; the list can be read.
    let request = RequestData { login_token: Some(token.clone()) };
    let ctx = global.make_request_context(Some(&request));
    let mut cache = IdentityCache::new();
    let u = cache.resolve(&ctx).expect("identity resolves");
    assert!(u.is_user);
    assert_eq!(u.username, "alice");
    match DependencyGuard::<BucketListRepository>::from_request(&ctx, &DefaultFlag::build_flag_data()) {
        Outcome::Success(repo) => assert!(repo.0.get_all_from_bucket_list().is_ok()),
        _ => panic!("the repository resolves"),
    }
    // Log out: the token is rejected afterwards.
    let service = match UserDependencyGuard::<UserLoginService>::from_request(
        &ctx,
        &mut cache,
        &LogoutFlag::build_flag_data(),
    ) {
        Outcome::Success(g) => g.0,
        _ => panic!("an account may log out"),
    };
    let out = logout(&service);
    assert!(out.redirect.success);
    assert_eq!(out.redirect.location, "/user");
    assert_eq!(out.remove_cookie, "login-token");
    let mut after = IdentityCache::new();
    let u = after.resolve(&ctx).expect("identity resolves");
    assert!(!u.is_user);
    assert_eq!(u.username, "Visitor");
}

#[test]
fn feature_flag_words_are_split_on_single_spaces() {
    let flag = DefaultFlag::build_flag_data();
    assert_eq!(flag.feature_flag, vec!["default".to_string()]);
    assert!(!flag.use_forward && flag.allow_user && flag.allow_visitor);
    let other = flag.override_feature_flag("a b  c");
    assert_eq!(other.feature_flag, vec!["a".to_string(), "b".to_string(), "".to_string(), "c".to_string()]);
    assert_eq!(other.allow_user, flag.allow_user);
    let empty = flag.override_feature_flag("");
    assert_eq!(empty.feature_flag, vec!["".to_string()]);
}

#[test]
fn consumer_needing_request_fails_without_one() {
    let global = context();
    match global.inject::<bucket_list_app::user::service::UserCheckService>(&DefaultFlag::build_flag_data()) {
        Err(DependencyError::NeedsRequest) => {}
        _ => panic!("the check service needs a request"),
    }
    assert!(global.inject::<BucketListRepository>(&DefaultFlag::build_flag_data()).is_ok());
}
