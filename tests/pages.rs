use bucket_list_app::config::Config;
use bucket_list_app::dependency::{GlobalContext, Outcome, RequestData};
use bucket_list_app::dependency::{DependencyFlag, DependencyFlagData};
use bucket_list_app::html_base::{FlashKind, NavigationItem};
use bucket_list_app::user::dependency::{IdentityCache, UserDependencyGuard};
use bucket_list_app::user::flag::LoginFlag;
use bucket_list_app::user::form::UserRegisterForm;
use bucket_list_app::user::model::UserContext;
use bucket_list_app::user::route::{display_title, register_post, RegisterPostResponse};
use bucket_list_app::user::service::{PasswordHashing, UserRegisterService};
use bucket_list_app::user::validate::username::{UsernameCheckResult, Username};

struct PlainHashing;

impl PasswordHashing for PlainHashing {
    fn hash_password(&self, password: &str) -> Option<Vec<u8>> {
        Some(password.as_bytes().to_vec())
    }

    fn verify_password(&self, hash: &Vec<u8>, password: &str) -> bool {
        hash.as_slice() == password.as_bytes()
    }
}

#[test]
fn navigation_has_three_entries_in_order() {
    let nav = NavigationItem::navigations();
    let names: Vec<&str> = nav.iter().map(|n| n.name()).collect();
    assert_eq!(names, vec!["Home", "Bucket List", "User"]);
    assert_eq!(nav[1].url(), "/bucket-list/");
    assert!(nav[2].is_active("user"));
    assert!(!nav[2].is_active("home"));
}

#[test]
fn flash_kinds_are_recognised_by_name() {
    assert_eq!(FlashKind::parse("success"), Some(FlashKind::Success));
    assert_eq!(FlashKind::parse("warning").map(|k| k.css_class()), Some("flash-message-warning"));
    assert_eq!(FlashKind::parse("info"), None);
}

#[test]
fn user_page_title_names_the_account() {
    let alice = UserContext { id: 3, is_user: true, username: "alice".to_string() };
    assert_eq!(display_title(&alice), "User: alice");
    assert_eq!(display_title(&UserContext::visitor()), "Visitor");
}

#[test]
fn registration_stores_once_and_then_reports_the_name_taken() {
    let global = GlobalContext::init(Config { sqlite_path: ":memory:".to_string() }, false, &PlainHashing)
        .ok()
        .expect("context opens");
    let request = RequestData { login_token: None };
    let ctx = global.make_request_context(Some(&request));
    let mut cache = IdentityCache::new();
    let flag: DependencyFlagData = LoginFlag::build_flag_data();
    let service: UserRegisterService =
        match UserDependencyGuard::<UserRegisterService>::from_request(&ctx, &mut cache, &flag) {
            Outcome::Success(g) => g.0,
            _ => panic!("the visitor may register"),
        };
    let form = UserRegisterForm {
        username: "bob_smith".to_string(),
        password: "Hello@Wor1d".to_string(),
        password_confirm: "Hello@Wor1d".to_string(),
    };
    match register_post(&form, &service, &PlainHashing) {
        RegisterPostResponse::Redirect(r) => {
            assert!(r.success);
            assert_eq!(r.location, "/user/login");
        }
        other => panic!("expected a redirect, got {:?}", other),
    }
    let taken = Username::parse("bob_smith".to_string(), None).check_username_result(&service, None);
    assert!(taken.is_err());
    match register_post(&form, &service, &PlainHashing) {
        RegisterPostResponse::Redirect(r) => {
            assert!(!r.success);
            assert_eq!(r.message, "Register failed.");
        }
        other => panic!("expected a redirect, got {:?}", other),
    }
    let bad = UserRegisterForm {
        username: "bob".to_string(),
        password: "Hello@Wor1d".to_string(),
        password_confirm: "Hello@Wor1d!".to_string(),
    };
    match register_post(&bad, &service, &PlainHashing) {
        RegisterPostResponse::Form(map) => {
            assert!(map.get("username").is_some());
            assert!(map.get("password").is_none());
            assert_eq!(
                map.get("password_confirm").expect("present").messages(),
                &vec!["password confirm does not match".to_string()]
            );
        }
        other => panic!("expected the form again, got {:?}", other),
    }
}
