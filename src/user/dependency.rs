use vstd::prelude::*;

use crate::dependency::{
    fail, failure_outcome, DependencyError, DependencyFlagData, DependencyGlobalContext,
    FromGlobalContext, Outcome, Status,
};
use crate::user::model::{is_visitor, UserContext};
use crate::user::service::UserCheckService;

verus! {

/// The session token that the request of `context` presents, if any.
pub open spec fn request_token(context: DependencyGlobalContext) -> Option<String> {
    match context.request {
        Some(request) => request.login_token,
        None => None,
    }
}

/// One resolution of the caller's identity, from the cache `before` to the cache
/// `after`, giving `r`. A cached identity is returned as it is and the cache is
/// left alone; otherwise the identity is resolved, which needs a live request,
/// and cached. A resolved identity is an account or the visitor, and without a
/// session token it is the visitor.
pub open spec fn identity_resolution(
    before: Option<UserContext>,
    has_request: bool,
    token: Option<String>,
    after: Option<UserContext>,
    r: Option<UserContext>,
) -> bool {
    match before {
        Some(u) => r == Some(u) && after == before,
        None => if has_request {
            &&& after == r
            &&& r matches Some(u)
            &&& u.is_user || is_visitor(u)
            &&& token is None ==> is_visitor(u)
        } else {
            r is None && after is None
        },
    }
}

/// The identity resolutions of one request, in order: the cache starts empty,
/// and step `i` takes the cache from `caches[i]` to `caches[i + 1]`, giving `results[i]`.
pub open spec fn resolution_run(
    caches: Seq<Option<UserContext>>,
    results: Seq<Option<UserContext>>,
    has_request: bool,
    token: Option<String>,
) -> bool {
    &&& caches.len() == results.len() + 1
    &&& caches[0] is None
    &&& forall|i: int|
        0 <= i < results.len() ==> identity_resolution(
            caches[i],
            has_request,
            token,
            caches[i + 1],
            #[trigger] results[i],
        )
}

/// A request without a session cookie is the visitor, however many guarded
/// components resolve its identity.
pub proof fn lemma_no_session_is_visitor(
    caches: Seq<Option<UserContext>>,
    results: Seq<Option<UserContext>>,
)
    requires
        resolution_run(caches, results, true, None),
    ensures
        forall|i: int|
            0 <= i < results.len() ==> (#[trigger] results[i] matches Some(u) && is_visitor(u)),
{
    assert forall|i: int| 0 <= i < results.len() implies (#[trigger] results[i] matches Some(u)
        && is_visitor(u)) by {
        lemma_run_settles(caches, results, true, None, i);
    }
}

/// After the first resolution of a request the cache holds its result, and
/// every resolution up to `k` gave that same identity.
proof fn lemma_run_settles(
    caches: Seq<Option<UserContext>>,
    results: Seq<Option<UserContext>>,
    has_request: bool,
    token: Option<String>,
    k: int,
)
    requires
        resolution_run(caches, results, has_request, token),
        0 <= k < results.len(),
    ensures
        results[k] == results[0],
        caches[k + 1] == results[0],
        has_request ==> (results[0] matches Some(u) && (u.is_user || is_visitor(u))),
        has_request && token is None ==> (results[0] matches Some(u) && is_visitor(u)),
    decreases k,
{
    assert(identity_resolution(caches[0], has_request, token, caches[1], results[0]));
    if k > 0 {
        lemma_run_settles(caches, results, has_request, token, k - 1);
        assert(identity_resolution(caches[k], has_request, token, caches[k + 1], results[k]));
    }
}

/// Within one request every resolution gives the identity of the first, and
/// only the first fills the cache: later ones find it there and do not look
/// the session up again.
pub proof fn lemma_identity_resolved_once(
    caches: Seq<Option<UserContext>>,
    results: Seq<Option<UserContext>>,
    has_request: bool,
    token: Option<String>,
)
    requires
        resolution_run(caches, results, has_request, token),
    ensures
        forall|i: int| 0 <= i < results.len() ==> #[trigger] results[i] == results[0],
        forall|i: int| 1 <= i < caches.len() ==> #[trigger] caches[i] == results[0],
        forall|i: int|
            1 <= i < results.len() ==> #[trigger] caches[i + 1] == caches[i],
{
    assert forall|i: int| 0 <= i < results.len() implies #[trigger] results[i] == results[0] by {
        lemma_run_settles(caches, results, has_request, token, i);
    }
    assert forall|i: int| 1 <= i < caches.len() implies #[trigger] caches[i] == results[0] by {
        lemma_run_settles(caches, results, has_request, token, i - 1);
    }
    assert forall|i: int| 1 <= i < results.len() implies #[trigger] caches[i + 1] == caches[i] by {
        lemma_run_settles(caches, results, has_request, token, i - 1);
        lemma_run_settles(caches, results, has_request, token, i);
        assert(identity_resolution(caches[i], has_request, token, caches[i + 1], results[i]));
    }
}

/// A route that does not allow accounts rejects a logged-in caller as
/// `Unauthorized`, whatever it says of the visitor.
pub proof fn lemma_accounts_rejected_where_not_allowed(u: UserContext, allow_visitor: bool)
    requires
        u.is_user,
    ensures
        policy(u.is_user, false, allow_visitor) == Some(Status::Unauthorized),
{
}

/// A flag that allows neither accounts nor the visitor rejects every caller.
pub proof fn lemma_closed_flag_rejects_everyone(is_user: bool)
    ensures
        policy(is_user, false, false) is Some,
{
}

/// The caller's identity, resolved at most once per request.
pub struct IdentityCache {
    user_context: Option<UserContext>,
}

impl IdentityCache {
    pub closed spec fn cached(&self) -> Option<UserContext> {
        self.user_context
    }

    /// The cache of a new request: empty.
    pub fn new() -> (r: Self)
        ensures
            r.cached() is None,
    {
        IdentityCache { user_context: None }
    }

    /// The identity of the caller of `dependency_global_context`'s request.
    /// When it is cached, the store is not asked again.
    pub fn resolve(&mut self, dependency_global_context: &DependencyGlobalContext<'_>) -> (r:
        Option<UserContext>)
        ensures
            identity_resolution(
                old(self).cached(),
                dependency_global_context.request is Some,
                request_token(*dependency_global_context),
                final(self).cached(),
                r,
            ),
    {
        if let Some(u) = &self.user_context {
            return Some(u.copy());
        }
        match UserCheckService::resolve(dependency_global_context) {
            Err(_) => None,
            Ok(service) => {
                let u = service.get_user_context();
                self.user_context = Some(u.copy());
                Some(u)
            },
        }
    }
}

/// The rejection that a route's policy gives an identity: `Unauthorized` for
/// an account where accounts are not allowed, `Forbidden` for the visitor where
/// the visitor is not allowed.
pub open spec fn policy(is_user: bool, allow_user: bool, allow_visitor: bool) -> Option<Status> {
    if is_user && !allow_user {
        Some(Status::Unauthorized)
    } else if !is_user && !allow_visitor {
        Some(Status::Forbidden)
    } else {
        None
    }
}

pub fn policy_rejection(user_context: &UserContext, flag: &DependencyFlagData) -> (r: Option<
    Status,
>)
    ensures
        r == policy(user_context.is_user, flag.allow_user, flag.allow_visitor),
{
    if user_context.is_user && !flag.allow_user {
        Some(Status::Unauthorized)
    } else if !user_context.is_user && !flag.allow_visitor {
        Some(Status::Forbidden)
    } else {
        None
    }
}

/// The context handed to consumers that need the caller's identity.
pub struct DependencyUserContext<'r> {
    pub user_context: UserContext,
    pub dependency_global_context: DependencyGlobalContext<'r>,
}

impl<'r> DependencyUserContext<'r> {
    pub fn inject<T: FromUserContext>(&self) -> Result<T, DependencyError> {
        T::from_user_context(self)
    }

    pub fn inject_global<T: FromGlobalContext>(&self, flag: &DependencyFlagData) -> Result<
        T,
        DependencyError,
    > {
        self.dependency_global_context.inject(flag)
    }
}

/// A consumer that builds itself from the context of a request and its caller.
pub trait FromUserContext: Sized {
    fn from_user_context(dependency_user_context: &DependencyUserContext<'_>) -> Result<
        Self,
        DependencyError,
    >;
}

/// A consumer resolved for a route, with the identity of the caller.
pub struct UserDependencyGuard<T>(pub T, pub UserContext);

impl<T: FromUserContext> UserDependencyGuard<T> {
    /// Resolves the caller's identity (once per request, through `cache`),
    /// applies the route's policy, and only then builds the consumer. Every
    /// failure is the failure that `flag` asks for.
    pub fn from_request(
        dependency_global_context: &DependencyGlobalContext<'_>,
        cache: &mut IdentityCache,
        flag: &DependencyFlagData,
    ) -> (r: Outcome<Self>)
        ensures
            identity_resolution(
                old(cache).cached(),
                dependency_global_context.request is Some,
                request_token(*dependency_global_context),
                final(cache).cached(),
                final(cache).cached(),
            ),
            final(cache).cached() is None ==> r == failure_outcome::<Self>(
                flag.use_forward,
                Status::InternalServerError,
            ),
            final(cache).cached() matches Some(u) ==> match policy(
                u.is_user,
                flag.allow_user,
                flag.allow_visitor,
            ) {
                Some(s) => r == failure_outcome::<Self>(flag.use_forward, s),
                None => (r is Success || r == failure_outcome::<Self>(
                    flag.use_forward,
                    Status::InternalServerError,
                )) && (r matches Outcome::Success(g) ==> g.1 == u),
            },
            flag.use_forward ==> !(r is Error),
    {
        let user_context = match cache.resolve(dependency_global_context) {
            Some(u) => u,
            None => return fail(flag, Status::InternalServerError),
        };
        if let Some(status) = policy_rejection(&user_context, flag) {
            return fail(flag, status);
        }
        let dependency_user_context = DependencyUserContext {
            user_context: user_context.copy(),
            dependency_global_context: *dependency_global_context,
        };
        match T::from_user_context(&dependency_user_context) {
            Ok(dep) => Outcome::Success(UserDependencyGuard(dep, user_context)),
            Err(_) => fail(flag, Status::InternalServerError),
        }
    }
}

} // verus!
