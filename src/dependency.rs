use vstd::prelude::*;

use crate::config::Config;
use crate::db::{SqliteClient, SqliteClientError};
use crate::text::{split_on_space, split_spaces, strings_view};
use crate::user::service::PasswordHashing;

verus! {

/// Why a consumer could not be built from the context.
#[derive(Debug)]
pub enum DependencyError {
    /// The consumer reads the live request, and the context carries none.
    NeedsRequest,
    /// Building failed for the reason given.
    Other(String),
}

/// The policy of one route for one consumer.
///
/// A flag that allows neither accounts nor the visitor rejects every request.
#[derive(Debug)]
pub struct DependencyFlagData {
    pub feature_flag: Vec<String>,
    /// On failure, let the next matching route try instead of answering with an error.
    pub use_forward: bool,
    pub allow_user: bool,
    pub allow_visitor: bool,
}

impl DependencyFlagData {
    /// A flag whose labels are the space-separated words of `feature_flag`.
    pub fn new(feature_flag: &str, use_forward: bool, allow_user: bool, allow_visitor: bool) -> (r:
        Self)
        ensures
            strings_view(r.feature_flag@) == split_on_space(feature_flag@),
            r.use_forward == use_forward,
            r.allow_user == allow_user,
            r.allow_visitor == allow_visitor,
    {
        DependencyFlagData {
            feature_flag: split_spaces(feature_flag),
            use_forward,
            allow_user,
            allow_visitor,
        }
    }

    /// This flag with its labels replaced by the words of `feature_flag`.
    pub fn override_feature_flag(&self, feature_flag: &str) -> (r: Self)
        ensures
            strings_view(r.feature_flag@) == split_on_space(feature_flag@),
            r.use_forward == self.use_forward,
            r.allow_user == self.allow_user,
            r.allow_visitor == self.allow_visitor,
    {
        Self::new(feature_flag, self.use_forward, self.allow_user, self.allow_visitor)
    }
}

/// A named policy, for routes that declare one by type.
pub trait DependencyFlag {
    spec fn spec_feature_flag() -> Seq<char>;

    spec fn spec_use_forward() -> bool;

    spec fn spec_allow_user() -> bool;

    spec fn spec_allow_visitor() -> bool;

    fn build_flag_data() -> (r: DependencyFlagData)
        ensures
            strings_view(r.feature_flag@) == split_on_space(Self::spec_feature_flag()),
            r.use_forward == Self::spec_use_forward(),
            r.allow_user == Self::spec_allow_user(),
            r.allow_visitor == Self::spec_allow_visitor(),
    ;
}

/// Labelled `default`; no forwarding; accounts and the visitor are both allowed.
pub struct DefaultFlag;

impl DependencyFlag for DefaultFlag {
    open spec fn spec_feature_flag() -> Seq<char> {
        "default"@
    }

    open spec fn spec_use_forward() -> bool {
        false
    }

    open spec fn spec_allow_user() -> bool {
        true
    }

    open spec fn spec_allow_visitor() -> bool {
        true
    }

    fn build_flag_data() -> (r: DependencyFlagData) {
        DependencyFlagData::new("default", false, true, true)
    }
}

/// The statuses with which a resolution can fail.
#[derive(Debug, Clone, Copy, PartialEq, Eq, Structural)]
pub enum Status {
    Unauthorized,
    Forbidden,
    InternalServerError,
}

pub open spec fn status_code(s: Status) -> u16 {
    match s {
        Status::Unauthorized => 401,
        Status::Forbidden => 403,
        Status::InternalServerError => 500,
    }
}

impl Status {
    pub fn code(&self) -> (r: u16)
        ensures
            r == status_code(*self),
    {
        match self {
            Status::Unauthorized => 401,
            Status::Forbidden => 403,
            Status::InternalServerError => 500,
        }
    }
}

/// How a resolution ends: the value, "let the next route try", or an error answer.
#[derive(Debug)]
pub enum Outcome<S> {
    Success(S),
    Forward(Status),
    Error(Status),
}

/// The failure that a flag asks for: forwarded when it forwards, else an error.
pub open spec fn failure_outcome<S>(use_forward: bool, status: Status) -> Outcome<S> {
    if use_forward {
        Outcome::Forward(status)
    } else {
        Outcome::Error(status)
    }
}

pub fn fail<S>(flag: &DependencyFlagData, status: Status) -> (r: Outcome<S>)
    ensures
        r == failure_outcome::<S>(flag.use_forward, status),
{
    if flag.use_forward {
        Outcome::Forward(status)
    } else {
        Outcome::Error(status)
    }
}

/// A flag that forwards never ends a resolution in an error answer, and one
/// that does not forward never forwards.
pub proof fn lemma_failure_honours_forwarding<S>(use_forward: bool, status: Status)
    ensures
        use_forward ==> failure_outcome::<S>(use_forward, status) == Outcome::<S>::Forward(status),
        !use_forward ==> failure_outcome::<S>(use_forward, status) == Outcome::<S>::Error(status),
{
}

/// What the live request tells the resolvers.
#[derive(Debug)]
pub struct RequestData {
    /// The value of the session cookie, when the request has one.
    pub login_token: Option<String>,
}

/// The process-wide context: configuration and the shared store.
pub struct GlobalContext {
    pub config: Config,
    pub sqlite_client: SqliteClient,
}

impl GlobalContext {
    /// Opens the store named by `config` (creating its schema and default
    /// account, hashed by `hashing`, when the file is new) and keeps both.
    pub fn init<H: PasswordHashing>(config: Config, file_exists: bool, hashing: &H) -> (r: Result<
        Self,
        SqliteClientError,
    >)
        ensures
            config.sqlite_path@.len() == 0 ==> r matches Err(SqliteClientError::SqliteFileEmpty),
            r matches Ok(g) ==> g.config == config,
    {
        let path = config.sqlite_path.clone();
        let sqlite_client = SqliteClient::new(path, file_exists, hashing)?;
        Ok(GlobalContext { config, sqlite_client })
    }

    /// The context of one request; `request` is `None` when there is no live request.
    pub fn make_request_context<'r>(&'r self, request: Option<&'r RequestData>) -> (r:
        DependencyGlobalContext<'r>)
        ensures
            r.global_context == self,
            r.request == request,
    {
        DependencyGlobalContext { global_context: self, request }
    }

    /// Builds a `T` outside any request.
    pub fn inject<T: FromGlobalContext>(&self, flag: &DependencyFlagData) -> (r: Result<
        T,
        DependencyError,
    >) {
        let context = self.make_request_context(None);
        T::from_global_context(&context, flag)
    }
}

/// The context of one request: the global context and the live request, if any.
#[derive(Clone, Copy)]
pub struct DependencyGlobalContext<'r> {
    pub global_context: &'r GlobalContext,
    pub request: Option<&'r RequestData>,
}

impl<'r> DependencyGlobalContext<'r> {
    pub fn inject<T: FromGlobalContext>(&self, flag: &DependencyFlagData) -> (r: Result<
        T,
        DependencyError,
    >) {
        T::from_global_context(self, flag)
    }
}

/// A consumer that knows how to build itself from the context of a request.
pub trait FromGlobalContext: Sized {
    fn from_global_context(
        dependency_global_context: &DependencyGlobalContext<'_>,
        flag: &DependencyFlagData,
    ) -> Result<Self, DependencyError>;
}

impl FromGlobalContext for SqliteClient {
    fn from_global_context(
        dependency_global_context: &DependencyGlobalContext<'_>,
        _flag: &DependencyFlagData,
    ) -> Result<Self, DependencyError> {
        Ok(dependency_global_context.global_context.sqlite_client.clone())
    }
}

/// The outcome of a route that asked for a consumer: the consumer, or the
/// failure that the flag asks for.
pub fn construction_outcome<T>(flag: &DependencyFlagData, built: Result<T, DependencyError>) -> (r:
    Outcome<T>)
    ensures
        built matches Ok(t) ==> r == Outcome::<T>::Success(t),
        built is Err ==> r == failure_outcome::<T>(flag.use_forward, Status::InternalServerError),
{
    match built {
        Ok(t) => Outcome::Success(t),
        Err(_) => fail(flag, Status::InternalServerError),
    }
}

/// A consumer resolved for a route, without the caller's identity.
pub struct DependencyGuard<T>(pub T);

impl<T: FromGlobalContext> DependencyGuard<T> {
    /// Builds the consumer; a failure becomes the flag's failure with status 500.
    pub fn from_request(dependency_global_context: &DependencyGlobalContext<'_>, flag: &DependencyFlagData) -> (r:
        Outcome<Self>)
        ensures
            r is Success || r == failure_outcome::<Self>(flag.use_forward, Status::InternalServerError),
            flag.use_forward ==> !(r is Error),
    {
        let built = T::from_global_context(dependency_global_context, flag);
        match construction_outcome(flag, built) {
            Outcome::Success(t) => Outcome::Success(DependencyGuard(t)),
            Outcome::Forward(s) => Outcome::Forward(s),
            Outcome::Error(s) => Outcome::Error(s),
        }
    }
}

} // verus!
