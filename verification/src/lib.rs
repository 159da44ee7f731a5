//! A typed, transport-free binding for the Victron Energy VRM web API.
//!
//! The library says which HTTP request each operation sends and what its
//! response means. It never touches the network: a driver sends the
//! [`transport::Request`] it is given and hands back the
//! [`transport::Response`].
//!
//! A [`Victron`] session is what a login yields. It holds the credential that
//! every later request carries, and the user id once that is known.

pub mod decode;
pub mod installations;
pub mod json;
pub mod login;
pub mod text;
pub mod transport;
pub mod users;

use crate::decode::{optional, required, spec_optional, spec_required, Decode};
use crate::json::{Json, JsonValue};
use crate::text::{parse_i32, spec_parse_i32};
use crate::transport::{Request, RequestView, Response, ResponseView};
use std::num::ParseIntError;
use vstd::prelude::*;

verus! {

/// The address under which every endpoint lives.
pub open spec fn base_url() -> Seq<char> {
    "https://vrmapi.victronenergy.com/v2"@
}

/// The address of the endpoint at `path`.
pub fn endpoint(path: &str) -> (r: String)
    ensures
        r@ == base_url() + path@,
{
    let mut url = "https://vrmapi.victronenergy.com/v2".to_owned();
    url.append(path);
    url
}

/// The view of a result: the view of what it holds, on either side.
pub open spec fn outcome<T: DeepView, E: DeepView>(r: Result<T, E>) -> Result<T::V, E::V> {
    match r {
        Ok(value) => Ok(value.deep_view()),
        Err(error) => Err(error.deep_view()),
    }
}

/// The credential of a session: a token from a password or demo login, or a
/// long-lived access token.
#[derive(Debug, Clone, PartialEq, Eq)]
pub enum Token {
    Bearer(String),
    Access(String),
}

/// The value of a [`Token`].
pub enum TokenView {
    Bearer(Seq<char>),
    Access(Seq<char>),
}

impl TokenView {
    /// The value of the `x-authorization` header that presents the token.
    pub open spec fn header(self) -> Seq<char> {
        match self {
            TokenView::Bearer(token) => "Bearer "@ + token,
            TokenView::Access(token) => "Token "@ + token,
        }
    }
}

impl DeepView for Token {
    type V = TokenView;

    open spec fn deep_view(&self) -> TokenView {
        match self {
            Token::Bearer(token) => TokenView::Bearer(token@),
            Token::Access(token) => TokenView::Access(token@),
        }
    }
}

impl Token {
    /// The value of the `x-authorization` header that presents the token.
    pub fn to_string(&self) -> (r: String)
        ensures
            r@ == self.deep_view().header(),
    {
        match self {
            Token::Bearer(token) => {
                let mut header = "Bearer ".to_owned();
                header.append(token.as_str());
                header
            },
            Token::Access(token) => {
                let mut header = "Token ".to_owned();
                header.append(token.as_str());
                header
            },
        }
    }
}

/// What the API sends in place of an answer when it refuses a request, and
/// what this library reports when an answer breaks the API's promises.
#[derive(Debug, Clone, PartialEq, Eq)]
pub struct Failure {
    pub success: bool,
    pub errors: Json,
    pub error_code: Option<String>,
}

/// The value of a [`Failure`].
pub struct FailureView {
    pub success: bool,
    pub errors: JsonValue,
    pub error_code: Option<Seq<char>>,
}

impl FailureView {
    /// The failure that reports a broken promise of the API under a fixed
    /// code.
    pub open spec fn violation(code: Seq<char>, message: Seq<char>) -> FailureView {
        FailureView { success: false, errors: JsonValue::String(message), error_code: Some(code) }
    }

    /// A login was accepted, but the answer holds no token.
    pub open spec fn no_token() -> FailureView {
        Self::violation("no_token"@, "No token returned"@)
    }

    /// One installation was asked for, and the answer lists none.
    pub open spec fn no_installation() -> FailureView {
        Self::violation("no_installation"@, "No installation returned"@)
    }

    /// The body of a response is not the document that the API promises.
    pub open spec fn malformed() -> FailureView {
        Self::violation("malformed_response"@, "Malformed response"@)
    }
}

impl DeepView for Failure {
    type V = FailureView;

    open spec fn deep_view(&self) -> FailureView {
        FailureView {
            success: self.success,
            errors: self.errors.deep_view(),
            error_code: self.error_code.deep_view(),
        }
    }
}

impl Failure {
    /// Whether a document is an object in which every member of the record
    /// can be read.
    pub open spec fn spec_complete(j: JsonValue) -> bool {
        &&& j is Object
        &&& spec_required::<bool>(j, "success"@) is Some
        &&& spec_required::<Json>(j, "errors"@) is Some
        &&& spec_optional::<String>(j, "error_code"@) is Some
    }

    fn violation(code: &str, message: &str) -> (r: Failure)
        ensures
            r.deep_view() == FailureView::violation(code@, message@),
    {
        Failure {
            success: false,
            errors: Json::String(message.to_owned()),
            error_code: Some(code.to_owned()),
        }
    }

    /// A login was accepted, but the answer holds no token.
    pub fn no_token() -> (r: Failure)
        ensures
            r.deep_view() == FailureView::no_token(),
    {
        Self::violation("no_token", "No token returned")
    }

    /// One installation was asked for, and the answer lists none.
    pub fn no_installation() -> (r: Failure)
        ensures
            r.deep_view() == FailureView::no_installation(),
    {
        Self::violation("no_installation", "No installation returned")
    }

    /// The body of a response is not the document that the API promises.
    pub fn malformed() -> (r: Failure)
        ensures
            r.deep_view() == FailureView::malformed(),
    {
        Self::violation("malformed_response", "Malformed response")
    }
}

impl Decode for Failure {
    open spec fn spec_decode(j: JsonValue) -> Option<FailureView> {
        if Self::spec_complete(j) {
            Some(
                FailureView {
                    success: spec_required::<bool>(j, "success"@)->0,
                    errors: spec_required::<Json>(j, "errors"@)->0,
                    error_code: spec_optional::<String>(j, "error_code"@)->0,
                },
            )
        } else {
            None
        }
    }

    fn decode(j: &Json) -> (r: Option<Failure>) {
        if !j.is_object() {
            return None;
        }
        Some(
            Failure {
                success: required::<bool>(j, "success")?,
                errors: required::<Json>(j, "errors")?,
                error_code: optional::<String>(j, "error_code")?,
            },
        )
    }
}

/// What an operation reports when it does not succeed.
#[derive(Debug, PartialEq, Eq)]
pub enum Error {
    /// A user id that the API sent as text is no number.
    ParseInt(ParseIntError),
    /// The API refused the request, or its answer broke a promise of the API.
    Victron(Failure),
}

/// The value of an [`Error`]. Of a parsing error only the kind is kept.
pub enum ErrorView {
    ParseInt,
    Victron(FailureView),
}

impl DeepView for Error {
    type V = ErrorView;

    open spec fn deep_view(&self) -> ErrorView {
        match self {
            Error::ParseInt(_) => ErrorView::ParseInt,
            Error::Victron(failure) => ErrorView::Victron(failure.deep_view()),
        }
    }
}

impl From<Failure> for Error {
    fn from(failure: Failure) -> (r: Error) {
        Error::Victron(failure)
    }
}

impl vstd::std_specs::convert::FromSpecImpl<Failure> for Error {
    open spec fn obeys_from_spec() -> bool {
        true
    }

    open spec fn from_spec(failure: Failure) -> Error {
        Error::Victron(failure)
    }
}

/// The error for a response that reports a failure: the [`Failure`] in its
/// body, or a malformed-response failure where the body holds none.
pub open spec fn spec_remote_error(body: Option<JsonValue>) -> ErrorView {
    match body {
        Some(j) => match Failure::spec_decode(j) {
            Some(failure) => ErrorView::Victron(failure),
            None => ErrorView::Victron(FailureView::malformed()),
        },
        None => ErrorView::Victron(FailureView::malformed()),
    }
}

/// What a response carries for an operation that expects a `T`. With a
/// status of 200 to 299 it is the `T` that the body stands for, and a
/// malformed-response failure where the body stands for none. With any other
/// status it is the failure that the body reports.
pub open spec fn spec_payload<T: Decode>(response: ResponseView) -> Result<T::V, ErrorView> {
    if response.is_success() {
        match response.body {
            Some(j) => match T::spec_decode(j) {
                Some(value) => Ok(value),
                None => Err(ErrorView::Victron(FailureView::malformed())),
            },
            None => Err(ErrorView::Victron(FailureView::malformed())),
        }
    } else {
        Err(spec_remote_error(response.body))
    }
}

/// Reads from a response what an operation expects, or the error that the
/// response amounts to.
pub fn payload<T: Decode>(response: &Response) -> (r: Result<T, Error>)
    ensures
        outcome(r) == spec_payload::<T>(response.deep_view()),
{
    if response.is_success() {
        match &response.body {
            Some(j) => match T::decode(j) {
                Some(value) => Ok(value),
                None => Err(Error::Victron(Failure::malformed())),
            },
            None => Err(Error::Victron(Failure::malformed())),
        }
    } else {
        match &response.body {
            Some(j) => match Failure::decode(j) {
                Some(failure) => Err(Error::Victron(failure)),
                None => Err(Error::Victron(Failure::malformed())),
            },
            None => Err(Error::Victron(Failure::malformed())),
        }
    }
}

/// What a driver is to do next for an operation that needs the user id:
/// the operation is ready to go on with `T`, or the user id has to be
/// resolved first by sending the given request.
#[derive(Debug, Clone, PartialEq, Eq)]
pub enum Step<T> {
    Ready(T),
    Resolve(Request),
}

/// The value of a [`Step`].
pub enum StepView<V> {
    Ready(V),
    Resolve(RequestView),
}

impl<T: DeepView> DeepView for Step<T> {
    type V = StepView<T::V>;

    open spec fn deep_view(&self) -> StepView<T::V> {
        match self {
            Step::Ready(value) => StepView::Ready(value.deep_view()),
            Step::Resolve(request) => StepView::Resolve(request.deep_view()),
        }
    }
}

/// A session with the API. Its credential is fixed when a login makes the
/// session; its user id is set once and stays.
#[derive(Debug, Clone, PartialEq, Eq)]
pub struct Victron {
    /// The token used to authenticate requests.
    token: Token,
    /// The user id of the currently logged in user, once it is known.
    user_id: Option<i32>,
}

/// The value of a [`Victron`] session.
pub struct VictronView {
    pub token: TokenView,
    pub user_id: Option<i32>,
}

impl DeepView for Victron {
    type V = VictronView;

    closed spec fn deep_view(&self) -> VictronView {
        VictronView { token: self.token.deep_view(), user_id: self.user_id }
    }
}

impl Victron {
    pub(crate) fn new(token: Token, user_id: Option<i32>) -> (r: Victron)
        ensures
            r.deep_view() == (VictronView { token: token.deep_view(), user_id }),
    {
        Victron { token, user_id }
    }

    /// The credential of the session.
    pub fn token(&self) -> (r: &Token)
        ensures
            r.deep_view() == self.deep_view().token,
    {
        &self.token
    }

    /// The user id of the session, if it is known.
    pub fn user_id(&self) -> (r: Option<i32>)
        ensures
            r == self.deep_view().user_id,
    {
        self.user_id
    }
}

impl VictronView {
    /// The next step of resolving the user id: nothing is left to do where it
    /// is known, and the user has to be asked for where it is not.
    pub open spec fn ensure_user_id(self) -> StepView<i32> {
        match self.user_id {
            Some(user_id) => StepView::Ready(user_id),
            None => StepView::Resolve(self.get_user_info_request()),
        }
    }

    /// The session after the answer to a request for the user, with the user
    /// id or the error to report.
    ///
    /// A user id that is known stays, whatever the answer holds. Otherwise the
    /// id of the user in the answer, read as a decimal number, becomes the
    /// user id of the session; where there is no such number the session
    /// stays as it is.
    pub open spec fn resolve_user_id(self, response: ResponseView) -> (
        VictronView,
        Result<i32, ErrorView>,
    ) {
        match self.user_id {
            Some(user_id) => (self, Ok(user_id)),
            None => match Victron::spec_get_user_info(response) {
                Ok(user) => match spec_parse_i32(user.id) {
                    Some(user_id) => (VictronView { user_id: Some(user_id), ..self }, Ok(user_id)),
                    None => (self, Err(ErrorView::ParseInt)),
                },
                Err(error) => (self, Err(error)),
            },
        }
    }
}

impl Victron {
    /// The next step of getting the user id of the currently logged in user:
    /// the id where the session knows it, and else the request that fetches
    /// the user, whose answer goes to [`Victron::resolve_user_id`].
    pub fn ensure_user_id(&self) -> (r: Step<i32>)
        ensures
            r.deep_view() == self.deep_view().ensure_user_id(),
    {
        match self.user_id {
            Some(user_id) => Step::Ready(user_id),
            None => Step::Resolve(self.get_user_info_request()),
        }
    }

    /// Takes the answer to the request for the user and gives the user id of
    /// the session, which it keeps from then on.
    ///
    /// # Errors
    /// - [`Error::Victron`] if the request failed or its answer is not what
    ///   the API promises.
    /// - [`Error::ParseInt`] if the user id could not be parsed as an integer.
    pub fn resolve_user_id(&mut self, response: &Response) -> (r: Result<i32, Error>)
        ensures
            (final(self).deep_view(), outcome(r)) == old(self).deep_view().resolve_user_id(
                response.deep_view(),
            ),
    {
        if let Some(user_id) = self.user_id {
            return Ok(user_id);
        }
        let user = match Victron::get_user_info(response) {
            Ok(user) => user,
            Err(error) => {
                return Err(error);
            },
        };
        match parse_i32(user.id.as_str()) {
            Ok(user_id) => {
                self.user_id = Some(user_id);
                Ok(user_id)
            },
            Err(error) => Err(Error::ParseInt(error)),
        }
    }
}

/// What callers get who resolve the user id one after another, each holding
/// the session alone from its question to the end of its answer: the session
/// in the end, what each caller was given, and how many of them had to send
/// the request for the user. The caller at place `i` would receive
/// `answers[i]` if it sent that request.
pub open spec fn spec_resolve_in_turn(session: VictronView, answers: Seq<ResponseView>) -> (
    VictronView,
    Seq<Result<i32, ErrorView>>,
    nat,
)
    decreases answers.len(),
{
    if answers.len() == 0 {
        (session, Seq::empty(), 0)
    } else {
        let (before, given, sent) = spec_resolve_in_turn(session, answers.drop_last());
        let (after, result) = before.resolve_user_id(answers.last());
        (
            after,
            given.push(result),
            if before.ensure_user_id() is Resolve {
                sent + 1
            } else {
                sent
            },
        )
    }
}

/// Of any number of callers that resolve the user id of a fresh session in
/// turn, only the first sends the request for the user, where its answer
/// gives an id; and every caller is given that same id.
pub proof fn lemma_resolved_by_the_first_caller(session: VictronView, answers: Seq<ResponseView>)
    requires
        session.user_id is None,
        answers.len() > 0,
        session.resolve_user_id(answers[0]).1 is Ok,
    ensures
        ({
            let (after, given, sent) = spec_resolve_in_turn(session, answers);
            let user_id = session.resolve_user_id(answers[0]).1;
            &&& sent == 1
            &&& given.len() == answers.len()
            &&& forall|i: int| 0 <= i < given.len() ==> given[i] == user_id
            &&& after == session.resolve_user_id(answers[0]).0
            &&& after.user_id == Some(user_id->Ok_0)
            &&& after.token == session.token
        }),
    decreases answers.len(),
{
    if answers.len() == 1 {
        assert(answers.drop_last().len() == 0);
        assert(spec_resolve_in_turn(session, answers.drop_last()) == (
            session,
            Seq::<Result<i32, ErrorView>>::empty(),
            0nat,
        ));
    } else {
        assert(answers.drop_last()[0] == answers[0]);
        lemma_resolved_by_the_first_caller(session, answers.drop_last());
    }
}

/// The credential of a session never changes, and neither does a user id
/// that is known.
pub proof fn lemma_session_is_stable(session: VictronView, response: ResponseView)
    ensures
        session.resolve_user_id(response).0.token == session.token,
        session.user_id is Some ==> session.resolve_user_id(response) == (
            session,
            Ok::<i32, ErrorView>(session.user_id->0),
        ),
{
}

/// The user id is resolved once. After an answer has given the user id, the
/// session asks for no request to resolve it, and gives the same id for
/// whatever answer it is handed later.
pub proof fn lemma_user_id_resolved_once(
    session: VictronView,
    first: ResponseView,
    later: ResponseView,
)
    requires
        session.resolve_user_id(first).1 is Ok,
    ensures
        ({
            let (resolved, user_id) = session.resolve_user_id(first);
            &&& resolved.ensure_user_id() == StepView::Ready(user_id->Ok_0)
            &&& resolved.resolve_user_id(later) == (resolved, user_id)
        }),
{
}

/// A response with a status outside 200 to 299 whose body holds a failure
/// makes every operation fail with that failure: its `errors` and its
/// `error_code` are those of the body.
pub proof fn lemma_remote_failure_is_reported(response: ResponseView, session: VictronView)
    requires
        !response.is_success(),
        response.body matches Some(j) && Failure::spec_decode(j) is Some,
    ensures
        ({
            let j = response.body->0;
            let failure = Failure::spec_decode(j)->0;
            let error = ErrorView::Victron(failure);
            &&& j.get("errors"@) == Some(failure.errors)
            &&& failure.error_code == match j.get("error_code"@) {
                Some(JsonValue::String(code)) => Some(code),
                _ => None,
            }
            &&& Victron::spec_login(response) == Err::<VictronView, ErrorView>(error)
            &&& Victron::spec_login_access_token(response) == Err::<VictronView, ErrorView>(error)
            &&& Victron::spec_login_as_demo(response) == Err::<VictronView, ErrorView>(error)
            &&& Victron::spec_get_user_info(response) == Err::<crate::users::UserView, ErrorView>(
                error,
            )
            &&& Victron::spec_add_new_site(response) == Err::<Seq<char>, ErrorView>(error)
            &&& Victron::spec_get_all_installations_or_sites(response) == Err::<
                Seq<crate::installations::InstallationView>,
                ErrorView,
            >(error)
            &&& Victron::spec_get_installation_or_site(response) == Err::<
                crate::installations::InstallationView,
                ErrorView,
            >(error)
            &&& session.user_id is None ==> session.resolve_user_id(response) == (
                session,
                Err::<i32, ErrorView>(error),
            )
        }),
{
}

} // verus!
