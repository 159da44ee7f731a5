//! Logging in.
//!
//! Each login is one request and one response. An accepted login answers
//! with a token; the session keeps it as its credential.

use crate::decode::{optional, required, spec_optional, spec_required, Decode};
use crate::json::{object, push_member, Json, JsonValue};
use crate::transport::{
    no_headers, push_header, Method, Request, RequestView, Response, ResponseView,
};
use crate::{
    base_url, endpoint, outcome, payload, spec_payload, Error, ErrorView, Failure, FailureView,
    Token, TokenView, Victron, VictronView,
};
use vstd::prelude::*;

verus! {

/// The answer to a login that was accepted.
#[derive(Debug, Clone, PartialEq, Eq)]
pub struct Success {
    pub token: Option<String>,
    pub user_id: i32,
    pub verification_mode: String,
    pub verification_sent: bool,
}

/// The value of a [`Success`].
pub struct SuccessView {
    pub token: Option<Seq<char>>,
    pub user_id: i32,
    pub verification_mode: Seq<char>,
    pub verification_sent: bool,
}

impl DeepView for Success {
    type V = SuccessView;

    open spec fn deep_view(&self) -> SuccessView {
        SuccessView {
            token: self.token.deep_view(),
            user_id: self.user_id,
            verification_mode: self.verification_mode@,
            verification_sent: self.verification_sent,
        }
    }
}

impl Success {
    /// Whether a document is an object in which every member of the record
    /// can be read.
    pub open spec fn spec_complete(j: JsonValue) -> bool {
        &&& j is Object
        &&& spec_optional::<String>(j, "token"@) is Some
        &&& spec_required::<i32>(j, "idUser"@) is Some
        &&& spec_required::<String>(j, "verification_mode"@) is Some
        &&& spec_required::<bool>(j, "verification_sent"@) is Some
    }
}

impl Decode for Success {
    open spec fn spec_decode(j: JsonValue) -> Option<SuccessView> {
        if Self::spec_complete(j) {
            Some(
                SuccessView {
                    token: spec_optional::<String>(j, "token"@)->0,
                    user_id: spec_required::<i32>(j, "idUser"@)->0,
                    verification_mode: spec_required::<String>(j, "verification_mode"@)->0,
                    verification_sent: spec_required::<bool>(j, "verification_sent"@)->0,
                },
            )
        } else {
            None
        }
    }

    fn decode(j: &Json) -> (r: Option<Success>) {
        if !j.is_object() {
            return None;
        }
        Some(
            Success {
                token: optional::<String>(j, "token")?,
                user_id: required::<i32>(j, "idUser")?,
                verification_mode: required::<String>(j, "verification_mode")?,
                verification_sent: required::<bool>(j, "verification_sent")?,
            },
        )
    }
}

/// The answer to a demo login that was accepted.
#[derive(Debug, Clone, PartialEq, Eq)]
pub struct DemoSuccess {
    pub token: Option<String>,
}

/// The value of a [`DemoSuccess`].
pub struct DemoSuccessView {
    pub token: Option<Seq<char>>,
}

impl DeepView for DemoSuccess {
    type V = DemoSuccessView;

    open spec fn deep_view(&self) -> DemoSuccessView {
        DemoSuccessView {
            token: self.token.deep_view(),
        }
    }
}

impl DemoSuccess {
    /// Whether a document is an object in which every member of the record
    /// can be read.
    pub open spec fn spec_complete(j: JsonValue) -> bool {
        &&& j is Object
        &&& spec_optional::<String>(j, "token"@) is Some
    }
}

impl Decode for DemoSuccess {
    open spec fn spec_decode(j: JsonValue) -> Option<DemoSuccessView> {
        if Self::spec_complete(j) {
            Some(
                DemoSuccessView {
                    token: spec_optional::<String>(j, "token"@)->0,
                },
            )
        } else {
            None
        }
    }

    fn decode(j: &Json) -> (r: Option<DemoSuccess>) {
        if !j.is_object() {
            return None;
        }
        Some(
            DemoSuccess {
                token: optional::<String>(j, "token")?,
            },
        )
    }
}

/// The document that stands for an optional text: the text, or `null`.
pub open spec fn spec_text_or_null(text: Option<Seq<char>>) -> JsonValue {
    match text {
        Some(t) => JsonValue::String(t),
        None => JsonValue::Null,
    }
}

impl Victron {
    /// The request of a password login.
    pub open spec fn spec_login_request(
        username: Seq<char>,
        password: Seq<char>,
        sms_token: Option<Seq<char>>,
        remember_me: bool,
    ) -> RequestView {
        RequestView {
            method: Method::Post,
            url: base_url() + "/auth/login"@,
            headers: Seq::empty(),
            body: Some(
                JsonValue::Object(
                    seq![
                        ("username"@, JsonValue::String(username)),
                        ("password"@, JsonValue::String(password)),
                        ("sms_token"@, spec_text_or_null(sms_token)),
                        ("remember_me"@, JsonValue::Bool(remember_me)),
                    ],
                ),
            ),
        }
    }

    /// The request that logs into the Victron API.
    pub fn login_request(
        username: &str,
        password: &str,
        sms_token: Option<&str>,
        remember_me: bool,
    ) -> (r: Request)
        ensures
            r.deep_view() == Self::spec_login_request(
                username@,
                password@,
                sms_token.deep_view(),
                remember_me,
            ),
    {
        let mut members: Vec<(String, Json)> = Vec::new();
        assert(members.deep_view() =~= Seq::empty());
        push_member(&mut members, "username", Json::string(username));
        push_member(&mut members, "password", Json::string(password));
        let sms = match sms_token {
            Some(t) => Json::string(t),
            None => Json::Null,
        };
        push_member(&mut members, "sms_token", sms);
        push_member(&mut members, "remember_me", Json::Bool(remember_me));
        assert(members.deep_view() =~= seq![
            ("username"@, JsonValue::String(username@)),
            ("password"@, JsonValue::String(password@)),
            ("sms_token"@, spec_text_or_null(sms_token.deep_view())),
            ("remember_me"@, JsonValue::Bool(remember_me)),
        ]);
        Request {
            method: Method::Post,
            url: endpoint("/auth/login"),
            headers: no_headers(),
            body: Some(object(members)),
        }
    }

    /// The token in the answer to a login. A login that was accepted without
    /// a token, or with `null` for one, is a `no_token` failure, whatever else
    /// the answer holds.
    pub open spec fn spec_token(response: ResponseView) -> Result<Seq<char>, ErrorView> {
        match spec_payload::<DemoSuccess>(response) {
            Ok(answer) => match answer.token {
                Some(token) => Ok(token),
                None => Err(ErrorView::Victron(FailureView::no_token())),
            },
            Err(error) => Err(error),
        }
    }

    fn token_of(response: &Response) -> (r: Result<String, Error>)
        ensures
            outcome(r) == Self::spec_token(response.deep_view()),
    {
        match payload::<DemoSuccess>(response) {
            Ok(answer) => match answer.token {
                Some(token) => Ok(token),
                None => Err(Error::Victron(Failure::no_token())),
            },
            Err(error) => Err(error),
        }
    }

    /// The user id in the answer to a login with credentials.
    pub open spec fn spec_login_user_id(response: ResponseView) -> Result<i32, ErrorView> {
        match spec_payload::<Success>(response) {
            Ok(success) => Ok(success.user_id),
            Err(error) => Err(error),
        }
    }

    fn login_user_id(response: &Response) -> (r: Result<i32, Error>)
        ensures
            outcome(r) == Self::spec_login_user_id(response.deep_view()),
    {
        match payload::<Success>(response) {
            Ok(success) => Ok(success.user_id),
            Err(error) => Err(error),
        }
    }

    /// What the answer to a password login means: a session with the token as
    /// its bearer credential and the user id of the answer, or the error that
    /// the answer amounts to.
    pub open spec fn spec_login(response: ResponseView) -> Result<VictronView, ErrorView> {
        match Self::spec_token(response) {
            Ok(token) => match Self::spec_login_user_id(response) {
                Ok(user_id) => Ok(
                    VictronView { token: TokenView::Bearer(token), user_id: Some(user_id) },
                ),
                Err(error) => Err(error),
            },
            Err(error) => Err(error),
        }
    }

    /// Reads the answer to a password login.
    ///
    /// # Errors
    /// - `Error::Victron` with the failure that the API reports, if the login
    ///   failed, for example due to incorrect credentials.
    /// - `Error::Victron` with code `no_token`, if the login was accepted and
    ///   the answer holds no token.
    /// - `Error::Victron` with code `malformed_response`, if the body is not
    ///   what the API promises.
    pub fn login(response: &Response) -> (r: Result<Victron, Error>)
        ensures
            outcome(r) == Self::spec_login(response.deep_view()),
    {
        let token = match Self::token_of(response) {
            Ok(token) => token,
            Err(error) => {
                return Err(error);
            },
        };
        match Self::login_user_id(response) {
            Ok(user_id) => Ok(Victron::new(Token::Bearer(token), Some(user_id))),
            Err(error) => Err(error),
        }
    }

    /// The request of a login with an access token.
    pub open spec fn spec_login_access_token_request(
        username: Seq<char>,
        access_token: Seq<char>,
    ) -> RequestView {
        RequestView {
            method: Method::Post,
            url: base_url() + "/auth/login"@,
            headers: Seq::empty(),
            body: Some(
                JsonValue::Object(
                    seq![
                        ("username"@, JsonValue::String(username)),
                        ("password"@, JsonValue::String(access_token)),
                        ("remember_me"@, JsonValue::Bool(true)),
                    ],
                ),
            ),
        }
    }

    /// The request that logs into the Victron API with an access token.
    pub fn login_access_token_request(username: &str, access_token: &str) -> (r: Request)
        ensures
            r.deep_view() == Self::spec_login_access_token_request(username@, access_token@),
    {
        let mut members: Vec<(String, Json)> = Vec::new();
        assert(members.deep_view() =~= Seq::empty());
        push_member(&mut members, "username", Json::string(username));
        push_member(&mut members, "password", Json::string(access_token));
        push_member(&mut members, "remember_me", Json::Bool(true));
        assert(members.deep_view() =~= seq![
            ("username"@, JsonValue::String(username@)),
            ("password"@, JsonValue::String(access_token@)),
            ("remember_me"@, JsonValue::Bool(true)),
        ]);
        Request {
            method: Method::Post,
            url: endpoint("/auth/login"),
            headers: no_headers(),
            body: Some(object(members)),
        }
    }

    /// What the answer to a login with an access token means: as for a
    /// password login, with the token as an access credential.
    pub open spec fn spec_login_access_token(response: ResponseView) -> Result<
        VictronView,
        ErrorView,
    > {
        match Self::spec_token(response) {
            Ok(token) => match Self::spec_login_user_id(response) {
                Ok(user_id) => Ok(
                    VictronView { token: TokenView::Access(token), user_id: Some(user_id) },
                ),
                Err(error) => Err(error),
            },
            Err(error) => Err(error),
        }
    }

    /// Reads the answer to a login with an access token.
    ///
    /// # Errors
    /// As for [`Victron::login`].
    pub fn login_access_token(response: &Response) -> (r: Result<Victron, Error>)
        ensures
            outcome(r) == Self::spec_login_access_token(response.deep_view()),
    {
        let token = match Self::token_of(response) {
            Ok(token) => token,
            Err(error) => {
                return Err(error);
            },
        };
        match Self::login_user_id(response) {
            Ok(user_id) => Ok(Victron::new(Token::Access(token), Some(user_id))),
            Err(error) => Err(error),
        }
    }

    /// The request of a demo login.
    pub open spec fn spec_login_as_demo_request() -> RequestView {
        RequestView {
            method: Method::Post,
            url: base_url() + "/auth/loginAsDemo"@,
            headers: seq![("content-type"@, "application/json"@)],
            body: None,
        }
    }

    /// The request that logs into the Victron API as a demo user.
    pub fn login_as_demo_request() -> (r: Request)
        ensures
            r.deep_view() == Self::spec_login_as_demo_request(),
    {
        let mut headers = no_headers();
        push_header(&mut headers, "content-type", "application/json".to_owned());
        Request {
            method: Method::Post,
            url: endpoint("/auth/loginAsDemo"),
            headers,
            body: None,
        }
    }

    /// What the answer to a demo login means: a session with the token as
    /// its bearer credential and no user id yet, or the error that the answer
    /// amounts to.
    pub open spec fn spec_login_as_demo(response: ResponseView) -> Result<VictronView, ErrorView> {
        match Self::spec_token(response) {
            Ok(token) => Ok(VictronView { token: TokenView::Bearer(token), user_id: None }),
            Err(error) => Err(error),
        }
    }

    /// Reads the answer to a demo login.
    ///
    /// # Errors
    /// As for [`Victron::login`].
    pub fn login_as_demo(response: &Response) -> (r: Result<Victron, Error>)
        ensures
            outcome(r) == Self::spec_login_as_demo(response.deep_view()),
    {
        match Self::token_of(response) {
            Ok(token) => Ok(Victron::new(Token::Bearer(token), None)),
            Err(error) => Err(error),
        }
    }
}

/// A login that was accepted with a token yields a session that presents the
/// token as `Bearer <token>` after a password or demo login, and as
/// `Token <token>` after a login with an access token.
pub proof fn lemma_login_presents_token(response: ResponseView)
    ensures
        Victron::spec_login(response) matches Ok(session) ==> Victron::spec_token(response)
            matches Ok(token) && session.token.header() == "Bearer "@ + token,
        Victron::spec_login_as_demo(response) matches Ok(session) ==> Victron::spec_token(response)
            matches Ok(token) && session.token.header() == "Bearer "@ + token,
        Victron::spec_login_access_token(response) matches Ok(session) ==> Victron::spec_token(
            response,
        ) matches Ok(token) && session.token.header() == "Token "@ + token,
{
}

/// Where a response with a status of 200 to 299 holds an object with a text
/// under `token`, that text is the token of the login, and a demo login yields
/// a session with it. The other two logins do so as well once the rest of the
/// answer can be read.
pub proof fn lemma_login_token(response: ResponseView, token: Seq<char>)
    requires
        response.is_success(),
        response.body matches Some(j) && j is Object && j.get("token"@) == Some(
            JsonValue::String(token),
        ),
    ensures
        Victron::spec_token(response) == Ok::<Seq<char>, ErrorView>(token),
        Victron::spec_login_as_demo(response) == Ok::<VictronView, ErrorView>(
            VictronView { token: TokenView::Bearer(token), user_id: None },
        ),
        Success::spec_decode(response.body->0) matches Some(success) ==> {
            &&& Victron::spec_login(response) == Ok::<VictronView, ErrorView>(
                VictronView { token: TokenView::Bearer(token), user_id: Some(success.user_id) },
            )
            &&& Victron::spec_login_access_token(response) == Ok::<VictronView, ErrorView>(
                VictronView { token: TokenView::Access(token), user_id: Some(success.user_id) },
            )
        },
{
}

/// A login that was accepted with a status of 200 to 299 and an object that
/// has no `token` member, or `null` there, fails with the code `no_token`.
pub proof fn lemma_login_without_token(response: ResponseView)
    requires
        response.is_success(),
        response.body matches Some(j) && j is Object && (j.get("token"@) is None || j.get(
            "token"@,
        ) == Some(JsonValue::Null)),
    ensures
        Victron::spec_login(response) == Err::<VictronView, ErrorView>(
            ErrorView::Victron(FailureView::no_token()),
        ),
        Victron::spec_login_access_token(response) == Err::<VictronView, ErrorView>(
            ErrorView::Victron(FailureView::no_token()),
        ),
        Victron::spec_login_as_demo(response) == Err::<VictronView, ErrorView>(
            ErrorView::Victron(FailureView::no_token()),
        ),
        FailureView::no_token().error_code == Some("no_token"@),
        !FailureView::no_token().success,
{
}

} // verus!
