//! The user and the installations of a session.
//!
//! The installations of a user live under that user's id, so each of these
//! operations first needs the id to be known: see [`Step`].

use crate::decode::{optional, required, spec_optional, spec_required, Decode};
use crate::installations::{Installation, InstallationView};
use crate::json::{object, push_member, Json, JsonValue, Number};
use crate::text::{append_i32, decimal};
use crate::transport::{
    no_headers, push_header, Method, Request, RequestView, Response, ResponseView,
};
use crate::{
    base_url, endpoint, outcome, payload, spec_payload, Error, ErrorView, Failure, FailureView,
    Step, StepView, Victron, VictronView,
};
use vstd::prelude::*;

verus! {

/// The answer to a request for the user of the session.
#[derive(Debug, Clone, PartialEq, Eq)]
pub struct UserSuccess {
    pub success: bool,
    pub user: User,
}

/// The value of a [`UserSuccess`].
pub struct UserSuccessView {
    pub success: bool,
    pub user: UserView,
}

impl DeepView for UserSuccess {
    type V = UserSuccessView;

    open spec fn deep_view(&self) -> UserSuccessView {
        UserSuccessView {
            success: self.success,
            user: self.user.deep_view(),
        }
    }
}

impl UserSuccess {
    /// Whether a document is an object in which every member of the record
    /// can be read.
    pub open spec fn spec_complete(j: JsonValue) -> bool {
        &&& j is Object
        &&& spec_required::<bool>(j, "success"@) is Some
        &&& spec_required::<User>(j, "user"@) is Some
    }
}

impl Decode for UserSuccess {
    open spec fn spec_decode(j: JsonValue) -> Option<UserSuccessView> {
        if Self::spec_complete(j) {
            Some(
                UserSuccessView {
                    success: spec_required::<bool>(j, "success"@)->0,
                    user: spec_required::<User>(j, "user"@)->0,
                },
            )
        } else {
            None
        }
    }

    fn decode(j: &Json) -> (r: Option<UserSuccess>) {
        if !j.is_object() {
            return None;
        }
        Some(
            UserSuccess {
                success: required::<bool>(j, "success")?,
                user: required::<User>(j, "user")?,
            },
        )
    }
}

/// The user of a session.
#[derive(Debug, Clone, PartialEq, Eq)]
pub struct User {
    /// The user id, as the API sends it: a number written as text.
    pub id: String,
    pub name: String,
    pub email: String,
    pub country: String,
}

/// The value of a [`User`].
pub struct UserView {
    pub id: Seq<char>,
    pub name: Seq<char>,
    pub email: Seq<char>,
    pub country: Seq<char>,
}

impl DeepView for User {
    type V = UserView;

    open spec fn deep_view(&self) -> UserView {
        UserView {
            id: self.id@,
            name: self.name@,
            email: self.email@,
            country: self.country@,
        }
    }
}

impl User {
    /// Whether a document is an object in which every member of the record
    /// can be read.
    pub open spec fn spec_complete(j: JsonValue) -> bool {
        &&& j is Object
        &&& spec_required::<String>(j, "id"@) is Some
        &&& spec_required::<String>(j, "name"@) is Some
        &&& spec_required::<String>(j, "email"@) is Some
        &&& spec_required::<String>(j, "country"@) is Some
    }
}

impl Decode for User {
    open spec fn spec_decode(j: JsonValue) -> Option<UserView> {
        if Self::spec_complete(j) {
            Some(
                UserView {
                    id: spec_required::<String>(j, "id"@)->0,
                    name: spec_required::<String>(j, "name"@)->0,
                    email: spec_required::<String>(j, "email"@)->0,
                    country: spec_required::<String>(j, "country"@)->0,
                },
            )
        } else {
            None
        }
    }

    fn decode(j: &Json) -> (r: Option<User>) {
        if !j.is_object() {
            return None;
        }
        Some(
            User {
                id: required::<String>(j, "id")?,
                name: required::<String>(j, "name")?,
                email: required::<String>(j, "email")?,
                country: required::<String>(j, "country")?,
            },
        )
    }
}

/// The answer to a request that added a site.
#[derive(Debug, Clone, PartialEq, Eq)]
pub struct AddNewSiteSuccess {
    pub success: bool,
    pub records: AddNewSite,
}

/// The value of an [`AddNewSiteSuccess`].
pub struct AddNewSiteSuccessView {
    pub success: bool,
    pub records: AddNewSiteView,
}

impl DeepView for AddNewSiteSuccess {
    type V = AddNewSiteSuccessView;

    open spec fn deep_view(&self) -> AddNewSiteSuccessView {
        AddNewSiteSuccessView {
            success: self.success,
            records: self.records.deep_view(),
        }
    }
}

impl AddNewSiteSuccess {
    /// Whether a document is an object in which every member of the record
    /// can be read.
    pub open spec fn spec_complete(j: JsonValue) -> bool {
        &&& j is Object
        &&& spec_required::<bool>(j, "success"@) is Some
        &&& spec_required::<AddNewSite>(j, "records"@) is Some
    }
}

impl Decode for AddNewSiteSuccess {
    open spec fn spec_decode(j: JsonValue) -> Option<AddNewSiteSuccessView> {
        if Self::spec_complete(j) {
            Some(
                AddNewSiteSuccessView {
                    success: spec_required::<bool>(j, "success"@)->0,
                    records: spec_required::<AddNewSite>(j, "records"@)->0,
                },
            )
        } else {
            None
        }
    }

    fn decode(j: &Json) -> (r: Option<AddNewSiteSuccess>) {
        if !j.is_object() {
            return None;
        }
        Some(
            AddNewSiteSuccess {
                success: required::<bool>(j, "success")?,
                records: required::<AddNewSite>(j, "records")?,
            },
        )
    }
}

/// The site that was added.
#[derive(Debug, Clone, PartialEq, Eq)]
pub struct AddNewSite {
    pub site_id: String,
}

/// The value of an [`AddNewSite`].
pub struct AddNewSiteView {
    pub site_id: Seq<char>,
}

impl DeepView for AddNewSite {
    type V = AddNewSiteView;

    open spec fn deep_view(&self) -> AddNewSiteView {
        AddNewSiteView {
            site_id: self.site_id@,
        }
    }
}

impl AddNewSite {
    /// Whether a document is an object in which every member of the record
    /// can be read.
    pub open spec fn spec_complete(j: JsonValue) -> bool {
        &&& j is Object
        &&& spec_required::<String>(j, "site_id"@) is Some
    }
}

impl Decode for AddNewSite {
    open spec fn spec_decode(j: JsonValue) -> Option<AddNewSiteView> {
        if Self::spec_complete(j) {
            Some(
                AddNewSiteView {
                    site_id: spec_required::<String>(j, "site_id"@)->0,
                },
            )
        } else {
            None
        }
    }

    fn decode(j: &Json) -> (r: Option<AddNewSite>) {
        if !j.is_object() {
            return None;
        }
        Some(
            AddNewSite {
                site_id: required::<String>(j, "site_id")?,
            },
        )
    }
}

/// The answer to a request for installations.
#[derive(Debug, Clone, PartialEq, Eq)]
pub struct InstallationSuccess {
    pub success: bool,
    pub records: Vec<Installation>,
}

/// The value of an [`InstallationSuccess`].
pub struct InstallationSuccessView {
    pub success: bool,
    pub records: Seq<InstallationView>,
}

impl DeepView for InstallationSuccess {
    type V = InstallationSuccessView;

    open spec fn deep_view(&self) -> InstallationSuccessView {
        InstallationSuccessView {
            success: self.success,
            records: self.records.deep_view(),
        }
    }
}

impl InstallationSuccess {
    /// Whether a document is an object in which every member of the record
    /// can be read.
    pub open spec fn spec_complete(j: JsonValue) -> bool {
        &&& j is Object
        &&& spec_required::<bool>(j, "success"@) is Some
        &&& spec_required::<Vec<Installation>>(j, "records"@) is Some
    }
}

impl Decode for InstallationSuccess {
    open spec fn spec_decode(j: JsonValue) -> Option<InstallationSuccessView> {
        if Self::spec_complete(j) {
            Some(
                InstallationSuccessView {
                    success: spec_required::<bool>(j, "success"@)->0,
                    records: spec_required::<Vec<Installation>>(j, "records"@)->0,
                },
            )
        } else {
            None
        }
    }

    fn decode(j: &Json) -> (r: Option<InstallationSuccess>) {
        if !j.is_object() {
            return None;
        }
        Some(
            InstallationSuccess {
                success: required::<bool>(j, "success")?,
                records: required::<Vec<Installation>>(j, "records")?,
            },
        )
    }
}

/// The address of an endpoint of one user: `/users/`, the user id in
/// decimal, and the rest of the path.
pub open spec fn spec_user_url(user_id: i32, rest: Seq<char>) -> Seq<char> {
    base_url() + "/users/"@ + decimal(user_id as int) + rest
}

fn user_url(user_id: i32, rest: &str) -> (r: String)
    ensures
        r@ == spec_user_url(user_id, rest@),
{
    let mut url = endpoint("/users/");
    append_i32(&mut url, user_id);
    url.append(rest);
    url
}

/// How the API wants a flag: 1 for true, 0 for false.
pub open spec fn spec_flag(flag: bool) -> JsonValue {
    JsonValue::Number(
        Number::PosInt(
            if flag {
                1
            } else {
                0
            },
        ),
    )
}

fn flag(on: bool) -> (r: Json)
    ensures
        r.deep_view() == spec_flag(on),
{
    if on {
        Json::Number(Number::PosInt(1))
    } else {
        Json::Number(Number::PosInt(0))
    }
}

impl VictronView {
    /// The header that presents the credential of the session.
    pub open spec fn authorization(self) -> (Seq<char>, Seq<char>) {
        ("x-authorization"@, self.token.header())
    }

    /// The request for the user of the session.
    pub open spec fn get_user_info_request(self) -> RequestView {
        RequestView {
            method: Method::Get,
            url: base_url() + "/users/me"@,
            headers: seq![self.authorization(), ("content-type"@, "application/json"@)],
            body: None,
        }
    }

    /// The next step for an operation whose request `request` makes from the
    /// user id: that request where the user id is known, and the request for
    /// the user where it is not.
    pub open spec fn step(self, request: spec_fn(i32) -> RequestView) -> StepView<RequestView> {
        match self.user_id {
            Some(user_id) => StepView::Ready(request(user_id)),
            None => StepView::Resolve(self.get_user_info_request()),
        }
    }

    /// The request that adds a site to the user `user_id`.
    pub open spec fn add_site(self, user_id: i32, identifier: Seq<char>) -> RequestView {
        RequestView {
            method: Method::Post,
            url: spec_user_url(user_id, "/addSite"@),
            headers: seq![self.authorization()],
            body: Some(JsonValue::Object(seq![("siteIdentifier"@, JsonValue::String(identifier))])),
        }
    }

    /// The request for all installations of the user `user_id`.
    pub open spec fn all_installations(self, user_id: i32, extended: bool) -> RequestView {
        RequestView {
            method: Method::Get,
            url: spec_user_url(user_id, "/installations"@),
            headers: seq![self.authorization()],
            body: Some(JsonValue::Object(seq![("extended"@, spec_flag(extended))])),
        }
    }

    /// The request for the installation `site_id` of the user `user_id`.
    pub open spec fn one_installation(
        self,
        user_id: i32,
        extended: bool,
        site_id: i32,
    ) -> RequestView {
        RequestView {
            method: Method::Get,
            url: spec_user_url(user_id, "/installations"@),
            headers: seq![self.authorization()],
            body: Some(
                JsonValue::Object(
                    seq![
                        ("extended"@, spec_flag(extended)),
                        ("siteId"@, JsonValue::Number(Json::spec_integer(site_id as int))),
                    ],
                ),
            ),
        }
    }

    /// The next step of adding a site.
    pub open spec fn add_new_site_request(self, identifier: Seq<char>) -> StepView<RequestView> {
        self.step(|user_id: i32| self.add_site(user_id, identifier))
    }

    /// The next step of fetching all installations.
    pub open spec fn get_all_installations_or_sites_request(self, extended: bool) -> StepView<
        RequestView,
    > {
        self.step(|user_id: i32| self.all_installations(user_id, extended))
    }

    /// The next step of fetching one installation.
    pub open spec fn get_installation_or_site_request(
        self,
        extended: bool,
        site_id: i32,
    ) -> StepView<RequestView> {
        self.step(|user_id: i32| self.one_installation(user_id, extended, site_id))
    }
}

impl Victron {
    fn authorized(&self) -> (r: Vec<(String, String)>)
        ensures
            r.deep_view() == seq![self.deep_view().authorization()],
    {
        let mut headers = no_headers();
        push_header(&mut headers, "x-authorization", self.token().to_string());
        headers
    }

    /// The request that retrieves id, name, email and country of the user
    /// that is currently logged in.
    pub fn get_user_info_request(&self) -> (r: Request)
        ensures
            r.deep_view() == self.deep_view().get_user_info_request(),
    {
        let mut headers = self.authorized();
        push_header(&mut headers, "content-type", "application/json".to_owned());
        assert(headers.deep_view() =~= seq![
            self.deep_view().authorization(),
            ("content-type"@, "application/json"@),
        ]);
        Request { method: Method::Get, url: endpoint("/users/me"), headers, body: None }
    }

    /// What the answer to a request for the user means: the user, or the
    /// error in the response.
    pub open spec fn spec_get_user_info(response: ResponseView) -> Result<UserView, ErrorView> {
        match spec_payload::<UserSuccess>(response) {
            Ok(success) => Ok(success.user),
            Err(error) => Err(error),
        }
    }

    /// Reads the answer to a request for the user.
    ///
    /// # Errors
    /// - [`Error::Victron`] with the failure that the API reports, if the
    ///   request failed.
    /// - [`Error::Victron`] with code `malformed_response`, if the body is not
    ///   what the API promises.
    pub fn get_user_info(response: &Response) -> (r: Result<User, Error>)
        ensures
            outcome(r) == Self::spec_get_user_info(response.deep_view()),
    {
        match payload::<UserSuccess>(response) {
            Ok(success) => Ok(success.user),
            Err(error) => Err(error),
        }
    }

    /// The next step of adding a new site to the user: the request, or the
    /// request for the user where the user id must be resolved first. An email
    /// will be sent to the user with a link when the procedure is complete.
    pub fn add_new_site_request(&self, identifier: &str) -> (r: Step<Request>)
        ensures
            r.deep_view() == self.deep_view().add_new_site_request(identifier@),
    {
        match self.user_id() {
            Some(user_id) => {
                let mut members: Vec<(String, Json)> = Vec::new();
                assert(members.deep_view() =~= Seq::empty());
                push_member(&mut members, "siteIdentifier", Json::string(identifier));
                Step::Ready(
                    Request {
                        method: Method::Post,
                        url: user_url(user_id, "/addSite"),
                        headers: self.authorized(),
                        body: Some(object(members)),
                    },
                )
            },
            None => Step::Resolve(self.get_user_info_request()),
        }
    }

    /// What the answer to a request that adds a site means: the identifier of
    /// the new site, or the error in the response.
    pub open spec fn spec_add_new_site(response: ResponseView) -> Result<Seq<char>, ErrorView> {
        match spec_payload::<AddNewSiteSuccess>(response) {
            Ok(success) => Ok(success.records.site_id),
            Err(error) => Err(error),
        }
    }

    /// Reads the answer to a request that adds a site.
    ///
    /// # Errors
    /// As for [`Victron::get_user_info`].
    pub fn add_new_site(response: &Response) -> (r: Result<String, Error>)
        ensures
            outcome(r) == Self::spec_add_new_site(response.deep_view()),
    {
        match payload::<AddNewSiteSuccess>(response) {
            Ok(success) => Ok(success.records.site_id),
            Err(error) => Err(error),
        }
    }

    /// The next step of retrieving the installations to which the user is
    /// connected. Normal users can only retrieve their own, dealers those of
    /// their linked customers, and admins those of all users.
    pub fn get_all_installations_or_sites_request(&self, extended: bool) -> (r: Step<Request>)
        ensures
            r.deep_view() == self.deep_view().get_all_installations_or_sites_request(extended),
    {
        match self.user_id() {
            Some(user_id) => {
                let mut members: Vec<(String, Json)> = Vec::new();
                assert(members.deep_view() =~= Seq::empty());
                push_member(&mut members, "extended", flag(extended));
                Step::Ready(
                    Request {
                        method: Method::Get,
                        url: user_url(user_id, "/installations"),
                        headers: self.authorized(),
                        body: Some(object(members)),
                    },
                )
            },
            None => Step::Resolve(self.get_user_info_request()),
        }
    }

    /// What the answer to a request for all installations means: the
    /// installations in the order of the answer, or the error in the response.
    pub open spec fn spec_get_all_installations_or_sites(response: ResponseView) -> Result<
        Seq<InstallationView>,
        ErrorView,
    > {
        match spec_payload::<InstallationSuccess>(response) {
            Ok(success) => Ok(success.records),
            Err(error) => Err(error),
        }
    }

    /// Reads the answer to a request for all installations.
    ///
    /// # Errors
    /// As for [`Victron::get_user_info`].
    pub fn get_all_installations_or_sites(response: &Response) -> (r: Result<
        Vec<Installation>,
        Error,
    >)
        ensures
            outcome(r) == Self::spec_get_all_installations_or_sites(response.deep_view()),
    {
        match payload::<InstallationSuccess>(response) {
            Ok(success) => Ok(success.records),
            Err(error) => Err(error),
        }
    }

    /// The next step of retrieving a specific installation or site by its id.
    pub fn get_installation_or_site_request(&self, extended: bool, site_id: i32) -> (r: Step<
        Request,
    >)
        ensures
            r.deep_view() == self.deep_view().get_installation_or_site_request(extended, site_id),
    {
        match self.user_id() {
            Some(user_id) => {
                let mut members: Vec<(String, Json)> = Vec::new();
                assert(members.deep_view() =~= Seq::empty());
                push_member(&mut members, "extended", flag(extended));
                push_member(&mut members, "siteId", Json::integer(site_id));
                assert(members.deep_view() =~= seq![
                    ("extended"@, spec_flag(extended)),
                    ("siteId"@, JsonValue::Number(Json::spec_integer(site_id as int))),
                ]);
                Step::Ready(
                    Request {
                        method: Method::Get,
                        url: user_url(user_id, "/installations"),
                        headers: self.authorized(),
                        body: Some(object(members)),
                    },
                )
            },
            None => Step::Resolve(self.get_user_info_request()),
        }
    }

    /// What the answer to a request for one installation means: the first
    /// installation that the answer lists, a `no_installation` failure where
    /// it lists none, or the error in the response.
    pub open spec fn spec_get_installation_or_site(response: ResponseView) -> Result<
        InstallationView,
        ErrorView,
    > {
        match spec_payload::<InstallationSuccess>(response) {
            Ok(success) => if success.records.len() > 0 {
                Ok(success.records[0])
            } else {
                Err(ErrorView::Victron(FailureView::no_installation()))
            },
            Err(error) => Err(error),
        }
    }

    /// Reads the answer to a request for one installation.
    ///
    /// # Errors
    /// - [`Error::Victron`] with the failure that the API reports, if the
    ///   request failed.
    /// - [`Error::Victron`] with code `no_installation`, if the answer lists
    ///   no installation.
    /// - [`Error::Victron`] with code `malformed_response`, if the body is not
    ///   what the API promises.
    pub fn get_installation_or_site(response: &Response) -> (r: Result<Installation, Error>)
        ensures
            outcome(r) == Self::spec_get_installation_or_site(response.deep_view()),
    {
        match payload::<InstallationSuccess>(response) {
            Ok(success) => {
                let mut records = success.records;
                if records.len() > 0 {
                    Ok(records.swap_remove(0))
                } else {
                    Err(Error::Victron(Failure::no_installation()))
                }
            },
            Err(error) => Err(error),
        }
    }
}

/// Once the user id is known, every operation of a user is ready to send its
/// own request, and that request goes to the user's endpoints and presents the
/// credential of the session.
pub proof fn lemma_known_user_sends(
    session: VictronView,
    identifier: Seq<char>,
    extended: bool,
    site_id: i32,
)
    requires
        session.user_id is Some,
    ensures
        ({
            let user_id = session.user_id->0;
            &&& session.add_new_site_request(identifier) == StepView::Ready(
                session.add_site(user_id, identifier),
            )
            &&& session.get_all_installations_or_sites_request(extended) == StepView::Ready(
                session.all_installations(user_id, extended),
            )
            &&& session.get_installation_or_site_request(extended, site_id) == StepView::Ready(
                session.one_installation(user_id, extended, site_id),
            )
        }),
        session.get_user_info_request().headers[0] == ("x-authorization"@, session.token.header()),
{
}

/// A request for one installation whose answer lists none fails with the
/// code `no_installation`.
pub proof fn lemma_no_installation(response: ResponseView)
    requires
        spec_payload::<InstallationSuccess>(response) matches Ok(answer) && answer.records.len()
            == 0,
    ensures
        Victron::spec_get_installation_or_site(response) == Err::<InstallationView, ErrorView>(
            ErrorView::Victron(FailureView::no_installation()),
        ),
        FailureView::no_installation().error_code == Some("no_installation"@),
{
}

} // verus!
