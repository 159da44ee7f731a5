use victron_energy_api::json::{Json, Number};
use victron_energy_api::transport::{Method, Request, Response};
use victron_energy_api::{Error, Failure, Step, Token, Victron};

const ACCEPTED: &[u8] =
    br#"{"token":"abc","idUser":42,"verification_mode":"none","verification_sent":false}"#;

fn text(s: &str) -> Json {
    Json::String(s.to_string())
}

fn header<'a>(request: &'a Request, name: &str) -> Option<&'a str> {
    request
        .headers
        .iter()
        .find(|(n, _)| n == name)
        .map(|(_, v)| v.as_str())
}

fn no_token() -> Error {
    Error::Victron(Failure {
        success: false,
        errors: text("No token returned"),
        error_code: Some("no_token".to_string()),
    })
}

fn malformed() -> Error {
    Error::Victron(Failure {
        success: false,
        errors: text("Malformed response"),
        error_code: Some("malformed_response".to_string()),
    })
}

#[test]
fn login_request_posts_the_credentials() {
    let request = Victron::login_request("john@example.com", "somepassword", None, false);
    assert_eq!(request.method, Method::Post);
    assert_eq!(request.url, "https://vrmapi.victronenergy.com/v2/auth/login");
    assert_eq!(request.headers, vec![]);
    assert_eq!(
        request.body,
        Some(Json::Object(vec![
            ("username".to_string(), text("john@example.com")),
            ("password".to_string(), text("somepassword")),
            ("sms_token".to_string(), Json::Null),
            ("remember_me".to_string(), Json::Bool(false)),
        ]))
    );
}

#[test]
fn login_request_carries_the_sms_token() {
    let request = Victron::login_request("u", "p", Some("123456"), true);
    let body = request.body.unwrap();
    assert_eq!(body.get("sms_token"), Some(&text("123456")));
    assert_eq!(body.get("remember_me"), Some(&Json::Bool(true)));
}

#[test]
fn login_access_token_request_sends_the_token_as_password() {
    let request = Victron::login_access_token_request("john@example.com", "tok-1");
    assert_eq!(request.method, Method::Post);
    assert_eq!(request.url, "https://vrmapi.victronenergy.com/v2/auth/login");
    assert_eq!(request.headers, vec![]);
    assert_eq!(
        request.body,
        Some(Json::Object(vec![
            ("username".to_string(), text("john@example.com")),
            ("password".to_string(), text("tok-1")),
            ("remember_me".to_string(), Json::Bool(true)),
        ]))
    );
}

#[test]
fn login_as_demo_request_has_no_body() {
    let request = Victron::login_as_demo_request();
    assert_eq!(request.method, Method::Post);
    assert_eq!(
        request.url,
        "https://vrmapi.victronenergy.com/v2/auth/loginAsDemo"
    );
    assert_eq!(
        request.headers,
        vec![("content-type".to_string(), "application/json".to_string())]
    );
    assert_eq!(request.body, None);
}

#[test]
fn login_yields_a_bearer_session() {
    let session = Victron::login(&Response::new(200, ACCEPTED)).unwrap();
    assert_eq!(session.token(), &Token::Bearer("abc".to_string()));
    assert_eq!(session.token().to_string(), "Bearer abc");
    assert_eq!(session.user_id(), Some(42));
}

#[test]
fn login_access_token_yields_an_access_session() {
    let session = Victron::login_access_token(&Response::new(200, ACCEPTED)).unwrap();
    assert_eq!(session.token(), &Token::Access("abc".to_string()));
    assert_eq!(session.token().to_string(), "Token abc");
    assert_eq!(session.user_id(), Some(42));
}

#[test]
fn login_as_demo_yields_a_bearer_session_without_user_id() {
    let session = Victron::login_as_demo(&Response::new(200, br#"{"token":"demo-1"}"#)).unwrap();
    assert_eq!(session.token().to_string(), "Bearer demo-1");
    assert_eq!(session.user_id(), None);
}

#[test]
fn token_header_has_the_prefix_of_its_kind() {
    assert_eq!(Token::Bearer("t".to_string()).to_string(), "Bearer t");
    assert_eq!(Token::Access("t".to_string()).to_string(), "Token t");
    assert_eq!(Token::Bearer(String::new()).to_string(), "Bearer ");
    assert_eq!(Token::Access("a b".to_string()).to_string(), "Token a b");
}

#[test]
fn login_then_user_info_presents_the_bearer_token() {
    let request = Victron::login_request("john@example.com", "somepassword", None, false);
    assert_eq!(request.url, "https://vrmapi.victronenergy.com/v2/auth/login");
    let session = Victron::login(&Response::new(200, ACCEPTED)).unwrap();
    let request = session.get_user_info_request();
    assert_eq!(request.method, Method::Get);
    assert_eq!(request.url, "https://vrmapi.victronenergy.com/v2/users/me");
    assert_eq!(header(&request, "x-authorization"), Some("Bearer abc"));
    assert_eq!(header(&request, "content-type"), Some("application/json"));
    assert_eq!(request.body, None);
}

#[test]
fn access_session_presents_its_token_as_token() {
    let session = Victron::login_access_token(&Response::new(200, ACCEPTED)).unwrap();
    let request = session.get_user_info_request();
    assert_eq!(header(&request, "x-authorization"), Some("Token abc"));
    match session.get_all_installations_or_sites_request(false) {
        Step::Ready(request) => {
            assert_eq!(header(&request, "x-authorization"), Some("Token abc"))
        }
        Step::Resolve(_) => panic!("the user id is known"),
    }
}

#[test]
fn login_without_token_is_a_no_token_failure() {
    let body = br#"{"idUser":42,"verification_mode":"sms","verification_sent":true}"#;
    assert_eq!(Victron::login(&Response::new(200, body)), Err(no_token()));
    assert_eq!(
        Victron::login_access_token(&Response::new(200, body)),
        Err(no_token())
    );
    assert_eq!(
        Victron::login_as_demo(&Response::new(200, b"{}")),
        Err(no_token())
    );
}

#[test]
fn login_with_null_token_is_a_no_token_failure() {
    let body = br#"{"token":null,"idUser":42,"verification_mode":"sms","verification_sent":true}"#;
    assert_eq!(Victron::login(&Response::new(201, body)), Err(no_token()));
    assert_eq!(
        Victron::login_as_demo(&Response::new(299, br#"{"token":null}"#)),
        Err(no_token())
    );
}

#[test]
fn login_without_token_comes_before_the_other_members() {
    assert_eq!(Victron::login(&Response::new(200, b"{}")), Err(no_token()));
}

#[test]
fn no_token_failure_has_its_code() {
    let failure = Failure::no_token();
    assert!(!failure.success);
    assert_eq!(failure.error_code, Some("no_token".to_string()));
    assert_eq!(failure.errors, text("No token returned"));
}

#[test]
fn login_with_unreadable_answer_is_malformed() {
    assert_eq!(
        Victron::login(&Response::new(200, br#"{"token":"abc"}"#)),
        Err(malformed())
    );
    assert_eq!(
        Victron::login(&Response::new(
            200,
            br#"{"token":"abc","idUser":"42","verification_mode":"none","verification_sent":false}"#
        )),
        Err(malformed())
    );
    assert_eq!(
        Victron::login(&Response::new(
            200,
            br#"{"token":7,"idUser":42,"verification_mode":"none","verification_sent":false}"#
        )),
        Err(malformed())
    );
    assert_eq!(Victron::login(&Response::new(200, b"not json")), Err(malformed()));
    assert_eq!(Victron::login(&Response::new(200, b"[]")), Err(malformed()));
    assert_eq!(Victron::login_as_demo(&Response::new(200, b"")), Err(malformed()));
}

#[test]
fn login_user_id_must_fit() {
    let body = br#"{"token":"abc","idUser":2147483648,"verification_mode":"none","verification_sent":false}"#;
    assert_eq!(Victron::login(&Response::new(200, body)), Err(malformed()));
    let body = br#"{"token":"abc","idUser":-2147483648,"verification_mode":"none","verification_sent":false}"#;
    assert_eq!(
        Victron::login(&Response::new(200, body)).unwrap().user_id(),
        Some(i32::MIN)
    );
    let body = br#"{"token":"abc","idUser":1.0,"verification_mode":"none","verification_sent":false}"#;
    assert_eq!(Victron::login(&Response::new(200, body)), Err(malformed()));
}

#[test]
fn refused_login_reports_the_failure() {
    let body = br#"{"success":false,"errors":{"password":"wrong"},"error_code":"invalid_credentials"}"#;
    let expected = Failure {
        success: false,
        errors: Json::Object(vec![("password".to_string(), text("wrong"))]),
        error_code: Some("invalid_credentials".to_string()),
    };
    assert_eq!(
        Victron::login(&Response::new(401, body)),
        Err(Error::Victron(expected.clone()))
    );
    assert_eq!(
        Victron::login_access_token(&Response::new(403, body)),
        Err(Error::Victron(expected.clone()))
    );
    assert_eq!(
        Victron::login_as_demo(&Response::new(500, body)),
        Err(Error::Victron(expected))
    );
}

#[test]
fn failure_keeps_any_errors_payload() {
    let body = br#"{"success":false,"errors":[1,{"a":null},"x",-2.5],"error_code":null}"#;
    let expected = Failure {
        success: false,
        errors: Json::Array(vec![
            Json::Number(Number::PosInt(1)),
            Json::Object(vec![("a".to_string(), Json::Null)]),
            text("x"),
            Json::Number(Number::Float((-2.5f64).to_bits())),
        ]),
        error_code: None,
    };
    assert_eq!(
        Victron::login(&Response::new(400, body)),
        Err(Error::Victron(expected))
    );
}

#[test]
fn failure_without_code_has_none() {
    let body = br#"{"success":false,"errors":"Token is invalid"}"#;
    assert_eq!(
        Victron::login(&Response::new(401, body)),
        Err(Error::Victron(Failure {
            success: false,
            errors: text("Token is invalid"),
            error_code: None,
        }))
    );
}

#[test]
fn refused_login_with_unreadable_body_is_malformed() {
    assert_eq!(
        Victron::login(&Response::new(502, b"<html>Bad Gateway</html>")),
        Err(malformed())
    );
    assert_eq!(
        Victron::login(&Response::new(401, br#"{"success":false}"#)),
        Err(malformed())
    );
    assert_eq!(
        Victron::login(&Response::new(401, br#"{"errors":"x"}"#)),
        Err(malformed())
    );
    assert_eq!(
        Victron::login(&Response::new(401, br#"{"success":false,"errors":"x","error_code":5}"#)),
        Err(malformed())
    );
}

#[test]
fn only_statuses_from_200_to_299_are_success() {
    assert!(!Response::new(199, ACCEPTED).is_success());
    assert!(Response::new(200, ACCEPTED).is_success());
    assert!(Response::new(204, ACCEPTED).is_success());
    assert!(Response::new(299, ACCEPTED).is_success());
    assert!(!Response::new(300, ACCEPTED).is_success());
    assert!(!Response::new(404, ACCEPTED).is_success());
    assert_eq!(Victron::login(&Response::new(300, ACCEPTED)), Err(malformed()));
    assert_eq!(Victron::login(&Response::new(199, ACCEPTED)), Err(malformed()));
}

#[test]
fn error_from_failure_is_the_victron_kind() {
    let failure = Failure::no_token();
    assert_eq!(Error::from(failure.clone()), Error::Victron(failure));
}
