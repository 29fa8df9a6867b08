use rat::driver::{FlowAction, FlowEvent, FlowState, Stage, BROWSER_MESSAGE, LINK_MESSAGE};
use rat::http::HttpVerb;
use rat::oauth::{
    AuthError, CliOAuth, Code, CodeWithBasicAuth, CodeWithBasicAuthScheme, CodeWithUrl, CodeWithUrlScheme,
    ExchangeScheme, GrantType, OutputMode,
};
use rat::token::{CenterDeviceToken, JsonToken, OAuthToken};

fn config(open_browser: bool) -> CliOAuth {
    CliOAuth {
        client_id: "id1".to_string(),
        client_secret: "secret1".to_string(),
        auth_endpoint: "https://x/authorize".to_string(),
        token_endpoint: "https://x/token".to_string(),
        redirect_uri: "https://cb".to_string(),
        open_browser,
    }
}

fn code(text: &str) -> Code {
    Code {
        code: text.to_string(),
        client_id: "id1".to_string(),
        client_secret: "secret1".to_string(),
        token_endpoint: "https://x/token".to_string(),
        redirect_uri: "https://cb".to_string(),
    }
}

fn header<'a>(headers: &'a [(String, String)], name: &str) -> Vec<&'a str> {
    headers.iter().filter(|(n, _)| n == name).map(|(_, v)| v.as_str()).collect()
}

#[test]
fn authorization_url_lists_parameters_once() {
    let extra = vec![("response_type".to_string(), "code".to_string())];
    let url = config(false).authorization_url(&extra).unwrap();
    assert_eq!(url, "https://x/authorize?client_id=id1&redirect_uri=https%3A%2F%2Fcb&response_type=code");
    let query = url.split_once('?').unwrap().1;
    let keys: Vec<&str> = query.split('&').map(|item| item.split('=').next().unwrap()).collect();
    for key in ["client_id", "redirect_uri", "response_type"] {
        assert_eq!(keys.iter().filter(|k| **k == key).count(), 1);
    }
}

#[test]
fn authorization_url_encodes_values() {
    let extra = vec![("scope".to_string(), "channels:read chat:write:user".to_string())];
    let url = config(false).authorization_url(&extra).unwrap();
    assert_eq!(
        url,
        "https://x/authorize?client_id=id1&redirect_uri=https%3A%2F%2Fcb&scope=channels%3Aread+chat%3Awrite%3Auser"
    );
}

#[test]
fn authorization_url_without_extra_params() {
    let url = config(true).authorization_url(&Vec::new()).unwrap();
    assert_eq!(url, "https://x/authorize?client_id=id1&redirect_uri=https%3A%2F%2Fcb");
}

#[test]
fn basic_auth_request_wire_format() {
    let bound = CodeWithBasicAuthScheme { code: code("CODE123"), grant_type: GrantType::AuthorizationCode };
    let request = bound.token_request();
    assert_eq!(request.verb, HttpVerb::POST);
    assert_eq!(request.url, "https://x/token");
    assert_eq!(
        request.body.as_deref(),
        Some("grant_type=authorization_code&redirect_uri=https://cb&code=CODE123")
    );
    assert_eq!(header(&request.headers, "Authorization"), vec!["Basic aWQxOnNlY3JldDE="]);
    assert_eq!(header(&request.headers, "Content-Type"), vec!["application/x-www-form-urlencoded"]);
}

#[test]
fn basic_auth_body_keeps_code_and_uri_verbatim() {
    let mut c = code("a b&c");
    c.redirect_uri = "https://cb/path?x=1".to_string();
    let request = CodeWithBasicAuthScheme { code: c, grant_type: GrantType::AuthorizationCode }.token_request();
    assert_eq!(
        request.body.as_deref(),
        Some("grant_type=authorization_code&redirect_uri=https://cb/path?x=1&code=a b&c")
    );
}

#[test]
fn url_param_request_wire_format() {
    let request = CodeWithUrlScheme { code: code("CODE123") }.token_request().unwrap();
    assert_eq!(request.verb, HttpVerb::GET);
    assert_eq!(
        request.url,
        "https://slack.com/api/oauth.access?client_id=id1&client_secret=secret1&code=CODE123"
    );
    assert!(request.headers.is_empty());
    assert!(request.body.is_none());
}

#[test]
fn scheme_selection_wraps_code() {
    let ok: Result<Code, AuthError> = Ok(code("C"));
    let bound = ok.with_basic_auth().unwrap();
    assert_eq!(bound.code.code, "C");
    assert_eq!(bound.grant_type, GrantType::AuthorizationCode);
    let failed: Result<Code, AuthError> = Err(AuthError::PresenterError);
    assert_eq!(failed.with_url().err(), Some(AuthError::PresenterError));
    let ok: Result<Code, AuthError> = Ok(code("D"));
    assert_eq!(ok.with_url().unwrap().code.code, "D");
}

#[test]
fn exchange_request_follows_scheme() {
    let basic = code("K").exchange_request(ExchangeScheme::BasicAuth).unwrap();
    assert_eq!(basic.verb, HttpVerb::POST);
    let url = code("K").exchange_request(ExchangeScheme::UrlParam).unwrap();
    assert_eq!(url.verb, HttpVerb::GET);
    assert!(url.url.ends_with("&code=K"));
}

#[test]
fn operator_code_is_trimmed() {
    let c = config(false).into_code("  CODE123 \n");
    assert_eq!(c.code, "CODE123");
    assert_eq!(c.client_id, "id1");
    assert_eq!(c.token_endpoint, "https://x/token");
}

#[test]
fn end_to_end_basic_auth_flow() {
    let extra = vec![("response_type".to_string(), "code".to_string())];
    let flow = FlowState::new(config(false), ExchangeScheme::BasicAuth, extra, OutputMode::Quiet);
    let (flow, action) = flow.step(FlowEvent::Begin);
    match action {
        FlowAction::Present { message, open_url } => {
            assert!(open_url.is_none());
            assert!(message.starts_with(LINK_MESSAGE));
            assert!(message.contains("response_type=code"));
        }
        _ => panic!("expected the URL to be presented"),
    }
    let (flow, action) = flow.step(FlowEvent::CodeEntered("CODE123\n".to_string()));
    let request = match action {
        FlowAction::Send(r) => r,
        _ => panic!("expected a token request"),
    };
    assert_eq!(request.url, "https://x/token");
    assert_eq!(request.body.as_deref(), Some("grant_type=authorization_code&redirect_uri=https://cb&code=CODE123"));
    assert_eq!(header(&request.headers, "Authorization"), vec!["Basic aWQxOnNlY3JldDE="]);
    let response = br#"{"access_token":"tok","refresh_token":"ref"}"#;
    let (flow, action) = flow.step(FlowEvent::ResponseReceived { status: 200, body: response.to_vec() });
    assert!(flow.finished());
    let body = match action {
        FlowAction::Deliver { echo, body } => {
            assert!(!echo);
            body
        }
        _ => panic!("expected the response to be delivered"),
    };
    let token = OAuthToken::from_json(&body).unwrap();
    assert_eq!(token.access_token, "tok");
    assert_eq!(token.refresh_token, "ref");
}

#[test]
fn centerdevice_token_from_exchange_response() {
    let response = br#"{"access_token":"tok","refresh_token":"ref","token_type":"bearer","expires_in":3600}"#;
    let token = CenterDeviceToken::from_json(response).unwrap();
    assert_eq!(token.access_token, "tok");
    assert_eq!(token.refresh_token, "ref");
    assert_eq!(token.token_type, "bearer");
    assert_eq!(token.expires_in, 3600);
}

#[test]
fn browser_flow_opens_url_and_fails_on_presenter() {
    let flow = FlowState::new(config(true), ExchangeScheme::UrlParam, Vec::new(), OutputMode::Verbose);
    let (flow, action) = flow.step(FlowEvent::Begin);
    match action {
        FlowAction::Present { message, open_url } => {
            assert_eq!(message, BROWSER_MESSAGE);
            assert_eq!(open_url.as_deref(), Some("https://x/authorize?client_id=id1&redirect_uri=https%3A%2F%2Fcb"));
        }
        _ => panic!("expected the URL to be presented"),
    }
    let (flow, action) = flow.step(FlowEvent::PresenterFailed);
    assert!(flow.finished());
    match action {
        FlowAction::Abort { stage, error } => {
            assert_eq!(stage, Stage::CodeRequested);
            assert_eq!(error, AuthError::PresenterError);
        }
        _ => panic!("expected the flow to abort"),
    }
}

#[test]
fn transport_failure_aborts_at_exchange() {
    let flow = FlowState::new(config(false), ExchangeScheme::UrlParam, Vec::new(), OutputMode::Verbose);
    let (flow, _) = flow.step(FlowEvent::Begin);
    let (flow, action) = flow.step(FlowEvent::CodeEntered("abc".to_string()));
    assert!(matches!(action, FlowAction::Send(_)));
    let (flow, action) = flow.step(FlowEvent::TransportFailed);
    assert!(flow.finished());
    assert!(matches!(action, FlowAction::Abort { stage: Stage::TokenExchanged, error: AuthError::HttpError }));
}

#[test]
fn verbose_flow_echoes_response() {
    let flow = FlowState::new(config(false), ExchangeScheme::UrlParam, Vec::new(), OutputMode::Verbose);
    let (flow, _) = flow.step(FlowEvent::Begin);
    let (flow, _) = flow.step(FlowEvent::CodeEntered("abc".to_string()));
    let (_, action) = flow.step(FlowEvent::ResponseReceived { status: 200, body: b"{}".to_vec() });
    assert!(matches!(action, FlowAction::Deliver { echo: true, .. }));
}

#[test]
fn unexpected_events_are_ignored() {
    let flow = FlowState::new(config(false), ExchangeScheme::BasicAuth, Vec::new(), OutputMode::Quiet);
    let (flow, action) = flow.step(FlowEvent::TransportFailed);
    assert!(matches!(action, FlowAction::Ignore));
    assert!(matches!(flow, FlowState::Start { .. }));
    let (flow, _) = flow.step(FlowEvent::Begin);
    let (flow, action) = flow.step(FlowEvent::ResponseReceived { status: 200, body: Vec::new() });
    assert!(matches!(action, FlowAction::Ignore));
    assert!(!flow.finished());
}

#[test]
fn error_status_aborts_before_reading_token() {
    let flow = FlowState::new(config(false), ExchangeScheme::BasicAuth, Vec::new(), OutputMode::Quiet);
    let (flow, _) = flow.step(FlowEvent::Begin);
    let (flow, _) = flow.step(FlowEvent::CodeEntered("abc".to_string()));
    let body = br#"{"error":"invalid_grant"}"#.to_vec();
    let (flow, action) = flow.step(FlowEvent::ResponseReceived { status: 400, body: body.clone() });
    assert!(flow.finished());
    assert!(matches!(flow, FlowState::Failed { stage: Stage::TokenExchanged, error: AuthError::HttpError }));
    match action {
        FlowAction::Refused { echo, body: echoed } => {
            assert!(!echo);
            assert_eq!(echoed, body);
        }
        _ => panic!("expected the error response to be handed back"),
    }
}

#[test]
fn code_is_exchanged_only_once() {
    let flow = FlowState::new(config(false), ExchangeScheme::BasicAuth, Vec::new(), OutputMode::Quiet);
    let (flow, _) = flow.step(FlowEvent::Begin);
    let (flow, first) = flow.step(FlowEvent::CodeEntered("CODE123".to_string()));
    assert!(matches!(first, FlowAction::Send(_)));
    let (flow, second) = flow.step(FlowEvent::CodeEntered("CODE123".to_string()));
    assert!(matches!(second, FlowAction::Ignore));
    assert!(matches!(flow, FlowState::TokenExchanged { .. }));
    let (done, _) = flow.step(FlowEvent::TransportFailed);
    let (done, again) = done.step(FlowEvent::CodeEntered("CODE123".to_string()));
    assert!(matches!(again, FlowAction::Ignore));
    assert!(done.finished());
}

#[test]
fn authorization_url_encodes_keys_once() {
    let extra = vec![
        ("a b".to_string(), "x&y=z".to_string()),
        ("response_type".to_string(), "code".to_string()),
    ];
    let url = config(false).authorization_url(&extra).unwrap();
    assert_eq!(
        url,
        "https://x/authorize?client_id=id1&redirect_uri=https%3A%2F%2Fcb&a+b=x%26y%3Dz&response_type=code"
    );
    let query = url.split_once('?').unwrap().1;
    let items: Vec<&str> = query.split('&').collect();
    assert_eq!(items.iter().filter(|i| i.starts_with("a+b=")).count(), 1);
    assert_eq!(items.len(), 4);
}

#[test]
fn url_param_flow_always_sends() {
    let mut c = config(false);
    c.client_secret = "s e/c".to_string();
    let flow = FlowState::new(c, ExchangeScheme::UrlParam, Vec::new(), OutputMode::Quiet);
    let (flow, _) = flow.step(FlowEvent::Begin);
    let (_, action) = flow.step(FlowEvent::CodeEntered("a&b".to_string()));
    match action {
        FlowAction::Send(r) => assert_eq!(
            r.url,
            "https://slack.com/api/oauth.access?client_id=id1&client_secret=s+e%2Fc&code=a%26b"
        ),
        _ => panic!("expected the token request"),
    }
}
