use rat::config::{CenterDeviceConfig, Config, GeneralConfig, OutputFormat, PocketConfig, SlackConfig, Verbosity};
use rat::http::{ClientError, HttpVerb};
use rat::oauth::AuthError;
use rat::pocket::{
    list_request, parse_u64, send, ActionRequest, Article, DetailType, HumanOutput, ListResult, Request, Sort, State,
};
use rat::pocket_auth::{auth, PocketAction, PocketAuth, PocketEvent, PocketStage, BROWSER_PROMPT, LINK_PROMPT};

fn sample_config(access_token: Option<&str>) -> Config {
    Config {
        general: GeneralConfig {
            cache_dir: "/tmp/cache".to_string(),
            output_format: OutputFormat::HUMAN,
            verbosity: Verbosity::NORMAL,
        },
        centerdevice: CenterDeviceConfig {
            client_id: "cid".to_string(),
            client_secret: "csecret".to_string(),
            refresh_token: None,
            access_token: None,
            api_base_url: "centerdevice.de".to_string(),
        },
        pocket: PocketConfig { consumer_key: "ck".to_string(), access_token: access_token.map(|t| t.to_string()) },
        slack: SlackConfig { client_id: "sid".to_string(), client_secret: "ssecret".to_string(), access_token: None },
    }
}

fn article(id: &str, added: &str) -> Article {
    Article {
        item_id: id.to_string(),
        resolved_title: format!("Title {}", id),
        resolved_url: format!("https://example.com/{}", id),
        time_added: added.to_string(),
        time_updated: added.to_string(),
    }
}

fn listing(articles: Vec<Article>) -> ListResult {
    ListResult { status: 1, complete: 1, list: articles.into_iter().map(|a| (a.item_id.clone(), a)).collect() }
}

#[test]
fn list_options_from_names() {
    assert_eq!(State::from("archive"), State::archive);
    assert_eq!(State::from("all"), State::all);
    assert_eq!(State::from("whatever"), State::unread);
    assert_eq!(Sort::from("oldest"), Sort::oldest);
    assert_eq!(Sort::from("title"), Sort::title);
    assert_eq!(Sort::from("site"), Sort::site);
    assert_eq!(Sort::from(""), Sort::newest);
    assert_eq!(DetailType::from(true), DetailType::complete);
    assert_eq!(DetailType::from(false), DetailType::simple);
}

#[test]
fn human_output_from_field_names() {
    let h = HumanOutput::from(vec!["id", "url"]);
    assert!(h.id && h.url && !h.title && !h.t_added);
    let none = HumanOutput::from(Vec::new());
    assert!(!none.id && !none.title && !none.url && !none.t_added);
}

#[test]
fn article_time_added() {
    assert_eq!(article("1", "1500000000").time_added(), Ok(1500000000));
    assert_eq!(article("1", "+7").time_added(), Ok(7));
    assert_eq!(article("1", "").time_added(), Err(ClientError::InvalidTime));
    assert_eq!(article("1", "12a").time_added(), Err(ClientError::InvalidTime));
    assert_eq!(article("1", "18446744073709551616").time_added(), Err(ClientError::InvalidTime));
}

#[test]
fn article_human_display() {
    let a = article("42", "1500000000");
    let all = HumanOutput { id: true, title: true, url: true, t_added: true };
    assert_eq!(
        a.human_display(&all).unwrap(),
        "42, 'Title 42', https://example.com/42, added 2017-07-14T02:40:00+00:00"
    );
    let title_only = HumanOutput { id: false, title: true, url: false, t_added: false };
    assert_eq!(a.human_display(&title_only).unwrap(), "'Title 42'");
    let bad = article("7", "soon");
    assert_eq!(bad.human_display(&all), Err(ClientError::InvalidTime));
}

#[test]
fn list_filter_by_time() {
    let list = listing(vec![article("a", "100"), article("b", "200"), article("c", "300")]);
    let kept = list.filter(Some(150), Some(300)).unwrap();
    let ids: Vec<&str> = kept.list.iter().map(|(k, _)| k.as_str()).collect();
    assert_eq!(ids, vec!["b", "c"]);
    assert_eq!(kept.status, 1);
    let list = listing(vec![article("a", "100"), article("b", "200")]);
    assert_eq!(list.filter(None, Some(100)).unwrap().list.len(), 1);
}

#[test]
fn list_filter_without_bounds_keeps_everything() {
    let list = listing(vec![article("a", "never"), article("b", "200")]);
    assert_eq!(list.filter(None, None).unwrap().list.len(), 2);
    let list = listing(vec![article("a", "never"), article("b", "200")]);
    assert_eq!(list.filter(Some(1), None).err(), Some(ClientError::InvalidTime));
}

#[test]
fn list_request_json() {
    let request = Request {
        consumer_key: "ck".to_string(),
        access_token: "tok".to_string(),
        state: Some(State::unread),
        tag: None,
        sort: Some(Sort::newest),
        detailType: DetailType::simple,
        search: Some("rust".to_string()),
    };
    let http = list_request(&request);
    assert_eq!(http.verb, HttpVerb::POST);
    assert_eq!(http.url, "https://getpocket.com/v3/get");
    assert_eq!(
        http.body.as_deref(),
        Some(r#"{"consumer_key":"ck","access_token":"tok","state":"unread","sort":"newest","detailType":"simple","search":"rust"}"#)
    );
}

#[test]
fn send_actions_request() {
    let actions = vec![ActionRequest::new("archive", "1"), ActionRequest::new("archive", "2")];
    let request = send(&sample_config(Some("tok")), &actions).unwrap();
    assert_eq!(request.verb, HttpVerb::GET);
    assert_eq!(
        request.url,
        "https://getpocket.com/v3/send?actions=%5B%7B%22action%22%3A%22archive%22%2C%22item_id%22%3A%221%22%7D%2C%7B%22action%22%3A%22archive%22%2C%22item_id%22%3A%222%22%7D%5D&access_token=tok&consumer_key=ck"
    );
    assert_eq!(send(&sample_config(None), &actions).err(), Some(ClientError::MissingAccessToken));
}

#[test]
fn pocket_auth_flow() {
    let flow = auth(&sample_config(None), false);
    let (flow, action) = flow.step(PocketEvent::Begin);
    match action {
        PocketAction::Send(r) => {
            assert_eq!(r.url, "https://getpocket.com/v3/oauth/request");
            assert_eq!(
                r.body.as_deref(),
                Some(r#"{"consumer_key":"ck","redirect_uri":"https://lukaspustina.github.io/rat/redirects/pocket.html"}"#)
            );
        }
        _ => panic!("expected the code request"),
    }
    let (flow, action) = flow.step(PocketEvent::ResponseReceived { status: 200, body: br#"{"code":"rc1"}"#.to_vec() });
    match action {
        PocketAction::Present { message, open_url } => {
            assert!(open_url.is_none());
            assert!(message.starts_with(LINK_PROMPT));
            assert!(message.contains("https://getpocket.com/auth/authorize?request_token=rc1&redirect_uri="));
        }
        _ => panic!("expected the authorization URL"),
    }
    let (flow, action) = flow.step(PocketEvent::Confirmed);
    match action {
        PocketAction::Send(r) => {
            assert_eq!(r.url, "https://getpocket.com/v3/oauth/authorize");
            assert_eq!(r.body.as_deref(), Some(r#"{"consumer_key":"ck","code":"rc1"}"#));
        }
        _ => panic!("expected the token request"),
    }
    let (flow, action) = flow.step(PocketEvent::ResponseReceived { status: 200, body: br#"{"access_token":"abc","username":"bob"}"#.to_vec() });
    assert!(flow.finished());
    match action {
        PocketAction::Deliver(token) => {
            assert_eq!(token.access_token, "abc");
            assert_eq!(token.username, "bob");
        }
        _ => panic!("expected the token"),
    }
}

#[test]
fn pocket_auth_rejects_bad_responses() {
    let flow = PocketAuth::new("ck", true);
    let (flow, _) = flow.step(PocketEvent::Begin);
    let (flow, action) = flow.step(PocketEvent::ResponseReceived { status: 200, body: b"not json".to_vec() });
    assert!(flow.finished());
    assert!(matches!(
        action,
        PocketAction::Abort { stage: PocketStage::CodeRequested, error: AuthError::DeserializationError }
    ));
    let flow = PocketAuth::new("ck", true);
    let (flow, _) = flow.step(PocketEvent::Begin);
    let (flow, action) = flow.step(PocketEvent::ResponseReceived { status: 200, body: br#"{"code":"x"}"#.to_vec() });
    match action {
        PocketAction::Present { message, open_url } => {
            assert_eq!(message, BROWSER_PROMPT);
            assert!(open_url.is_some());
        }
        _ => panic!("expected the authorization URL"),
    }
    let (flow, _) = flow.step(PocketEvent::Confirmed);
    let (_, action) = flow.step(PocketEvent::ResponseReceived { status: 200, body: b"not json".to_vec() });
    assert!(matches!(
        action,
        PocketAction::Abort { stage: PocketStage::TokenRequested, error: AuthError::DeserializationError }
    ));
}

#[test]
fn pocket_auth_error_status_aborts() {
    let flow = PocketAuth::new("ck", false);
    let (flow, _) = flow.step(PocketEvent::Begin);
    let (flow, action) = flow.step(PocketEvent::ResponseReceived { status: 403, body: br#"{"code":"x"}"#.to_vec() });
    assert!(flow.finished());
    assert!(matches!(action, PocketAction::Abort { stage: PocketStage::CodeRequested, error: AuthError::HttpError }));
}

#[test]
fn parse_unsigned_numbers() {
    assert_eq!(parse_u64("0"), Some(0));
    assert_eq!(parse_u64("007"), Some(7));
    assert_eq!(parse_u64("+42"), Some(42));
    assert_eq!(parse_u64("18446744073709551615"), Some(u64::MAX));
    assert_eq!(parse_u64("18446744073709551616"), None);
    assert_eq!(parse_u64("99999999999999999999x"), None);
    assert_eq!(parse_u64("+"), None);
    assert_eq!(parse_u64("-1"), None);
    assert_eq!(parse_u64(" 1"), None);
    assert_eq!(parse_u64(""), None);
    for text in ["0", "+9", "123456789", "18446744073709551615", "18446744073709551616", "1a", "++1"] {
        assert_eq!(parse_u64(text), text.parse::<u64>().ok());
    }
}
