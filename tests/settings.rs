use rat::config::{
    default_api_base_url, is_relevant, Cache, CenterDeviceConfig, Config, GeneralConfig, OutputFormat, PocketConfig,
    SlackConfig, Verbosity,
};
use rat::driver::FlowState;
use rat::http::{curl_json, decimal, HttpVerb};
use rat::oauth::{ExchangeScheme, OutputMode};
use rat::slack;

fn sample_config(format: OutputFormat) -> Config {
    Config {
        general: GeneralConfig { cache_dir: "/var/cache/rat".to_string(), output_format: format, verbosity: Verbosity::QUIET },
        centerdevice: CenterDeviceConfig {
            client_id: "cid".to_string(),
            client_secret: "csecret".to_string(),
            refresh_token: None,
            access_token: None,
            api_base_url: default_api_base_url(),
        },
        pocket: PocketConfig { consumer_key: "ck".to_string(), access_token: None },
        slack: SlackConfig { client_id: "sid".to_string(), client_secret: "ssecret".to_string(), access_token: None },
    }
}

#[test]
fn output_format_from_name() {
    assert_eq!(OutputFormat::from("json"), OutputFormat::JSON);
    assert_eq!(OutputFormat::from("Json"), OutputFormat::JSON);
    assert_eq!(OutputFormat::from("human"), OutputFormat::HUMAN);
    assert_eq!(OutputFormat::from("jsonx"), OutputFormat::HUMAN);
    assert_eq!(OutputFormat::JSON.output_mode(), OutputMode::Verbose);
    assert_eq!(OutputFormat::HUMAN.output_mode(), OutputMode::Quiet);
}

#[test]
fn verbosity_relevance() {
    assert!(is_relevant(Verbosity::NORMAL, Verbosity::NORMAL));
    assert!(is_relevant(Verbosity::NORMAL, Verbosity::VERBOSE));
    assert!(!is_relevant(Verbosity::VERBOSE, Verbosity::NORMAL));
    assert!(!is_relevant(Verbosity::NORMAL, Verbosity::QUIET));
}

#[test]
fn cache_location() {
    let cache = Cache::new(&sample_config(OutputFormat::HUMAN), "pocket", "list");
    assert_eq!(cache.cache_dir(), "/var/cache/rat");
    assert_eq!(cache.filename(), "pocket.list.toml");
}

#[test]
fn default_api_host() {
    assert_eq!(default_api_base_url(), "centerdevice.de");
}

#[test]
fn json_request_headers() {
    let extra = vec![("X-Accept".to_string(), "application/json".to_string())];
    let request = curl_json("https://h/x", HttpVerb::POST, Some(&extra), Some("{}".to_string()));
    let names: Vec<&str> = request.headers.iter().map(|(n, _)| n.as_str()).collect();
    assert_eq!(names, vec!["Accept", "Content-Type", "X-Accept"]);
    assert_eq!(request.body.as_deref(), Some("{}"));
    let bare = curl_json("https://h/y", HttpVerb::GET, None, None);
    assert_eq!(bare.headers.len(), 2);
    assert!(bare.body.is_none());
}

#[test]
fn slack_auth_flow_setup() {
    match slack::auth(&sample_config(OutputFormat::HUMAN), false) {
        FlowState::Start { oauth, scheme, extra_params, mode } => {
            assert_eq!(oauth.client_id, "sid");
            assert_eq!(oauth.auth_endpoint, "https://slack.com/oauth/authorize");
            assert_eq!(scheme, ExchangeScheme::UrlParam);
            assert_eq!(extra_params, vec![("scope".to_string(), "channels:read chat:write:user".to_string())]);
            assert_eq!(mode, OutputMode::Quiet);
        }
        _ => panic!("expected a fresh flow"),
    }
}

#[test]
fn decimal_text() {
    for n in [0u64, 7, 10, 99, 100, 1234, 4294967296, u64::MAX] {
        assert_eq!(decimal(n), n.to_string());
    }
    assert_eq!(decimal(1234), "1234");
}
