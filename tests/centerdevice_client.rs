use rat::centerdevice::{
    auth, check_download_size, content_length, delete_documents, download_document, download_filename,
    refresh_token, reached_new_megabyte, search_collections_request, search_documents, Collection,
    CollectionsResult, DeleteAction, DocumentMetadata, NamedSearches,
};
use rat::config::{CenterDeviceConfig, Config, GeneralConfig, OutputFormat, PocketConfig, SlackConfig, Verbosity};
use rat::driver::FlowState;
use rat::http::{ClientError, HttpVerb};
use rat::oauth::{ExchangeScheme, OutputMode};

fn collection(id: &str, name: &str, public: bool) -> Collection {
    Collection { id: id.to_string(), public, name: name.to_string() }
}

fn sample_config() -> Config {
    Config {
        general: GeneralConfig {
            cache_dir: "/tmp/cache".to_string(),
            output_format: OutputFormat::JSON,
            verbosity: Verbosity::NORMAL,
        },
        centerdevice: CenterDeviceConfig {
            client_id: "cid".to_string(),
            client_secret: "csecret".to_string(),
            refresh_token: None,
            access_token: Some("at".to_string()),
            api_base_url: "centerdevice.de".to_string(),
        },
        pocket: PocketConfig { consumer_key: "ck".to_string(), access_token: Some("tok".to_string()) },
        slack: SlackConfig { client_id: "sid".to_string(), client_secret: "ssecret".to_string(), access_token: None },
    }
}

fn header<'a>(headers: &'a [(String, String)], name: &str) -> Vec<&'a str> {
    headers.iter().filter(|(n, _)| n == name).map(|(_, v)| v.as_str()).collect()
}

#[test]
fn collections_filter_keeps_matching_names_in_order() {
    let result = CollectionsResult {
        collections: vec![
            collection("1", "Project Alpha", true),
            collection("2", "Beta", false),
            collection("3", "Alphabet", false),
        ],
    };
    let filtered = result.filter("Alpha");
    let ids: Vec<&str> = filtered.collections.iter().map(|c| c.id.as_str()).collect();
    assert_eq!(ids, vec!["1", "3"]);
}

#[test]
fn collections_filter_is_case_sensitive_and_handles_empty() {
    let result = CollectionsResult { collections: vec![collection("1", "alpha", true)] };
    assert!(result.filter("Alpha").collections.is_empty());
    let result = CollectionsResult { collections: vec![collection("1", "alpha", true)] };
    assert_eq!(result.filter("").collections.len(), 1);
    let empty = CollectionsResult { collections: Vec::new() };
    assert!(empty.filter("x").collections.is_empty());
}

#[test]
fn delete_action_json() {
    let action = DeleteAction::new(vec!["d1".to_string(), "d\"2".to_string()]);
    assert_eq!(action.action, "delete");
    assert_eq!(action.to_json(), r#"{"action":"delete","params":{"documents":["d1","d\"2"]}}"#);
}

#[test]
fn delete_documents_request() {
    let request = delete_documents("at", vec!["d1".to_string()]);
    assert_eq!(request.verb, HttpVerb::POST);
    assert_eq!(request.url, "https://api.centerdevice.de/v2/documents");
    assert_eq!(header(&request.headers, "Authorization"), vec!["Bearer at"]);
    assert_eq!(header(&request.headers, "Content-Type"), vec!["application/json"]);
    assert_eq!(header(&request.headers, "Accept"), vec!["application/json; charset=utf-8"]);
    assert_eq!(request.body.as_deref(), Some(r#"{"action":"delete","params":{"documents":["d1"]}}"#));
}

#[test]
fn refresh_token_request() {
    let request = refresh_token("rt", "cid", "csecret");
    assert_eq!(request.verb, HttpVerb::POST);
    assert_eq!(request.url, "https://auth.centerdevice.de/token");
    assert_eq!(header(&request.headers, "Authorization"), vec!["Basic Y2lkOmNzZWNyZXQ="]);
    assert_eq!(request.body.as_deref(), Some("grant_type=refresh_token&refresh_token=rt"));
}

#[test]
fn search_documents_request_with_everything() {
    let request = search_documents(
        "at",
        Some(vec!["a.pdf".to_string()]),
        Some(vec!["t1".to_string(), "t2".to_string()]),
        Some("hello"),
        NamedSearches::PublicCollections,
    );
    let expected = [
        r#"{"action":"search","params":{"query":{"text":"hello"},"#,
        r#""filter":{"filenames":["a.pdf"],"tags":["t1","t2"]},"#,
        r#""named":[{"name":"public-collections","params":{"incl"#,
        r#"ude":true}}]}}"#,
    ]
    .join("");
    assert_eq!(request.body.as_deref(), Some(expected.as_str()));
    assert_eq!(request.url, "https://api.centerdevice.de/v2/documents");
}

#[test]
fn search_documents_request_with_nothing() {
    let request = search_documents("at", None, None, None, NamedSearches::NoneSelected);
    assert_eq!(request.body.as_deref(), Some(r#"{"action":"search","params":{"query":{},"filter":{}}}"#));
}

#[test]
fn collections_request_query() {
    let request = search_collections_request("at", Some("My Docs"), true).unwrap();
    assert_eq!(request.verb, HttpVerb::GET);
    assert_eq!(request.url, "https://api.centerdevice.de/v2/collections?include-public=true&name=My+Docs");
    assert_eq!(header(&request.headers, "Authorization"), vec!["Bearer at"]);
    let request = search_collections_request("at", None, false).unwrap();
    assert_eq!(request.url, "https://api.centerdevice.de/v2/collections?include-public=false");
}

#[test]
fn download_request_and_checks() {
    let request = download_document("at", "doc1");
    assert_eq!(request.verb, HttpVerb::GET);
    assert_eq!(request.url, "https://api.centerdevice.de/v2/document/doc1");
    assert_eq!(header(&request.headers, "Content-Type"), vec!["*/*"]);
    assert_eq!(download_filename(Some("given.pdf"), Some(b"other.pdf".to_vec())).unwrap(), "given.pdf");
    assert_eq!(download_filename(None, Some("r\u{e9}sum\u{e9}.pdf".as_bytes().to_vec())).unwrap(), "r\u{e9}sum\u{e9}.pdf");
    assert_eq!(download_filename(None, Some(vec![0xff, 0xfe])).err(), Some(ClientError::FailedSetFilename));
    assert_eq!(download_filename(None, None).err(), Some(ClientError::FailedSetFilename));
    assert_eq!(content_length(Some(12)), Ok(12));
    assert_eq!(content_length(None), Err(ClientError::FailedContentLength));
    assert_eq!(check_download_size(10, 10), Ok(()));
    assert_eq!(check_download_size(9, 10), Err(ClientError::SizeMismatch { written: 9, expected: 10 }));
}

#[test]
fn megabyte_marks() {
    assert!(!reached_new_megabyte(1048575, 0));
    assert!(reached_new_megabyte(1048576, 0));
    assert!(!reached_new_megabyte(2097151, 1));
    assert!(reached_new_megabyte(2097152, 1));
}

#[test]
fn document_metadata_json() {
    let meta = DocumentMetadata::new("a.pdf", 1234, Some("Title"), Some(vec!["t".to_string()]), None);
    assert_eq!(
        meta.to_json(),
        r#"{"metadata":{"document":{"filename":"a.pdf","size":1234,"title":"Title"},"actions":{"add-tag":["t"]}}}"#
    );
    let bare = DocumentMetadata::new("b", 0, None, None, Some(vec!["c1".to_string()]));
    assert_eq!(
        bare.to_json(),
        r#"{"metadata":{"document":{"filename":"b","size":0},"actions":{"add-to-collection":["c1"]}}}"#
    );
}

#[test]
fn centerdevice_auth_flow_setup() {
    let flow = auth(&sample_config(), true);
    match flow {
        FlowState::Start { oauth, scheme, extra_params, mode } => {
            assert_eq!(oauth.client_id, "cid");
            assert_eq!(oauth.auth_endpoint, "https://auth.centerdevice.de/authorize");
            assert_eq!(oauth.token_endpoint, "https://auth.centerdevice.de/token");
            assert!(oauth.open_browser);
            assert_eq!(scheme, ExchangeScheme::BasicAuth);
            assert_eq!(extra_params, vec![("response_type".to_string(), "code".to_string())]);
            assert_eq!(mode, OutputMode::Verbose);
        }
        _ => panic!("expected a fresh flow"),
    }
}

#[test]
fn upload_boundary_from_metadata() {
    assert_eq!(
        rat::centerdevice::generate_boundary(b"abc"),
        "Boundary_ba7816bf8f01cfea414140de5dae2223b00361a396177a9cb410ff61f20015ad"
    );
    assert_eq!(
        rat::centerdevice::generate_boundary(b""),
        "Boundary_e3b0c44298fc1c149afbf4c8996fb92427ae41e4649b934ca495991b7852b855"
    );
}

#[test]
fn collection_id_by_name() {
    let result = CollectionsResult {
        collections: vec![collection("1", "Inbox", false), collection("2", "Archive", true), collection("3", "Inbox", true)],
    };
    assert_eq!(result.id_of("Inbox").as_deref(), Some("1"));
    assert_eq!(result.id_of("Archive").as_deref(), Some("2"));
    assert_eq!(result.id_of("inbox"), None);
}

#[test]
fn boundary_from_given_digest() {
    assert_eq!(rat::centerdevice::boundary_from_digest("00ff"), "Boundary_00ff");
}

#[test]
fn substring_search() {
    let cases = [
        ("Project Alpha", "Alpha", true),
        ("aaab", "aab", true),
        ("abc", "", true),
        ("", "", true),
        ("", "a", false),
        ("ab", "abc", false),
        ("abcabd", "abd", true),
        ("abcabd", "abe", false),
        ("gr\u{fc}n", "\u{fc}n", true),
    ];
    for (hay, needle, expected) in cases {
        assert_eq!(rat::centerdevice::contains(hay, needle), expected);
        assert_eq!(hay.contains(needle), expected);
    }
}

#[test]
fn json_escapes_in_bodies() {
    let action = DeleteAction::new(vec!["a\\b\n\u{1}\u{e9}".to_string()]);
    assert_eq!(action.to_json(), "{\"action\":\"delete\",\"params\":{\"documents\":[\"a\\\\b\\n\\u0001\u{e9}\"]}}");
}
