//! Pocket's own authorization flow: ask for a request code, let the operator
//! authorize it in a browser, then trade it for an access token.
use vstd::prelude::*;
use crate::encoding::{json_member, json_quoted_of};
use crate::token::{str_member, text_of};
use crate::http::{concat2, headers_view, HttpRequest, HttpVerb};
use crate::json::{member_of, object, object_of, string_member, texts_view};
use crate::oauth::AuthError;
use crate::config::Config;
use crate::pocket::{is_pocket_post, pocket_headers_of};
use crate::token::{JsonToken, PocketToken};
use crate::driver::is_success_status;

verus! {

pub const REDIRECT_URI: &'static str = "https://lukaspustina.github.io/rat/redirects/pocket.html";

pub const CODE_REQUEST_URL: &'static str = "https://getpocket.com/v3/oauth/request";

pub const TOKEN_REQUEST_URL: &'static str = "https://getpocket.com/v3/oauth/authorize";

pub const AUTHORIZE_URL: &'static str = "https://getpocket.com/auth/authorize";

pub const BROWSER_PROMPT: &'static str = "Please authenticate in the web browser window and then press return ...";

pub const LINK_PROMPT: &'static str = "Please authenticate at the following URL and then press return ...";

#[derive(Clone, Copy, Debug, PartialEq, Eq, Structural)]
pub enum PocketStage {
    Start,
    CodeRequested,
    Authorizing,
    TokenRequested,
}

pub enum PocketAuth {
    Start { consumer_key: String, open_browser: bool },
    /// The request code was asked for.
    CodeRequested { consumer_key: String, open_browser: bool },
    /// The operator is authorizing `code` in a browser.
    Authorizing { consumer_key: String, code: String },
    /// The access token was asked for.
    TokenRequested,
    Done,
    Failed { stage: PocketStage, error: AuthError },
}

pub enum PocketEvent {
    Begin,
    /// Pocket answered with HTTP `status` and `body`.
    ResponseReceived { status: u16, body: Vec<u8> },
    TransportFailed,
    /// The browser could not be opened.
    PresenterFailed,
    /// The operator pressed return.
    Confirmed,
}

pub enum PocketAction {
    Send(HttpRequest),
    /// Show `message`, open `open_url` in a browser when it is given, then wait for return.
    Present { message: String, open_url: Option<String> },
    Deliver(PocketToken),
    Abort { stage: PocketStage, error: AuthError },
    Ignore,
}

pub open spec fn code_request_json_of(consumer_key: Seq<char>) -> Seq<char> {
    object_of(
        seq![
            member_of("consumer_key"@, json_quoted_of(consumer_key)),
            member_of("redirect_uri"@, json_quoted_of(REDIRECT_URI@)),
        ],
    )
}

pub open spec fn token_request_json_of(consumer_key: Seq<char>, code: Seq<char>) -> Seq<char> {
    object_of(
        seq![member_of("consumer_key"@, json_quoted_of(consumer_key)), member_of("code"@, json_quoted_of(code))],
    )
}

/// Where the operator authorizes a request code.
pub open spec fn authorize_url_of(code: Seq<char>) -> Seq<char> {
    AUTHORIZE_URL@ + "?request_token="@ + code + "&redirect_uri="@ + REDIRECT_URI@
}

fn pocket_post(url: &str, body: String) -> (r: HttpRequest)
    ensures
        is_pocket_post(r, url@, body@),
{
    let mut headers: Vec<(String, String)> = Vec::new();
    headers.push(crate::http::text_pair("X-Accept", "application/json"));
    headers.push(crate::http::text_pair("Content-Type", "application/json"));
    assert(headers_view(headers@) =~= pocket_headers_of());
    HttpRequest { verb: HttpVerb::POST, url: url.to_owned(), headers, body: Some(body) }
}

/// The request for a request code.
pub fn code_request(consumer_key: &str) -> (r: HttpRequest)
    ensures
        is_pocket_post(r, CODE_REQUEST_URL@, code_request_json_of(consumer_key@)),
{
    let mut members: Vec<String> = Vec::new();
    members.push(string_member("consumer_key", consumer_key));
    members.push(string_member("redirect_uri", REDIRECT_URI));
    assert(texts_view(members@) =~= seq![
        member_of("consumer_key"@, json_quoted_of(consumer_key@)),
        member_of("redirect_uri"@, json_quoted_of(REDIRECT_URI@)),
    ]);
    pocket_post(CODE_REQUEST_URL, object(&members))
}

/// The request that trades an authorized code for an access token.
pub fn token_request(consumer_key: &str, code: &str) -> (r: HttpRequest)
    ensures
        is_pocket_post(r, TOKEN_REQUEST_URL@, token_request_json_of(consumer_key@, code@)),
{
    let mut members: Vec<String> = Vec::new();
    members.push(string_member("consumer_key", consumer_key));
    members.push(string_member("code", code));
    assert(texts_view(members@) =~= seq![
        member_of("consumer_key"@, json_quoted_of(consumer_key@)),
        member_of("code"@, json_quoted_of(code@)),
    ]);
    pocket_post(TOKEN_REQUEST_URL, object(&members))
}

pub fn authorize_url(code: &str) -> (r: String)
    ensures
        r@ == authorize_url_of(code@),
{
    let mut url = concat2(AUTHORIZE_URL, "?request_token=");
    url.append(code);
    url.append("&redirect_uri=");
    url.append(REDIRECT_URI);
    url
}

pub open spec fn aborts(s: PocketAuth, a: PocketAction, stage: PocketStage, error: AuthError) -> bool {
    s == PocketAuth::Failed { stage, error } && a == PocketAction::Abort { stage, error }
}

pub open spec fn presents_code(a: PocketAction, open_browser: bool, code: Seq<char>) -> bool {
    match a {
        PocketAction::Present { message, open_url } => if open_browser {
            message@ == BROWSER_PROMPT@ && open_url is Some && open_url->Some_0@ == authorize_url_of(code)
        } else {
            message@ == LINK_PROMPT@ + "\n\n\t"@ + authorize_url_of(code) + "\n"@ && open_url is None
        },
        _ => false,
    }
}

pub open spec fn sends(a: PocketAction, url: Seq<char>, body: Seq<char>) -> bool {
    match a {
        PocketAction::Send(r) => is_pocket_post(r, url, body),
        _ => false,
    }
}

/// One step of Pocket's flow from `s` on `e` to `s2`, doing `a`.
pub open spec fn pocket_step_spec(s: PocketAuth, e: PocketEvent, s2: PocketAuth, a: PocketAction) -> bool {
    match s {
        PocketAuth::Start { consumer_key, open_browser } => match e {
            PocketEvent::Begin => s2 == (PocketAuth::CodeRequested { consumer_key, open_browser }) && sends(
                a,
                CODE_REQUEST_URL@,
                code_request_json_of(consumer_key@),
            ),
            _ => s2 == s && a == PocketAction::Ignore,
        },
        PocketAuth::CodeRequested { consumer_key, open_browser } => match e {
            PocketEvent::ResponseReceived { status, body } => if !is_success_status(status) {
                aborts(s2, a, PocketStage::CodeRequested, AuthError::HttpError)
            } else {
                match str_member(body@, "code") {
                    Some(code) => (s2 matches PocketAuth::Authorizing { consumer_key: k, code: c } && k == consumer_key
                        && c@ == code) && presents_code(a, open_browser, code),
                    None => aborts(s2, a, PocketStage::CodeRequested, AuthError::DeserializationError),
                }
            },
            PocketEvent::TransportFailed => aborts(s2, a, PocketStage::CodeRequested, AuthError::HttpError),
            _ => s2 == s && a == PocketAction::Ignore,
        },
        PocketAuth::Authorizing { consumer_key, code } => match e {
            PocketEvent::PresenterFailed => aborts(s2, a, PocketStage::Authorizing, AuthError::PresenterError),
            PocketEvent::Confirmed => s2 == PocketAuth::TokenRequested && sends(
                a,
                TOKEN_REQUEST_URL@,
                token_request_json_of(consumer_key@, code@),
            ),
            _ => s2 == s && a == PocketAction::Ignore,
        },
        PocketAuth::TokenRequested => match e {
            PocketEvent::ResponseReceived { status, body } => if !is_success_status(status) {
                aborts(s2, a, PocketStage::TokenRequested, AuthError::HttpError)
            } else if PocketToken::json_readable(body@) {
                s2 == PocketAuth::Done && (a matches PocketAction::Deliver(t) && PocketToken::json_reads_as(body@, t))
            } else {
                aborts(s2, a, PocketStage::TokenRequested, AuthError::DeserializationError)
            },
            PocketEvent::TransportFailed => aborts(s2, a, PocketStage::TokenRequested, AuthError::HttpError),
            _ => s2 == s && a == PocketAction::Ignore,
        },
        _ => s2 == s && a == PocketAction::Ignore,
    }
}

impl PocketAuth {
    pub fn new(consumer_key: &str, open_browser: bool) -> (r: PocketAuth)
        ensures
            r matches PocketAuth::Start { consumer_key: k, open_browser: b } && k@ == consumer_key@ && b
                == open_browser,
    {
        PocketAuth::Start { consumer_key: consumer_key.to_owned(), open_browser }
    }

    pub open spec fn is_finished(self) -> bool {
        self is Done || self is Failed
    }

    pub fn finished(&self) -> (r: bool)
        ensures
            r == self.is_finished(),
    {
        match self {
            PocketAuth::Done | PocketAuth::Failed { .. } => true,
            _ => false,
        }
    }

    pub fn step(self, event: PocketEvent) -> (r: (PocketAuth, PocketAction))
        ensures
            pocket_step_spec(self, event, r.0, r.1),
    {
        match self {
            PocketAuth::Start { consumer_key, open_browser } => match event {
                PocketEvent::Begin => {
                    let request = code_request(consumer_key.as_str());
                    (PocketAuth::CodeRequested { consumer_key, open_browser }, PocketAction::Send(request))
                },
                _ => (PocketAuth::Start { consumer_key, open_browser }, PocketAction::Ignore),
            },
            PocketAuth::CodeRequested { consumer_key, open_browser } => match event {
                PocketEvent::ResponseReceived { status, body } => if status < 200 || status > 299 {
                    (
                        PocketAuth::Failed { stage: PocketStage::CodeRequested, error: AuthError::HttpError },
                        PocketAction::Abort { stage: PocketStage::CodeRequested, error: AuthError::HttpError },
                    )
                } else {
                    match text_of(json_member(body.as_slice(), "code")) {
                        Some(code) => {
                            let url = authorize_url(code.as_str());
                            let action = if open_browser {
                                PocketAction::Present { message: BROWSER_PROMPT.to_owned(), open_url: Some(url) }
                            } else {
                                let mut message = concat2(LINK_PROMPT, "\n\n\t");
                                message.append(url.as_str());
                                message.append("\n");
                                PocketAction::Present { message, open_url: None }
                            };
                            (PocketAuth::Authorizing { consumer_key, code }, action)
                        },
                        None => (
                            PocketAuth::Failed {
                                stage: PocketStage::CodeRequested,
                                error: AuthError::DeserializationError,
                            },
                            PocketAction::Abort {
                                stage: PocketStage::CodeRequested,
                                error: AuthError::DeserializationError,
                            },
                        ),
                    }
                },
                PocketEvent::TransportFailed => (
                    PocketAuth::Failed { stage: PocketStage::CodeRequested, error: AuthError::HttpError },
                    PocketAction::Abort { stage: PocketStage::CodeRequested, error: AuthError::HttpError },
                ),
                _ => (PocketAuth::CodeRequested { consumer_key, open_browser }, PocketAction::Ignore),
            },
            PocketAuth::Authorizing { consumer_key, code } => match event {
                PocketEvent::PresenterFailed => (
                    PocketAuth::Failed { stage: PocketStage::Authorizing, error: AuthError::PresenterError },
                    PocketAction::Abort { stage: PocketStage::Authorizing, error: AuthError::PresenterError },
                ),
                PocketEvent::Confirmed => {
                    let request = token_request(consumer_key.as_str(), code.as_str());
                    (PocketAuth::TokenRequested, PocketAction::Send(request))
                },
                _ => (PocketAuth::Authorizing { consumer_key, code }, PocketAction::Ignore),
            },
            PocketAuth::TokenRequested => match event {
                PocketEvent::ResponseReceived { status, body } => if status < 200 || status > 299 {
                    (
                        PocketAuth::Failed { stage: PocketStage::TokenRequested, error: AuthError::HttpError },
                        PocketAction::Abort { stage: PocketStage::TokenRequested, error: AuthError::HttpError },
                    )
                } else {
                    match PocketToken::from_json(body.as_slice()) {
                        Ok(token) => (PocketAuth::Done, PocketAction::Deliver(token)),
                        Err(error) => (
                            PocketAuth::Failed { stage: PocketStage::TokenRequested, error },
                            PocketAction::Abort { stage: PocketStage::TokenRequested, error },
                        ),
                    }
                },
                PocketEvent::TransportFailed => (
                    PocketAuth::Failed { stage: PocketStage::TokenRequested, error: AuthError::HttpError },
                    PocketAction::Abort { stage: PocketStage::TokenRequested, error: AuthError::HttpError },
                ),
                _ => (PocketAuth::TokenRequested, PocketAction::Ignore),
            },
            other => (other, PocketAction::Ignore),
        }
    }
}

/// Pocket's authentication for the configured consumer key.
pub fn auth(config: &Config, open_browser: bool) -> (r: PocketAuth)
    ensures
        r matches PocketAuth::Start { consumer_key: k, open_browser: b } && k@ == config.pocket.consumer_key@ && b
            == open_browser,
{
    PocketAuth::new(config.pocket.consumer_key.as_str(), open_browser)
}

/// How many steps of work a state of Pocket's flow has left.
pub open spec fn pocket_remaining_steps(s: PocketAuth) -> nat {
    match s {
        PocketAuth::Start { .. } => 4,
        PocketAuth::CodeRequested { .. } => 3,
        PocketAuth::Authorizing { .. } => 2,
        PocketAuth::TokenRequested => 1,
        _ => 0,
    }
}

/// Pocket's flow never goes back: a step that acts moves it strictly
/// forward, one that does not leaves it as it was, and a finished flow stays
/// finished.
pub proof fn lemma_pocket_flow_moves_forward(s: PocketAuth, e: PocketEvent, s2: PocketAuth, a: PocketAction)
    requires
        pocket_step_spec(s, e, s2, a),
    ensures
        a is Ignore ==> s2 == s,
        !(a is Ignore) ==> pocket_remaining_steps(s2) < pocket_remaining_steps(s),
        s.is_finished() ==> s2 == s && a is Ignore,
{
}

/// The request code is traded for a token at most once: only the step out
/// of `Authorizing` sends the token request, and the flow never returns there.
pub proof fn lemma_pocket_code_traded_once(s: PocketAuth, e: PocketEvent, s2: PocketAuth, a: PocketAction)
    requires
        pocket_step_spec(s, e, s2, a),
    ensures
        (a matches PocketAction::Send(r) && r.url@ == TOKEN_REQUEST_URL@) ==> s is Authorizing && s2 is TokenRequested,
        pocket_remaining_steps(s) < 2 ==> !(a is Send),
{
    reveal_strlit("https://getpocket.com/v3/oauth/request");
    reveal_strlit("https://getpocket.com/v3/oauth/authorize");
    assert(CODE_REQUEST_URL@.len() != TOKEN_REQUEST_URL@.len());
}

} // verus!
