//! The authentication flow as a state machine. Each step takes the current
//! state and what just happened, and gives the next state and what the
//! program must do next: present the authorization URL and read the
//! operator's code, send the token request, or hand over the response.
use vstd::prelude::*;
use crate::encoding::{pairs_view, trimmed_of};
use crate::http::{concat2, HttpRequest};
use crate::oauth::{
    authorization_url_of, basic_auth_request_for, grant_type_text, url_scheme_request_for, AuthError,
    CliOAuth, ExchangeScheme, GrantType, OutputMode,
};

verus! {

pub const BROWSER_MESSAGE: &'static str = "Please authenticate in the web browser window, wait for the redirect, enter the code into the terminal, and then press return ...";

pub const LINK_MESSAGE: &'static str = "Please authenticate at the following URL, wait for the redirect, enter the code into the terminal, and then press return ...";

/// Shown right before the operator types the code.
pub const CODE_PROMPT: &'static str = "Authentication code: ";

/// How far a flow got.
#[derive(Clone, Copy, Debug, PartialEq, Eq, Structural)]
pub enum Stage {
    Start,
    CodeRequested,
    TokenExchanged,
    Done,
}

pub enum FlowState {
    /// Nothing done yet.
    Start { oauth: CliOAuth, scheme: ExchangeScheme, extra_params: Vec<(String, String)>, mode: OutputMode },
    /// The authorization URL was presented; the operator's code is awaited.
    CodeRequested { oauth: CliOAuth, scheme: ExchangeScheme, mode: OutputMode },
    /// The token request was handed out; its response is awaited.
    TokenExchanged { mode: OutputMode },
    /// The response was handed over.
    Done,
    /// The flow stopped at `stage`.
    Failed { stage: Stage, error: AuthError },
}

/// What happened since the last step.
pub enum FlowEvent {
    Begin,
    /// The browser could not be opened.
    PresenterFailed,
    /// The operator entered a line.
    CodeEntered(String),
    /// The token endpoint answered with HTTP `status` and `body`.
    ResponseReceived { status: u16, body: Vec<u8> },
    /// The request could not be sent or its response not read.
    TransportFailed,
}

/// What the program does next.
pub enum FlowAction {
    /// Show `message`, open `open_url` in a browser when it is given, then
    /// show the code prompt and read one line.
    Present { message: String, open_url: Option<String> },
    Send(HttpRequest),
    /// Echo `body` when `echo` holds, then read the token from it.
    Deliver { echo: bool, body: Vec<u8> },
    /// The flow failed at `stage`.
    Abort { stage: Stage, error: AuthError },
    /// The token endpoint answered with an error status: echo `body` when
    /// `echo` holds; the flow failed with an `HttpError` while exchanging.
    Refused { echo: bool, body: Vec<u8> },
    /// The event does not belong to this state; nothing changes.
    Ignore,
}

pub open spec fn fails_with(s: FlowState, a: FlowAction, stage: Stage, error: AuthError) -> bool {
    s == FlowState::Failed { stage, error } && a == FlowAction::Abort { stage, error }
}

/// A 2xx status: only then is a token response read.
pub open spec fn is_success_status(status: u16) -> bool {
    200 <= status <= 299
}

/// How the authorization URL `url` is presented.
pub open spec fn presents(a: FlowAction, open_browser: bool, url: Seq<char>) -> bool {
    match a {
        FlowAction::Present { message, open_url } => if open_browser {
            message@ == BROWSER_MESSAGE@ && open_url is Some && open_url->Some_0@ == url
        } else {
            message@ == LINK_MESSAGE@ + "\n\n\t"@ + url + "\n"@ && open_url is None
        },
        _ => false,
    }
}

/// The token request for the code typed as `line`.
pub open spec fn requests_token(a: FlowAction, oauth: CliOAuth, scheme: ExchangeScheme, line: Seq<char>) -> bool {
    match a {
        FlowAction::Send(r) => match scheme {
            ExchangeScheme::BasicAuth => basic_auth_request_for(
                r,
                oauth.client_id@,
                oauth.client_secret@,
                oauth.token_endpoint@,
                oauth.redirect_uri@,
                trimmed_of(line),
                grant_type_text(GrantType::AuthorizationCode),
            ),
            ExchangeScheme::UrlParam => url_scheme_request_for(
                r,
                oauth.client_id@,
                oauth.client_secret@,
                trimmed_of(line),
            ),
        },
        _ => false,
    }
}

/// One step of the flow from `s` on `e` to `s2`, doing `a`.
pub open spec fn step_spec(s: FlowState, e: FlowEvent, s2: FlowState, a: FlowAction) -> bool {
    match s {
        FlowState::Start { oauth, scheme, extra_params, mode } => match e {
            FlowEvent::Begin => {
                &&& s2 == FlowState::CodeRequested { oauth, scheme, mode }
                &&& presents(
                    a,
                    oauth.open_browser,
                    authorization_url_of(
                        oauth.auth_endpoint@,
                        oauth.client_id@,
                        oauth.redirect_uri@,
                        pairs_view(extra_params@),
                    ),
                )
            },
            _ => s2 == s && a == FlowAction::Ignore,
        },
        FlowState::CodeRequested { oauth, scheme, mode } => match e {
            FlowEvent::PresenterFailed => fails_with(s2, a, Stage::CodeRequested, AuthError::PresenterError),
            FlowEvent::CodeEntered(line) => s2 == FlowState::TokenExchanged { mode } && requests_token(
                a,
                oauth,
                scheme,
                line@,
            ),
            _ => s2 == s && a == FlowAction::Ignore,
        },
        FlowState::TokenExchanged { mode } => match e {
            FlowEvent::TransportFailed => fails_with(s2, a, Stage::TokenExchanged, AuthError::HttpError),
            FlowEvent::ResponseReceived { status, body } => if is_success_status(status) {
                s2 == FlowState::Done && a == FlowAction::Deliver { echo: mode == OutputMode::Verbose, body }
            } else {
                s2 == (FlowState::Failed { stage: Stage::TokenExchanged, error: AuthError::HttpError })
                    && a == FlowAction::Refused { echo: mode == OutputMode::Verbose, body }
            },
            _ => s2 == s && a == FlowAction::Ignore,
        },
        _ => s2 == s && a == FlowAction::Ignore,
    }
}

impl FlowState {
    /// A flow that has not begun.
    pub fn new(
        oauth: CliOAuth,
        scheme: ExchangeScheme,
        extra_params: Vec<(String, String)>,
        mode: OutputMode,
    ) -> (r: FlowState)
        ensures
            r == (FlowState::Start { oauth, scheme, extra_params, mode }),
    {
        FlowState::Start { oauth, scheme, extra_params, mode }
    }

    pub open spec fn is_finished(self) -> bool {
        self is Done || self is Failed
    }

    pub fn finished(&self) -> (r: bool)
        ensures
            r == self.is_finished(),
    {
        match self {
            FlowState::Done | FlowState::Failed { .. } => true,
            _ => false,
        }
    }

    /// Moves the flow on by one event.
    pub fn step(self, event: FlowEvent) -> (r: (FlowState, FlowAction))
        ensures
            step_spec(self, event, r.0, r.1),
    {
        match self {
            FlowState::Start { oauth, scheme, extra_params, mode } => match event {
                FlowEvent::Begin => match oauth.authorization_url(&extra_params) {
                    Err(error) => (
                        FlowState::Failed { stage: Stage::Start, error },
                        FlowAction::Abort { stage: Stage::Start, error },
                    ),
                    Ok(url) => {
                        let action = if oauth.open_browser {
                            FlowAction::Present { message: BROWSER_MESSAGE.to_owned(), open_url: Some(url) }
                        } else {
                            let mut message = concat2(LINK_MESSAGE, "\n\n\t");
                            message.append(url.as_str());
                            message.append("\n");
                            FlowAction::Present { message, open_url: None }
                        };
                        (FlowState::CodeRequested { oauth, scheme, mode }, action)
                    },
                },
                _ => (FlowState::Start { oauth, scheme, extra_params, mode }, FlowAction::Ignore),
            },
            FlowState::CodeRequested { oauth, scheme, mode } => match event {
                FlowEvent::PresenterFailed => (
                    FlowState::Failed { stage: Stage::CodeRequested, error: AuthError::PresenterError },
                    FlowAction::Abort { stage: Stage::CodeRequested, error: AuthError::PresenterError },
                ),
                FlowEvent::CodeEntered(line) => {
                    let code = oauth.into_code(line.as_str());
                    match code.exchange_request(scheme) {
                        Ok(request) => (FlowState::TokenExchanged { mode }, FlowAction::Send(request)),
                        Err(error) => (
                            FlowState::Failed { stage: Stage::CodeRequested, error },
                            FlowAction::Abort { stage: Stage::CodeRequested, error },
                        ),
                    }
                },
                _ => (FlowState::CodeRequested { oauth, scheme, mode }, FlowAction::Ignore),
            },
            FlowState::TokenExchanged { mode } => match event {
                FlowEvent::TransportFailed => (
                    FlowState::Failed { stage: Stage::TokenExchanged, error: AuthError::HttpError },
                    FlowAction::Abort { stage: Stage::TokenExchanged, error: AuthError::HttpError },
                ),
                FlowEvent::ResponseReceived { status, body } => {
                    if 200 <= status && status <= 299 {
                        let echo = match mode {
                            OutputMode::Verbose => true,
                            OutputMode::Quiet => false,
                        };
                        (FlowState::Done, FlowAction::Deliver { echo, body })
                    } else {
                        let echo = match mode {
                            OutputMode::Verbose => true,
                            OutputMode::Quiet => false,
                        };
                        (
                            FlowState::Failed { stage: Stage::TokenExchanged, error: AuthError::HttpError },
                            FlowAction::Refused { echo, body },
                        )
                    }
                },
                _ => (FlowState::TokenExchanged { mode }, FlowAction::Ignore),
            },
            other => (other, FlowAction::Ignore),
        }
    }
}

/// How many steps of work a state has left: the flow only moves forward.
pub open spec fn remaining_steps(s: FlowState) -> nat {
    match s {
        FlowState::Start { .. } => 3,
        FlowState::CodeRequested { .. } => 2,
        FlowState::TokenExchanged { .. } => 1,
        _ => 0,
    }
}

/// No step is retried: a step that acts moves the flow strictly forward, and
/// a step that does not act leaves it as it was. A finished flow stays
/// finished.
pub proof fn lemma_flow_moves_forward(s: FlowState, e: FlowEvent, s2: FlowState, a: FlowAction)
    requires
        step_spec(s, e, s2, a),
    ensures
        a is Ignore ==> s2 == s,
        !(a is Ignore) ==> remaining_steps(s2) < remaining_steps(s),
        s.is_finished() ==> s2 == s && a is Ignore,
{
}

/// The operator's code is exchanged at most once: only a step out of
/// `CodeRequested` sends a token request, it leaves the flow with fewer than
/// two steps to go, and from there no step sends again (the flow only moves
/// forward).
pub proof fn lemma_code_sent_once(s: FlowState, e: FlowEvent, s2: FlowState, a: FlowAction)
    requires
        step_spec(s, e, s2, a),
    ensures
        a is Send ==> s is CodeRequested && s2 is TokenExchanged && remaining_steps(s2) < 2,
        remaining_steps(s) < 2 ==> !(a is Send),
{
}

} // verus!
