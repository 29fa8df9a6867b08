//! Slack: authentication through the URL-parameter exchange.
use vstd::prelude::*;
use crate::config::{Config, OutputFormat};
use crate::driver::FlowState;
use crate::encoding::pairs_view;
use crate::http::text_pair;
use crate::oauth::{CliOAuth, ExchangeScheme, OutputMode};

verus! {

pub const AUTH_ENDPOINT: &'static str = "https://slack.com/oauth/authorize";

pub const TOKEN_ENDPOINT: &'static str = "https://slack.com/api/oauth.access";

pub const REDIRECT_URI: &'static str = "https://lukaspustina.github.io/rat/redirects/slack.html";

pub const SCOPE: &'static str = "channels:read chat:write:user";

/// Slack's authentication: the URL-parameter exchange, asking for the scope
/// to read channels and write as the user.
pub fn auth(config: &Config, open_browser: bool) -> (r: FlowState)
    ensures
        r matches FlowState::Start { oauth, scheme, extra_params, mode } && {
            &&& oauth.client_id == config.slack.client_id
            &&& oauth.client_secret == config.slack.client_secret
            &&& oauth.auth_endpoint@ == AUTH_ENDPOINT@
            &&& oauth.token_endpoint@ == TOKEN_ENDPOINT@
            &&& oauth.redirect_uri@ == REDIRECT_URI@
            &&& oauth.open_browser == open_browser
            &&& scheme == ExchangeScheme::UrlParam
            &&& pairs_view(extra_params@) == seq![("scope"@, SCOPE@)]
            &&& mode == (if config.general.output_format == OutputFormat::JSON {
                OutputMode::Verbose
            } else {
                OutputMode::Quiet
            })
        },
{
    let oauth = CliOAuth {
        client_id: config.slack.client_id.clone(),
        client_secret: config.slack.client_secret.clone(),
        auth_endpoint: AUTH_ENDPOINT.to_owned(),
        token_endpoint: TOKEN_ENDPOINT.to_owned(),
        redirect_uri: REDIRECT_URI.to_owned(),
        open_browser,
    };
    let mut extra: Vec<(String, String)> = Vec::new();
    extra.push(text_pair("scope", SCOPE));
    assert(pairs_view(extra@) =~= seq![("scope"@, SCOPE@)]);
    FlowState::new(oauth, ExchangeScheme::UrlParam, extra, config.general.output_format.output_mode())
}

} // verus!
