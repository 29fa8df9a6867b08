//! The authorization code grant: the authorization URL, the code the operator
//! brings back, and the two ways of exchanging that code for a token.
use vstd::prelude::*;
use vstd::utf8::encode_utf8;
use crate::encoding::{
    base64_encode, base64_of, encoded_pair, form_encoded_of, is_separator_free, lemma_form_encoded_injective,
    lemma_form_encoded_separator_free, lemma_unreserved_encodes_to_itself, pairs_view, query_of, trim_text,
    trimmed_of, urlencode_pairs,
};
use crate::http::{concat2, headers_view, text_pair, HttpRequest, HttpVerb};
use crate::query::{encodes_cleanly, lemma_query_items, lemma_query_keys, query_items, query_keys};

verus! {

/// Where the URL-parameter scheme exchanges codes; the provider fixes it.
pub const URL_SCHEME_TOKEN_URL: &'static str = "https://slack.com/api/oauth.access";

/// What a provider needs for one authentication: client credentials,
/// endpoints, the redirect URI, and whether to open a browser.
pub struct CliOAuth {
    pub client_id: String,
    pub client_secret: String,
    pub auth_endpoint: String,
    pub token_endpoint: String,
    pub redirect_uri: String,
    pub open_browser: bool,
}

/// The operator's authorization code, together with all the exchange needs.
pub struct Code {
    pub code: String,
    pub client_id: String,
    pub client_secret: String,
    pub token_endpoint: String,
    pub redirect_uri: String,
}

#[derive(Clone, Copy, Debug, PartialEq, Eq, Structural)]
pub enum GrantType {
    AuthorizationCode,
}

/// A code bound for the Basic-Auth exchange.
pub struct CodeWithBasicAuthScheme {
    pub code: Code,
    pub grant_type: GrantType,
}

/// A code bound for the URL-parameter exchange.
pub struct CodeWithUrlScheme {
    pub code: Code,
}

/// How the code is exchanged for a token.
#[derive(Clone, Copy, Debug, PartialEq, Eq, Structural)]
pub enum ExchangeScheme {
    BasicAuth,
    UrlParam,
}

/// Whether raw provider responses are echoed to the operator.
#[derive(Clone, Copy, Debug, PartialEq, Eq, Structural)]
pub enum OutputMode {
    Verbose,
    Quiet,
}

#[derive(Clone, Copy, Debug, PartialEq, Eq, Structural)]
/// Why an authentication failed; none is retried.
pub enum AuthError {
    /// The browser could not be opened.
    PresenterError,
    /// Parameters could not be form-encoded.
    EncodingError,
    /// The token request failed in transport, or was answered with an error status.
    HttpError,
    /// The response is not JSON, or lacks a member of the token.
    DeserializationError,
}

pub open spec fn grant_type_text(g: GrantType) -> Seq<char> {
    match g {
        GrantType::AuthorizationCode => "authorization_code"@,
    }
}

/// The query parameters of the authorization URL, in order.
pub open spec fn authorization_pairs(
    client_id: Seq<char>,
    redirect_uri: Seq<char>,
    extra: Seq<(Seq<char>, Seq<char>)>,
) -> Seq<(Seq<char>, Seq<char>)> {
    seq![("client_id"@, client_id), ("redirect_uri"@, redirect_uri)] + extra
}

pub open spec fn authorization_url_of(
    auth_endpoint: Seq<char>,
    client_id: Seq<char>,
    redirect_uri: Seq<char>,
    extra: Seq<(Seq<char>, Seq<char>)>,
) -> Seq<char> {
    auth_endpoint + "?"@ + query_of(authorization_pairs(client_id, redirect_uri, extra))
}

pub open spec fn authorization_query_of(
    client_id: Seq<char>,
    redirect_uri: Seq<char>,
    extra: Seq<(Seq<char>, Seq<char>)>,
) -> Seq<char> {
    query_of(authorization_pairs(client_id, redirect_uri, extra))
}

/// Extra parameters whose keys differ from each other and from `client_id`
/// and `redirect_uri`.
pub open spec fn distinct_extra_keys(extra: Seq<(Seq<char>, Seq<char>)>) -> bool {
    &&& forall|i: int| 0 <= i < extra.len() ==> #[trigger] extra[i].0 != "client_id"@
    &&& forall|i: int| 0 <= i < extra.len() ==> #[trigger] extra[i].0 != "redirect_uri"@
    &&& forall|i: int, j: int| 0 <= i < j < extra.len() ==> #[trigger] extra[i].0 != #[trigger] extra[j].0
}

/// Exactly one item of query `q` has key `key`, and that item is `item`.
pub open spec fn has_single_item(q: Seq<char>, key: Seq<char>, item: Seq<char>) -> bool {
    exists|i: int|
        0 <= i < query_keys(q).len() && query_keys(q)[i] == key && query_items(q)[i] == item && forall|j: int|
            0 <= j < query_keys(q).len() && #[trigger] query_keys(q)[j] == key ==> j == i
}

/// Each parameter stands exactly once in the query, keyed by its encoding.
pub open spec fn parameters_once(
    q: Seq<char>,
    client_id: Seq<char>,
    redirect_uri: Seq<char>,
    extra: Seq<(Seq<char>, Seq<char>)>,
) -> bool {
    &&& has_single_item(q, "client_id"@, "client_id"@ + seq!['='] + form_encoded_of(client_id))
    &&& has_single_item(q, "redirect_uri"@, "redirect_uri"@ + seq!['='] + form_encoded_of(redirect_uri))
    &&& forall|i: int|
        0 <= i < extra.len() ==> has_single_item(q, form_encoded_of(#[trigger] extra[i].0), encoded_pair(extra[i]))
}

/// Every key and value of the authorization query encodes without separators.
proof fn lemma_authorization_clean(client_id: Seq<char>, redirect_uri: Seq<char>, extra: Seq<(Seq<char>, Seq<char>)>)
    ensures
        encodes_cleanly(authorization_pairs(client_id, redirect_uri, extra)),
{
    let pairs = authorization_pairs(client_id, redirect_uri, extra);
    assert forall|i: int| 0 <= i < pairs.len() implies is_separator_free(form_encoded_of(#[trigger] pairs[i].0))
        && is_separator_free(form_encoded_of(pairs[i].1)) by {
        lemma_form_encoded_separator_free(pairs[i].0);
        lemma_form_encoded_separator_free(pairs[i].1);
    }
}

/// With distinct extra keys, the authorization query holds `client_id`,
/// `redirect_uri` and each extra parameter exactly once, keyed by its encoding.
proof fn lemma_authorization_keys(client_id: Seq<char>, redirect_uri: Seq<char>, extra: Seq<(Seq<char>, Seq<char>)>)
    requires
        distinct_extra_keys(extra),
    ensures
        parameters_once(authorization_query_of(client_id, redirect_uri, extra), client_id, redirect_uri, extra),
{
    let pairs = authorization_pairs(client_id, redirect_uri, extra);
    let q = authorization_query_of(client_id, redirect_uri, extra);
    lemma_authorization_clean(client_id, redirect_uri, extra);
    lemma_query_keys(pairs);
    lemma_query_items(pairs);
    let keys = query_keys(q);
    let items = query_items(q);
    reveal_strlit("client_id");
    reveal_strlit("redirect_uri");
    lemma_unreserved_encodes_to_itself("client_id"@);
    lemma_unreserved_encodes_to_itself("redirect_uri"@);
    assert(keys.len() == pairs.len());
    assert forall|i: int| 0 <= i < pairs.len() implies #[trigger] keys[i] == form_encoded_of(pairs[i].0)
        && items[i] == encoded_pair(pairs[i]) by {}
    assert(pairs[0].0 == "client_id"@);
    assert(pairs[1].0 == "redirect_uri"@);
    assert forall|i: int| 0 <= i < extra.len() implies pairs[i + 2] == #[trigger] extra[i] by {}
    assert("client_id"@ != "redirect_uri"@) by {
        assert("client_id"@.len() != "redirect_uri"@.len());
    }
    assert(has_single_item(q, "client_id"@, "client_id"@ + seq!['='] + form_encoded_of(client_id))) by {
        assert(keys[0] == "client_id"@ && items[0] == encoded_pair(pairs[0]));
        assert forall|j: int| 0 <= j < keys.len() && #[trigger] keys[j] == "client_id"@ implies j == 0 by {
            lemma_form_encoded_injective(pairs[j].0, "client_id"@);
            if j >= 2 {
                assert(pairs[j] == extra[j - 2]);
            }
        }
    }
    assert(has_single_item(q, "redirect_uri"@, "redirect_uri"@ + seq!['='] + form_encoded_of(redirect_uri))) by {
        assert(keys[1] == "redirect_uri"@ && items[1] == encoded_pair(pairs[1]));
        assert forall|j: int| 0 <= j < keys.len() && #[trigger] keys[j] == "redirect_uri"@ implies j == 1 by {
            lemma_form_encoded_injective(pairs[j].0, "redirect_uri"@);
            if j >= 2 {
                assert(pairs[j] == extra[j - 2]);
            }
        }
    }
    assert forall|i: int| 0 <= i < extra.len() implies has_single_item(
        q,
        form_encoded_of(#[trigger] extra[i].0),
        encoded_pair(extra[i]),
    ) by {
        assert(keys[i + 2] == form_encoded_of(extra[i].0));
        assert(items[i + 2] == encoded_pair(extra[i]));
        assert forall|j: int| 0 <= j < keys.len() && #[trigger] keys[j] == form_encoded_of(extra[i].0) implies j
            == i + 2 by {
            lemma_form_encoded_injective(pairs[j].0, extra[i].0);
            if j >= 2 && j != i + 2 {
                assert(pairs[j] == extra[j - 2]);
                if j - 2 < i {
                    assert(extra[j - 2].0 != extra[i].0);
                } else {
                    assert(extra[i].0 != extra[j - 2].0);
                }
            }
        }
    }
}

/// The form body of the Basic-Auth exchange.
pub open spec fn basic_auth_body_of(grant: Seq<char>, redirect_uri: Seq<char>, code: Seq<char>) -> Seq<char> {
    "grant_type="@ + grant + "&redirect_uri="@ + redirect_uri + "&code="@ + code
}

/// The value of the `Authorization` header for client credentials.
pub open spec fn basic_credential_of(client_id: Seq<char>, client_secret: Seq<char>) -> Seq<char> {
    "Basic "@ + base64_of(encode_utf8(client_id + ":"@ + client_secret))
}

pub open spec fn url_scheme_pairs(
    client_id: Seq<char>,
    client_secret: Seq<char>,
    code: Seq<char>,
) -> Seq<(Seq<char>, Seq<char>)> {
    seq![("client_id"@, client_id), ("client_secret"@, client_secret), ("code"@, code)]
}

/// The Basic-Auth exchange request for the given credentials, endpoint, redirect URI and code text.
pub open spec fn basic_auth_request_for(
    r: HttpRequest,
    client_id: Seq<char>,
    client_secret: Seq<char>,
    token_endpoint: Seq<char>,
    redirect_uri: Seq<char>,
    code: Seq<char>,
    grant: Seq<char>,
) -> bool {
    &&& r.verb == HttpVerb::POST
    &&& r.url@ == token_endpoint
    &&& headers_view(r.headers@) == seq![
        ("Authorization"@, basic_credential_of(client_id, client_secret)),
        ("Content-Type"@, "application/x-www-form-urlencoded"@),
    ]
    &&& r.body is Some
    &&& r.body->Some_0@ == basic_auth_body_of(grant, redirect_uri, code)
}

/// The request of the Basic-Auth exchange for `code`.
pub open spec fn is_basic_auth_request(r: HttpRequest, code: Code, grant: GrantType) -> bool {
    basic_auth_request_for(
        r,
        code.client_id@,
        code.client_secret@,
        code.token_endpoint@,
        code.redirect_uri@,
        code.code@,
        grant_type_text(grant),
    )
}

/// The URL-parameter exchange request for the given credentials and code text.
pub open spec fn url_scheme_request_for(
    r: HttpRequest,
    client_id: Seq<char>,
    client_secret: Seq<char>,
    code: Seq<char>,
) -> bool {
    &&& r.verb == HttpVerb::GET
    &&& r.url@ == URL_SCHEME_TOKEN_URL@ + "?"@ + query_of(url_scheme_pairs(client_id, client_secret, code))
    &&& r.headers@.len() == 0
    &&& r.body is None
}

/// The request of the URL-parameter exchange for `code`.
pub open spec fn is_url_scheme_request(r: HttpRequest, code: Code) -> bool {
    url_scheme_request_for(r, code.client_id@, code.client_secret@, code.code@)
}

impl GrantType {
    pub fn as_str(&self) -> (r: &'static str)
        ensures
            r@ == grant_type_text(*self),
    {
        match self {
            GrantType::AuthorizationCode => "authorization_code",
        }
    }
}

impl CliOAuth {
    /// The URL at which the operator authorizes the client: the authorization
    /// endpoint, `?`, then `client_id`, `redirect_uri` and the extra
    /// parameters, form-encoded.
    pub fn authorization_url(&self, extra_params: &Vec<(String, String)>) -> (r: Result<String, AuthError>)
        ensures
            r is Ok,
            r->Ok_0@ == authorization_url_of(
                self.auth_endpoint@,
                self.client_id@,
                self.redirect_uri@,
                pairs_view(extra_params@),
            ),
            query_items(authorization_query_of(self.client_id@, self.redirect_uri@, pairs_view(extra_params@)))
                == authorization_pairs(self.client_id@, self.redirect_uri@, pairs_view(extra_params@)).map_values(
                |p: (Seq<char>, Seq<char>)| encoded_pair(p),
            ),
            distinct_extra_keys(pairs_view(extra_params@)) ==> parameters_once(
                authorization_query_of(self.client_id@, self.redirect_uri@, pairs_view(extra_params@)),
                self.client_id@,
                self.redirect_uri@,
                pairs_view(extra_params@),
            ),
    {
        let ghost head = seq![("client_id"@, self.client_id@), ("redirect_uri"@, self.redirect_uri@)];
        let ghost want = head + pairs_view(extra_params@);
        let mut params: Vec<(String, String)> = Vec::new();
        params.push(text_pair("client_id", self.client_id.as_str()));
        params.push(text_pair("redirect_uri", self.redirect_uri.as_str()));
        let mut i: usize = 0;
        while i < extra_params.len()
            invariant
                i <= extra_params@.len(),
                head.len() == 2,
                want == head + pairs_view(extra_params@),
                want.len() == extra_params@.len() + 2,
                pairs_view(params@) =~= want.subrange(0, i + 2),
            decreases extra_params@.len() - i,
        {
            let (k, v) = &extra_params[i];
            let ghost before = params@;
            params.push(text_pair(k.as_str(), v.as_str()));
            assert(pairs_view(extra_params@)[i as int] == (k@, v@));
            assert(want[i + 2] == pairs_view(extra_params@)[i as int]);
            assert(pairs_view(params@) =~= pairs_view(before).push((k@, v@)));
            i = i + 1;
        }
        assert(pairs_view(params@) =~= want);
        assert(want == authorization_pairs(self.client_id@, self.redirect_uri@, pairs_view(extra_params@)));
        proof {
            lemma_authorization_clean(self.client_id@, self.redirect_uri@, pairs_view(extra_params@));
            lemma_query_items(want);
            if distinct_extra_keys(pairs_view(extra_params@)) {
                lemma_authorization_keys(self.client_id@, self.redirect_uri@, pairs_view(extra_params@));
            }
        }
        match urlencode_pairs(&params) {
            Ok(query) => {
                let mut url = concat2(self.auth_endpoint.as_str(), "?");
                url.append(query.as_str());
                Ok(url)
            },
            Err(_) => Err(AuthError::EncodingError),
        }
    }

    /// The code the operator typed, trimmed, carried with what the exchange needs.
    pub fn into_code(self, input: &str) -> (r: Code)
        ensures
            r.code@ == trimmed_of(input@),
            r.client_id == self.client_id,
            r.client_secret == self.client_secret,
            r.token_endpoint == self.token_endpoint,
            r.redirect_uri == self.redirect_uri,
    {
        let code = trim_text(input).to_owned();
        Code {
            code,
            client_id: self.client_id,
            client_secret: self.client_secret,
            token_endpoint: self.token_endpoint,
            redirect_uri: self.redirect_uri,
        }
    }
}

/// The `Authorization` header value for client credentials.
pub fn basic_credential(client_id: &str, client_secret: &str) -> (r: String)
    ensures
        r@ == basic_credential_of(client_id@, client_secret@),
{
    let mut credential = concat2(client_id, ":");
    credential.append(client_secret);
    let encoded = base64_encode(credential.as_str().as_bytes());
    concat2("Basic ", encoded.as_str())
}

impl CodeWithBasicAuthScheme {
    /// The token request: a form POST to the token endpoint, with the client
    /// credentials in a Basic `Authorization` header.
    pub fn token_request(self) -> (r: HttpRequest)
        ensures
            is_basic_auth_request(r, self.code, self.grant_type),
    {
        let code = self.code;
        let authorization = basic_credential(code.client_id.as_str(), code.client_secret.as_str());
        let mut headers: Vec<(String, String)> = Vec::new();
        headers.push(text_pair("Authorization", authorization.as_str()));
        headers.push(text_pair("Content-Type", "application/x-www-form-urlencoded"));
        let mut body = concat2("grant_type=", self.grant_type.as_str());
        body.append("&redirect_uri=");
        body.append(code.redirect_uri.as_str());
        body.append("&code=");
        body.append(code.code.as_str());
        assert(headers_view(headers@) =~= seq![
            ("Authorization"@, basic_credential_of(code.client_id@, code.client_secret@)),
            ("Content-Type"@, "application/x-www-form-urlencoded"@),
        ]);
        HttpRequest { verb: HttpVerb::POST, url: code.token_endpoint, headers, body: Some(body) }
    }
}

impl CodeWithUrlScheme {
    /// The token request: a GET with `client_id`, `client_secret` and `code`
    /// in the query string, and neither headers nor body.
    pub fn token_request(self) -> (r: Result<HttpRequest, AuthError>)
        ensures
            r is Ok,
            is_url_scheme_request(r->Ok_0, self.code),
    {
        let code = self.code;
        let mut params: Vec<(String, String)> = Vec::new();
        params.push(text_pair("client_id", code.client_id.as_str()));
        params.push(text_pair("client_secret", code.client_secret.as_str()));
        params.push(text_pair("code", code.code.as_str()));
        assert(pairs_view(params@) =~= url_scheme_pairs(code.client_id@, code.client_secret@, code.code@));
        match urlencode_pairs(&params) {
            Ok(query) => {
                let mut url = concat2(URL_SCHEME_TOKEN_URL, "?");
                url.append(query.as_str());
                Ok(HttpRequest { verb: HttpVerb::GET, url, headers: Vec::new(), body: None })
            },
            Err(_) => Err(AuthError::EncodingError),
        }
    }
}

/// The exchange request for `code` under `scheme`.
pub open spec fn is_exchange_request(r: HttpRequest, code: Code, scheme: ExchangeScheme) -> bool {
    match scheme {
        ExchangeScheme::BasicAuth => is_basic_auth_request(r, code, GrantType::AuthorizationCode),
        ExchangeScheme::UrlParam => is_url_scheme_request(r, code),
    }
}

impl Code {
    /// The token request for this code under `scheme`; the code is used up.
    pub fn exchange_request(self, scheme: ExchangeScheme) -> (r: Result<HttpRequest, AuthError>)
        ensures
            r is Ok,
            is_exchange_request(r->Ok_0, self, scheme),
    {
        match scheme {
            ExchangeScheme::BasicAuth => {
                let bound = CodeWithBasicAuthScheme { code: self, grant_type: GrantType::AuthorizationCode };
                Ok(bound.token_request())
            },
            ExchangeScheme::UrlParam => CodeWithUrlScheme { code: self }.token_request(),
        }
    }
}

/// Binds a code, or the failure to get one, to the Basic-Auth exchange.
pub trait CodeWithBasicAuth: Sized {
    fn with_basic_auth(self) -> Result<CodeWithBasicAuthScheme, AuthError>;
}

impl CodeWithBasicAuth for Result<Code, AuthError> {
    fn with_basic_auth(self) -> (r: Result<CodeWithBasicAuthScheme, AuthError>)
        ensures
            match self {
                Ok(c) => r == Ok::<CodeWithBasicAuthScheme, AuthError>(
                    CodeWithBasicAuthScheme { code: c, grant_type: GrantType::AuthorizationCode },
                ),
                Err(e) => r == Err::<CodeWithBasicAuthScheme, AuthError>(e),
            },
    {
        match self {
            Ok(code) => Ok(CodeWithBasicAuthScheme { code, grant_type: GrantType::AuthorizationCode }),
            Err(e) => Err(e),
        }
    }
}

/// Binds a code, or the failure to get one, to the URL-parameter exchange.
pub trait CodeWithUrl: Sized {
    fn with_url(self) -> Result<CodeWithUrlScheme, AuthError>;
}

impl CodeWithUrl for Result<Code, AuthError> {
    fn with_url(self) -> (r: Result<CodeWithUrlScheme, AuthError>)
        ensures
            match self {
                Ok(c) => r == Ok::<CodeWithUrlScheme, AuthError>(CodeWithUrlScheme { code: c }),
                Err(e) => r == Err::<CodeWithUrlScheme, AuthError>(e),
            },
    {
        match self {
            Ok(code) => Ok(CodeWithUrlScheme { code }),
            Err(e) => Err(e),
        }
    }
}

} // verus!
