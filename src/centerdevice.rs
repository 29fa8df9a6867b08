//! CenterDevice: requests for its document API and the reading of what comes back.
use vstd::prelude::*;
use vstd::utf8::{decode_utf8, valid_utf8};
use crate::encoding::{pairs_view, query_of, urlencode_pairs};
use crate::http::{
    bearer, bearer_of, concat2, decimal, decimal_of, headers_view, utf8_text, text_pair, ClientError, HttpRequest, HttpVerb,
};
use crate::json::{
    concat3, member, member_of, object, object_of, opt_string, opt_text, opt_texts, string_array, string_array_of,
    string_member, texts_view,
};
use crate::encoding::json_quoted_of;
use crate::oauth::{basic_credential, basic_credential_of, CliOAuth, ExchangeScheme};
use crate::config::Config;
use crate::driver::FlowState;

verus! {

pub const DOCUMENTS_URL: &'static str = "https://api.centerdevice.de/v2/documents";

pub const DOCUMENT_URL: &'static str = "https://api.centerdevice.de/v2/document/";

pub const COLLECTIONS_URL: &'static str = "https://api.centerdevice.de/v2/collections";

pub const TOKEN_URL: &'static str = "https://auth.centerdevice.de/token";

/// `needle` occurs somewhere in `hay`.
pub open spec fn contains_text(hay: Seq<char>, needle: Seq<char>) -> bool {
    exists|i: int| 0 <= i <= hay.len() - needle.len() && #[trigger] hay.subrange(i, i + needle.len()) == needle
}

/// The characters of `s`, in order.
fn chars_of(s: &str) -> (r: Vec<char>)
    ensures
        r@ == s@,
{
    let n = s.unicode_len();
    let mut out: Vec<char> = Vec::new();
    let mut i: usize = 0;
    while i < n
        invariant
            i <= n,
            n == s@.len(),
            out@ == s@.subrange(0, i as int),
        decreases n - i,
    {
        out.push(s.get_char(i));
        assert(out@ =~= s@.subrange(0, i + 1));
        i = i + 1;
    }
    assert(out@ =~= s@);
    out
}

/// Whether `needle` occurs in `hay` at `at`.
fn occurs_at(hay: &Vec<char>, needle: &Vec<char>, at: usize) -> (r: bool)
    requires
        at + needle@.len() <= hay@.len(),
    ensures
        r == (hay@.subrange(at as int, at + needle@.len()) == needle@),
{
    let hay_len = hay.len();
    let mut j: usize = 0;
    while j < needle.len()
        invariant
            j <= needle@.len(),
            hay_len == hay@.len(),
            at + needle@.len() <= hay@.len(),
            forall|k: int| 0 <= k < j ==> hay@[at + k] == needle@[k],
        decreases needle@.len() - j,
    {
        if hay[at + j] != needle[j] {
            assert(hay@.subrange(at as int, at + needle@.len())[j as int] != needle@[j as int]);
            return false;
        }
        j = j + 1;
    }
    assert(hay@.subrange(at as int, at + needle@.len()) =~= needle@);
    true
}

/// Whether `needle` occurs somewhere in `hay`.
pub fn contains(hay: &str, needle: &str) -> (r: bool)
    ensures
        r == contains_text(hay@, needle@),
{
    let h = chars_of(hay);
    let p = chars_of(needle);
    if p.len() > h.len() {
        return false;
    }
    let last = h.len() - p.len();
    let mut at: usize = 0;
    while at < last
        invariant
            h@ == hay@,
            p@ == needle@,
            last + p@.len() == h@.len(),
            at <= last,
            forall|k: int| 0 <= k < at ==> #[trigger] hay@.subrange(k, k + needle@.len()) != needle@,
        decreases last - at,
    {
        if occurs_at(&h, &p, at) {
            return true;
        }
        at = at + 1;
    }
    occurs_at(&h, &p, last)
}

pub struct Collection {
    pub id: String,
    pub public: bool,
    pub name: String,
}

impl Collection {
    pub fn duplicate(&self) -> (r: Collection)
        ensures
            r == *self,
    {
        Collection { id: self.id.clone(), public: self.public, name: self.name.clone() }
    }
}

pub open spec fn name_contains(c: Collection, pattern: Seq<char>) -> bool {
    contains_text(c.name@, pattern)
}

pub struct CollectionsResult {
    pub collections: Vec<Collection>,
}

/// `i` is the first index of a collection named `name`.
pub open spec fn first_named(cs: Seq<Collection>, name: Seq<char>, i: int) -> bool {
    &&& 0 <= i < cs.len()
    &&& cs[i].name@ == name
    &&& forall|j: int| 0 <= j < i ==> #[trigger] cs[j].name@ != name
}

impl CollectionsResult {
    /// The id of the first collection named `name`, if there is one.
    pub fn id_of(&self, name: &str) -> (r: Option<String>)
        ensures
            r is None <==> forall|j: int| 0 <= j < self.collections@.len() ==> #[trigger] self.collections@[j].name@ != name@,
            r is Some ==> exists|i: int| first_named(self.collections@, name@, i) && r->Some_0@ == self.collections@[i].id@,
    {
        let mut i: usize = 0;
        while i < self.collections.len()
            invariant
                i <= self.collections@.len(),
                forall|j: int| 0 <= j < i ==> #[trigger] self.collections@[j].name@ != name@,
            decreases self.collections@.len() - i,
        {
            let c = &self.collections[i];
            if crate::json::same_text(c.name.as_str(), name) {
                assert(first_named(self.collections@, name@, i as int));
                return Some(c.id.clone());
            }
            i = i + 1;
        }
        None
    }

    pub open spec fn keeps(pattern: Seq<char>) -> spec_fn(Collection) -> bool {
        |c: Collection| name_contains(c, pattern)
    }

    /// The collections whose name contains `regex` as plain text, in order.
    pub fn filter(self, regex: &str) -> (r: CollectionsResult)
        ensures
            r.collections@ == self.collections@.filter(Self::keeps(regex@)),
    {
        let mut kept: Vec<Collection> = Vec::new();
        let mut i: usize = 0;
        while i < self.collections.len()
            invariant
                i <= self.collections@.len(),
                kept@ == self.collections@.subrange(0, i as int).filter(Self::keeps(regex@)),
            decreases self.collections@.len() - i,
        {
            let c = &self.collections[i];
            let keep = contains(c.name.as_str(), regex);
            let ghost before = kept@;
            if keep {
                kept.push(c.duplicate());
            }
            proof {
                let pred = Self::keeps(regex@);
                let prev = self.collections@.subrange(0, i as int);
                let next = self.collections@.subrange(0, i + 1);
                assert(next.drop_last() =~= prev);
                assert(next.last() == self.collections@[i as int]);
                assert(name_contains(self.collections@[i as int], regex@) == keep);
                assert(pred(next.last()) == keep);
                reveal_with_fuel(Seq::filter, 1);
                assert(next.filter(pred) == (if pred(next.last()) {
                    prev.filter(pred).push(next.last())
                } else {
                    prev.filter(pred)
                }));
            }
            i = i + 1;
        }
        assert(self.collections@.subrange(0, self.collections@.len() as int) =~= self.collections@);
        CollectionsResult { collections: kept }
    }
}

/// Headers of a JSON request carrying an access token.
pub open spec fn json_headers_of(token: Seq<char>) -> Seq<(Seq<char>, Seq<char>)> {
    seq![
        ("Authorization"@, bearer_of(token)),
        ("Content-Type"@, "application/json"@),
        ("Accept"@, "application/json; charset=utf-8"@),
    ]
}

fn json_headers(token: &str) -> (r: Vec<(String, String)>)
    ensures
        headers_view(r@) == json_headers_of(token@),
{
    let auth = bearer(token);
    let mut headers: Vec<(String, String)> = Vec::new();
    headers.push(text_pair("Authorization", auth.as_str()));
    headers.push(text_pair("Content-Type", "application/json"));
    headers.push(text_pair("Accept", "application/json; charset=utf-8"));
    assert(headers_view(headers@) =~= json_headers_of(token@));
    headers
}

/// A POST of `body` as JSON to `url`.
pub open spec fn is_json_post(r: HttpRequest, url: Seq<char>, token: Seq<char>, body: Seq<char>) -> bool {
    &&& r.verb == HttpVerb::POST
    &&& r.url@ == url
    &&& headers_view(r.headers@) == json_headers_of(token)
    &&& r.body is Some
    &&& r.body->Some_0@ == body
}

/// The request to delete documents.
pub struct DeleteAction {
    pub action: String,
    pub documents: Vec<String>,
}

pub open spec fn delete_json_of(action: Seq<char>, documents: Seq<Seq<char>>) -> Seq<char> {
    object_of(
        seq![
            member_of("action"@, json_quoted_of(action)),
            member_of("params"@, object_of(seq![member_of("documents"@, string_array_of(documents))])),
        ],
    )
}

impl DeleteAction {
    pub fn new(documents: Vec<String>) -> (r: DeleteAction)
        ensures
            r.action@ == "delete"@,
            r.documents == documents,
    {
        DeleteAction { action: "delete".to_owned(), documents }
    }

    /// `{"action":...,"params":{"documents":[...]}}`
    pub fn to_json(&self) -> (r: String)
        ensures
            r@ == delete_json_of(self.action@, texts_view(self.documents@)),
    {
        let docs = string_array(&self.documents);
        let mut inner: Vec<String> = Vec::new();
        inner.push(member("documents", docs.as_str()));
        let params = object(&inner);
        let mut members: Vec<String> = Vec::new();
        members.push(string_member("action", self.action.as_str()));
        members.push(member("params", params.as_str()));
        assert(texts_view(inner@) =~= seq![member_of("documents"@, string_array_of(texts_view(self.documents@)))]);
        assert(texts_view(members@) =~= seq![
            member_of("action"@, json_quoted_of(self.action@)),
            member_of("params"@, object_of(seq![member_of("documents"@, string_array_of(texts_view(self.documents@)))])),
        ]);
        object(&members)
    }
}

/// The request that deletes the documents `document_ids`.
pub fn delete_documents(access_token: &str, document_ids: Vec<String>) -> (r: HttpRequest)
    ensures
        is_json_post(r, DOCUMENTS_URL@, access_token@, delete_json_of("delete"@, texts_view(document_ids@))),
{
    let action = DeleteAction::new(document_ids);
    let body = action.to_json();
    HttpRequest {
        verb: HttpVerb::POST,
        url: DOCUMENTS_URL.to_owned(),
        headers: json_headers(access_token),
        body: Some(body),
    }
}

/// The request that trades a refresh token for a new access token.
pub fn refresh_token(token: &str, client_id: &str, client_secret: &str) -> (r: HttpRequest)
    ensures
        r.verb == HttpVerb::POST,
        r.url@ == TOKEN_URL@,
        headers_view(r.headers@) == seq![
            ("Authorization"@, basic_credential_of(client_id@, client_secret@)),
            ("Content-Type"@, "application/x-www-form-urlencoded"@),
        ],
        r.body is Some,
        r.body->Some_0@ == "grant_type=refresh_token&refresh_token="@ + token@,
{
    let auth = basic_credential(client_id, client_secret);
    let mut headers: Vec<(String, String)> = Vec::new();
    headers.push(text_pair("Authorization", auth.as_str()));
    headers.push(text_pair("Content-Type", "application/x-www-form-urlencoded"));
    assert(headers_view(headers@) =~= seq![
        ("Authorization"@, basic_credential_of(client_id@, client_secret@)),
        ("Content-Type"@, "application/x-www-form-urlencoded"@),
    ]);
    let body = concat2("grant_type=refresh_token&refresh_token=", token);
    HttpRequest { verb: HttpVerb::POST, url: TOKEN_URL.to_owned(), headers, body: Some(body) }
}

#[derive(Clone, Copy, Debug, PartialEq, Eq, Structural)]
pub enum NamedSearches {
    NoneSelected,
    PublicCollections,
}

/// `"key":[...]` when there are values, nothing otherwise.
pub open spec fn array_members(key: Seq<char>, values: Option<Seq<Seq<char>>>) -> Seq<Seq<char>> {
    match values {
        Some(v) => seq![member_of(key, string_array_of(v))],
        None => Seq::empty(),
    }
}

pub open spec fn text_members(key: Seq<char>, value: Option<Seq<char>>) -> Seq<Seq<char>> {
    match value {
        Some(t) => seq![member_of(key, json_quoted_of(t))],
        None => Seq::empty(),
    }
}

/// The key of the flag that adds public collections to a search.
pub open spec fn inclusion_key() -> Seq<char> {
    "incl"@ + "ude"@
}

pub open spec fn named_members(named: NamedSearches) -> Seq<Seq<char>> {
    match named {
        NamedSearches::NoneSelected => Seq::empty(),
        NamedSearches::PublicCollections => seq![
            member_of(
                "named"@,
                "["@ + object_of(
                    seq![
                        member_of("name"@, json_quoted_of("public-collections"@)),
                        member_of("params"@, object_of(seq![member_of(inclusion_key(), "true"@)])),
                    ],
                ) + "]"@,
            ),
        ],
    }
}

pub open spec fn search_json_of(
    filenames: Option<Seq<Seq<char>>>,
    tags: Option<Seq<Seq<char>>>,
    fulltext: Option<Seq<char>>,
    named: NamedSearches,
) -> Seq<char> {
    object_of(
        seq![
            member_of("action"@, json_quoted_of("search"@)),
            member_of(
                "params"@,
                object_of(
                    seq![
                        member_of("query"@, object_of(text_members("text"@, fulltext))),
                        member_of(
                            "filter"@,
                            object_of(array_members("filenames"@, filenames) + array_members("tags"@, tags)),
                        ),
                    ] + named_members(named),
                ),
            ),
        ],
    )
}

fn push_array_member(members: &mut Vec<String>, key: &str, values: &Option<Vec<String>>)
    ensures
        texts_view(final(members)@) == texts_view(old(members)@) + array_members(key@, opt_texts(*values)),
{
    match values {
        Some(v) => {
            let a = string_array(v);
            members.push(member(key, a.as_str()));
        },
        None => {},
    }
    assert(texts_view(members@) =~= texts_view(old(members)@) + array_members(key@, opt_texts(*values)));
}

/// The JSON body of a document search.
pub fn search_json(
    filenames: &Option<Vec<String>>,
    tags: &Option<Vec<String>>,
    fulltext: Option<&str>,
    named_searches: NamedSearches,
) -> (r: String)
    ensures
        r@ == search_json_of(opt_texts(*filenames), opt_texts(*tags), opt_text(fulltext), named_searches),
{
    let mut query: Vec<String> = Vec::new();
    match fulltext {
        Some(t) => query.push(string_member("text", t)),
        None => {},
    }
    assert(texts_view(query@) =~= text_members("text"@, opt_text(fulltext)));
    let query_obj = object(&query);
    let mut filter: Vec<String> = Vec::new();
    push_array_member(&mut filter, "filenames", filenames);
    push_array_member(&mut filter, "tags", tags);
    assert(texts_view(filter@) =~= array_members("filenames"@, opt_texts(*filenames)) + array_members("tags"@, opt_texts(*tags)));
    let filter_obj = object(&filter);
    let mut params: Vec<String> = Vec::new();
    params.push(member("query", query_obj.as_str()));
    params.push(member("filter", filter_obj.as_str()));
    let ghost head = texts_view(params@);
    match named_searches {
        NamedSearches::NoneSelected => {},
        NamedSearches::PublicCollections => {
            let key = concat2("incl", "ude");
            let mut flags: Vec<String> = Vec::new();
            flags.push(member(key.as_str(), "true"));
            let flags_obj = object(&flags);
            let mut named: Vec<String> = Vec::new();
            named.push(string_member("name", "public-collections"));
            named.push(member("params", flags_obj.as_str()));
            let named_obj = object(&named);
            let list = concat3("[", named_obj.as_str(), "]");
            params.push(member("named", list.as_str()));
            assert(texts_view(flags@) =~= seq![member_of(inclusion_key(), "true"@)]);
            assert(texts_view(named@) =~= seq![
                member_of("name"@, json_quoted_of("public-collections"@)),
                member_of("params"@, object_of(seq![member_of(inclusion_key(), "true"@)])),
            ]);
        },
    }
    assert(texts_view(params@) =~= seq![
        member_of("query"@, object_of(text_members("text"@, opt_text(fulltext)))),
        member_of(
            "filter"@,
            object_of(array_members("filenames"@, opt_texts(*filenames)) + array_members("tags"@, opt_texts(*tags))),
        ),
    ] + named_members(named_searches));
    let params_obj = object(&params);
    let mut members: Vec<String> = Vec::new();
    members.push(string_member("action", "search"));
    members.push(member("params", params_obj.as_str()));
    assert(texts_view(members@) =~= seq![
        member_of("action"@, json_quoted_of("search"@)),
        member_of("params"@, params_obj@),
    ]);
    object(&members)
}

/// The request of a document search.
pub fn search_documents(
    access_token: &str,
    filenames: Option<Vec<String>>,
    tags: Option<Vec<String>>,
    fulltext: Option<&str>,
    named_searches: NamedSearches,
) -> (r: HttpRequest)
    ensures
        is_json_post(
            r,
            DOCUMENTS_URL@,
            access_token@,
            search_json_of(opt_texts(filenames), opt_texts(tags), opt_text(fulltext), named_searches),
        ),
{
    let body = search_json(&filenames, &tags, fulltext, named_searches);
    HttpRequest {
        verb: HttpVerb::POST,
        url: DOCUMENTS_URL.to_owned(),
        headers: json_headers(access_token),
        body: Some(body),
    }
}

pub open spec fn bool_text(b: bool) -> Seq<char> {
    if b {
        "true"@
    } else {
        "false"@
    }
}

fn bool_string(b: bool) -> (r: String)
    ensures
        r@ == bool_text(b),
{
    if b {
        "true".to_owned()
    } else {
        "false".to_owned()
    }
}

/// The query parameters of a collection search.
pub open spec fn collections_pairs(include_public: bool, name: Option<Seq<char>>) -> Seq<(Seq<char>, Seq<char>)> {
    seq![("include-public"@, bool_text(include_public))] + match name {
        Some(n) => seq![("name"@, n)],
        None => Seq::empty(),
    }
}

/// The request of a collection search: a GET with the token and the query.
pub fn search_collections_request(access_token: &str, name: Option<&str>, include_public: bool) -> (r: Result<
    HttpRequest,
    ClientError,
>)
    ensures
        r is Ok,
        r is Ok ==> {
            let q = r->Ok_0;
            &&& q.verb == HttpVerb::GET
            &&& q.url@ == COLLECTIONS_URL@ + "?"@ + query_of(collections_pairs(include_public, opt_text(name)))
            &&& headers_view(q.headers@) == seq![("Authorization"@, bearer_of(access_token@))]
            &&& q.body is None
        },
{
    let flag = bool_string(include_public);
    let mut params: Vec<(String, String)> = Vec::new();
    params.push(text_pair("include-public", flag.as_str()));
    match name {
        Some(n) => params.push(text_pair("name", n)),
        None => {},
    }
    assert(pairs_view(params@) =~= collections_pairs(include_public, opt_text(name)));
    match urlencode_pairs(&params) {
        Ok(query) => {
            let mut url = concat2(COLLECTIONS_URL, "?");
            url.append(query.as_str());
            let auth = bearer(access_token);
            let mut headers: Vec<(String, String)> = Vec::new();
            headers.push(text_pair("Authorization", auth.as_str()));
            assert(headers_view(headers@) =~= seq![("Authorization"@, bearer_of(access_token@))]);
            Ok(HttpRequest { verb: HttpVerb::GET, url, headers, body: None })
        },
        Err(_) => Err(ClientError::EncodingError),
    }
}

/// The request that downloads one document.
pub fn download_document(access_token: &str, document_id: &str) -> (r: HttpRequest)
    ensures
        r.verb == HttpVerb::GET,
        r.url@ == DOCUMENT_URL@ + document_id@,
        headers_view(r.headers@) == seq![("Authorization"@, bearer_of(access_token@)), ("Content-Type"@, "*/*"@)],
        r.body is None,
{
    let auth = bearer(access_token);
    let mut headers: Vec<(String, String)> = Vec::new();
    headers.push(text_pair("Authorization", auth.as_str()));
    headers.push(text_pair("Content-Type", "*/*"));
    assert(headers_view(headers@) =~= seq![("Authorization"@, bearer_of(access_token@)), ("Content-Type"@, "*/*"@)]);
    HttpRequest { verb: HttpVerb::GET, url: concat2(DOCUMENT_URL, document_id), headers, body: None }
}

/// The name to save a download under: the one given, else the file name of
/// the response's content disposition, which must be UTF-8.
pub fn download_filename(filename: Option<&str>, disposition_filename: Option<Vec<u8>>) -> (r: Result<String, ClientError>)
    ensures
        match filename {
            Some(f) => r is Ok && r->Ok_0@ == f@,
            None => match disposition_filename {
                Some(b) => if valid_utf8(b@) {
                    r is Ok && r->Ok_0@ == decode_utf8(b@)
                } else {
                    r == Err::<String, ClientError>(ClientError::FailedSetFilename)
                },
                None => r == Err::<String, ClientError>(ClientError::FailedSetFilename),
            },
        },
{
    match filename {
        Some(f) => Ok(f.to_owned()),
        None => match disposition_filename {
            Some(b) => match utf8_text(b) {
                Some(name) => Ok(name),
                None => Err(ClientError::FailedSetFilename),
            },
            None => Err(ClientError::FailedSetFilename),
        },
    }
}

/// The announced content length, which a download needs.
pub fn content_length(length: Option<u64>) -> (r: Result<u64, ClientError>)
    ensures
        match length {
            Some(n) => r == Ok::<u64, ClientError>(n),
            None => r == Err::<u64, ClientError>(ClientError::FailedContentLength),
        },
{
    match length {
        Some(n) => Ok(n),
        None => Err(ClientError::FailedContentLength),
    }
}

/// A download is complete when exactly the announced number of bytes arrived.
pub fn check_download_size(written: u64, expected: u64) -> (r: Result<(), ClientError>)
    ensures
        r is Ok <==> written == expected,
        r is Err ==> r->Err_0 == (ClientError::SizeMismatch { written, expected }),
{
    if written == expected {
        Ok(())
    } else {
        Err(ClientError::SizeMismatch { written, expected })
    }
}

pub const MEGABYTE: u64 = 1048576;

/// Whether `written` bytes have passed a megabyte that has no progress mark yet.
pub fn reached_new_megabyte(written: u64, marks: u64) -> (r: bool)
    ensures
        r == (written / MEGABYTE > marks),
{
    written / MEGABYTE > marks
}

/// Metadata sent with an uploaded document.
pub struct DocumentMetadata {
    pub filename: String,
    pub size: u64,
    pub title: Option<String>,
    pub tags: Option<Vec<String>>,
    pub collections: Option<Vec<String>>,
}

pub open spec fn metadata_json_of(
    filename: Seq<char>,
    size: u64,
    title: Option<Seq<char>>,
    tags: Option<Seq<Seq<char>>>,
    collections: Option<Seq<Seq<char>>>,
) -> Seq<char> {
    object_of(
        seq![
            member_of(
                "metadata"@,
                object_of(
                    seq![
                        member_of(
                            "document"@,
                            object_of(
                                seq![
                                    member_of("filename"@, json_quoted_of(filename)),
                                    member_of("size"@, decimal_of(size as nat)),
                                ] + text_members("title"@, title),
                            ),
                        ),
                        member_of(
                            "actions"@,
                            object_of(array_members("add-tag"@, tags) + array_members("add-to-collection"@, collections)),
                        ),
                    ],
                ),
            ),
        ],
    )
}

impl DocumentMetadata {
    pub fn new(
        filename: &str,
        size: u64,
        title: Option<&str>,
        tags: Option<Vec<String>>,
        collections: Option<Vec<String>>,
    ) -> (r: DocumentMetadata)
        ensures
            r.filename@ == filename@,
            r.size == size,
            opt_string(r.title) == opt_text(title),
            r.tags == tags,
            r.collections == collections,
    {
        let title = match title {
            Some(t) => Some(t.to_owned()),
            None => None,
        };
        DocumentMetadata { filename: filename.to_owned(), size, title, tags, collections }
    }

    /// The metadata as the upload's JSON part.
    pub fn to_json(&self) -> (r: String)
        ensures
            r@ == metadata_json_of(
                self.filename@,
                self.size,
                opt_string(self.title),
                opt_texts(self.tags),
                opt_texts(self.collections),
            ),
    {
        let size = decimal(self.size);
        let mut doc: Vec<String> = Vec::new();
        doc.push(string_member("filename", self.filename.as_str()));
        doc.push(member("size", size.as_str()));
        match &self.title {
            Some(t) => doc.push(string_member("title", t.as_str())),
            None => {},
        }
        assert(texts_view(doc@) =~= seq![
            member_of("filename"@, json_quoted_of(self.filename@)),
            member_of("size"@, decimal_of(self.size as nat)),
        ] + text_members("title"@, opt_string(self.title)));
        let doc_obj = object(&doc);
        let mut actions: Vec<String> = Vec::new();
        push_array_member(&mut actions, "add-tag", &self.tags);
        push_array_member(&mut actions, "add-to-collection", &self.collections);
        assert(texts_view(actions@) =~= array_members("add-tag"@, opt_texts(self.tags)) + array_members(
            "add-to-collection"@,
            opt_texts(self.collections),
        ));
        let actions_obj = object(&actions);
        let mut meta: Vec<String> = Vec::new();
        meta.push(member("document", doc_obj.as_str()));
        meta.push(member("actions", actions_obj.as_str()));
        let meta_obj = object(&meta);
        let mut top: Vec<String> = Vec::new();
        top.push(member("metadata", meta_obj.as_str()));
        assert(texts_view(meta@) =~= seq![member_of("document"@, doc_obj@), member_of("actions"@, actions_obj@)]);
        assert(texts_view(top@) =~= seq![member_of("metadata"@, meta_obj@)]);
        object(&top)
    }
}

pub const AUTH_ENDPOINT: &'static str = "https://auth.centerdevice.de/authorize";

pub const REDIRECT_URI: &'static str = "https://lukaspustina.github.io/rat/redirects/centerdevice.html";

/// CenterDevice's authentication: the Basic-Auth exchange, asking for a code response.
pub fn auth(config: &Config, open_browser: bool) -> (r: FlowState)
    ensures
        r matches FlowState::Start { oauth, scheme, extra_params, mode } && {
            &&& oauth.client_id == config.centerdevice.client_id
            &&& oauth.client_secret == config.centerdevice.client_secret
            &&& oauth.auth_endpoint@ == AUTH_ENDPOINT@
            &&& oauth.token_endpoint@ == TOKEN_URL@
            &&& oauth.redirect_uri@ == REDIRECT_URI@
            &&& oauth.open_browser == open_browser
            &&& scheme == ExchangeScheme::BasicAuth
            &&& pairs_view(extra_params@) == seq![("response_type"@, "code"@)]
            &&& mode == (if config.general.output_format == crate::config::OutputFormat::JSON {
                crate::oauth::OutputMode::Verbose
            } else {
                crate::oauth::OutputMode::Quiet
            })
        },
{
    let oauth = CliOAuth {
        client_id: config.centerdevice.client_id.clone(),
        client_secret: config.centerdevice.client_secret.clone(),
        auth_endpoint: AUTH_ENDPOINT.to_owned(),
        token_endpoint: TOKEN_URL.to_owned(),
        redirect_uri: REDIRECT_URI.to_owned(),
        open_browser,
    };
    let mut extra: Vec<(String, String)> = Vec::new();
    extra.push(text_pair("response_type", "code"));
    assert(pairs_view(extra@) =~= seq![("response_type"@, "code"@)]);
    FlowState::new(oauth, ExchangeScheme::BasicAuth, extra, config.general.output_format.output_mode())
}

/// The representations a document has, among pdf, fulltext, jpg, png and mp4
/// in that order: those whose flag reads `yes`.
pub open spec fn representations_of(flags: Seq<Seq<char>>) -> Seq<Seq<char>> {
    let names = seq!["pdf"@, "fulltext"@, "jpg"@, "png"@, "mp4"@];
    Seq::new(5, |i: int| i).filter(|i: int| flags[i] == "yes"@).map_values(|i: int| names[i])
}

pub fn representations(pdf: &str, fulltext: &str, jpg: &str, png: &str, mp4: &str) -> (r: Vec<&'static str>)
    ensures
        r@.map_values(|s: &str| s@) == representations_of(seq![pdf@, fulltext@, jpg@, png@, mp4@]),
{
    let ghost flags = seq![pdf@, fulltext@, jpg@, png@, mp4@];
    let ghost names = seq!["pdf"@, "fulltext"@, "jpg"@, "png"@, "mp4"@];
    let flag_list: [&str; 5] = [pdf, fulltext, jpg, png, mp4];
    let name_list: [&'static str; 5] = ["pdf", "fulltext", "jpg", "png", "mp4"];
    let mut out: Vec<&'static str> = Vec::new();
    let mut i: usize = 0;
    while i < 5
        invariant
            i <= 5,
            flag_list@.map_values(|s: &str| s@) == flags,
            name_list@.map_values(|s: &str| s@) == names,
            out@.map_values(|s: &str| s@) == Seq::new(i as nat, |k: int| k).filter(|k: int| flags[k] == "yes"@).map_values(
                |k: int| names[k],
            ),
        decreases 5 - i,
    {
        let ghost before = out@;
        let keep = crate::json::same_text(flag_list[i], "yes");
        if keep {
            out.push(name_list[i]);
        }
        proof {
            let pred = |k: int| flags[k] == "yes"@;
            let prev = Seq::new(i as nat, |k: int| k);
            let next = Seq::new((i + 1) as nat, |k: int| k);
            assert(next.drop_last() =~= prev);
            assert(flag_list@[i as int]@ == flags[i as int]);
            assert(name_list@[i as int]@ == names[i as int]);
            reveal_with_fuel(Seq::filter, 1);
            assert(next.filter(pred) == (if pred(i as int) {
                prev.filter(pred).push(i as int)
            } else {
                prev.filter(pred)
            }));
            assert(keep == pred(i as int));
            let prev_view = prev.filter(pred).map_values(|k: int| names[k]);
            if keep {
                assert(out@ == before.push(name_list@[i as int]));
                assert(out@.map_values(|s: &str| s@) =~= before.map_values(|s: &str| s@).push(names[i as int]));
                assert(next.filter(pred).map_values(|k: int| names[k]) =~= prev_view.push(names[i as int]));
            } else {
                assert(out@ == before);
            }
            assert(out@.map_values(|s: &str| s@) =~= next.filter(pred).map_values(|k: int| names[k]));
        }
        i = i + 1;
    }
    out
}

/// How CenterDevice rates itself.
#[derive(Clone, Copy, Debug, PartialEq, Eq, Structural)]
pub enum Status {
    Okay,
    Warning,
    Failed,
}

/// Whether the status of each part is shown: when asked for, and whenever
/// the service is not okay.
pub fn shows_status_details(status: Status, details: bool) -> (r: bool)
    ensures
        r == (details || status != Status::Okay),
{
    match status {
        Status::Okay => details,
        _ => true,
    }
}

/// The SHA-256 digest of `bytes`, as lowercase hexadecimal text.
pub uninterp spec fn sha256_hex_of(bytes: Seq<u8>) -> Seq<char>;

/// Relies on rust-crypto's `Sha256`: `Digest::input` of all of `bytes`, then
/// `Digest::result_str`, the digest in lowercase hexadecimal.
#[verifier::external_body]
fn sha256_hex(bytes: &[u8]) -> (r: String)
    ensures
        r@ == sha256_hex_of(bytes@),
{
    let mut sha = crypto::sha2::Sha256::new();
    crypto::digest::Digest::input(&mut sha, bytes);
    crypto::digest::Digest::result_str(&mut sha)
}

/// The multipart boundary of an upload: `Boundary_` and the SHA-256 of
/// `seed` in hex, so that it holds no character the server refuses.
pub fn generate_boundary(seed: &[u8]) -> (r: String)
    ensures
        r@ == "Boundary_"@ + sha256_hex_of(seed@),
{
    let digest = sha256_hex(seed);
    boundary_from_digest(digest.as_str())
}

/// The multipart boundary for a hex digest.
pub fn boundary_from_digest(digest: &str) -> (r: String)
    ensures
        r@ == "Boundary_"@ + digest@,
{
    concat2("Boundary_", digest)
}

} // verus!
