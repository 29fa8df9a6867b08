//! Pocket: list options and requests, filtering and showing articles, and
//! actions on articles.
use vstd::prelude::*;
use crate::config::Config;
use crate::encoding::{json_quoted_of, pairs_view, query_of, urlencode_pairs};
use crate::http::{concat2, headers_view, text_pair, ClientError, HttpRequest, HttpVerb};
use crate::json::{member, member_of, object, object_of, opt_string, opt_text, same_text, string_member, texts_view};

verus! {

pub const LIST_URL: &'static str = "https://getpocket.com/v3/get";

pub const SEND_URL: &'static str = "https://getpocket.com/v3/send";

/// The decimal value of digits, most significant first.
pub open spec fn digits_value(s: Seq<char>) -> nat
    decreases s.len(),
{
    if s.len() == 0 {
        0
    } else {
        digits_value(s.drop_last()) * 10 + ((s.last() as u32) - ('0' as u32)) as nat
    }
}

pub open spec fn is_digit(c: char) -> bool {
    '0' <= c && c <= '9'
}

/// The digits of an unsigned number, after an optional `+`.
pub open spec fn unsigned_digits(s: Seq<char>) -> Seq<char> {
    if s.len() > 0 && s[0] == '+' {
        s.drop_first()
    } else {
        s
    }
}

/// What `str::parse::<u64>` accepts: an optional `+`, then one or more
/// decimal digits whose value fits in 64 bits.
pub open spec fn parses_as_u64(s: Seq<char>) -> bool {
    let d = unsigned_digits(s);
    &&& d.len() > 0
    &&& forall|i: int| 0 <= i < d.len() ==> is_digit(#[trigger] d[i])
    &&& digits_value(d) <= u64::MAX
}

/// Reads an unsigned decimal number as `str::parse::<u64>` does: an optional
/// `+`, then one or more digits, within 64 bits.
pub fn parse_u64(s: &str) -> (r: Option<u64>)
    ensures
        r is Some <==> parses_as_u64(s@),
        r is Some ==> r->Some_0 as nat == digits_value(unsigned_digits(s@)),
{
    let n = s.unicode_len();
    let mut start: usize = 0;
    if n > 0 && s.get_char(0) == '+' {
        start = 1;
    }
    let ghost d = unsigned_digits(s@);
    assert(d =~= s@.subrange(start as int, n as int));
    if start >= n {
        return None;
    }
    let mut i: usize = start;
    let mut acc: u64 = 0;
    let mut overflow = false;
    assert(s@.subrange(start as int, i as int) =~= Seq::<char>::empty());
    while i < n
        invariant
            start <= i <= n,
            n == s@.len(),
            d == unsigned_digits(s@),
            d == s@.subrange(start as int, n as int),
            forall|j: int| start <= j < i ==> is_digit(#[trigger] s@[j]),
            !overflow ==> acc as nat == digits_value(s@.subrange(start as int, i as int)),
            overflow ==> digits_value(s@.subrange(start as int, i as int)) > u64::MAX,
        decreases n - i,
    {
        let c = s.get_char(i);
        if !('0' <= c && c <= '9') {
            proof {
                let k = i - start;
                assert(0 <= k < unsigned_digits(s@).len());
                assert(unsigned_digits(s@)[k] == c);
                assert(!is_digit(unsigned_digits(s@)[k]));
            }
            return None;
        }
        let digit = ((c as u32) - ('0' as u32)) as u64;
        let ghost before = digits_value(s@.subrange(start as int, i as int));
        proof {
            let next = s@.subrange(start as int, i + 1);
            assert(next.drop_last() =~= s@.subrange(start as int, i as int));
            assert(digits_value(next) == before * 10 + digit);
        }
        if !overflow {
            if acc > (u64::MAX - digit) / 10 {
                assert(acc * 10 + digit > u64::MAX) by (nonlinear_arith)
                    requires
                        acc > (u64::MAX - digit) / 10,
                        digit <= 9,
                ;
                overflow = true;
            } else {
                assert(acc * 10 + digit <= u64::MAX) by (nonlinear_arith)
                    requires
                        acc <= (u64::MAX - digit) / 10,
                        digit <= 9,
                ;
                acc = acc * 10 + digit;
            }
        } else {
            assert(before * 10 + digit > u64::MAX) by (nonlinear_arith)
                requires
                    before > u64::MAX,
            ;
        }
        i = i + 1;
    }
    assert(s@.subrange(start as int, n as int) == d);
    if overflow {
        None
    } else {
        Some(acc)
    }
}

/// The RFC 3339 text of a moment, given in seconds since the epoch, in UTC.
pub uninterp spec fn rfc3339_of(secs: int) -> Seq<char>;

/// Relies on chrono's `DateTime::<Utc>::from_timestamp` (no value where the
/// day falls outside chrono's range) and `DateTime::to_rfc3339`.
#[verifier::external_body]
fn utc_rfc3339(secs: i64) -> (r: Option<String>)
    ensures
        r is Some ==> r->Some_0@ == rfc3339_of(secs as int),
{
    match chrono::DateTime::from_timestamp(secs, 0) {
        Some(t) => Some(t.to_rfc3339()),
        None => None,
    }
}

#[allow(non_camel_case_types)]
#[derive(Clone, Copy, Debug, PartialEq, Eq, Structural)]
pub enum State {
    unread,
    archive,
    all,
}

pub open spec fn state_named(s: Seq<char>) -> State {
    if s == "archive"@ {
        State::archive
    } else if s == "all"@ {
        State::all
    } else {
        State::unread
    }
}

impl<'a> From<&'a str> for State {
    fn from(s: &'a str) -> (r: Self)
        ensures
            r == state_named(s@),
    {
        if same_text(s, "archive") {
            State::archive
        } else if same_text(s, "all") {
            State::all
        } else {
            State::unread
        }
    }
}

impl<'a> vstd::std_specs::convert::FromSpecImpl<&'a str> for State {
    open spec fn obeys_from_spec() -> bool {
        true
    }

    open spec fn from_spec(v: &'a str) -> Self {
        state_named(v@)
    }
}

impl State {
    pub open spec fn name(self) -> Seq<char> {
        match self {
            State::unread => "unread"@,
            State::archive => "archive"@,
            State::all => "all"@,
        }
    }

    pub fn as_str(&self) -> (r: &'static str)
        ensures
            r@ == self.name(),
    {
        match self {
            State::unread => "unread",
            State::archive => "archive",
            State::all => "all",
        }
    }
}

#[allow(non_camel_case_types)]
#[derive(Clone, Copy, Debug, PartialEq, Eq, Structural)]
pub enum Sort {
    newest,
    oldest,
    title,
    site,
}

pub open spec fn sort_named(s: Seq<char>) -> Sort {
    if s == "oldest"@ {
        Sort::oldest
    } else if s == "title"@ {
        Sort::title
    } else if s == "site"@ {
        Sort::site
    } else {
        Sort::newest
    }
}

impl<'a> From<&'a str> for Sort {
    fn from(s: &'a str) -> (r: Self)
        ensures
            r == sort_named(s@),
    {
        if same_text(s, "oldest") {
            Sort::oldest
        } else if same_text(s, "title") {
            Sort::title
        } else if same_text(s, "site") {
            Sort::site
        } else {
            Sort::newest
        }
    }
}

impl<'a> vstd::std_specs::convert::FromSpecImpl<&'a str> for Sort {
    open spec fn obeys_from_spec() -> bool {
        true
    }

    open spec fn from_spec(v: &'a str) -> Self {
        sort_named(v@)
    }
}

impl Sort {
    pub open spec fn name(self) -> Seq<char> {
        match self {
            Sort::newest => "newest"@,
            Sort::oldest => "oldest"@,
            Sort::title => "title"@,
            Sort::site => "site"@,
        }
    }

    pub fn as_str(&self) -> (r: &'static str)
        ensures
            r@ == self.name(),
    {
        match self {
            Sort::newest => "newest",
            Sort::oldest => "oldest",
            Sort::title => "title",
            Sort::site => "site",
        }
    }
}

#[allow(non_camel_case_types)]
#[derive(Clone, Copy, Debug, PartialEq, Eq, Structural)]
pub enum DetailType {
    simple,
    complete,
}

impl From<bool> for DetailType {
    fn from(b: bool) -> (r: Self)
        ensures
            r == (if b { DetailType::complete } else { DetailType::simple }),
    {
        if b {
            DetailType::complete
        } else {
            DetailType::simple
        }
    }
}

impl vstd::std_specs::convert::FromSpecImpl<bool> for DetailType {
    open spec fn obeys_from_spec() -> bool {
        true
    }

    open spec fn from_spec(v: bool) -> Self {
        if v {
            DetailType::complete
        } else {
            DetailType::simple
        }
    }
}

impl DetailType {
    pub open spec fn name(self) -> Seq<char> {
        match self {
            DetailType::simple => "simple"@,
            DetailType::complete => "complete"@,
        }
    }

    pub fn as_str(&self) -> (r: &'static str)
        ensures
            r@ == self.name(),
    {
        match self {
            DetailType::simple => "simple",
            DetailType::complete => "complete",
        }
    }
}

/// Which fields of an article are shown.
pub struct HumanOutput {
    pub id: bool,
    pub title: bool,
    pub url: bool,
    pub t_added: bool,
}

pub open spec fn names_field(v: Seq<&str>, name: Seq<char>) -> bool {
    exists|i: int| 0 <= i < v.len() && #[trigger] v[i]@ == name
}

fn has_name(v: &Vec<&str>, name: &str) -> (r: bool)
    ensures
        r == names_field(v@, name@),
{
    let mut i: usize = 0;
    while i < v.len()
        invariant
            i <= v@.len(),
            forall|j: int| 0 <= j < i ==> #[trigger] v@[j]@ != name@,
        decreases v@.len() - i,
    {
        if same_text(v[i], name) {
            return true;
        }
        i = i + 1;
    }
    false
}

impl<'a> From<Vec<&'a str>> for HumanOutput {
    fn from(v: Vec<&'a str>) -> (r: Self)
        ensures
            r.id == names_field(v@, "id"@),
            r.title == names_field(v@, "title"@),
            r.url == names_field(v@, "url"@),
            r.t_added == names_field(v@, "t_added"@),
    {
        HumanOutput {
            id: has_name(&v, "id"),
            title: has_name(&v, "title"),
            url: has_name(&v, "url"),
            t_added: has_name(&v, "t_added"),
        }
    }
}

impl<'a> vstd::std_specs::convert::FromSpecImpl<Vec<&'a str>> for HumanOutput {
    open spec fn obeys_from_spec() -> bool {
        true
    }

    open spec fn from_spec(v: Vec<&'a str>) -> Self {
        HumanOutput {
            id: names_field(v@, "id"@),
            title: names_field(v@, "title"@),
            url: names_field(v@, "url"@),
            t_added: names_field(v@, "t_added"@),
        }
    }
}

impl HumanOutput {
    pub open spec fn shows_any(self) -> bool {
        self.id || self.title || self.url || self.t_added
    }
}

pub struct Article {
    pub item_id: String,
    pub resolved_title: String,
    pub resolved_url: String,
    pub time_added: String,
    pub time_updated: String,
}

/// The shown fields of an article, in order.
pub open spec fn display_parts(a: Article, h: HumanOutput) -> Seq<Seq<char>> {
    (if h.id { seq![a.item_id@] } else { Seq::empty() })
        + (if h.title { seq!["'"@ + a.resolved_title@ + "'"@] } else { Seq::empty() })
        + (if h.url { seq![a.resolved_url@] } else { Seq::empty() })
        + (if h.t_added {
        seq!["added "@ + rfc3339_of(digits_value(unsigned_digits(a.time_added@)) as int)]
    } else {
        Seq::empty()
    })
}

/// `parts` with `", "` between neighbours.
pub open spec fn comma_joined(parts: Seq<Seq<char>>) -> Seq<char>
    decreases parts.len(),
{
    if parts.len() == 0 {
        Seq::empty()
    } else if parts.len() == 1 {
        parts[0]
    } else {
        comma_joined(parts.drop_last()) + ", "@ + parts.last()
    }
}

impl Article {
    pub open spec fn time_added_valid(self) -> bool {
        parses_as_u64(self.time_added@)
    }

    pub open spec fn added_secs(self) -> nat {
        digits_value(unsigned_digits(self.time_added@))
    }

    /// When the article was added, in seconds since the epoch.
    pub fn time_added(&self) -> (r: Result<u64, ClientError>)
        ensures
            r is Ok <==> self.time_added_valid(),
            r is Ok ==> r->Ok_0 as nat == self.added_secs(),
            r is Err ==> r->Err_0 == ClientError::InvalidTime,
    {
        match parse_u64(self.time_added.as_str()) {
            Some(n) => Ok(n),
            None => Err(ClientError::InvalidTime),
        }
    }

    pub fn duplicate(&self) -> (r: Article)
        ensures
            r == *self,
    {
        Article {
            item_id: self.item_id.clone(),
            resolved_title: self.resolved_title.clone(),
            resolved_url: self.resolved_url.clone(),
            time_added: self.time_added.clone(),
            time_updated: self.time_updated.clone(),
        }
    }

    /// The shown fields, separated by `", "`: the id, the title in single
    /// quotes, the URL, and `added <RFC 3339 time>`.
    pub fn human_display(&self, human_output: &HumanOutput) -> (r: Result<String, ClientError>)
        requires
            human_output.shows_any(),
        ensures
            r is Ok ==> r->Ok_0@ == comma_joined(display_parts(*self, *human_output)),
            !human_output.t_added ==> r is Ok,
            human_output.t_added && !self.time_added_valid() ==> r == Err::<String, ClientError>(
                ClientError::InvalidTime,
            ),
            r is Err ==> human_output.t_added && r->Err_0 == ClientError::InvalidTime,
    {
        let mut parts: Vec<String> = Vec::new();
        if human_output.id {
            parts.push(self.item_id.clone());
        }
        if human_output.title {
            let mut t = concat2("'", self.resolved_title.as_str());
            t.append("'");
            parts.push(t);
        }
        if human_output.url {
            parts.push(self.resolved_url.clone());
        }
        if human_output.t_added {
            let secs = self.time_added()?;
            if secs > i64::MAX as u64 {
                return Err(ClientError::InvalidTime);
            }
            let text = match utc_rfc3339(secs as i64) {
                Some(t) => t,
                None => return Err(ClientError::InvalidTime),
            };
            parts.push(concat2("added ", text.as_str()));
        }
        assert(texts_view(parts@) =~= display_parts(*self, *human_output));
        let mut out = parts[0].clone();
        let mut i: usize = 1;
        while i < parts.len()
            invariant
                1 <= i <= parts@.len(),
                out@ == comma_joined(texts_view(parts@).subrange(0, i as int)),
            decreases parts@.len() - i,
        {
            out.append(", ");
            out.append(parts[i].as_str());
            proof {
                let next = texts_view(parts@).subrange(0, i + 1);
                assert(next.drop_last() =~= texts_view(parts@).subrange(0, i as int));
            }
            i = i + 1;
        }
        proof {
            assert(texts_view(parts@).subrange(0, 1) =~= seq![parts@[0]@]);
        }
        assert(texts_view(parts@).subrange(0, parts@.len() as int) =~= texts_view(parts@));
        Ok(out)
    }
}

/// A listing: its status, completeness, and articles by id.
pub struct ListResult {
    pub status: i32,
    pub complete: i32,
    pub list: Vec<(String, Article)>,
}

/// An article added within the bounds, each bound inclusive.
pub open spec fn within(a: Article, since: Option<u64>, until: Option<u64>) -> bool {
    &&& since matches Some(s) ==> a.added_secs() >= s
    &&& until matches Some(u) ==> a.added_secs() <= u
}

pub open spec fn all_times_valid(list: Seq<(String, Article)>) -> bool {
    forall|i: int| 0 <= i < list.len() ==> (#[trigger] list[i]).1.time_added_valid()
}

/// No two entries share an article id.
pub open spec fn ids_unique(list: Seq<(String, Article)>) -> bool {
    forall|i: int, j: int| 0 <= i < j < list.len() ==> #[trigger] list[i].0@ != #[trigger] list[j].0@
}

impl ListResult {
    /// Articles are keyed by id, each id once.
    pub open spec fn well_formed(self) -> bool {
        ids_unique(self.list@)
    }

    pub open spec fn keeps(since: Option<u64>, until: Option<u64>) -> spec_fn((String, Article)) -> bool {
        |e: (String, Article)| within(e.1, since, until)
    }

    /// The articles added between `since` and `until`, in order; each bound
    /// applies only when it is given. When a bound is given, an article time
    /// that is not a whole number of seconds is reported as `InvalidTime`
    /// rather than taken as a precondition, so that callers need not check
    /// the times first.
    pub fn filter(self, since: Option<u64>, until: Option<u64>) -> (r: Result<ListResult, ClientError>)
        ensures
            r is Ok <==> (since is None && until is None) || all_times_valid(self.list@),
            r is Ok ==> r->Ok_0.status == self.status && r->Ok_0.complete == self.complete
                && r->Ok_0.list@ == self.list@.filter(Self::keeps(since, until)),
            r is Ok && self.well_formed() ==> r->Ok_0.well_formed(),
            r is Err ==> r->Err_0 == ClientError::InvalidTime,
    {
        let mut kept: Vec<(String, Article)> = Vec::new();
        let mut i: usize = 0;
        while i < self.list.len()
            invariant
                i <= self.list@.len(),
                (since is Some || until is Some) ==> forall|j: int| 0 <= j < i ==> (#[trigger] self.list@[j]).1.time_added_valid(),
                kept@ == self.list@.subrange(0, i as int).filter(Self::keeps(since, until)),
                forall|k: int| 0 <= k < kept@.len() ==> exists|j: int| 0 <= j < i && #[trigger] kept@[k] == self.list@[j],
                self.well_formed() ==> ids_unique(kept@),
            decreases self.list@.len() - i,
        {
            let (id, article) = &self.list[i];
            let keep = if since.is_none() && until.is_none() {
                true
            } else {
                let t = match article.time_added() {
                    Ok(t) => t,
                    Err(e) => {
                        return Err(e);
                    },
                };
                let after = match since {
                    Some(s) => t >= s,
                    None => true,
                };
                let before = match until {
                    Some(u) => t <= u,
                    None => true,
                };
                after && before
            };
            let ghost before_kept = kept@;
            if keep {
                kept.push((id.clone(), article.duplicate()));
                proof {
                    assert(kept@.last() == self.list@[i as int]);
                    assert forall|k: int| 0 <= k < kept@.len() implies exists|j: int|
                        0 <= j < i + 1 && #[trigger] kept@[k] == self.list@[j] by {
                        if k < before_kept.len() {
                            assert(kept@[k] == before_kept[k]);
                        } else {
                            assert(kept@[k] == self.list@[i as int]);
                        }
                    }
                    if self.well_formed() {
                        assert forall|a: int, b: int| 0 <= a < b < kept@.len() implies #[trigger] kept@[a].0@
                            != #[trigger] kept@[b].0@ by {
                            if b == kept@.len() - 1 {
                                assert(kept@[a] == before_kept[a]);
                                let j = choose|j: int| 0 <= j < i && before_kept[a] == self.list@[j];
                                assert(self.list@[j].0@ != self.list@[i as int].0@);
                            } else {
                                assert(kept@[a] == before_kept[a]);
                                assert(kept@[b] == before_kept[b]);
                            }
                        }
                    }
                }
            }
            proof {
                let pred = Self::keeps(since, until);
                let prev = self.list@.subrange(0, i as int);
                let next = self.list@.subrange(0, i + 1);
                assert(next.drop_last() =~= prev);
                assert(next.last() == self.list@[i as int]);
                assert(pred(next.last()) == keep);
                reveal_with_fuel(Seq::filter, 1);
            }
            i = i + 1;
        }
        assert(self.list@.subrange(0, self.list@.len() as int) =~= self.list@);
        Ok(ListResult { status: self.status, complete: self.complete, list: kept })
    }
}

/// The options of an article listing.
#[allow(non_snake_case)]
pub struct Request {
    pub consumer_key: String,
    pub access_token: String,
    pub state: Option<State>,
    pub tag: Option<String>,
    pub sort: Option<Sort>,
    pub detailType: DetailType,
    pub search: Option<String>,
}

pub open spec fn opt_member(key: Seq<char>, value: Option<Seq<char>>) -> Seq<Seq<char>> {
    match value {
        Some(v) => seq![member_of(key, json_quoted_of(v))],
        None => Seq::empty(),
    }
}

pub open spec fn opt_state_name(s: Option<State>) -> Option<Seq<char>> {
    match s {
        Some(x) => Some(x.name()),
        None => None,
    }
}

pub open spec fn opt_sort_name(s: Option<Sort>) -> Option<Seq<char>> {
    match s {
        Some(x) => Some(x.name()),
        None => None,
    }
}

/// The listing request as JSON; absent options are left out.
pub open spec fn list_json_of(r: Request) -> Seq<char> {
    object_of(
        seq![
            member_of("consumer_key"@, json_quoted_of(r.consumer_key@)),
            member_of("access_token"@, json_quoted_of(r.access_token@)),
        ] + opt_member("state"@, opt_state_name(r.state)) + opt_member("tag"@, opt_string(r.tag))
            + opt_member("sort"@, opt_sort_name(r.sort)) + seq![
            member_of("detailType"@, json_quoted_of(r.detailType.name())),
        ] + opt_member("search"@, opt_string(r.search)),
    )
}

fn push_opt_member(members: &mut Vec<String>, key: &str, value: Option<&str>)
    ensures
        texts_view(final(members)@) == texts_view(old(members)@) + opt_member(key@, opt_text(value)),
{
    match value {
        Some(v) => members.push(string_member(key, v)),
        None => {},
    }
    assert(texts_view(members@) =~= texts_view(old(members)@) + opt_member(key@, opt_text(value)));
}

impl Request {
    pub fn to_json(&self) -> (r: String)
        ensures
            r@ == list_json_of(*self),
    {
        let ghost head = seq![
            member_of("consumer_key"@, json_quoted_of(self.consumer_key@)),
            member_of("access_token"@, json_quoted_of(self.access_token@)),
        ];
        let mut members: Vec<String> = Vec::new();
        members.push(string_member("consumer_key", self.consumer_key.as_str()));
        members.push(string_member("access_token", self.access_token.as_str()));
        assert(texts_view(members@) =~= head);
        let state = match &self.state {
            Some(x) => Some(x.as_str()),
            None => None,
        };
        assert(opt_text(state) == opt_state_name(self.state));
        push_opt_member(&mut members, "state", state);
        let ghost with_state = head + opt_member("state"@, opt_state_name(self.state));
        assert(texts_view(members@) == with_state);
        let tag = match &self.tag {
            Some(t) => Some(t.as_str()),
            None => None,
        };
        assert(opt_text(tag) == opt_string(self.tag));
        push_opt_member(&mut members, "tag", tag);
        let ghost with_tag = with_state + opt_member("tag"@, opt_string(self.tag));
        assert(texts_view(members@) == with_tag);
        let sort = match &self.sort {
            Some(x) => Some(x.as_str()),
            None => None,
        };
        assert(opt_text(sort) == opt_sort_name(self.sort));
        push_opt_member(&mut members, "sort", sort);
        let ghost with_sort = with_tag + opt_member("sort"@, opt_sort_name(self.sort));
        assert(texts_view(members@) == with_sort);
        let ghost before = members@;
        members.push(string_member("detailType", self.detailType.as_str()));
        let ghost with_detail = with_sort + seq![member_of("detailType"@, json_quoted_of(self.detailType.name()))];
        assert(texts_view(members@) =~= with_detail) by {
            assert(texts_view(members@) =~= texts_view(before).push(member_of("detailType"@, json_quoted_of(self.detailType.name()))));
        }
        let search = match &self.search {
            Some(t) => Some(t.as_str()),
            None => None,
        };
        assert(opt_text(search) == opt_string(self.search));
        push_opt_member(&mut members, "search", search);
        assert(texts_view(members@) == with_detail + opt_member("search"@, opt_string(self.search)));
        object(&members)
    }
}

/// The headers of Pocket's JSON requests.
pub open spec fn pocket_headers_of() -> Seq<(Seq<char>, Seq<char>)> {
    seq![("X-Accept"@, "application/json"@), ("Content-Type"@, "application/json"@)]
}

fn pocket_headers() -> (r: Vec<(String, String)>)
    ensures
        headers_view(r@) == pocket_headers_of(),
{
    let mut headers: Vec<(String, String)> = Vec::new();
    headers.push(text_pair("X-Accept", "application/json"));
    headers.push(text_pair("Content-Type", "application/json"));
    assert(headers_view(headers@) =~= pocket_headers_of());
    headers
}

/// A JSON POST of `body` to `url` with Pocket's headers.
pub open spec fn is_pocket_post(r: HttpRequest, url: Seq<char>, body: Seq<char>) -> bool {
    &&& r.verb == HttpVerb::POST
    &&& r.url@ == url
    &&& headers_view(r.headers@) == pocket_headers_of()
    &&& r.body is Some
    &&& r.body->Some_0@ == body
}

/// The request that lists articles.
pub fn list_request(request: &Request) -> (r: HttpRequest)
    ensures
        r.verb == HttpVerb::POST,
        r.url@ == LIST_URL@,
        headers_view(r.headers@) == seq![("Content-Type"@, "application/json"@)],
        r.body is Some,
        r.body->Some_0@ == list_json_of(*request),
{
    let mut headers: Vec<(String, String)> = Vec::new();
    headers.push(text_pair("Content-Type", "application/json"));
    assert(headers_view(headers@) =~= seq![("Content-Type"@, "application/json"@)]);
    HttpRequest { verb: HttpVerb::POST, url: LIST_URL.to_owned(), headers, body: Some(request.to_json()) }
}

/// One action on one article.
pub struct ActionRequest {
    pub action: String,
    pub item_id: String,
}

impl ActionRequest {
    pub fn new(action: &str, item_id: &str) -> (r: ActionRequest)
        ensures
            r.action@ == action@,
            r.item_id@ == item_id@,
    {
        ActionRequest { action: action.to_owned(), item_id: item_id.to_owned() }
    }
}

pub open spec fn action_json_of(a: ActionRequest) -> Seq<char> {
    object_of(
        seq![
            member_of("action"@, json_quoted_of(a.action@)),
            member_of("item_id"@, json_quoted_of(a.item_id@)),
        ],
    )
}

/// The actions as a JSON array of objects.
pub open spec fn actions_json_of(actions: Seq<ActionRequest>) -> Seq<char> {
    "["@ + crate::json::joined(actions.map_values(|a: ActionRequest| action_json_of(a)), ","@) + "]"@
}

fn actions_json(actions: &Vec<ActionRequest>) -> (r: String)
    ensures
        r@ == actions_json_of(actions@),
{
    let mut items: Vec<String> = Vec::new();
    let mut i: usize = 0;
    while i < actions.len()
        invariant
            i <= actions@.len(),
            texts_view(items@) =~= actions@.subrange(0, i as int).map_values(|a: ActionRequest| action_json_of(a)),
        decreases actions@.len() - i,
    {
        let a = &actions[i];
        let mut members: Vec<String> = Vec::new();
        members.push(string_member("action", a.action.as_str()));
        members.push(string_member("item_id", a.item_id.as_str()));
        assert(texts_view(members@) =~= seq![
            member_of("action"@, json_quoted_of(a.action@)),
            member_of("item_id"@, json_quoted_of(a.item_id@)),
        ]);
        let ghost before = items@;
        items.push(object(&members));
        assert(texts_view(items@) =~= texts_view(before).push(action_json_of(actions@[i as int])));
        i = i + 1;
    }
    assert(actions@.subrange(0, actions@.len() as int) =~= actions@);
    crate::json::enclose("[", &items, "]")
}

/// The query of an action request.
pub open spec fn send_pairs(actions: Seq<char>, access_token: Seq<char>, consumer_key: Seq<char>) -> Seq<(Seq<char>, Seq<char>)> {
    seq![("actions"@, actions), ("access_token"@, access_token), ("consumer_key"@, consumer_key)]
}

/// The request that applies `actions`: a GET with the actions as JSON, the
/// access token and the consumer key in the query. It always succeeds when
/// an access token is configured; without one the result is
/// `MissingAccessToken`, which callers report like any other failure.
pub fn send(config: &Config, actions: &Vec<ActionRequest>) -> (r: Result<HttpRequest, ClientError>)
    ensures
        config.pocket.access_token is None ==> r == Err::<HttpRequest, ClientError>(ClientError::MissingAccessToken),
        r is Ok ==> {
            let q = r->Ok_0;
            &&& q.verb == HttpVerb::GET
            &&& q.url@ == SEND_URL@ + "?"@ + query_of(
                send_pairs(
                    actions_json_of(actions@),
                    config.pocket.access_token->Some_0@,
                    config.pocket.consumer_key@,
                ),
            )
            &&& q.headers@.len() == 0
            &&& q.body is None
        },
        config.pocket.access_token is Some ==> r is Ok,
{
    let token = match &config.pocket.access_token {
        Some(t) => t,
        None => return Err(ClientError::MissingAccessToken),
    };
    let json = actions_json(actions);
    let mut params: Vec<(String, String)> = Vec::new();
    params.push(text_pair("actions", json.as_str()));
    params.push(text_pair("access_token", token.as_str()));
    params.push(text_pair("consumer_key", config.pocket.consumer_key.as_str()));
    assert(pairs_view(params@) =~= send_pairs(
        actions_json_of(actions@),
        config.pocket.access_token->Some_0@,
        config.pocket.consumer_key@,
    ));
    match urlencode_pairs(&params) {
        Ok(query) => {
            let mut url = concat2(SEND_URL, "?");
            url.append(query.as_str());
            Ok(HttpRequest { verb: HttpVerb::GET, url, headers: Vec::new(), body: None })
        },
        Err(_) => Err(ClientError::EncodingError),
    }
}

/// How many of the action results report success.
pub open spec fn successes_of(results: Seq<bool>) -> nat {
    results.filter(|b: bool| b).len()
}

pub fn count_successful(results: &Vec<bool>) -> (r: usize)
    ensures
        r == successes_of(results@),
        r <= results@.len(),
{
    let mut n: usize = 0;
    let mut i: usize = 0;
    while i < results.len()
        invariant
            i <= results@.len(),
            n == successes_of(results@.subrange(0, i as int)),
            n <= i,
        decreases results@.len() - i,
    {
        proof {
            let next = results@.subrange(0, i + 1);
            assert(next.drop_last() =~= results@.subrange(0, i as int));
            reveal_with_fuel(Seq::filter, 1);
        }
        if results[i] {
            n = n + 1;
        }
        i = i + 1;
    }
    assert(results@.subrange(0, results@.len() as int) =~= results@);
    n
}

} // verus!
