//! The query specification, the single-page request pipeline and the
//! multi-page aggregation logic.
//!
//! The library decides everything about a request — the URL, the
//! headers, the credential policy, and how each reply is classified —
//! and leaves only the network exchange itself to the surrounding
//! application, which hands the raw reply back as a [`RawReply`].

use vstd::prelude::*;
use vstd::string::StringExecFns;
use crate::MAX_PAGE_SIZE;
use crate::responses::errors::ErrorKind;
use crate::responses::errors::RequestError;
use crate::responses::errors::ResponseError;
use crate::responses::errors::spec_remote_message;
use crate::responses::errors::spec_unclassified_message;
use crate::text::count_char;
use crate::text::dec_rep;
use crate::text::lemma_count_char_add;
use crate::text::push_decimal;

verus! {

/// One search: a filter query, a 1-indexed page number, a page size
/// within the service's bounds, a sort key and a field projection.
/// Setters consume and return the value, so a specification handed to
/// an executor can never be mutated behind its back.
pub struct SearchOptions {
    pub q: String,
    pub page: u16,
    pub page_size: u8,
    pub order_by: String,
    pub select: String,
}

impl SearchOptions {
    /// The invariant every constructed specification keeps: pages are
    /// 1-indexed and the page size stays within the service's bounds.
    pub open spec fn wf(&self) -> bool {
        &&& 1 <= self.page
        &&& 1 <= self.page_size <= MAX_PAGE_SIZE
    }

    /// The default specification: unfiltered, first page, largest page
    /// size, service-default order, all fields.
    pub open spec fn spec_is_default(&self) -> bool {
        &&& self.q@ == Seq::<char>::empty()
        &&& self.page == 1
        &&& self.page_size == MAX_PAGE_SIZE
        &&& self.order_by@ == Seq::<char>::empty()
        &&& self.select@ == Seq::<char>::empty()
    }

    pub fn new() -> (r: Self)
        ensures
            r.spec_is_default(),
            r.wf(),
    {
        Self::default()
    }

    /// Sets the free-text filter query.
    pub fn query(self, query: &str) -> (r: Self)
        ensures
            r.q@ == query@,
            r.page == self.page,
            r.page_size == self.page_size,
            r.order_by == self.order_by,
            r.select == self.select,
            self.wf() ==> r.wf(),
    {
        SearchOptions { q: query.to_owned(), ..self }
    }

    /// Sets the page number; zero is invalid input and is clamped up
    /// to the first page, so the invariant `page >= 1` always holds.
    pub fn page(self, page: u16) -> (r: Self)
        ensures
            r.page == if page == 0 { 1u16 } else { page },
            r.q == self.q,
            r.page_size == self.page_size,
            r.order_by == self.order_by,
            r.select == self.select,
            self.wf() ==> r.wf(),
    {
        let bounded: u16 = if page == 0 { 1 } else { page };
        SearchOptions { page: bounded, ..self }
    }

    /// Sets the page size; zero is clamped up to one and anything
    /// above the service maximum is clamped down to it.
    pub fn page_size(self, page_size: u8) -> (r: Self)
        ensures
            r.page_size == if page_size == 0 {
                1u8
            } else if page_size > MAX_PAGE_SIZE {
                MAX_PAGE_SIZE
            } else {
                page_size
            },
            r.q == self.q,
            r.page == self.page,
            r.order_by == self.order_by,
            r.select == self.select,
            self.wf() ==> r.wf(),
    {
        let bounded: u8 = if page_size == 0 {
            1
        } else if page_size > MAX_PAGE_SIZE {
            MAX_PAGE_SIZE
        } else {
            page_size
        };
        SearchOptions { page_size: bounded, ..self }
    }

    /// Sets the sort key.
    pub fn order_by(self, order_by: &str) -> (r: Self)
        ensures
            r.order_by@ == order_by@,
            r.q == self.q,
            r.page == self.page,
            r.page_size == self.page_size,
            r.select == self.select,
            self.wf() ==> r.wf(),
    {
        SearchOptions { order_by: order_by.to_owned(), ..self }
    }

    /// Sets the field projection.
    pub fn select(self, select: &str) -> (r: Self)
        ensures
            r.select@ == select@,
            r.q == self.q,
            r.page == self.page,
            r.page_size == self.page_size,
            r.order_by == self.order_by,
            self.wf() ==> r.wf(),
    {
        SearchOptions { select: select.to_owned(), ..self }
    }
}

impl Default for SearchOptions {
    fn default() -> (r: Self)
        ensures
            r.spec_is_default(),
            r.wf(),
    {
        SearchOptions {
            q: String::new(),
            page: 1,
            page_size: MAX_PAGE_SIZE,
            order_by: String::new(),
            select: String::new(),
        }
    }
}

/// The root under which every endpoint lives.
pub open spec fn spec_base_url() -> Seq<char> {
    "https://api.pokemontcg.io/v2"@
}

/// The names under which one deployment of the service expects the
/// five query parameters; compatible deployments rename them (a `q=`
/// for a `query=`), so the mapping is configurable.
#[derive(Debug, Clone)]
pub struct ParameterNames {
    pub q: String,
    pub page: String,
    pub page_size: String,
    pub order_by: String,
    pub select: String,
}

impl ParameterNames {
    /// The names the reference deployment expects.
    pub open spec fn spec_is_service_default(&self) -> bool {
        &&& self.q@ == "query"@
        &&& self.page@ == "page"@
        &&& self.page_size@ == "pageSize"@
        &&& self.order_by@ == "orderBy"@
        &&& self.select@ == "select"@
    }

    pub fn service_default() -> (r: Self)
        ensures
            r.spec_is_service_default(),
    {
        ParameterNames {
            q: "query".to_owned(),
            page: "page".to_owned(),
            page_size: "pageSize".to_owned(),
            order_by: "orderBy".to_owned(),
            select: "select".to_owned(),
        }
    }
}

/// The query part of a request URL under a configured parameter-name
/// mapping: every field of the specification becomes one `name=value`
/// parameter, empty values included.
pub open spec fn spec_query_url_named(
    endpoint: Seq<char>,
    names: ParameterNames,
    options: SearchOptions,
) -> Seq<char> {
    endpoint + "?"@ + names.q@ + "="@ + options.q@ + "&"@ + names.page@ + "="@ + dec_rep(
        options.page as nat,
    ) + "&"@ + names.page_size@ + "="@ + dec_rep(options.page_size as nat) + "&"@
        + names.order_by@ + "="@ + options.order_by@ + "&"@ + names.select@ + "="@
        + options.select@
}

/// The query part of a request URL: every field of the specification
/// is serialized as one parameter, empty strings included.
pub open spec fn spec_query_url(endpoint: Seq<char>, options: SearchOptions) -> Seq<char> {
    endpoint + "?query="@ + options.q@ + "&page="@ + dec_rep(options.page as nat) + "&pageSize="@
        + dec_rep(options.page_size as nat) + "&orderBy="@ + options.order_by@ + "&select="@
        + options.select@
}

/// A single-page executor bound to one endpoint: it snapshots a query
/// specification and turns it into one concrete request.
pub struct Requester {
    pub options: SearchOptions,
    pub endpoint: String,
}

/// Everything the transport needs for one round trip: the full URL and
/// the credential to attach, when one is at hand.
#[derive(Debug)]
pub struct PreparedRequest {
    pub url: String,
    pub api_key: Option<String>,
}

impl PreparedRequest {
    /// The headers of every request: JSON is declared and requested,
    /// and the credential header is attached exactly when a key is at
    /// hand.
    pub fn headers(&self) -> (h: Vec<(String, String)>)
        ensures
            h@.len() == (if self.api_key is Some { 3int } else { 2int }),
            h@[0].0@ == "Content-Type"@ && h@[0].1@ == "application/json"@,
            h@[1].0@ == "Accept"@ && h@[1].1@ == "application/json"@,
            self.api_key matches Some(k) ==> h@[2].0@ == "X-Api-Key"@ && h@[2].1@ == k@,
    {
        let mut h: Vec<(String, String)> = Vec::new();
        h.push(("Content-Type".to_owned(), "application/json".to_owned()));
        h.push(("Accept".to_owned(), "application/json".to_owned()));
        match &self.api_key {
            Some(key) => h.push(("X-Api-Key".to_owned(), key.clone())),
            None => (),
        }
        h
    }
}

/// The message of the error raised when a required credential is
/// absent.
pub open spec fn spec_missing_credential_message() -> Seq<char> {
    "Configuration error: missing API key"@
}

impl Requester {
    /// The query part of this requester's URL.
    pub open spec fn spec_url(&self) -> Seq<char> {
        spec_query_url(self.endpoint@, self.options)
    }

    /// The full URL of this requester: base, endpoint and every query
    /// parameter.
    pub open spec fn spec_full_url(&self) -> Seq<char> {
        spec_base_url() + "/"@ + self.spec_url()
    }

    /// A requester for `endpoint` with the default specification.
    pub fn new(endpoint: &str) -> (r: Self)
        ensures
            r.endpoint@ == endpoint@,
            r.options.spec_is_default(),
            r.options.wf(),
    {
        Requester { options: SearchOptions::new(), endpoint: endpoint.to_owned() }
    }

    /// Moves this requester to another page; zero is clamped up to the
    /// first page.
    pub fn page(&mut self, page: u16)
        ensures
            final(self).options.page == if page == 0 { 1u16 } else { page },
            final(self).options.q == old(self).options.q,
            final(self).options.page_size == old(self).options.page_size,
            final(self).options.order_by == old(self).options.order_by,
            final(self).options.select == old(self).options.select,
            final(self).endpoint == old(self).endpoint,
            old(self).options.wf() ==> final(self).options.wf(),
    {
        self.options.page = if page == 0 { 1 } else { page };
    }

    /// Replaces the whole query specification.
    pub fn parse_options(&mut self, options: SearchOptions)
        ensures
            final(self).options == options,
            final(self).endpoint == old(self).endpoint,
    {
        self.options = options;
    }

    /// Serializes the query specification under a configured
    /// parameter-name mapping: every field becomes one parameter,
    /// empty strings included, in a fixed order.
    pub fn build_url_named(&self, names: &ParameterNames) -> (url: String)
        ensures
            url@ == spec_query_url_named(self.endpoint@, *names, self.options),
    {
        let mut url = self.endpoint.clone();
        url.append("?");
        url.append(names.q.as_str());
        url.append("=");
        url.append(self.options.q.as_str());
        url.append("&");
        url.append(names.page.as_str());
        url.append("=");
        push_decimal(&mut url, self.options.page);
        url.append("&");
        url.append(names.page_size.as_str());
        url.append("=");
        push_decimal(&mut url, self.options.page_size as u16);
        url.append("&");
        url.append(names.order_by.as_str());
        url.append("=");
        url.append(self.options.order_by.as_str());
        url.append("&");
        url.append(names.select.as_str());
        url.append("=");
        url.append(self.options.select.as_str());
        proof {
            assert(url@ =~= spec_query_url_named(self.endpoint@, *names, self.options));
        }
        url
    }

    /// Serializes the query specification under the reference
    /// deployment's parameter names.
    pub fn build_url(&self) -> (url: String)
        ensures
            url@ == self.spec_url(),
    {
        let names = ParameterNames::service_default();
        let url = self.build_url_named(&names);
        proof {
            lemma_default_names_url(self.endpoint@, names, self.options);
        }
        url
    }

    /// The full URL of one round trip.
    pub fn full_url(&self) -> (url: String)
        ensures
            url@ == self.spec_full_url(),
    {
        let mut url = "https://api.pokemontcg.io/v2".to_owned();
        url.append("/");
        let query = self.build_url();
        url.append(query.as_str());
        proof {
            assert(url@ =~= self.spec_full_url());
        }
        url
    }

    /// Turns the snapshot into one concrete request, checking the
    /// credential policy first: when a credential is required and none
    /// is at hand, the result is a `Configuration` error — before any
    /// network call could be issued.  An absent key that is not
    /// required is simply not attached.
    pub fn prepare(&self, api_key: Option<String>, credential_required: bool) -> (r: Result<
        PreparedRequest,
        ResponseError,
    >)
        ensures
            r is Err <==> credential_required && api_key is None,
            r matches Err(e) ==> {
                &&& e.kind == ErrorKind::Configuration
                &&& e.message@ == spec_missing_credential_message()
                &&& e.code is None
            },
            r matches Ok(p) ==> p.url@ == self.spec_full_url() && p.api_key == api_key,
    {
        match api_key {
            None if credential_required => Err(
                ResponseError::configuration("Configuration error: missing API key".to_owned()),
            ),
            _ => Ok(PreparedRequest { url: self.full_url(), api_key }),
        }
    }
}

/// What the transport handed back for one round trip: a failure before
/// any status line, or a status code together with the body text.
pub enum RawReply {
    Failed(String),
    Delivered(u16, String),
}

/// Whether two raw replies carry the same information.
pub open spec fn reply_eq(x: RawReply, y: RawReply) -> bool {
    match (x, y) {
        (RawReply::Failed(a), RawReply::Failed(b)) => a@ == b@,
        (RawReply::Delivered(s, a), RawReply::Delivered(t, b)) => s == t && a@ == b@,
        _ => false,
    }
}

/// The non-2xx status codes the remote service documents; their bodies
/// carry a readable error envelope.
pub open spec fn spec_remote_status(status: u16) -> bool {
    ||| status == 400
    ||| status == 401
    ||| status == 402
    ||| status == 403
    ||| status == 404
    ||| status == 429
    ||| status == 500
    ||| status == 502
    ||| status == 503
    ||| status == 504
}

fn is_remote_status(status: u16) -> (b: bool)
    ensures
        b == spec_remote_status(status),
{
    status == 400 || status == 401 || status == 402 || status == 403 || status == 404 || status
        == 429 || status == 500 || status == 502 || status == 503 || status == 504
}

/// Whether the reply is the one successful case: a 200 status.
pub open spec fn spec_is_success(reply: RawReply) -> bool {
    match reply {
        RawReply::Delivered(status, _) => status == 200,
        RawReply::Failed(_) => false,
    }
}

/// The body a successful reply delivers.
pub open spec fn spec_success_body(reply: RawReply) -> Seq<char>
    recommends
        spec_is_success(reply),
{
    match reply {
        RawReply::Delivered(_, body) => body@,
        RawReply::Failed(_) => Seq::empty(),
    }
}

/// The error class a failed reply is bound to.
pub open spec fn spec_error_kind(reply: RawReply) -> ErrorKind
    recommends
        !spec_is_success(reply),
{
    match reply {
        RawReply::Failed(_) => ErrorKind::Transport,
        RawReply::Delivered(status, _) => if spec_remote_status(status) {
            ErrorKind::Remote
        } else {
            ErrorKind::Unclassified
        },
    }
}

/// The message a failed reply is bound to: the transport's own
/// description, the extracted (or substituted) remote message, or the
/// fixed diagnostic of an undocumented status.
pub open spec fn spec_error_message(reply: RawReply) -> Seq<char>
    recommends
        !spec_is_success(reply),
{
    match reply {
        RawReply::Failed(description) => description@,
        RawReply::Delivered(status, body) => if spec_remote_status(status) {
            spec_remote_message(body@)
        } else {
            spec_unclassified_message()
        },
    }
}

/// The status code a failed reply is bound to: none at all for a
/// transport failure.
pub open spec fn spec_error_code(reply: RawReply) -> Option<u16>
    recommends
        !spec_is_success(reply),
{
    match reply {
        RawReply::Failed(_) => None,
        RawReply::Delivered(status, _) => Some(status),
    }
}

/// Classifies one raw reply, totally: a 200 hands its body on for
/// decoding; a documented error status yields a `Remote` error with
/// the message read out of the body; any other status yields an
/// `Unclassified` error without reading the body; a transport failure
/// yields a `Transport` error with no status code at all.
pub fn interpret_reply(reply: RawReply) -> (out: Result<String, ResponseError>)
    ensures
        spec_is_success(reply) ==> (out matches Ok(body) && body@ == spec_success_body(reply)),
        !spec_is_success(reply) ==> (out matches Err(e) && e.kind == spec_error_kind(reply)
            && e.message@ == spec_error_message(reply) && e.code == spec_error_code(reply)),
{
    match reply {
        RawReply::Failed(description) => Err(ResponseError::transport(description)),
        RawReply::Delivered(status, body) => {
            if status == 200 {
                Ok(body)
            } else if is_remote_status(status) {
                Err(ResponseError::from(RequestError::new(body, status)))
            } else {
                Err(ResponseError::unclassified(status))
            }
        },
    }
}

/// The multi-page aggregator: it plans one query specification per
/// page, and merges whatever pages came back, dropping every failed
/// page silently.
pub struct MultiRequester;

/// The records one fetched page contributes: its own records when it
/// succeeded, nothing at all when it failed.
pub open spec fn spec_page_records<T>(page: Option<Vec<T>>) -> Seq<T> {
    match page {
        Some(records) => records@,
        None => Seq::empty(),
    }
}

/// The aggregated result: the concatenation of every page's
/// contribution, in the order the pages stand in `pages` — which is
/// the order they completed in, not page-number order.
pub open spec fn spec_merged<T>(pages: Seq<Option<Vec<T>>>) -> Seq<T>
    decreases pages.len(),
{
    if pages.len() == 0 {
        Seq::empty()
    } else {
        spec_page_records(pages[0]) + spec_merged(pages.drop_first())
    }
}

/// The number of records the successful pages hold together.
pub open spec fn spec_success_total<T>(pages: Seq<Option<Vec<T>>>) -> nat
    decreases pages.len(),
{
    if pages.len() == 0 {
        0
    } else {
        spec_page_records(pages[0]).len() + spec_success_total(pages.drop_first())
    }
}

impl MultiRequester {
    /// The page numbers of a bulk fetch over `pages` pages: every page
    /// from 1 through `pages` inclusive, none skipped; empty when
    /// `pages` is zero.
    pub fn plan_pages(pages: u16) -> (r: Vec<u16>)
        ensures
            r@.len() == pages,
            forall|i: int| 0 <= i < pages ==> r@[i] == i + 1,
    {
        let mut plan: Vec<u16> = Vec::new();
        let mut i: u16 = 0;
        while i < pages
            invariant
                i <= pages,
                plan@.len() == i,
                forall|k: int| 0 <= k < i ==> plan@[k] == k + 1,
            decreases pages - i,
        {
            plan.push(i + 1);
            i = i + 1;
        }
        plan
    }

    /// The query specification of one page of a bulk fetch: only the
    /// page number varies, the page size is the service maximum, and
    /// everything else keeps its default.
    pub fn page_options(page: u16) -> (r: SearchOptions)
        ensures
            r.page == if page == 0 { 1u16 } else { page },
            r.page_size == MAX_PAGE_SIZE,
            r.q@ == Seq::<char>::empty(),
            r.order_by@ == Seq::<char>::empty(),
            r.select@ == Seq::<char>::empty(),
            r.wf(),
    {
        SearchOptions::new().page(page)
    }

    /// The requester of one page of a bulk fetch against `endpoint`.
    pub fn page_requester(endpoint: &str, page: u16) -> (r: Requester)
        ensures
            r.endpoint@ == endpoint@,
            r.options.page == if page == 0 { 1u16 } else { page },
            r.options.page_size == MAX_PAGE_SIZE,
            r.options.q@ == Seq::<char>::empty(),
            r.options.order_by@ == Seq::<char>::empty(),
            r.options.select@ == Seq::<char>::empty(),
            r.options.wf(),
    {
        let mut requester = Requester::new(endpoint);
        requester.parse_options(Self::page_options(page));
        requester
    }

    /// Merges the outcomes of a bulk fetch, in completion order: every
    /// successful page contributes exactly its records, every failed
    /// page contributes nothing, and no per-page failure is surfaced.
    pub fn merge_pages<T>(pages: Vec<Option<Vec<T>>>) -> (r: Vec<T>)
        ensures
            r@ == spec_merged(pages@),
    {
        let ghost all_pages = pages@;
        let mut rest = pages;
        let mut merged: Vec<T> = Vec::new();
        while rest.len() > 0
            invariant
                merged@ + spec_merged(rest@) == spec_merged(all_pages),
            decreases rest.len(),
        {
            let ghost before = rest@;
            let page = rest.remove(0);
            proof {
                assert(before[0] == page);
                assert(rest@ =~= before.drop_first());
            }
            match page {
                Some(mut records) => merged.append(&mut records),
                None => (),
            }
            proof {
                assert(merged@ + spec_merged(rest@) =~= spec_merged(all_pages));
            }
        }
        proof {
            assert(merged@ =~= spec_merged(all_pages));
        }
        merged
    }
}

/// Law: under the reference deployment's parameter names, the
/// configurable serialization and the fixed one agree on every
/// endpoint and every query specification.
pub proof fn lemma_default_names_url(
    endpoint: Seq<char>,
    names: ParameterNames,
    options: SearchOptions,
)
    requires
        names.spec_is_service_default(),
    ensures
        spec_query_url_named(endpoint, names, options) == spec_query_url(endpoint, options),
{
    reveal_strlit("?");
    reveal_strlit("&");
    reveal_strlit("=");
    reveal_strlit("query");
    reveal_strlit("page");
    reveal_strlit("pageSize");
    reveal_strlit("orderBy");
    reveal_strlit("select");
    reveal_strlit("?query=");
    reveal_strlit("&page=");
    reveal_strlit("&pageSize=");
    reveal_strlit("&orderBy=");
    reveal_strlit("&select=");
    assert(spec_query_url_named(endpoint, names, options) =~= spec_query_url(endpoint, options));
}

/// The separator counts of each fixed piece of the URL.
proof fn lemma_separator_counts()
    ensures
        count_char("?query="@, '?') == 1 && count_char("?query="@, '&') == 0 && count_char(
            "?query="@,
            '=',
        ) == 1,
        count_char("&page="@, '?') == 0 && count_char("&page="@, '&') == 1 && count_char(
            "&page="@,
            '=',
        ) == 1,
        count_char("&pageSize="@, '?') == 0 && count_char("&pageSize="@, '&') == 1 && count_char(
            "&pageSize="@,
            '=',
        ) == 1,
        count_char("&orderBy="@, '?') == 0 && count_char("&orderBy="@, '&') == 1 && count_char(
            "&orderBy="@,
            '=',
        ) == 1,
        count_char("&select="@, '?') == 0 && count_char("&select="@, '&') == 1 && count_char(
            "&select="@,
            '=',
        ) == 1,
        count_char(spec_base_url(), '?') == 0 && count_char(spec_base_url(), '&') == 0
            && count_char(spec_base_url(), '=') == 0,
        count_char("/"@, '?') == 0 && count_char("/"@, '&') == 0 && count_char("/"@, '=') == 0,
{
    reveal_strlit("?query=");
    reveal_strlit("&page=");
    reveal_strlit("&pageSize=");
    reveal_strlit("&orderBy=");
    reveal_strlit("&select=");
    reveal_strlit("https://api.pokemontcg.io/v2");
    reveal_strlit("/");
    reveal_with_fuel(count_char, 30);
}

/// One separator's count across the whole serialized URL, piece by
/// piece; the rendered numbers contribute nothing, being digits.
proof fn lemma_query_url_count(endpoint: Seq<char>, options: SearchOptions, c: char)
    requires
        !crate::text::is_digit(c),
    ensures
        count_char(spec_query_url(endpoint, options), c) == count_char(endpoint, c) + count_char(
            "?query="@,
            c,
        ) + count_char(options.q@, c) + count_char("&page="@, c) + count_char("&pageSize="@, c)
            + count_char("&orderBy="@, c) + count_char(options.order_by@, c) + count_char(
            "&select="@,
            c,
        ) + count_char(options.select@, c),
{
    crate::text::lemma_dec_rep_digits_only(options.page as nat, c);
    crate::text::lemma_dec_rep_digits_only(options.page_size as nat, c);
    let p1 = endpoint + "?query="@;
    lemma_count_char_add(endpoint, "?query="@, c);
    let p2 = p1 + options.q@;
    lemma_count_char_add(p1, options.q@, c);
    let p3 = p2 + "&page="@;
    lemma_count_char_add(p2, "&page="@, c);
    let p4 = p3 + dec_rep(options.page as nat);
    lemma_count_char_add(p3, dec_rep(options.page as nat), c);
    let p5 = p4 + "&pageSize="@;
    lemma_count_char_add(p4, "&pageSize="@, c);
    let p6 = p5 + dec_rep(options.page_size as nat);
    lemma_count_char_add(p5, dec_rep(options.page_size as nat), c);
    let p7 = p6 + "&orderBy="@;
    lemma_count_char_add(p6, "&orderBy="@, c);
    let p8 = p7 + options.order_by@;
    lemma_count_char_add(p7, options.order_by@, c);
    let p9 = p8 + "&select="@;
    lemma_count_char_add(p8, "&select="@, c);
    lemma_count_char_add(p9, options.select@, c);
}

/// Law: the constructed URL carries every parameter exactly once.  Of
/// the separators that delimit parameters, `?` stands in it exactly
/// once, `&` exactly four times and `=` exactly five times, beyond
/// whatever separator characters the endpoint and the free-text values
/// themselves carry; the two rendered numbers, being digits, add none.
pub proof fn lemma_url_parameters_once(r: Requester)
    ensures
        count_char(r.spec_full_url(), '?') == 1 + count_char(r.endpoint@, '?') + count_char(
            r.options.q@,
            '?',
        ) + count_char(r.options.order_by@, '?') + count_char(r.options.select@, '?'),
        count_char(r.spec_full_url(), '&') == 4 + count_char(r.endpoint@, '&') + count_char(
            r.options.q@,
            '&',
        ) + count_char(r.options.order_by@, '&') + count_char(r.options.select@, '&'),
        count_char(r.spec_full_url(), '=') == 5 + count_char(r.endpoint@, '=') + count_char(
            r.options.q@,
            '=',
        ) + count_char(r.options.order_by@, '=') + count_char(r.options.select@, '='),
{
    lemma_separator_counts();
    let prefix = spec_base_url() + "/"@;
    lemma_count_char_add(spec_base_url(), "/"@, '?');
    lemma_count_char_add(spec_base_url(), "/"@, '&');
    lemma_count_char_add(spec_base_url(), "/"@, '=');
    lemma_count_char_add(prefix, r.spec_url(), '?');
    lemma_count_char_add(prefix, r.spec_url(), '&');
    lemma_count_char_add(prefix, r.spec_url(), '=');
    assert(r.spec_full_url() =~= prefix + r.spec_url());
    lemma_query_url_count(r.endpoint@, r.options, '?');
    lemma_query_url_count(r.endpoint@, r.options, '&');
    lemma_query_url_count(r.endpoint@, r.options, '=');
}

/// Law: the aggregated result holds exactly as many records as the
/// successful pages held together — every failed page contributes zero
/// records, and no per-page failure can change the count of the rest.
pub proof fn lemma_merged_len<T>(pages: Seq<Option<Vec<T>>>)
    ensures
        spec_merged(pages).len() == spec_success_total(pages),
    decreases pages.len(),
{
    if pages.len() > 0 {
        lemma_merged_len(pages.drop_first());
    }
}

/// Law: the single-page path is a function of the query specification
/// and of the reply alone.  Two requesters built from equal
/// specifications ask the same URL, and equal replies are bound to
/// equal outcomes — so repeating a search against an unchanged backend
/// yields an identical envelope.
pub proof fn lemma_single_page_idempotent(a: Requester, b: Requester, x: RawReply, y: RawReply)
    requires
        a.endpoint@ == b.endpoint@,
        a.options.q@ == b.options.q@,
        a.options.page == b.options.page,
        a.options.page_size == b.options.page_size,
        a.options.order_by@ == b.options.order_by@,
        a.options.select@ == b.options.select@,
        reply_eq(x, y),
    ensures
        a.spec_full_url() == b.spec_full_url(),
        spec_is_success(x) == spec_is_success(y),
        spec_is_success(x) ==> spec_success_body(x) == spec_success_body(y),
        !spec_is_success(x) ==> spec_error_kind(x) == spec_error_kind(y) && spec_error_message(x)
            == spec_error_message(y) && spec_error_code(x) == spec_error_code(y),
{
}

} // verus!
