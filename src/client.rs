//! The API client: it builds authenticated requests and turns what the
//! transport brought back into results.
//!
//! The client does not send anything itself. A caller hands each
//! `HttpRequest` to a transport, then gives the outcome back to
//! `ApiClient::receive`, which yields the response text or an error, and the
//! log lines to print when debug logging is on.
use vstd::prelude::*;
use crate::json::{JsonDecode, decode_document, document_decodable};

verus! {

/// The HTTP method of a request.
#[derive(PartialEq, Eq, Structural, Clone, Copy, Debug)]
pub enum HttpMethod {
    Get,
    Post,
}

/// A request ready to be sent: the query pairs are appended to the URL by the
/// transport, and the body, if any, is sent as it stands.
pub struct HttpRequest {
    pub method: HttpMethod,
    pub url: String,
    pub headers: Vec<(String, String)>,
    pub query: Vec<(String, String)>,
    pub body: Option<String>,
}

/// What a request is, as text.
pub struct RequestView {
    pub method: HttpMethod,
    pub url: Seq<char>,
    pub headers: Seq<(Seq<char>, Seq<char>)>,
    pub query: Seq<(Seq<char>, Seq<char>)>,
    pub body: Option<Seq<char>>,
}

/// The text of each name and value of a list of pairs.
pub open spec fn pairs_view(s: Seq<(String, String)>) -> Seq<(Seq<char>, Seq<char>)> {
    s.map_values(|p: (String, String)| (p.0@, p.1@))
}

/// The text of an optional body.
pub open spec fn body_view(b: Option<String>) -> Option<Seq<char>> {
    match b {
        Some(s) => Some(s@),
        None => None,
    }
}

impl View for HttpRequest {
    type V = RequestView;

    open spec fn view(&self) -> RequestView {
        RequestView {
            method: self.method,
            url: self.url@,
            headers: pairs_view(self.headers@),
            query: pairs_view(self.query@),
            body: body_view(self.body),
        }
    }
}

/// The root of every endpoint of the API.
pub open spec fn api_base() -> Seq<char> {
    "https://www.bungie.net/Platform"@
}

/// The root of every endpoint of the API.
pub fn url_base() -> (r: &'static str)
    ensures
        r@ == api_base(),
{
    "https://www.bungie.net/Platform"
}

/// The header that carries the API key.
pub open spec fn api_key_header() -> Seq<char> {
    "X-API-KEY"@
}

/// The request that a client with key `key` makes: the key in one header,
/// the query pairs and the body as given.
pub open spec fn request_for(
    method: HttpMethod,
    key: Seq<char>,
    url: Seq<char>,
    query: Seq<(Seq<char>, Seq<char>)>,
    body: Option<Seq<char>>,
) -> RequestView {
    RequestView { method, url, headers: seq![(api_key_header(), key)], query, body }
}

/// The transport could not complete the request; the message says why.
#[derive(Debug)]
pub struct TransportError {
    pub message: String,
}

/// Why a call failed.
#[derive(Debug)]
pub enum ApiError {
    /// The request could not be completed; the message says why.
    Transport(String),
    /// A response came, but its body is not JSON, or not JSON of the
    /// expected shape.
    Deserialization,
}

/// Why a call failed, as text.
pub enum ErrorView {
    Transport(Seq<char>),
    Deserialization,
}

impl View for ApiError {
    type V = ErrorView;

    open spec fn view(&self) -> ErrorView {
        match self {
            ApiError::Transport(m) => ErrorView::Transport(m@),
            ApiError::Deserialization => ErrorView::Deserialization,
        }
    }
}

/// The configuration of a client.
pub struct ClientView {
    pub key: Seq<char>,
    pub debug: bool,
}

/// A client of the API: its key, and whether requests and responses are
/// logged.
pub struct ApiClient {
    apikey: String,
    debug: bool,
}

/// A request that has been answered: the response text or the error, and
/// the lines to log.
pub struct Completed {
    pub result: Result<String, ApiError>,
    pub log: Vec<String>,
}

/// The text of a result.
pub open spec fn result_view(r: Result<String, ApiError>) -> Result<Seq<char>, ErrorView> {
    match r {
        Ok(s) => Ok(s@),
        Err(e) => Err(e@),
    }
}

/// What a call returns when the transport brought back `outcome`: the
/// response text whatever its status, or the transport's failure.
pub open spec fn received(outcome: Result<Seq<char>, Seq<char>>) -> Result<Seq<char>, ErrorView> {
    match outcome {
        Ok(text) => Ok(text),
        Err(message) => Err(ErrorView::Transport(message)),
    }
}

/// The lines logged for an answered request: the method and URL, the body of
/// a POST, then the response text.
pub open spec fn log_lines(request: RequestView, text: Seq<char>) -> Seq<Seq<char>> {
    match request.method {
        HttpMethod::Get => seq!["GET "@ + request.url, text],
        HttpMethod::Post => match request.body {
            Some(b) => seq!["POST "@ + request.url, "Body - "@ + b, text],
            None => seq!["POST "@ + request.url, "Body - "@, text],
        },
    }
}

/// The text of each line.
pub open spec fn lines_view(s: Seq<String>) -> Seq<Seq<char>> {
    s.map_values(|l: String| l@)
}

impl View for ApiClient {
    type V = ClientView;

    closed spec fn view(&self) -> ClientView {
        ClientView { key: self.apikey@, debug: self.debug }
    }
}

impl ApiClient {
    /// A client with the given key and debug logging off.
    pub fn new(apikey: &str) -> (r: ApiClient)
        ensures
            r@.key == apikey@,
            !r@.debug,
    {
        ApiClient { apikey: String::from_str(apikey), debug: false }
    }

    /// The same client with debug logging on.
    pub fn enable_debug_mode(self) -> (r: ApiClient)
        ensures
            r@.key == self@.key,
            r@.debug,
    {
        ApiClient { apikey: self.apikey, debug: true }
    }

    /// The same client with debug logging on or off.
    pub fn with_debug_logging(self, on: bool) -> (r: ApiClient)
        ensures
            r@.key == self@.key,
            r@.debug == on,
    {
        ApiClient { apikey: self.apikey, debug: on }
    }

    /// Whether requests and responses are logged.
    pub fn is_debug_enabled(&self) -> (r: bool)
        ensures
            r == self@.debug,
    {
        self.debug
    }

    /// The API key that each request carries.
    pub fn api_key(&self) -> (r: &str)
        ensures
            r@ == self@.key,
    {
        self.apikey.as_str()
    }

    /// A client with the same key and the same logging setting.
    pub fn clone(&self) -> (r: ApiClient)
        ensures
            r@ == self@,
    {
        ApiClient { apikey: self.apikey.clone(), debug: self.debug }
    }

    fn request(
        &self,
        method: HttpMethod,
        url: String,
        query: Vec<(String, String)>,
        body: Option<String>,
    ) -> (r: HttpRequest)
        ensures
            r@ == request_for(method, self@.key, url@, pairs_view(query@), body_view(body)),
    {
        let header = (String::from_str("X-API-KEY"), self.apikey.clone());
        let headers = vec![header];
        let r = HttpRequest { method, url, headers, query, body };
        assert(r@.headers =~= seq![(api_key_header(), self@.key)]);
        r
    }

    /// A GET of `url`.
    pub fn get(&self, url: String) -> (r: HttpRequest)
        ensures
            r@ == request_for(HttpMethod::Get, self@.key, url@, seq![], None),
    {
        let r = self.request(HttpMethod::Get, url, Vec::new(), None);
        assert(r@.query =~= seq![]);
        r
    }

    /// A GET of `url` with the given query pairs.
    pub fn get_params(&self, url: String, params: Vec<(String, String)>) -> (r: HttpRequest)
        ensures
            r@ == request_for(HttpMethod::Get, self@.key, url@, pairs_view(params@), None),
    {
        self.request(HttpMethod::Get, url, params, None)
    }

    /// A POST of `body` to `url`.
    pub fn post(&self, url: String, body: String) -> (r: HttpRequest)
        ensures
            r@ == request_for(HttpMethod::Post, self@.key, url@, seq![], Some(body@)),
    {
        let r = self.request(HttpMethod::Post, url, Vec::new(), Some(body));
        assert(r@.query =~= seq![]);
        r
    }

    /// A POST of `body` to `url` with the given query pairs.
    pub fn post_params(&self, url: String, body: String, params: Vec<(String, String)>) -> (r:
        HttpRequest)
        ensures
            r@ == request_for(
                HttpMethod::Post,
                self@.key,
                url@,
                pairs_view(params@),
                Some(body@),
            ),
    {
        self.request(HttpMethod::Post, url, params, Some(body))
    }

    /// Takes what the transport brought back for `request`: the response
    /// text, whatever its status, or the transport's failure. With debug
    /// logging on, an answered request yields the lines to log.
    pub fn receive(&self, request: &HttpRequest, outcome: Result<String, TransportError>) -> (r:
        Completed)
        ensures
            result_view(r.result) == received(
                match outcome {
                    Ok(t) => Ok(t@),
                    Err(e) => Err(e.message@),
                },
            ),
            lines_view(r.log@) == (match outcome {
                Ok(t) => if self@.debug {
                    log_lines(request@, t@)
                } else {
                    seq![]
                },
                Err(_) => seq![],
            }),
    {
        match outcome {
            Ok(text) => {
                let log: Vec<String> = if self.debug {
                    request_log(request, &text)
                } else {
                    let none: Vec<String> = Vec::new();
                    assert(lines_view(none@) =~= seq![]);
                    none
                };
                Completed { result: Ok(text), log }
            },
            Err(e) => {
                let log: Vec<String> = Vec::new();
                assert(lines_view(log@) =~= seq![]);
                Completed { result: Err(ApiError::Transport(e.message)), log }
            },
        }
    }
}

fn request_log(request: &HttpRequest, text: &String) -> (r: Vec<String>)
    ensures
        lines_view(r@) == log_lines(request@, text@),
{
    let mut lines: Vec<String> = Vec::new();
    match request.method {
        HttpMethod::Get => {
            lines.push(String::from_str("GET ").concat(request.url.as_str()));
        },
        HttpMethod::Post => {
            lines.push(String::from_str("POST ").concat(request.url.as_str()));
            match &request.body {
                Some(b) => lines.push(String::from_str("Body - ").concat(b.as_str())),
                None => lines.push(String::from_str("Body - ")),
            }
        },
    }
    lines.push(text.clone());
    assert(lines_view(lines@) =~= log_lines(request@, text@));
    lines
}

/// Reads a response as a `T`: a failure passes through unchanged, and a text
/// that is not JSON of `T`'s shape is a deserialization error.
pub fn parse_response<T: JsonDecode>(response: Result<String, ApiError>) -> (r: Result<
    T,
    ApiError,
>)
    ensures
        match response {
            Ok(text) => {
                &&& (r is Ok <==> document_decodable::<T>(text@))
                &&& (r matches Ok(v) ==> T::decodes_to(text@, ""@, v))
                &&& (r matches Err(e) ==> e is Deserialization)
            },
            Err(e) => r matches Err(e2) && e2 == e,
        },
{
    match response {
        Ok(text) => match decode_document::<T>(text.as_str()) {
            Some(v) => Ok(v),
            None => Err(ApiError::Deserialization),
        },
        Err(e) => Err(e),
    }
}

/// The URL with each space written as `%20`.
pub open spec fn encoded_url(s: Seq<char>) -> Seq<char>
    decreases s.len(),
{
    if s.len() == 0 {
        seq![]
    } else {
        encoded_url(s.drop_last()) + if s.last() == ' ' {
            "%20"@
        } else {
            seq![s.last()]
        }
    }
}

/// Writes each space of the URL as `%20`.
pub fn encode_url(url: String) -> (r: String)
    ensures
        r@ == encoded_url(url@),
{
    let n = url.as_str().unicode_len();
    let mut out = String::new();
    let mut i: usize = 0;
    while i < n
        invariant
            i <= n,
            n == url@.len(),
            out@ == encoded_url(url@.subrange(0, i as int)),
        decreases n - i,
    {
        let c = url.as_str().get_char(i);
        assert(url@.subrange(0, i + 1).drop_last() =~= url@.subrange(0, i as int));
        if c == ' ' {
            out.append("%20");
        } else {
            let one = url.as_str().substring_char(i, i + 1);
            assert(one@ =~= seq![c]);
            out.append(one);
        }
        i = i + 1;
    }
    assert(url@.subrange(0, n as int) =~= url@);
    out
}

/// The number of pairs in `s` whose name is `name`.
pub open spec fn count_named(s: Seq<(Seq<char>, Seq<char>)>, name: Seq<char>) -> nat
    decreases s.len(),
{
    if s.len() == 0 {
        0
    } else {
        count_named(s.drop_last(), name) + if s.last().0 == name {
            1nat
        } else {
            0nat
        }
    }
}

/// The number of times the pair `p` occurs in `s`.
pub open spec fn occurrences(s: Seq<(Seq<char>, Seq<char>)>, p: (Seq<char>, Seq<char>)) -> nat
    decreases s.len(),
{
    if s.len() == 0 {
        0
    } else {
        occurrences(s.drop_last(), p) + if s.last() == p {
            1nat
        } else {
            0nat
        }
    }
}

/// No two pairs share a name, as in a mapping from names to values.
pub open spec fn names_distinct(s: Seq<(Seq<char>, Seq<char>)>) -> bool {
    forall|i: int, j: int| 0 <= i < j < s.len() ==> s[i].0 != s[j].0
}

proof fn lemma_absent_pair(s: Seq<(Seq<char>, Seq<char>)>, p: (Seq<char>, Seq<char>))
    requires
        forall|i: int| 0 <= i < s.len() ==> s[i] != p,
    ensures
        occurrences(s, p) == 0,
    decreases s.len(),
{
    if s.len() > 0 {
        lemma_absent_pair(s.drop_last(), p);
    }
}

proof fn lemma_distinct_pairs_once(s: Seq<(Seq<char>, Seq<char>)>, i: int)
    requires
        names_distinct(s),
        0 <= i < s.len(),
    ensures
        occurrences(s, s[i]) == 1,
    decreases s.len(),
{
    let rest = s.drop_last();
    if i == s.len() - 1 {
        assert forall|j: int| 0 <= j < rest.len() implies rest[j] != s[i] by {
            assert(s[j].0 != s[i].0);
        }
        lemma_absent_pair(rest, s[i]);
    } else {
        assert(s.last().0 != s[i].0);
        assert(rest[i] == s[i]);
        lemma_distinct_pairs_once(rest, i);
    }
}

/// Every request carries the client's key in exactly one `X-API-KEY` header,
/// whatever its method, URL, query and body.
pub proof fn lemma_one_key_header(
    method: HttpMethod,
    key: Seq<char>,
    url: Seq<char>,
    query: Seq<(Seq<char>, Seq<char>)>,
    body: Option<Seq<char>>,
)
    ensures
        ({
            let headers = request_for(method, key, url, query, body).headers;
            &&& count_named(headers, api_key_header()) == 1
            &&& forall|i: int|
                0 <= i < headers.len() && headers[i].0 == api_key_header() ==> headers[i].1 == key
        }),
{
    let headers = request_for(method, key, url, query, body).headers;
    assert(headers.drop_last() =~= seq![]);
    assert(count_named(headers.drop_last(), api_key_header()) == 0);
}

/// Each pair of a query whose names are distinct occurs exactly once in the
/// request, whatever its method, key, URL and body.
pub proof fn lemma_query_pairs_once(
    method: HttpMethod,
    key: Seq<char>,
    url: Seq<char>,
    query: Seq<(Seq<char>, Seq<char>)>,
    body: Option<Seq<char>>,
)
    requires
        names_distinct(query),
    ensures
        forall|i: int|
            0 <= i < query.len() ==> occurrences(
                #[trigger] request_for(method, key, url, query, body).query,
                query[i],
            ) == 1,
{
    assert forall|i: int| 0 <= i < query.len() implies occurrences(
        #[trigger] request_for(method, key, url, query, body).query,
        query[i],
    ) == 1 by {
        lemma_distinct_pairs_once(query, i);
    }
}

/// Two clients with the same key build the same requests and return the same
/// result for the same outcome, whatever their logging setting: logging only
/// decides which lines are logged.
pub proof fn lemma_debug_changes_only_logs(
    a: ClientView,
    b: ClientView,
    method: HttpMethod,
    url: Seq<char>,
    query: Seq<(Seq<char>, Seq<char>)>,
    body: Option<Seq<char>>,
    outcome: Result<Seq<char>, Seq<char>>,
)
    requires
        a.key == b.key,
    ensures
        request_for(
            method,
            a.key,
            url,
            query,
            body,
        ) == request_for(method, b.key, url, query, body),
        outcome is Ok ==> received(outcome) == Ok::<Seq<char>, ErrorView>(outcome->Ok_0),
{
}

/// A POST sends its body exactly as given, with nothing reformatted.
pub proof fn lemma_post_body_unchanged(
    key: Seq<char>,
    url: Seq<char>,
    query: Seq<(Seq<char>, Seq<char>)>,
    body: Seq<char>,
)
    ensures
        request_for(HttpMethod::Post, key, url, query, Some(body)).body == Some(body),
{
}

} // verus!
