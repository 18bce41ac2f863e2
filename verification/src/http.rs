//! The request model, the credential-injecting middleware, and the client
//! that dispatches prepared requests through a pluggable transport.

use vstd::prelude::*;

use crate::errors::{TasksError, TasksErrorView};
use crate::json::{parse_json, render_u64, spec_dec_text, spec_parse_json, Json, JsonView};
use crate::strutil::str_eq;

verus! {

/// The HTTP verbs the remote API is driven with.
#[derive(Debug, Clone, Copy, PartialEq, Eq, Structural)]
pub enum Method {
    Get,
    Post,
    Put,
    Patch,
    Delete,
}

/// Mathematical form of an [`HttpRequest`].
pub struct HttpRequestView {
    pub method: Method,
    pub url: Seq<char>,
    pub query: Seq<(Seq<char>, Seq<char>)>,
    pub headers: Seq<(Seq<char>, Seq<char>)>,
    pub body: Option<Seq<char>>,
}

/// An unsent request: verb, URL, query parameters, headers, and an optional
/// JSON body. Query parameters are kept as plain pairs; percent-encoding is
/// the transport's concern.
#[derive(Debug, Clone)]
pub struct HttpRequest {
    pub method: Method,
    pub url: String,
    pub query: Vec<(String, String)>,
    pub headers: Vec<(String, String)>,
    pub body: Option<String>,
}

impl View for HttpRequest {
    type V = HttpRequestView;

    open spec fn view(&self) -> HttpRequestView {
        HttpRequestView {
            method: self.method,
            url: self.url@,
            query: self.query.deep_view(),
            headers: self.headers.deep_view(),
            body: self.body.deep_view(),
        }
    }
}

/// Mathematical form of an [`HttpResponse`].
pub struct HttpResponseView {
    pub status: u16,
    pub body: Seq<char>,
}

/// A completed response: the status code and the body read as text.
#[derive(Debug, Clone)]
pub struct HttpResponse {
    pub status: u16,
    pub body: String,
}

impl View for HttpResponse {
    type V = HttpResponseView;

    open spec fn view(&self) -> HttpResponseView {
        HttpResponseView { status: self.status, body: self.body@ }
    }
}

/// A capability that produces a fresh bearer token on demand; it may fail,
/// and a failure aborts the request attempt. Suppliers must tolerate being
/// invoked anew before every request.
pub trait TokenProvider {
    fn token(&self) -> Result<String, String>;
}

/// A generic HTTP transport: sends one prepared request and returns the
/// completed response, or a connection-level diagnostic. Implementations
/// live outside this crate (a real network stack, or a mock in tests).
pub trait Transport {
    fn send(&mut self, req: &HttpRequest) -> Result<HttpResponse, String>;
}

/// A token provider that returns the same access token on every request.
pub struct FixedToken {
    token: String,
}

impl View for FixedToken {
    type V = Seq<char>;

    closed spec fn view(&self) -> Seq<char> {
        self.token@
    }
}

impl FixedToken {
    /// Wraps a fixed access token.
    pub fn new(token: &str) -> (r: FixedToken)
        ensures
            r@ == token@,
    {
        FixedToken { token: String::from_str(token) }
    }
}

impl TokenProvider for FixedToken {
    fn token(&self) -> Result<String, String> {
        Ok(self.token.clone())
    }
}

/// `headers` with every pair named `name` removed, in the original order.
pub open spec fn spec_remove_header(
    headers: Seq<(Seq<char>, Seq<char>)>,
    name: Seq<char>,
) -> Seq<(Seq<char>, Seq<char>)>
    decreases headers.len(),
{
    if headers.len() == 0 {
        Seq::empty()
    } else {
        let rest = spec_remove_header(headers.drop_first(), name);
        if headers.first().0 == name {
            rest
        } else {
            seq![headers.first()] + rest
        }
    }
}

/// `headers` with `name` set (overwritten) to `value`.
pub open spec fn spec_set_header(
    headers: Seq<(Seq<char>, Seq<char>)>,
    name: Seq<char>,
    value: Seq<char>,
) -> Seq<(Seq<char>, Seq<char>)> {
    spec_remove_header(headers, name).push((name, value))
}

/// The value a reader of the header list observes for `name`: the last pair
/// with that name wins.
pub open spec fn spec_header_value(
    headers: Seq<(Seq<char>, Seq<char>)>,
    name: Seq<char>,
) -> Option<Seq<char>>
    decreases headers.len(),
{
    if headers.len() == 0 {
        None
    } else if headers.last().0 == name {
        Some(headers.last().1)
    } else {
        spec_header_value(headers.drop_last(), name)
    }
}

/// Replaces the header list with one where `name` carries exactly `value`.
pub fn set_header(headers: Vec<(String, String)>, name: &str, value: String) -> (r: Vec<
    (String, String),
>)
    ensures
        r.deep_view() == spec_set_header(headers.deep_view(), name@, value@),
{
    let ghost orig = headers.deep_view();
    let mut out: Vec<(String, String)> = Vec::new();
    let mut i: usize = 0;
    while i < headers.len()
        invariant
            i <= headers.len(),
            orig == headers.deep_view(),
            out.deep_view() == spec_remove_header(orig.take(i as int), name@),
        decreases headers.len() - i,
    {
        let ghost pre = out.deep_view();
        if !str_eq(headers[i].0.as_str(), name) {
            out.push((headers[i].0.clone(), headers[i].1.clone()));
            assert(out.deep_view() =~= pre.push((orig[i as int].0, orig[i as int].1)));
        }
        proof {
            lemma_remove_header_take_step(orig, name@, i as int);
        }
        i += 1;
    }
    assert(orig.take(headers.len() as int) =~= orig);
    out.push((String::from_str(name), value));
    assert(out.deep_view() =~= spec_remove_header(orig, name@).push((name@, value@)));
    out
}

/// Unfolds one step of `spec_remove_header` over a growing prefix.
proof fn lemma_remove_header_take_step(
    headers: Seq<(Seq<char>, Seq<char>)>,
    name: Seq<char>,
    i: int,
)
    requires
        0 <= i < headers.len(),
    ensures
        spec_remove_header(headers.take(i + 1), name) == if headers[i].0 == name {
            spec_remove_header(headers.take(i), name)
        } else {
            spec_remove_header(headers.take(i), name) + seq![headers[i]]
        },
    decreases i,
{
    if i == 0 {
        assert(headers.take(1).drop_first() =~= Seq::empty());
        assert(headers.take(0) =~= Seq::empty());
        reveal_with_fuel(spec_remove_header, 2);
    } else {
        lemma_remove_header_take_step(headers.drop_first(), name, i - 1);
        assert(headers.take(i + 1).drop_first() =~= headers.drop_first().take(i));
        assert(headers.take(i).drop_first() =~= headers.drop_first().take(i - 1));
        assert(headers.take(i + 1).first() == headers.first());
        assert(headers.take(i).first() == headers.first());
        if headers.first().0 == name {
        } else {
            assert(seq![headers.first()] + (spec_remove_header(headers.drop_first().take(i - 1), name)
                + seq![headers.drop_first()[i - 1]]) =~= (seq![headers.first()]
                + spec_remove_header(headers.drop_first().take(i - 1), name)) + seq![headers[i]]);
        }
    }
}

/// The text of a boolean query value.
pub open spec fn spec_bool_text(b: bool) -> Seq<char> {
    if b {
        "true"@
    } else {
        "false"@
    }
}

/// The query contribution of an optional string parameter: one pair when
/// present, nothing when absent.
pub open spec fn spec_opt_str_param(key: Seq<char>, value: Option<Seq<char>>) -> Seq<
    (Seq<char>, Seq<char>),
> {
    match value {
        Some(s) => seq![(key, s)],
        None => Seq::empty(),
    }
}

/// Appends an optional string parameter, if any.
pub fn push_opt_str_param(query: &mut Vec<(String, String)>, key: &str, value: &Option<String>)
    ensures
        final(query).deep_view() == old(query).deep_view() + spec_opt_str_param(
            key@,
            value.deep_view(),
        ),
{
    let ghost before = query.deep_view();
    match value {
        Some(s) => {
            query.push((String::from_str(key), s.clone()));
            assert(query.deep_view() =~= before.push((key@, s@)));
            assert(query.deep_view() =~= before + seq![(key@, s@)]);
        },
        None => {
            assert(query.deep_view() =~= before + Seq::<(Seq<char>, Seq<char>)>::empty());
        },
    }
}

/// The query contribution of an optional integer parameter, rendered in
/// decimal.
pub open spec fn spec_opt_u64_param(key: Seq<char>, value: Option<u64>) -> Seq<
    (Seq<char>, Seq<char>),
> {
    match value {
        Some(n) => seq![(key, spec_dec_text(n as int))],
        None => Seq::empty(),
    }
}

/// Appends an optional integer parameter, if any.
pub fn push_opt_u64_param(query: &mut Vec<(String, String)>, key: &str, value: &Option<u64>)
    ensures
        final(query).deep_view() == old(query).deep_view() + spec_opt_u64_param(key@, *value),
{
    let ghost before = query.deep_view();
    match value {
        Some(n) => {
            query.push((String::from_str(key), render_u64(*n)));
            assert(query.deep_view() =~= before.push((key@, spec_dec_text(*n as int))));
            assert(query.deep_view() =~= before + seq![(key@, spec_dec_text(*n as int))]);
        },
        None => {
            assert(query.deep_view() =~= before + Seq::<(Seq<char>, Seq<char>)>::empty());
        },
    }
}

/// The query contribution of an optional boolean parameter.
pub open spec fn spec_opt_bool_param(key: Seq<char>, value: Option<bool>) -> Seq<
    (Seq<char>, Seq<char>),
> {
    match value {
        Some(b) => seq![(key, spec_bool_text(b))],
        None => Seq::empty(),
    }
}

/// Appends an optional boolean parameter, if any.
pub fn push_opt_bool_param(query: &mut Vec<(String, String)>, key: &str, value: &Option<bool>)
    ensures
        final(query).deep_view() == old(query).deep_view() + spec_opt_bool_param(key@, *value),
{
    let ghost before = query.deep_view();
    match value {
        Some(b) => {
            let text = if *b {
                String::from_str("true")
            } else {
                String::from_str("false")
            };
            query.push((String::from_str(key), text));
            assert(query.deep_view() =~= before.push((key@, spec_bool_text(*b))));
            assert(query.deep_view() =~= before + seq![(key@, spec_bool_text(*b))]);
        },
        None => {
            assert(query.deep_view() =~= before + Seq::<(Seq<char>, Seq<char>)>::empty());
        },
    }
}

/// The credential header attached to every outbound request.
pub open spec fn auth_header_name() -> Seq<char> {
    "Authorization"@
}

/// The bearer form of a token: the scheme prefix followed by the token.
pub open spec fn spec_bearer(token: Seq<char>) -> Seq<char> {
    "Bearer "@ + token
}

/// `req` with its `Authorization` header set (overwritten) to the bearer
/// form of `token`; everything else is unchanged.
pub open spec fn spec_authorize(req: HttpRequestView, token: Seq<char>) -> HttpRequestView {
    HttpRequestView {
        headers: spec_set_header(req.headers, auth_header_name(), spec_bearer(token)),
        ..req
    }
}

/// What preparing a request from a supplier outcome yields: the authorized
/// request for a supplied token, or `CredentialError` carrying the
/// supplier's diagnostic for a failed supplier.
pub open spec fn spec_authorize_outcome(
    req: HttpRequestView,
    outcome: Result<Seq<char>, Seq<char>>,
) -> Result<HttpRequestView, TasksErrorView> {
    match outcome {
        Ok(token) => Ok(spec_authorize(req, token)),
        Err(msg) => Err(TasksErrorView::CredentialError(msg)),
    }
}

/// The bearer form of a token.
pub fn bearer_string(token: &str) -> (r: String)
    ensures
        r@ == spec_bearer(token@),
{
    String::from_str("Bearer ").concat(token)
}

/// Sets the `Authorization` header to `Bearer <token>`.
pub fn apply_token(req: HttpRequest, token: &str) -> (r: HttpRequest)
    ensures
        r@ == spec_authorize(req@, token@),
{
    let value = bearer_string(token);
    let headers = set_header(req.headers, "Authorization", value);
    HttpRequest { method: req.method, url: req.url, query: req.query, headers, body: req.body }
}

/// Turns a supplier outcome into either an authorized request or the error
/// surfaced to the caller. A failed supplier never yields a request.
pub fn authorize_outcome(req: HttpRequest, outcome: Result<String, String>) -> (r: Result<
    HttpRequest,
    TasksError,
>)
    ensures
        (match r {
            Ok(q) => Ok(q@),
            Err(e) => Err(e@),
        }) == spec_authorize_outcome(
            req@,
            match outcome {
                Ok(t) => Ok(t@),
                Err(m) => Err(m@),
            },
        ),
{
    match outcome {
        Ok(token) => Ok(apply_token(req, token.as_str())),
        Err(msg) => Err(TasksError::CredentialError(msg)),
    }
}

/// Law: every request prepared with a supplied token goes out with an
/// `Authorization` header that equals `Bearer <token>`, where `<token>` is
/// exactly the value the credential supplier returned for this request.
pub proof fn lemma_authorization_header(req: HttpRequestView, token: Seq<char>)
    ensures
        spec_header_value(spec_authorize(req, token).headers, auth_header_name()) == Some(
            spec_bearer(token),
        ),
{
    let set = spec_set_header(req.headers, auth_header_name(), spec_bearer(token));
    assert(set.last() == (auth_header_name(), spec_bearer(token)));
}

/// Law: if the credential supplier fails, the attempt aborts with
/// `CredentialError` carrying the supplier's diagnostic; no authorized
/// request exists, so none can reach a transport.
pub proof fn lemma_supplier_failure(req: HttpRequestView, msg: Seq<char>)
    ensures
        spec_authorize_outcome(req, Err(msg)) == Err::<HttpRequestView, TasksErrorView>(
            TasksErrorView::CredentialError(msg),
        ),
{
}

/// The default media type attached at client construction.
pub open spec fn spec_with_content_type(req: HttpRequestView) -> HttpRequestView {
    if spec_header_value(req.headers, "Content-Type"@) is Some {
        req
    } else {
        HttpRequestView { headers: req.headers.push(("Content-Type"@, "application/json"@)), ..req }
    }
}

/// Attaches `Content-Type: application/json` unless the caller set one.
pub fn with_content_type(req: HttpRequest) -> (r: HttpRequest)
    ensures
        r@ == spec_with_content_type(req@),
{
    match header_value(&req.headers, "Content-Type") {
        Some(_) => req,
        None => {
            let mut headers = req.headers;
            let ghost pre = headers.deep_view();
            headers.push((String::from_str("Content-Type"), String::from_str("application/json")));
            assert(headers.deep_view() =~= pre.push(("Content-Type"@, "application/json"@)));
            HttpRequest {
                method: req.method,
                url: req.url,
                query: req.query,
                headers,
                body: req.body,
            }
        },
    }
}

/// Injects a fresh credential into every outbound request, so that the
/// caller never manages token lifetime. Constructed once with a supplier
/// and consulted anew before each send.
pub struct AuthMiddleware<P: TokenProvider> {
    provider: P,
}

impl<P: TokenProvider> AuthMiddleware<P> {
    /// Wraps a credential supplier.
    pub fn new(provider: P) -> AuthMiddleware<P> {
        AuthMiddleware { provider }
    }

    /// Invokes the supplier and prepares the request: either the request
    /// with its bearer credential set, or the supplier's failure surfaced
    /// as `CredentialError` (the request is dropped, never sent).
    pub fn handle(&self, req: HttpRequest) -> (r: Result<HttpRequest, TasksError>)
        ensures
            r matches Ok(q) ==> exists|token: Seq<char>| q@ == spec_authorize(req@, token),
            r matches Err(e) ==> e@ is CredentialError,
    {
        let outcome = self.provider.token();
        authorize_outcome(req, outcome)
    }

    /// Finishes construction: a client that dispatches every request
    /// through this middleware into the given transport.
    pub fn init_http_client<T: Transport>(self, transport: T) -> HttpClient<P, T> {
        HttpClient { middleware: self, transport }
    }
}

/// A transport wrapped in the credential-injecting middleware. Every
/// request dispatched through it is first given the default content type
/// and a fresh bearer credential.
pub struct HttpClient<P: TokenProvider, T: Transport> {
    middleware: AuthMiddleware<P>,
    /// The wrapped transport, reachable for inspection.
    pub transport: T,
}

impl<P: TokenProvider, T: Transport> HttpClient<P, T> {
    /// Prepares and sends one request. A supplier failure or a transport
    /// failure surfaces as the corresponding error; nothing is retried.
    pub fn execute(&mut self, req: HttpRequest) -> (r: Result<HttpResponse, TasksError>)
        ensures
            r matches Err(e) ==> e@ is CredentialError || e@ is TransportError,
    {
        let prepared = with_content_type(req);
        match self.middleware.handle(prepared) {
            Err(e) => Err(e),
            Ok(authorized) => match self.transport.send(&authorized) {
                Ok(resp) => Ok(resp),
                Err(msg) => Err(TasksError::TransportError(msg)),
            },
        }
    }
}

/// Mathematical form of an [`Outcome`].
pub enum OutcomeView {
    Payload(JsonView),
    Empty,
    Unchanged,
}

/// The successful side of a classified response.
#[derive(Debug)]
pub enum Outcome {
    /// A success response whose body was decoded.
    Payload(Json),
    /// A success response for an operation that expects no payload.
    Empty,
    /// A conditional read matched the caller's ETag; there is no payload.
    Unchanged,
}

impl View for Outcome {
    type V = OutcomeView;

    open spec fn view(&self) -> OutcomeView {
        match self {
            Outcome::Payload(j) => OutcomeView::Payload(j@),
            Outcome::Empty => OutcomeView::Empty,
            Outcome::Unchanged => OutcomeView::Unchanged,
        }
    }
}

/// Whether a status code denotes success.
pub open spec fn is_success_status(status: u16) -> bool {
    200 <= status < 300
}

/// The diagnostic attached when a success response carries a body that is
/// not valid JSON.
pub open spec fn invalid_json_diag() -> Seq<char> {
    "response body is not valid JSON"@
}

/// The diagnostic attached when a success response parses but does not
/// match the expected schema.
pub open spec fn schema_diag() -> Seq<char> {
    "response body does not match the expected schema"@
}

/// The diagnostic above as an owned string.
pub fn schema_diag_string() -> (r: String)
    ensures
        r@ == schema_diag(),
{
    String::from_str("response body does not match the expected schema")
}

/// How a completed response is classified, uniformly for every operation:
/// `Unchanged` for a 304 answer to a conditional read; for a success
/// status, the decoded payload (or `DecodeError` carrying the raw body
/// when it does not parse), or `Empty` when no payload is expected; any
/// other status is `RemoteRejected` with the verbatim body text.
pub open spec fn spec_classify(
    resp: HttpResponseView,
    expects_body: bool,
    conditional: bool,
) -> Result<OutcomeView, TasksErrorView> {
    if conditional && resp.status == 304 {
        Ok(OutcomeView::Unchanged)
    } else if is_success_status(resp.status) {
        if expects_body {
            match spec_parse_json(resp.body) {
                Some(v) => Ok(OutcomeView::Payload(v)),
                None => Err(TasksErrorView::DecodeError(resp.body, invalid_json_diag())),
            }
        } else {
            Ok(OutcomeView::Empty)
        }
    } else {
        Err(TasksErrorView::RemoteRejected(resp.status, resp.body))
    }
}

/// Turns a raw completed response into one of the three outcomes, as
/// [`spec_classify`] says. One classification pass per response; nothing
/// is retried here.
pub fn classify(resp: &HttpResponse, expects_body: bool, conditional: bool) -> (r: Result<
    Outcome,
    TasksError,
>)
    ensures
        (match r {
            Ok(o) => Ok(o@),
            Err(e) => Err(e@),
        }) == spec_classify(resp@, expects_body, conditional),
{
    if conditional && resp.status == 304 {
        Ok(Outcome::Unchanged)
    } else if 200 <= resp.status && resp.status < 300 {
        if expects_body {
            match parse_json(resp.body.as_str()) {
                Some(v) => Ok(Outcome::Payload(v)),
                None => Err(
                    TasksError::DecodeError(
                        resp.body.clone(),
                        String::from_str("response body is not valid JSON"),
                    ),
                ),
            }
        } else {
            Ok(Outcome::Empty)
        }
    } else {
        Err(TasksError::RemoteRejected(resp.status, resp.body.clone()))
    }
}

/// Law: a "not modified" answer to a conditional read is `Unchanged`,
/// whatever the body holds — no decode is attempted.
pub proof fn lemma_not_modified_is_unchanged(resp: HttpResponseView, expects_body: bool)
    requires
        resp.status == 304,
    ensures
        spec_classify(resp, expects_body, true) == Ok::<OutcomeView, TasksErrorView>(
            OutcomeView::Unchanged,
        ),
{
}

/// Law: a response that is neither a success nor a conditional 304 is
/// rejected with exactly its status and its verbatim body text.
pub proof fn lemma_rejection_carries_body(
    resp: HttpResponseView,
    expects_body: bool,
    conditional: bool,
)
    requires
        !is_success_status(resp.status),
        !(conditional && resp.status == 304),
    ensures
        spec_classify(resp, expects_body, conditional) == Err::<OutcomeView, TasksErrorView>(
            TasksErrorView::RemoteRejected(resp.status, resp.body),
        ),
{
}

/// Law: a success response whose body does not parse is a `DecodeError`
/// carrying the raw body, never a success outcome.
pub proof fn lemma_unparsed_body_is_decode_error(resp: HttpResponseView, conditional: bool)
    requires
        is_success_status(resp.status),
        spec_parse_json(resp.body) is None,
    ensures
        spec_classify(resp, true, conditional) == Err::<OutcomeView, TasksErrorView>(
            TasksErrorView::DecodeError(resp.body, invalid_json_diag()),
        ),
{
}

/// Looks a header up by name; the last pair with that name wins.
pub fn header_value(headers: &Vec<(String, String)>, name: &str) -> (r: Option<String>)
    ensures
        r.deep_view() == spec_header_value(headers.deep_view(), name@),
{
    let mut i: usize = headers.len();
    assert(headers.deep_view().take(i as int) =~= headers.deep_view());
    while i > 0
        invariant
            i <= headers.len(),
            spec_header_value(headers.deep_view(), name@) == spec_header_value(
                headers.deep_view().take(i as int),
                name@,
            ),
        decreases i,
    {
        i = i - 1;
        assert(headers.deep_view().take(i as int + 1).last() == headers.deep_view()[i as int]);
        assert(headers.deep_view().take(i as int + 1).drop_last() =~= headers.deep_view().take(
            i as int,
        ));
        if str_eq(headers[i].0.as_str(), name) {
            return Some(headers[i].1.clone());
        }
    }
    assert(headers.deep_view().take(0) =~= Seq::empty());
    None
}

} // verus!
