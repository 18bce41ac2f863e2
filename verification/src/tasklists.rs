//! The task-list resource: its shape on the wire, and the operations of
//! the list-of-lists collection.

use vstd::prelude::*;

use crate::base_url;
use crate::base_url_string;
use crate::errors::{TasksError, TasksErrorView};
use crate::http::{
    classify, push_opt_str_param, push_opt_u64_param, spec_classify, spec_opt_str_param,
    spec_opt_u64_param, HttpClient, HttpRequest, HttpRequestView, HttpResponse, HttpResponseView,
    Method, Outcome, OutcomeView, TokenProvider, Transport,
};
use crate::json::{
    obj_get, obj_view, opt_str_field, push_opt_str_member, render_json, req_str_field,
    spec_json_text, spec_obj_get, spec_opt_str_field, spec_opt_str_member, spec_req_str_field,
    Json, JsonMember, JsonView,
};

verus! {

/// Mathematical form of a [`Tasklist`].
pub struct TasklistView {
    pub kind: Option<Seq<char>>,
    pub id: Option<Seq<char>>,
    pub etag: Option<Seq<char>>,
    pub title: Option<Seq<char>>,
    pub updated: Option<Seq<char>>,
    pub self_link: Option<Seq<char>>,
}

/// One task list. Every field is server-defined and optional on the wire;
/// timestamps are carried as their RFC 3339 text.
#[derive(Debug, Clone)]
pub struct Tasklist {
    /// Type of the resource. This is always "tasks#taskList".
    pub kind: Option<String>,
    /// Task list identifier.
    pub id: Option<String>,
    /// ETag of the resource.
    pub etag: Option<String>,
    /// Title of the task list.
    pub title: Option<String>,
    /// Last modification time of the task list (an RFC 3339 timestamp).
    pub updated: Option<String>,
    /// URL used to retrieve, update, or delete the task list.
    pub self_link: Option<String>,
}

impl View for Tasklist {
    type V = TasklistView;

    open spec fn view(&self) -> TasklistView {
        TasklistView {
            kind: self.kind.deep_view(),
            id: self.id.deep_view(),
            etag: self.etag.deep_view(),
            title: self.title.deep_view(),
            updated: self.updated.deep_view(),
            self_link: self.self_link.deep_view(),
        }
    }
}

impl DeepView for Tasklist {
    type V = TasklistView;

    open spec fn deep_view(&self) -> TasklistView {
        self.view()
    }
}

/// The task list with every field absent.
pub open spec fn spec_empty_tasklist() -> TasklistView {
    TasklistView { kind: None, id: None, etag: None, title: None, updated: None, self_link: None }
}

impl Default for Tasklist {
    /// A task list with every field absent.
    fn default() -> (r: Tasklist)
        ensures
            r@ == spec_empty_tasklist(),
    {
        Tasklist { kind: None, id: None, etag: None, title: None, updated: None, self_link: None }
    }
}

/// The members of a task list's JSON object: each present field, in the
/// declared order, under its wire name.
pub open spec fn spec_tasklist_members(t: TasklistView) -> Seq<(Seq<char>, JsonView)> {
    spec_opt_str_member("kind"@, t.kind) + spec_opt_str_member("id"@, t.id) + spec_opt_str_member(
        "etag"@,
        t.etag,
    ) + spec_opt_str_member("title"@, t.title) + spec_opt_str_member("updated"@, t.updated)
        + spec_opt_str_member("selfLink"@, t.self_link)
}

/// A task list as its JSON object.
pub open spec fn spec_tasklist_to_json(t: TasklistView) -> JsonView {
    JsonView::Obj(spec_tasklist_members(t))
}

/// What a JSON value decodes to as a task list: its object members read
/// field by field, unknown members ignored; `None` is a shape error.
pub open spec fn spec_tasklist_of_json(v: JsonView) -> Option<TasklistView> {
    match v {
        JsonView::Obj(m) => {
            if spec_opt_str_field(m, "kind"@) is None || spec_opt_str_field(m, "id"@) is None
                || spec_opt_str_field(m, "etag"@) is None || spec_opt_str_field(m, "title"@)
                is None || spec_opt_str_field(m, "updated"@) is None || spec_opt_str_field(
                m,
                "selfLink"@,
            ) is None {
                None
            } else {
                Some(
                    TasklistView {
                        kind: spec_opt_str_field(m, "kind"@).unwrap(),
                        id: spec_opt_str_field(m, "id"@).unwrap(),
                        etag: spec_opt_str_field(m, "etag"@).unwrap(),
                        title: spec_opt_str_field(m, "title"@).unwrap(),
                        updated: spec_opt_str_field(m, "updated"@).unwrap(),
                        self_link: spec_opt_str_field(m, "selfLink"@).unwrap(),
                    },
                )
            }
        },
        _ => None,
    }
}

impl Tasklist {
    /// Renders the task list as a JSON object.
    pub fn to_json(&self) -> (j: Json)
        ensures
            j@ == spec_tasklist_to_json(self@),
    {
        let mut members: Vec<JsonMember> = Vec::new();
        push_opt_str_member(&mut members, "kind", &self.kind);
        push_opt_str_member(&mut members, "id", &self.id);
        push_opt_str_member(&mut members, "etag", &self.etag);
        push_opt_str_member(&mut members, "title", &self.title);
        push_opt_str_member(&mut members, "updated", &self.updated);
        push_opt_str_member(&mut members, "selfLink", &self.self_link);
        proof {
            assert(obj_view(members@) =~= spec_tasklist_members(self@));
        }
        Json::Obj(members)
    }

    /// Decodes a task list from a JSON value, as
    /// [`spec_tasklist_of_json`] says.
    pub fn from_json(j: &Json) -> (r: Option<Tasklist>)
        ensures
            (match r {
                Some(t) => Some(t@),
                None => None,
            }) == spec_tasklist_of_json(j@),
    {
        match j {
            Json::Obj(members) => {
                let kind = match opt_str_field(members, "kind") {
                    Some(v) => v,
                    None => {
                        return None;
                    },
                };
                let id = match opt_str_field(members, "id") {
                    Some(v) => v,
                    None => {
                        return None;
                    },
                };
                let etag = match opt_str_field(members, "etag") {
                    Some(v) => v,
                    None => {
                        return None;
                    },
                };
                let title = match opt_str_field(members, "title") {
                    Some(v) => v,
                    None => {
                        return None;
                    },
                };
                let updated = match opt_str_field(members, "updated") {
                    Some(v) => v,
                    None => {
                        return None;
                    },
                };
                let self_link = match opt_str_field(members, "selfLink") {
                    Some(v) => v,
                    None => {
                        return None;
                    },
                };
                Some(Tasklist { kind, id, etag, title, updated, self_link })
            },
            _ => None,
        }
    }
}

/// Mathematical form of a [`Tasklists`] page.
pub struct TasklistsView {
    pub kind: Seq<char>,
    pub etag: Seq<char>,
    pub next_page_token: Option<Seq<char>>,
    pub items: Seq<TasklistView>,
}

/// One page of the authenticated user's task lists.
#[derive(Debug, Clone)]
pub struct Tasklists {
    /// Type of the resource. This is always "tasks#taskLists".
    pub kind: String,
    /// ETag of the resource.
    pub etag: String,
    /// Token that can be used to request the next page of this result.
    pub next_page_token: Option<String>,
    /// Collection of task lists.
    pub items: Vec<Tasklist>,
}

impl View for Tasklists {
    type V = TasklistsView;

    open spec fn view(&self) -> TasklistsView {
        TasklistsView {
            kind: self.kind@,
            etag: self.etag@,
            next_page_token: self.next_page_token.deep_view(),
            items: self.items.deep_view(),
        }
    }
}

/// What a JSON value decodes to as a page of task lists: `kind`, `etag`
/// and `items` are required; every item must decode.
pub open spec fn spec_tasklists_of_json(v: JsonView) -> Option<TasklistsView> {
    match v {
        JsonView::Obj(m) => {
            if spec_req_str_field(m, "kind"@) is None || spec_req_str_field(m, "etag"@) is None
                || spec_opt_str_field(m, "nextPageToken"@) is None {
                None
            } else {
                match spec_obj_get(m, "items"@) {
                    Some(JsonView::Arr(items)) => match spec_tasklist_items(items) {
                        Some(decoded) => Some(
                            TasklistsView {
                                kind: spec_req_str_field(m, "kind"@).unwrap(),
                                etag: spec_req_str_field(m, "etag"@).unwrap(),
                                next_page_token: spec_opt_str_field(m, "nextPageToken"@).unwrap(),
                                items: decoded,
                            },
                        ),
                        None => None,
                    },
                    _ => None,
                }
            }
        },
        _ => None,
    }
}

/// Each element decoded as a task list, or `None` where one fails.
pub open spec fn spec_tasklist_items(items: Seq<JsonView>) -> Option<Seq<TasklistView>>
    decreases items.len(),
{
    if items.len() == 0 {
        Some(Seq::empty())
    } else {
        match (spec_tasklist_items(items.drop_last()), spec_tasklist_of_json(items.last())) {
            (Some(rest), Some(t)) => Some(rest.push(t)),
            _ => None,
        }
    }
}

/// Decodes the `items` array of a page.
fn decode_tasklist_items(items: &Vec<Json>) -> (r: Option<Vec<Tasklist>>)
    ensures
        (match r {
            Some(ts) => Some(ts.deep_view()),
            None => None,
        }) == spec_tasklist_items(crate::json::arr_view(items@)),
{
    let ghost vitems = crate::json::arr_view(items@);
    proof {
        crate::json::lemma_arr_view(items@);
    }
    let mut out: Vec<Tasklist> = Vec::new();
    let mut i: usize = 0;
    while i < items.len()
        invariant
            vitems == crate::json::arr_view(items@),
            vitems.len() == items@.len(),
            forall|k: int|
                0 <= k < items@.len() ==> vitems[k] == crate::json::json_view(
                    #[trigger] items@[k],
                ),
            i <= items.len(),
            spec_tasklist_items(vitems.take(i as int)) == Some(out.deep_view()),
        decreases items.len() - i,
    {
        let ghost before = out.deep_view();
        match Tasklist::from_json(&items[i]) {
            Some(t) => {
                out.push(t);
                proof {
                    assert(vitems.take(i as int + 1).drop_last() =~= vitems.take(i as int));
                    assert(vitems.take(i as int + 1).last() == vitems[i as int]);
                    assert(out.deep_view() =~= before.push(out@.last()@));
                }
            },
            None => {
                proof {
                    assert(vitems.take(i as int + 1).drop_last() =~= vitems.take(i as int));
                    assert(vitems.take(i as int + 1).last() == vitems[i as int]);
                    assert(spec_tasklist_items(vitems.take(i as int + 1)) is None);
                    lemma_tasklist_items_prefix_failure(vitems, i as int + 1);
                }
                return None;
            },
        }
        i += 1;
    }
    assert(vitems.take(items.len() as int) =~= vitems);
    Some(out)
}

/// Once a prefix of the items fails to decode, the whole list fails.
proof fn lemma_tasklist_items_prefix_failure(items: Seq<JsonView>, k: int)
    requires
        0 <= k <= items.len(),
        spec_tasklist_items(items.take(k)) is None,
    ensures
        spec_tasklist_items(items) is None,
    decreases items.len() - k,
{
    if k < items.len() {
        assert(items.take(k + 1).drop_last() =~= items.take(k));
        lemma_tasklist_items_prefix_failure(items, k + 1);
    } else {
        assert(items.take(k) =~= items);
    }
}

impl Tasklists {
    /// Decodes a page of task lists from a JSON value, as
    /// [`spec_tasklists_of_json`] says.
    pub fn from_json(j: &Json) -> (r: Option<Tasklists>)
        ensures
            (match r {
                Some(t) => Some(t@),
                None => None,
            }) == spec_tasklists_of_json(j@),
    {
        match j {
            Json::Obj(members) => {
                let kind = match req_str_field(members, "kind") {
                    Some(v) => v,
                    None => {
                        return None;
                    },
                };
                let etag = match req_str_field(members, "etag") {
                    Some(v) => v,
                    None => {
                        return None;
                    },
                };
                let next_page_token = match opt_str_field(members, "nextPageToken") {
                    Some(v) => v,
                    None => {
                        return None;
                    },
                };
                match obj_get(members, "items") {
                    Some(j_items) => match j_items {
                        Json::Arr(raw) => match decode_tasklist_items(raw) {
                            Some(items) => Some(Tasklists { kind, etag, next_page_token, items }),
                            None => None,
                        },
                        _ => None,
                    },
                    None => None,
                }
            },
            _ => None,
        }
    }
}

/// Mathematical form of [`ListOptions`].
pub struct ListOptionsView {
    pub max_results: Option<u64>,
    pub page_token: Option<Seq<char>>,
}

/// Optional configuration of a list-of-lists call.
#[derive(Debug, Clone)]
pub struct ListOptions {
    /// Maximum number of task lists returned on one page.
    /// Optional. The default is 20 (max allowed: 100).
    pub max_results: Option<u64>,
    /// Token specifying the result page to return. Optional.
    pub page_token: Option<String>,
}

impl View for ListOptions {
    type V = ListOptionsView;

    open spec fn view(&self) -> ListOptionsView {
        ListOptionsView {
            max_results: self.max_results,
            page_token: self.page_token.deep_view(),
        }
    }
}

impl Default for ListOptions {
    /// Options with nothing set.
    fn default() -> (r: ListOptions)
        ensures
            r@ == (ListOptionsView { max_results: None, page_token: None }),
    {
        ListOptions { max_results: None, page_token: None }
    }
}

/// The query pairs of a list-of-lists call, under their wire names.
pub open spec fn spec_tasklists_query(o: ListOptionsView) -> Seq<(Seq<char>, Seq<char>)> {
    spec_opt_u64_param("maxResults"@, o.max_results) + spec_opt_str_param(
        "pageToken"@,
        o.page_token,
    )
}

impl ListOptions {
    /// Renders these options as query pairs.
    pub fn query_pairs(&self) -> (q: Vec<(String, String)>)
        ensures
            q.deep_view() == spec_tasklists_query(self@),
    {
        let mut q: Vec<(String, String)> = Vec::new();
        push_opt_u64_param(&mut q, "maxResults", &self.max_results);
        push_opt_str_param(&mut q, "pageToken", &self.page_token);
        proof {
            assert(q.deep_view() =~= spec_tasklists_query(self@));
        }
        q
    }
}

/// The URL of the list-of-lists collection.
pub open spec fn spec_tasklists_url() -> Seq<char> {
    base_url() + "/users/@me/lists"@
}

/// The URL of one task list.
pub open spec fn spec_tasklist_url(id: Seq<char>) -> Seq<char> {
    base_url() + "/users/@me/lists/"@ + id
}

/// Builds the URL of the list-of-lists collection.
pub fn tasklists_url() -> (r: String)
    ensures
        r@ == spec_tasklists_url(),
{
    base_url_string().concat("/users/@me/lists")
}

/// Builds the URL of one task list.
pub fn tasklist_url(id: &str) -> (r: String)
    ensures
        r@ == spec_tasklist_url(id@),
{
    base_url_string().concat("/users/@me/lists/").concat(id)
}

/// The request of a list-of-lists call: a plain read with the options'
/// query pairs.
pub open spec fn spec_list_tasklists_request(opt: Option<ListOptionsView>) -> HttpRequestView {
    HttpRequestView {
        method: Method::Get,
        url: spec_tasklists_url(),
        query: match opt {
            Some(o) => spec_tasklists_query(o),
            None => Seq::empty(),
        },
        headers: Seq::empty(),
        body: None,
    }
}

/// Builds the request of a list-of-lists call.
pub fn list_tasklists_request(opt: &Option<ListOptions>) -> (req: HttpRequest)
    ensures
        req@ == spec_list_tasklists_request(
            match opt {
                Some(o) => Some(o@),
                None => None,
            },
        ),
{
    let query = match opt {
        Some(o) => o.query_pairs(),
        None => Vec::new(),
    };
    let req = HttpRequest {
        method: Method::Get,
        url: tasklists_url(),
        query,
        headers: Vec::new(),
        body: None,
    };
    proof {
        assert(req@.headers =~= Seq::<(Seq<char>, Seq<char>)>::empty());
        if opt is None {
            assert(req@.query =~= Seq::<(Seq<char>, Seq<char>)>::empty());
        }
    }
    req
}

/// The request that reads, deletes, or writes one task list: the verb, the
/// task list's URL, and for writes the task list rendered as JSON.
pub open spec fn spec_tasklist_request(
    method: Method,
    id: Seq<char>,
    body: Option<TasklistView>,
) -> HttpRequestView {
    HttpRequestView {
        method,
        url: spec_tasklist_url(id),
        query: Seq::empty(),
        headers: Seq::empty(),
        body: match body {
            Some(t) => Some(spec_json_text(spec_tasklist_to_json(t))),
            None => None,
        },
    }
}

/// Builds a request against one task list.
pub fn tasklist_request(method: Method, id: &str, body: Option<&Tasklist>) -> (req: HttpRequest)
    ensures
        req@ == spec_tasklist_request(
            method,
            id@,
            match body {
                Some(t) => Some(t@),
                None => None,
            },
        ),
{
    let rendered = match body {
        Some(t) => Some(render_json(&t.to_json())),
        None => None,
    };
    let req = HttpRequest {
        method,
        url: tasklist_url(id),
        query: Vec::new(),
        headers: Vec::new(),
        body: rendered,
    };
    proof {
        assert(req@.query =~= Seq::<(Seq<char>, Seq<char>)>::empty());
        assert(req@.headers =~= Seq::<(Seq<char>, Seq<char>)>::empty());
    }
    req
}

/// The request that creates a task list: a post of its JSON to the
/// collection.
pub open spec fn spec_insert_tasklist_request(t: TasklistView) -> HttpRequestView {
    HttpRequestView {
        method: Method::Post,
        url: spec_tasklists_url(),
        query: Seq::empty(),
        headers: Seq::empty(),
        body: Some(spec_json_text(spec_tasklist_to_json(t))),
    }
}

/// Builds the request that creates a task list.
pub fn insert_tasklist_request(t: &Tasklist) -> (req: HttpRequest)
    ensures
        req@ == spec_insert_tasklist_request(t@),
{
    let req = HttpRequest {
        method: Method::Post,
        url: tasklists_url(),
        query: Vec::new(),
        headers: Vec::new(),
        body: Some(render_json(&t.to_json())),
    };
    proof {
        assert(req@.query =~= Seq::<(Seq<char>, Seq<char>)>::empty());
        assert(req@.headers =~= Seq::<(Seq<char>, Seq<char>)>::empty());
    }
    req
}

/// What a completed response denotes for an operation that returns one
/// task list: the classified payload decoded against the schema.
pub open spec fn spec_handle_tasklist_response(resp: HttpResponseView) -> Result<
    TasklistView,
    TasksErrorView,
> {
    match spec_classify(resp, true, false) {
        Err(e) => Err(e),
        Ok(OutcomeView::Payload(v)) => match spec_tasklist_of_json(v) {
            Some(t) => Ok(t),
            None => Err(TasksErrorView::DecodeError(resp.body, crate::http::schema_diag())),
        },
        Ok(_) => Err(TasksErrorView::DecodeError(resp.body, crate::http::schema_diag())),
    }
}

/// Classifies and decodes a response carrying one task list.
pub fn handle_response_tasklist(resp: &HttpResponse) -> (r: Result<Tasklist, TasksError>)
    ensures
        (match r {
            Ok(t) => Ok(t@),
            Err(e) => Err(e@),
        }) == spec_handle_tasklist_response(resp@),
{
    match classify(resp, true, false) {
        Err(e) => Err(e),
        Ok(o) => match o {
            Outcome::Payload(v) => match Tasklist::from_json(&v) {
                Some(t) => Ok(t),
                None => Err(
                    TasksError::DecodeError(resp.body.clone(), crate::http::schema_diag_string()),
                ),
            },
            _ => Err(
                TasksError::DecodeError(resp.body.clone(), crate::http::schema_diag_string()),
            ),
        },
    }
}

/// What a completed response denotes for the list-of-lists call.
pub open spec fn spec_handle_tasklists_response(resp: HttpResponseView) -> Result<
    TasklistsView,
    TasksErrorView,
> {
    match spec_classify(resp, true, false) {
        Err(e) => Err(e),
        Ok(OutcomeView::Payload(v)) => match spec_tasklists_of_json(v) {
            Some(t) => Ok(t),
            None => Err(TasksErrorView::DecodeError(resp.body, crate::http::schema_diag())),
        },
        Ok(_) => Err(TasksErrorView::DecodeError(resp.body, crate::http::schema_diag())),
    }
}

/// Classifies and decodes a response carrying a page of task lists.
pub fn handle_response_tasklists(resp: &HttpResponse) -> (r: Result<Tasklists, TasksError>)
    ensures
        (match r {
            Ok(t) => Ok(t@),
            Err(e) => Err(e@),
        }) == spec_handle_tasklists_response(resp@),
{
    match classify(resp, true, false) {
        Err(e) => Err(e),
        Ok(o) => match o {
            Outcome::Payload(v) => match Tasklists::from_json(&v) {
                Some(t) => Ok(t),
                None => Err(
                    TasksError::DecodeError(resp.body.clone(), crate::http::schema_diag_string()),
                ),
            },
            _ => Err(
                TasksError::DecodeError(resp.body.clone(), crate::http::schema_diag_string()),
            ),
        },
    }
}

/// Returns all the authenticated user's task lists.
pub fn list<P: TokenProvider, T: Transport>(
    client: &mut HttpClient<P, T>,
    opt: Option<ListOptions>,
) -> (r: Result<Tasklists, TasksError>)
    ensures
        r matches Err(e) ==> !(e@ is InvalidArgument),
{
    let req = list_tasklists_request(&opt);
    match client.execute(req) {
        Err(e) => Err(e),
        Ok(resp) => handle_response_tasklists(&resp),
    }
}

/// Returns the authenticated user's specified task list.
pub fn get<P: TokenProvider, T: Transport>(client: &mut HttpClient<P, T>, id: &str) -> (r: Result<
    Tasklist,
    TasksError,
>)
    ensures
        r matches Err(e) ==> !(e@ is InvalidArgument),
{
    let req = tasklist_request(Method::Get, id, None);
    match client.execute(req) {
        Err(e) => Err(e),
        Ok(resp) => handle_response_tasklist(&resp),
    }
}

/// Creates a new task list and adds it to the authenticated user's task
/// lists.
pub fn insert<P: TokenProvider, T: Transport>(
    client: &mut HttpClient<P, T>,
    v: Tasklist,
) -> (r: Result<Tasklist, TasksError>)
    ensures
        r matches Err(e) ==> !(e@ is InvalidArgument),
{
    let req = insert_tasklist_request(&v);
    match client.execute(req) {
        Err(e) => Err(e),
        Ok(resp) => handle_response_tasklist(&resp),
    }
}

/// The task list with its server-assigned last-modified field cleared.
pub open spec fn spec_clear_tasklist_updated(t: TasklistView) -> TasklistView {
    TasklistView { updated: None, ..t }
}

/// Updates the authenticated user's specified task list. A task list with
/// no identifier is refused before anything is sent; the server-assigned
/// last-modified field is cleared from the outgoing body.
pub fn update<P: TokenProvider, T: Transport>(
    client: &mut HttpClient<P, T>,
    v: Tasklist,
) -> (r: Result<Tasklist, TasksError>)
    ensures
        v.id is None ==> (r matches Err(e) && e@ == TasksErrorView::InvalidArgument(
            "tasklist id cannot be None"@,
        )),
        v.id is Some ==> (r matches Err(e) ==> !(e@ is InvalidArgument)),
{
    let id = match &v.id {
        Some(id) => id.clone(),
        None => {
            return Err(TasksError::InvalidArgument(String::from_str("tasklist id cannot be None")));
        },
    };
    let mut body = v;
    body.updated = None;
    let req = tasklist_request(Method::Put, id.as_str(), Some(&body));
    match client.execute(req) {
        Err(e) => Err(e),
        Ok(resp) => handle_response_tasklist(&resp),
    }
}

/// Deletes the authenticated user's specified task list.
pub fn delete<P: TokenProvider, T: Transport>(client: &mut HttpClient<P, T>, id: &str) -> (r:
    Result<(), TasksError>)
    ensures
        r matches Err(e) ==> !(e@ is InvalidArgument),
{
    let req = tasklist_request(Method::Delete, id, None);
    match client.execute(req) {
        Err(e) => Err(e),
        Ok(resp) => match classify(&resp, false, false) {
            Err(e) => Err(e),
            Ok(_) => Ok(()),
        },
    }
}

/// Updates the authenticated user's specified task list with patch
/// semantics.
pub fn patch<P: TokenProvider, T: Transport>(
    client: &mut HttpClient<P, T>,
    tasklist_id: &str,
    v: Tasklist,
) -> (r: Result<Tasklist, TasksError>)
    ensures
        r matches Err(e) ==> !(e@ is InvalidArgument),
{
    let req = tasklist_request(Method::Patch, tasklist_id, Some(&v));
    match client.execute(req) {
        Err(e) => Err(e),
        Ok(resp) => handle_response_tasklist(&resp),
    }
}

/// Law: the outgoing body of an update omits the last-modified field: once
/// it is cleared, no member of the serialized object is named `updated`.
pub proof fn lemma_update_tasklist_omits_updated(t: TasklistView)
    ensures
        !crate::json::spec_obj_has_key(
            spec_tasklist_members(spec_clear_tasklist_updated(t)),
            "updated"@,
        ),
{
    let c = spec_clear_tasklist_updated(t);
    let part1 = spec_opt_str_member("kind"@, c.kind);
    let part2 = spec_opt_str_member("id"@, c.id);
    let part3 = spec_opt_str_member("etag"@, c.etag);
    let part4 = spec_opt_str_member("title"@, c.title);
    let part5 = spec_opt_str_member("updated"@, c.updated);
    let part6 = spec_opt_str_member("selfLink"@, c.self_link);
    crate::json::lemma_obj_has_key_concat(part1, part2, "updated"@);
    crate::json::lemma_obj_has_key_concat(part1 + part2, part3, "updated"@);
    crate::json::lemma_obj_has_key_concat(part1 + part2 + part3, part4, "updated"@);
    crate::json::lemma_obj_has_key_concat(part1 + part2 + part3 + part4, part5, "updated"@);
    crate::json::lemma_obj_has_key_concat(part1 + part2 + part3 + part4 + part5, part6, "updated"@);
    crate::json::lemma_has_key_opt_str_member("kind"@, c.kind, "updated"@);
    crate::json::lemma_has_key_opt_str_member("id"@, c.id, "updated"@);
    crate::json::lemma_has_key_opt_str_member("etag"@, c.etag, "updated"@);
    crate::json::lemma_has_key_opt_str_member("title"@, c.title, "updated"@);
    crate::json::lemma_has_key_opt_str_member("updated"@, c.updated, "updated"@);
    crate::json::lemma_has_key_opt_str_member("selfLink"@, c.self_link, "updated"@);
    assert("kind"@ != "updated"@) by {
        reveal_strlit("kind");
        reveal_strlit("updated");
        assert("kind"@.len() == 4);
        assert("updated"@.len() == 7);
    }
    assert("id"@ != "updated"@) by {
        reveal_strlit("id");
        reveal_strlit("updated");
        assert("id"@.len() == 2);
        assert("updated"@.len() == 7);
    }
    assert("etag"@ != "updated"@) by {
        reveal_strlit("etag");
        reveal_strlit("updated");
        assert("etag"@.len() == 4);
        assert("updated"@.len() == 7);
    }
    assert("title"@ != "updated"@) by {
        reveal_strlit("title");
        reveal_strlit("updated");
        assert("title"@.len() == 5);
        assert("updated"@.len() == 7);
    }
    assert("selfLink"@ != "updated"@) by {
        reveal_strlit("selfLink");
        reveal_strlit("updated");
        assert("selfLink"@.len() == 8);
        assert("updated"@.len() == 7);
    }
}

} // verus!
