//! The task resource: its shape on the wire, and the operations of a task
//! list's task collection.

use vstd::prelude::*;

use crate::base_url;
use crate::base_url_string;
use crate::errors::{TasksError, TasksErrorView};
use crate::http::{
    classify, push_opt_bool_param, push_opt_str_param, push_opt_u64_param, schema_diag,
    schema_diag_string, spec_classify, spec_opt_bool_param, spec_opt_str_param,
    spec_opt_u64_param, HttpClient, HttpRequest, HttpRequestView, HttpResponse, HttpResponseView,
    Method, Outcome, OutcomeView, TokenProvider, Transport,
};
use crate::json::{
    arr_view, json_view, lemma_arr_view, obj_get, obj_view, opt_bool_field, opt_str_field,
    push_opt_bool_member, push_opt_str_member, push_str_member, render_json, req_str_field,
    spec_json_text, spec_obj_get, spec_obj_has_key, spec_opt_bool_field, spec_opt_bool_member,
    spec_opt_str_field, spec_opt_str_member, spec_req_str_field, Json, JsonMember, JsonView,
};
use crate::strutil::str_eq;

verus! {

/// Status of a task: still to be acted on, or completed.
#[derive(Debug, Clone, Copy, PartialEq, Eq, Structural)]
pub enum TaskStatus {
    NeedsAction,
    Completed,
}

impl DeepView for TaskStatus {
    type V = TaskStatus;

    open spec fn deep_view(&self) -> TaskStatus {
        *self
    }
}

/// The wire text of a status.
pub open spec fn spec_status_text(s: TaskStatus) -> Seq<char> {
    match s {
        TaskStatus::NeedsAction => "needsAction"@,
        TaskStatus::Completed => "completed"@,
    }
}

/// Mathematical form of a [`TaskLink`].
pub struct TaskLinkView {
    pub task_type: Seq<char>,
    pub description: Seq<char>,
    pub link: Seq<char>,
}

/// One link attached to a task. All of its fields are required on the
/// wire; the type field is transmitted under the name `type`.
#[derive(Debug, Clone)]
pub struct TaskLink {
    /// Type of the link, e.g. "email".
    pub task_type: String,
    /// The description of the link.
    pub description: String,
    /// The URL.
    pub link: String,
}

impl View for TaskLink {
    type V = TaskLinkView;

    open spec fn view(&self) -> TaskLinkView {
        TaskLinkView {
            task_type: self.task_type@,
            description: self.description@,
            link: self.link@,
        }
    }
}

impl DeepView for TaskLink {
    type V = TaskLinkView;

    open spec fn deep_view(&self) -> TaskLinkView {
        self.view()
    }
}

/// The members of a link's JSON object.
pub open spec fn spec_tasklink_members(l: TaskLinkView) -> Seq<(Seq<char>, JsonView)> {
    seq![
        ("type"@, JsonView::Str(l.task_type)),
        ("description"@, JsonView::Str(l.description)),
        ("link"@, JsonView::Str(l.link)),
    ]
}

/// A link as its JSON object.
pub open spec fn spec_tasklink_to_json(l: TaskLinkView) -> JsonView {
    JsonView::Obj(spec_tasklink_members(l))
}

/// What a JSON value decodes to as a link: all three fields required.
pub open spec fn spec_tasklink_of_json(v: JsonView) -> Option<TaskLinkView> {
    match v {
        JsonView::Obj(m) => {
            if spec_req_str_field(m, "type"@) is None || spec_req_str_field(m, "description"@)
                is None || spec_req_str_field(m, "link"@) is None {
                None
            } else {
                Some(
                    TaskLinkView {
                        task_type: spec_req_str_field(m, "type"@).unwrap(),
                        description: spec_req_str_field(m, "description"@).unwrap(),
                        link: spec_req_str_field(m, "link"@).unwrap(),
                    },
                )
            }
        },
        _ => None,
    }
}

impl TaskLink {
    /// Renders this link as its JSON object.
    pub fn to_json(&self) -> (j: Json)
        ensures
            j@ == spec_tasklink_to_json(self@),
    {
        let mut members: Vec<JsonMember> = Vec::new();
        push_str_member(&mut members, "type", &self.task_type);
        push_str_member(&mut members, "description", &self.description);
        push_str_member(&mut members, "link", &self.link);
        proof {
            assert(obj_view(members@) =~= spec_tasklink_members(self@));
        }
        Json::Obj(members)
    }

    /// Decodes a link from a JSON value, as [`spec_tasklink_of_json`]
    /// says.
    pub fn from_json(j: &Json) -> (r: Option<TaskLink>)
        ensures
            (match r {
                Some(l) => Some(l@),
                None => None,
            }) == spec_tasklink_of_json(j@),
    {
        match j {
            Json::Obj(members) => {
                let task_type = match req_str_field(members, "type") {
                    Some(v) => v,
                    None => {
                        return None;
                    },
                };
                let description = match req_str_field(members, "description") {
                    Some(v) => v,
                    None => {
                        return None;
                    },
                };
                let link = match req_str_field(members, "link") {
                    Some(v) => v,
                    None => {
                        return None;
                    },
                };
                Some(TaskLink { task_type, description, link })
            },
            _ => None,
        }
    }
}

/// Mathematical form of a [`Task`].
pub struct TaskView {
    pub kind: Option<Seq<char>>,
    pub id: Option<Seq<char>>,
    pub etag: Option<Seq<char>>,
    pub title: Option<Seq<char>>,
    pub updated: Option<Seq<char>>,
    pub self_link: Option<Seq<char>>,
    pub parent: Option<Seq<char>>,
    pub position: Option<Seq<char>>,
    pub notes: Option<Seq<char>>,
    pub status: Option<TaskStatus>,
    pub due: Option<Seq<char>>,
    pub completed: Option<Seq<char>>,
    pub deleted: Option<bool>,
    pub hidden: Option<bool>,
    pub links: Option<Seq<TaskLinkView>>,
}

/// One task. Every field is optional on the wire; timestamps are carried
/// as their RFC 3339 text.
#[derive(Debug, Clone)]
pub struct Task {
    /// Type of the resource. This is always "tasks#task".
    pub kind: Option<String>,
    /// Task identifier.
    pub id: Option<String>,
    /// ETag of the resource.
    pub etag: Option<String>,
    /// Title of the task.
    pub title: Option<String>,
    /// Last modification time of the task (an RFC 3339 timestamp).
    /// Server-assigned; cleared from the body of an update.
    pub updated: Option<String>,
    /// URL used to retrieve, update, or delete the task.
    pub self_link: Option<String>,
    /// Parent task identifier; omitted for a top-level task. Read-only.
    pub parent: Option<String>,
    /// Position of the task among its siblings. Read-only.
    pub position: Option<String>,
    /// Notes describing the task.
    pub notes: Option<String>,
    /// Status of the task.
    pub status: Option<TaskStatus>,
    /// Due date of the task (an RFC 3339 timestamp); only the date part is
    /// meaningful to the remote.
    pub due: Option<String>,
    /// Completion date of the task (an RFC 3339 timestamp); omitted while
    /// the task is not completed.
    pub completed: Option<String>,
    /// Whether the task has been deleted. The default is false.
    pub deleted: Option<bool>,
    /// Whether the task is hidden. Read-only.
    pub hidden: Option<bool>,
    /// Collection of links. Read-only.
    pub links: Option<Vec<TaskLink>>,
}

impl View for Task {
    type V = TaskView;

    open spec fn view(&self) -> TaskView {
        TaskView {
            kind: self.kind.deep_view(),
            id: self.id.deep_view(),
            etag: self.etag.deep_view(),
            title: self.title.deep_view(),
            updated: self.updated.deep_view(),
            self_link: self.self_link.deep_view(),
            parent: self.parent.deep_view(),
            position: self.position.deep_view(),
            notes: self.notes.deep_view(),
            status: self.status,
            due: self.due.deep_view(),
            completed: self.completed.deep_view(),
            deleted: self.deleted,
            hidden: self.hidden,
            links: self.links.deep_view(),
        }
    }
}

impl DeepView for Task {
    type V = TaskView;

    open spec fn deep_view(&self) -> TaskView {
        self.view()
    }
}

/// The task with every field absent.
pub open spec fn spec_empty_task() -> TaskView {
    TaskView {
        kind: None,
        id: None,
        etag: None,
        title: None,
        updated: None,
        self_link: None,
        parent: None,
        position: None,
        notes: None,
        status: None,
        due: None,
        completed: None,
        deleted: None,
        hidden: None,
        links: None,
    }
}

impl Default for Task {
    /// A task with every field absent.
    fn default() -> (r: Task)
        ensures
            r@ == spec_empty_task(),
    {
        Task {
            kind: None,
            id: None,
            etag: None,
            title: None,
            updated: None,
            self_link: None,
            parent: None,
            position: None,
            notes: None,
            status: None,
            due: None,
            completed: None,
            deleted: None,
            hidden: None,
            links: None,
        }
    }
}

/// The member-list contribution of the optional status field.
pub open spec fn spec_opt_status_member(key: Seq<char>, value: Option<TaskStatus>) -> Seq<
    (Seq<char>, JsonView),
> {
    match value {
        Some(s) => seq![(key, JsonView::Str(spec_status_text(s)))],
        None => Seq::empty(),
    }
}

/// Appends the status field's member, if any.
fn push_opt_status_member(members: &mut Vec<JsonMember>, key: &str, value: &Option<TaskStatus>)
    ensures
        obj_view(final(members)@) == obj_view(old(members)@) + spec_opt_status_member(
            key@,
            *value,
        ),
{
    let ghost before = members@;
    match value {
        Some(s) => {
            let text = match s {
                TaskStatus::NeedsAction => String::from_str("needsAction"),
                TaskStatus::Completed => String::from_str("completed"),
            };
            members.push(JsonMember { key: String::from_str(key), value: Json::Str(text) });
            proof {
                let m = members@.last();
                assert(members@.drop_last() =~= before);
                assert(obj_view(members@) == obj_view(members@.drop_last()).push(
                    (m.key@, json_view(m.value)),
                ));
                assert(json_view(m.value) == JsonView::Str(spec_status_text(*s)));
                assert(obj_view(members@) =~= obj_view(before) + seq![
                    (key@, JsonView::Str(spec_status_text(*s))),
                ]);
            }
        },
        None => {
            assert(obj_view(members@) =~= obj_view(before) + Seq::<(Seq<char>, JsonView)>::empty());
        },
    }
}

/// Each link rendered as its JSON object, in order.
pub open spec fn spec_links_json(links: Seq<TaskLinkView>) -> Seq<JsonView>
    decreases links.len(),
{
    if links.len() == 0 {
        Seq::empty()
    } else {
        spec_links_json(links.drop_last()).push(spec_tasklink_to_json(links.last()))
    }
}

/// The member-list contribution of the optional links field.
pub open spec fn spec_opt_links_member(key: Seq<char>, value: Option<Seq<TaskLinkView>>) -> Seq<
    (Seq<char>, JsonView),
> {
    match value {
        Some(ls) => seq![(key, JsonView::Arr(spec_links_json(ls)))],
        None => Seq::empty(),
    }
}

/// Appends the links field's member, if any.
fn push_opt_links_member(members: &mut Vec<JsonMember>, key: &str, value: &Option<Vec<TaskLink>>)
    ensures
        obj_view(final(members)@) == obj_view(old(members)@) + spec_opt_links_member(
            key@,
            value.deep_view(),
        ),
{
    let ghost before = members@;
    match value {
        Some(ls) => {
            let mut rendered: Vec<Json> = Vec::new();
            let mut i: usize = 0;
            while i < ls.len()
                invariant
                    i <= ls.len(),
                    arr_view(rendered@) == spec_links_json(ls.deep_view().take(i as int)),
                decreases ls.len() - i,
            {
                let ghost prev = rendered@;
                rendered.push(ls[i].to_json());
                proof {
                    assert(rendered@.drop_last() =~= prev);
                    assert(arr_view(rendered@) == arr_view(rendered@.drop_last()).push(
                        json_view(rendered@.last()),
                    ));
                    assert(json_view(rendered@.last()) == spec_tasklink_to_json(
                        ls.deep_view()[i as int],
                    ));
                    assert(ls.deep_view().take(i as int + 1).drop_last() =~= ls.deep_view().take(
                        i as int,
                    ));
                    assert(ls.deep_view().take(i as int + 1).last() == ls.deep_view()[i as int]);
                    assert(arr_view(rendered@) == spec_links_json(
                        ls.deep_view().take(i as int + 1),
                    ));
                }
                i += 1;
            }
            assert(ls.deep_view().take(ls.len() as int) =~= ls.deep_view());
            members.push(
                JsonMember { key: String::from_str(key), value: Json::Arr(rendered) },
            );
            proof {
                let m = members@.last();
                assert(members@.drop_last() =~= before);
                assert(obj_view(members@) == obj_view(members@.drop_last()).push(
                    (m.key@, json_view(m.value)),
                ));
                assert(json_view(m.value) == JsonView::Arr(spec_links_json(ls.deep_view())));
                assert(obj_view(members@) =~= obj_view(before) + seq![
                    (key@, JsonView::Arr(spec_links_json(ls.deep_view()))),
                ]);
            }
        },
        None => {
            assert(obj_view(members@) =~= obj_view(before) + Seq::<(Seq<char>, JsonView)>::empty());
        },
    }
}

/// The members of a task's JSON object: each present field, in the
/// declared order, under its wire name.
pub open spec fn spec_task_members(t: TaskView) -> Seq<(Seq<char>, JsonView)> {
    spec_opt_str_member("kind"@, t.kind) + spec_opt_str_member("id"@, t.id) + spec_opt_str_member(
        "etag"@,
        t.etag,
    ) + spec_opt_str_member("title"@, t.title) + spec_opt_str_member("updated"@, t.updated)
        + spec_opt_str_member("selfLink"@, t.self_link) + spec_opt_str_member("parent"@, t.parent)
        + spec_opt_str_member("position"@, t.position) + spec_opt_str_member("notes"@, t.notes)
        + spec_opt_status_member("status"@, t.status) + spec_opt_str_member("due"@, t.due)
        + spec_opt_str_member("completed"@, t.completed) + spec_opt_bool_member(
        "deleted"@,
        t.deleted,
    ) + spec_opt_bool_member("hidden"@, t.hidden) + spec_opt_links_member("links"@, t.links)
}

/// A task as its JSON object.
pub open spec fn spec_task_to_json(t: TaskView) -> JsonView {
    JsonView::Obj(spec_task_members(t))
}

impl Task {
    /// Renders the task as a JSON object: present fields only, in the
    /// declared order.
    pub fn to_json(&self) -> (j: Json)
        ensures
            j@ == spec_task_to_json(self@),
    {
        let mut members: Vec<JsonMember> = Vec::new();
        push_opt_str_member(&mut members, "kind", &self.kind);
        push_opt_str_member(&mut members, "id", &self.id);
        push_opt_str_member(&mut members, "etag", &self.etag);
        push_opt_str_member(&mut members, "title", &self.title);
        push_opt_str_member(&mut members, "updated", &self.updated);
        push_opt_str_member(&mut members, "selfLink", &self.self_link);
        push_opt_str_member(&mut members, "parent", &self.parent);
        push_opt_str_member(&mut members, "position", &self.position);
        push_opt_str_member(&mut members, "notes", &self.notes);
        push_opt_status_member(&mut members, "status", &self.status);
        push_opt_str_member(&mut members, "due", &self.due);
        push_opt_str_member(&mut members, "completed", &self.completed);
        push_opt_bool_member(&mut members, "deleted", &self.deleted);
        push_opt_bool_member(&mut members, "hidden", &self.hidden);
        push_opt_links_member(&mut members, "links", &self.links);
        proof {
            assert(obj_view(members@) =~= spec_task_members(self@));
        }
        Json::Obj(members)
    }
}

/// Reads the optional status member: absent or null is "not present"; a
/// string must be one of the two wire texts; anything else is a shape
/// error.
pub open spec fn spec_opt_status_field(
    m: Seq<(Seq<char>, JsonView)>,
    key: Seq<char>,
) -> Option<Option<TaskStatus>> {
    match spec_obj_get(m, key) {
        None => Some(None),
        Some(JsonView::Null) => Some(None),
        Some(JsonView::Str(s)) => if s == "needsAction"@ {
            Some(Some(TaskStatus::NeedsAction))
        } else if s == "completed"@ {
            Some(Some(TaskStatus::Completed))
        } else {
            None
        },
        Some(_) => None,
    }
}

/// Reads the optional status member, as [`spec_opt_status_field`] says.
fn opt_status_field(members: &Vec<JsonMember>, key: &str) -> (r: Option<Option<TaskStatus>>)
    ensures
        (match r {
            Some(v) => Some(v),
            None => None,
        }) == spec_opt_status_field(obj_view(members@), key@),
{
    match obj_get(members, key) {
        None => Some(None),
        Some(j) => match j {
            Json::Null => Some(None),
            Json::Str(s) => {
                if str_eq(s.as_str(), "needsAction") {
                    Some(Some(TaskStatus::NeedsAction))
                } else if str_eq(s.as_str(), "completed") {
                    Some(Some(TaskStatus::Completed))
                } else {
                    None
                }
            },
            _ => None,
        },
    }
}

/// Each element decoded as a link, or `None` where one fails.
pub open spec fn spec_links_of_json(items: Seq<JsonView>) -> Option<Seq<TaskLinkView>>
    decreases items.len(),
{
    if items.len() == 0 {
        Some(Seq::empty())
    } else {
        match (spec_links_of_json(items.drop_last()), spec_tasklink_of_json(items.last())) {
            (Some(rest), Some(l)) => Some(rest.push(l)),
            _ => None,
        }
    }
}

/// Once a prefix of the links fails to decode, the whole list fails.
proof fn lemma_links_prefix_failure(items: Seq<JsonView>, k: int)
    requires
        0 <= k <= items.len(),
        spec_links_of_json(items.take(k)) is None,
    ensures
        spec_links_of_json(items) is None,
    decreases items.len() - k,
{
    if k < items.len() {
        assert(items.take(k + 1).drop_last() =~= items.take(k));
        lemma_links_prefix_failure(items, k + 1);
    } else {
        assert(items.take(k) =~= items);
    }
}

/// Reads the optional links member: absent or null is "not present"; an
/// array must decode link by link; anything else is a shape error.
pub open spec fn spec_opt_links_field(
    m: Seq<(Seq<char>, JsonView)>,
    key: Seq<char>,
) -> Option<Option<Seq<TaskLinkView>>> {
    match spec_obj_get(m, key) {
        None => Some(None),
        Some(JsonView::Null) => Some(None),
        Some(JsonView::Arr(items)) => match spec_links_of_json(items) {
            Some(ls) => Some(Some(ls)),
            None => None,
        },
        Some(_) => None,
    }
}

/// Decodes an array of links.
fn decode_links(items: &Vec<Json>) -> (r: Option<Vec<TaskLink>>)
    ensures
        (match r {
            Some(ls) => Some(ls.deep_view()),
            None => None,
        }) == spec_links_of_json(arr_view(items@)),
{
    let ghost vitems = arr_view(items@);
    proof {
        lemma_arr_view(items@);
    }
    let mut out: Vec<TaskLink> = Vec::new();
    let mut i: usize = 0;
    while i < items.len()
        invariant
            vitems == arr_view(items@),
            vitems.len() == items@.len(),
            forall|k: int| 0 <= k < items@.len() ==> vitems[k] == json_view(#[trigger] items@[k]),
            i <= items.len(),
            spec_links_of_json(vitems.take(i as int)) == Some(out.deep_view()),
        decreases items.len() - i,
    {
        let ghost before = out.deep_view();
        match TaskLink::from_json(&items[i]) {
            Some(l) => {
                out.push(l);
                proof {
                    assert(vitems.take(i as int + 1).drop_last() =~= vitems.take(i as int));
                    assert(vitems.take(i as int + 1).last() == vitems[i as int]);
                    assert(out.deep_view() =~= before.push(out@.last()@));
                }
            },
            None => {
                proof {
                    assert(vitems.take(i as int + 1).drop_last() =~= vitems.take(i as int));
                    assert(vitems.take(i as int + 1).last() == vitems[i as int]);
                    assert(spec_links_of_json(vitems.take(i as int + 1)) is None);
                    lemma_links_prefix_failure(vitems, i as int + 1);
                }
                return None;
            },
        }
        i += 1;
    }
    assert(vitems.take(items.len() as int) =~= vitems);
    Some(out)
}

/// Reads the optional links member, as [`spec_opt_links_field`] says.
fn opt_links_field(members: &Vec<JsonMember>, key: &str) -> (r: Option<Option<Vec<TaskLink>>>)
    ensures
        (match r {
            Some(v) => Some(v.deep_view()),
            None => None,
        }) == spec_opt_links_field(obj_view(members@), key@),
{
    match obj_get(members, key) {
        None => Some(None),
        Some(j) => match j {
            Json::Null => Some(None),
            Json::Arr(items) => match decode_links(items) {
                Some(ls) => Some(Some(ls)),
                None => None,
            },
            _ => None,
        },
    }
}

/// What a JSON value decodes to as a task: its object members read field
/// by field, unknown members ignored; `None` is a shape error.
pub open spec fn spec_task_of_json(v: JsonView) -> Option<TaskView> {
    match v {
        JsonView::Obj(m) => {
            if spec_opt_str_field(m, "kind"@) is None || spec_opt_str_field(m, "id"@) is None
                || spec_opt_str_field(m, "etag"@) is None || spec_opt_str_field(m, "title"@)
                is None || spec_opt_str_field(m, "updated"@) is None || spec_opt_str_field(
                m,
                "selfLink"@,
            ) is None || spec_opt_str_field(m, "parent"@) is None || spec_opt_str_field(
                m,
                "position"@,
            ) is None || spec_opt_str_field(m, "notes"@) is None || spec_opt_status_field(
                m,
                "status"@,
            ) is None || spec_opt_str_field(m, "due"@) is None || spec_opt_str_field(
                m,
                "completed"@,
            ) is None || spec_opt_bool_field(m, "deleted"@) is None || spec_opt_bool_field(
                m,
                "hidden"@,
            ) is None || spec_opt_links_field(m, "links"@) is None {
                None
            } else {
                Some(
                    TaskView {
                        kind: spec_opt_str_field(m, "kind"@).unwrap(),
                        id: spec_opt_str_field(m, "id"@).unwrap(),
                        etag: spec_opt_str_field(m, "etag"@).unwrap(),
                        title: spec_opt_str_field(m, "title"@).unwrap(),
                        updated: spec_opt_str_field(m, "updated"@).unwrap(),
                        self_link: spec_opt_str_field(m, "selfLink"@).unwrap(),
                        parent: spec_opt_str_field(m, "parent"@).unwrap(),
                        position: spec_opt_str_field(m, "position"@).unwrap(),
                        notes: spec_opt_str_field(m, "notes"@).unwrap(),
                        status: spec_opt_status_field(m, "status"@).unwrap(),
                        due: spec_opt_str_field(m, "due"@).unwrap(),
                        completed: spec_opt_str_field(m, "completed"@).unwrap(),
                        deleted: spec_opt_bool_field(m, "deleted"@).unwrap(),
                        hidden: spec_opt_bool_field(m, "hidden"@).unwrap(),
                        links: spec_opt_links_field(m, "links"@).unwrap(),
                    },
                )
            }
        },
        _ => None,
    }
}

impl Task {
    /// Decodes a task from a JSON value, as [`spec_task_of_json`] says.
    pub fn from_json(j: &Json) -> (r: Option<Task>)
        ensures
            (match r {
                Some(t) => Some(t@),
                None => None,
            }) == spec_task_of_json(j@),
    {
        match j {
            Json::Obj(members) => {
                let kind = match opt_str_field(members, "kind") {
                    Some(v) => v,
                    None => {
                        return None;
                    },
                };
                let id = match opt_str_field(members, "id") {
                    Some(v) => v,
                    None => {
                        return None;
                    },
                };
                let etag = match opt_str_field(members, "etag") {
                    Some(v) => v,
                    None => {
                        return None;
                    },
                };
                let title = match opt_str_field(members, "title") {
                    Some(v) => v,
                    None => {
                        return None;
                    },
                };
                let updated = match opt_str_field(members, "updated") {
                    Some(v) => v,
                    None => {
                        return None;
                    },
                };
                let self_link = match opt_str_field(members, "selfLink") {
                    Some(v) => v,
                    None => {
                        return None;
                    },
                };
                let parent = match opt_str_field(members, "parent") {
                    Some(v) => v,
                    None => {
                        return None;
                    },
                };
                let position = match opt_str_field(members, "position") {
                    Some(v) => v,
                    None => {
                        return None;
                    },
                };
                let notes = match opt_str_field(members, "notes") {
                    Some(v) => v,
                    None => {
                        return None;
                    },
                };
                let status = match opt_status_field(members, "status") {
                    Some(v) => v,
                    None => {
                        return None;
                    },
                };
                let due = match opt_str_field(members, "due") {
                    Some(v) => v,
                    None => {
                        return None;
                    },
                };
                let completed = match opt_str_field(members, "completed") {
                    Some(v) => v,
                    None => {
                        return None;
                    },
                };
                let deleted = match opt_bool_field(members, "deleted") {
                    Some(v) => v,
                    None => {
                        return None;
                    },
                };
                let hidden = match opt_bool_field(members, "hidden") {
                    Some(v) => v,
                    None => {
                        return None;
                    },
                };
                let links = match opt_links_field(members, "links") {
                    Some(v) => v,
                    None => {
                        return None;
                    },
                };
                Some(
                    Task {
                        kind,
                        id,
                        etag,
                        title,
                        updated,
                        self_link,
                        parent,
                        position,
                        notes,
                        status,
                        due,
                        completed,
                        deleted,
                        hidden,
                        links,
                    },
                )
            },
            _ => None,
        }
    }
}

/// Mathematical form of a [`Tasks`] page.
pub struct TasksView {
    pub kind: Seq<char>,
    pub etag: Seq<char>,
    pub next_page_token: Option<Seq<char>>,
    pub items: Option<Seq<TaskView>>,
}

/// One page of the tasks in a task list.
#[derive(Debug, Clone)]
pub struct Tasks {
    /// Type of the resource. This is always "tasks#tasks".
    pub kind: String,
    /// ETag of the resource.
    pub etag: String,
    /// Token used to access the next page of this result.
    pub next_page_token: Option<String>,
    /// Collection of tasks.
    pub items: Option<Vec<Task>>,
}

impl View for Tasks {
    type V = TasksView;

    open spec fn view(&self) -> TasksView {
        TasksView {
            kind: self.kind@,
            etag: self.etag@,
            next_page_token: self.next_page_token.deep_view(),
            items: self.items.deep_view(),
        }
    }
}

/// Each element decoded as a task, or `None` where one fails.
pub open spec fn spec_task_items(items: Seq<JsonView>) -> Option<Seq<TaskView>>
    decreases items.len(),
{
    if items.len() == 0 {
        Some(Seq::empty())
    } else {
        match (spec_task_items(items.drop_last()), spec_task_of_json(items.last())) {
            (Some(rest), Some(t)) => Some(rest.push(t)),
            _ => None,
        }
    }
}

/// Once a prefix of the items fails to decode, the whole list fails.
proof fn lemma_task_items_prefix_failure(items: Seq<JsonView>, k: int)
    requires
        0 <= k <= items.len(),
        spec_task_items(items.take(k)) is None,
    ensures
        spec_task_items(items) is None,
    decreases items.len() - k,
{
    if k < items.len() {
        assert(items.take(k + 1).drop_last() =~= items.take(k));
        lemma_task_items_prefix_failure(items, k + 1);
    } else {
        assert(items.take(k) =~= items);
    }
}

/// Decodes the `items` array of a page.
fn decode_task_items(items: &Vec<Json>) -> (r: Option<Vec<Task>>)
    ensures
        (match r {
            Some(ts) => Some(ts.deep_view()),
            None => None,
        }) == spec_task_items(arr_view(items@)),
{
    let ghost vitems = arr_view(items@);
    proof {
        lemma_arr_view(items@);
    }
    let mut out: Vec<Task> = Vec::new();
    let mut i: usize = 0;
    while i < items.len()
        invariant
            vitems == arr_view(items@),
            vitems.len() == items@.len(),
            forall|k: int| 0 <= k < items@.len() ==> vitems[k] == json_view(#[trigger] items@[k]),
            i <= items.len(),
            spec_task_items(vitems.take(i as int)) == Some(out.deep_view()),
        decreases items.len() - i,
    {
        let ghost before = out.deep_view();
        match Task::from_json(&items[i]) {
            Some(t) => {
                out.push(t);
                proof {
                    assert(vitems.take(i as int + 1).drop_last() =~= vitems.take(i as int));
                    assert(vitems.take(i as int + 1).last() == vitems[i as int]);
                    assert(out.deep_view() =~= before.push(out@.last()@));
                }
            },
            None => {
                proof {
                    assert(vitems.take(i as int + 1).drop_last() =~= vitems.take(i as int));
                    assert(vitems.take(i as int + 1).last() == vitems[i as int]);
                    assert(spec_task_items(vitems.take(i as int + 1)) is None);
                    lemma_task_items_prefix_failure(vitems, i as int + 1);
                }
                return None;
            },
        }
        i += 1;
    }
    assert(vitems.take(items.len() as int) =~= vitems);
    Some(out)
}

/// What a JSON value decodes to as a page of tasks: `kind` and `etag` are
/// required; `items` is optional, and when present every item must
/// decode.
pub open spec fn spec_tasks_of_json(v: JsonView) -> Option<TasksView> {
    match v {
        JsonView::Obj(m) => {
            if spec_req_str_field(m, "kind"@) is None || spec_req_str_field(m, "etag"@) is None
                || spec_opt_str_field(m, "nextPageToken"@) is None {
                None
            } else {
                match spec_obj_get(m, "items"@) {
                    None => Some(
                        TasksView {
                            kind: spec_req_str_field(m, "kind"@).unwrap(),
                            etag: spec_req_str_field(m, "etag"@).unwrap(),
                            next_page_token: spec_opt_str_field(m, "nextPageToken"@).unwrap(),
                            items: None,
                        },
                    ),
                    Some(JsonView::Null) => Some(
                        TasksView {
                            kind: spec_req_str_field(m, "kind"@).unwrap(),
                            etag: spec_req_str_field(m, "etag"@).unwrap(),
                            next_page_token: spec_opt_str_field(m, "nextPageToken"@).unwrap(),
                            items: None,
                        },
                    ),
                    Some(JsonView::Arr(raw)) => match spec_task_items(raw) {
                        Some(decoded) => Some(
                            TasksView {
                                kind: spec_req_str_field(m, "kind"@).unwrap(),
                                etag: spec_req_str_field(m, "etag"@).unwrap(),
                                next_page_token: spec_opt_str_field(m, "nextPageToken"@).unwrap(),
                                items: Some(decoded),
                            },
                        ),
                        None => None,
                    },
                    Some(_) => None,
                }
            }
        },
        _ => None,
    }
}

impl Tasks {
    /// Decodes a page of tasks from a JSON value, as
    /// [`spec_tasks_of_json`] says.
    pub fn from_json(j: &Json) -> (r: Option<Tasks>)
        ensures
            (match r {
                Some(t) => Some(t@),
                None => None,
            }) == spec_tasks_of_json(j@),
    {
        match j {
            Json::Obj(members) => {
                let kind = match req_str_field(members, "kind") {
                    Some(v) => v,
                    None => {
                        return None;
                    },
                };
                let etag = match req_str_field(members, "etag") {
                    Some(v) => v,
                    None => {
                        return None;
                    },
                };
                let next_page_token = match opt_str_field(members, "nextPageToken") {
                    Some(v) => v,
                    None => {
                        return None;
                    },
                };
                match obj_get(members, "items") {
                    None => Some(Tasks { kind, etag, next_page_token, items: None }),
                    Some(j_items) => match j_items {
                        Json::Null => Some(Tasks { kind, etag, next_page_token, items: None }),
                        Json::Arr(raw) => match decode_task_items(raw) {
                            Some(items) => Some(
                                Tasks { kind, etag, next_page_token, items: Some(items) },
                            ),
                            None => None,
                        },
                        _ => None,
                    },
                }
            },
            _ => None,
        }
    }
}

/// Mathematical form of [`ListOptions`].
pub struct ListOptionsView {
    pub completed_max: Option<Seq<char>>,
    pub completed_min: Option<Seq<char>>,
    pub due_max: Option<Seq<char>>,
    pub due_min: Option<Seq<char>>,
    pub max_results: Option<u64>,
    pub page_token: Option<Seq<char>>,
    pub show_completed: Option<bool>,
    pub show_deleted: Option<bool>,
    pub show_hidden: Option<bool>,
    pub updated_min: Option<Seq<char>>,
}

/// Optional configuration of a list-tasks call. Timestamps are RFC 3339
/// text.
#[derive(Debug, Clone)]
pub struct ListOptions {
    /// Upper bound for a task's completion date to filter by. Optional.
    pub completed_max: Option<String>,
    /// Lower bound for a task's completion date to filter by. Optional.
    pub completed_min: Option<String>,
    /// Upper bound for a task's due date to filter by. Optional.
    pub due_max: Option<String>,
    /// Lower bound for a task's due date to filter by. Optional.
    pub due_min: Option<String>,
    /// Maximum number of tasks returned on one page.
    /// Optional. The default is 20 (max allowed: 100).
    pub max_results: Option<u64>,
    /// Token specifying the result page to return. Optional.
    pub page_token: Option<String>,
    /// Whether completed tasks are returned. Optional; the default is
    /// true.
    pub show_completed: Option<bool>,
    /// Whether deleted tasks are returned. Optional; the default is false.
    pub show_deleted: Option<bool>,
    /// Whether hidden tasks are returned. Optional; the default is false.
    pub show_hidden: Option<bool>,
    /// Lower bound for a task's last modification time to filter by.
    /// Optional.
    pub updated_min: Option<String>,
}

impl View for ListOptions {
    type V = ListOptionsView;

    open spec fn view(&self) -> ListOptionsView {
        ListOptionsView {
            completed_max: self.completed_max.deep_view(),
            completed_min: self.completed_min.deep_view(),
            due_max: self.due_max.deep_view(),
            due_min: self.due_min.deep_view(),
            max_results: self.max_results,
            page_token: self.page_token.deep_view(),
            show_completed: self.show_completed,
            show_deleted: self.show_deleted,
            show_hidden: self.show_hidden,
            updated_min: self.updated_min.deep_view(),
        }
    }
}

/// Options with nothing set.
pub open spec fn spec_empty_task_options() -> ListOptionsView {
    ListOptionsView {
        completed_max: None,
        completed_min: None,
        due_max: None,
        due_min: None,
        max_results: None,
        page_token: None,
        show_completed: None,
        show_deleted: None,
        show_hidden: None,
        updated_min: None,
    }
}

impl Default for ListOptions {
    /// Options with nothing set.
    fn default() -> (r: ListOptions)
        ensures
            r@ == spec_empty_task_options(),
    {
        ListOptions {
            completed_max: None,
            completed_min: None,
            due_max: None,
            due_min: None,
            max_results: None,
            page_token: None,
            show_completed: None,
            show_deleted: None,
            show_hidden: None,
            updated_min: None,
        }
    }
}

/// The query pairs of a list-tasks call, under their wire names.
pub open spec fn spec_tasks_query(o: ListOptionsView) -> Seq<(Seq<char>, Seq<char>)> {
    spec_opt_str_param("completedMax"@, o.completed_max) + spec_opt_str_param(
        "completedMin"@,
        o.completed_min,
    ) + spec_opt_str_param("dueMax"@, o.due_max) + spec_opt_str_param("dueMin"@, o.due_min)
        + spec_opt_u64_param("maxResults"@, o.max_results) + spec_opt_str_param(
        "pageToken"@,
        o.page_token,
    ) + spec_opt_bool_param("showCompleted"@, o.show_completed) + spec_opt_bool_param(
        "showDeleted"@,
        o.show_deleted,
    ) + spec_opt_bool_param("showHidden"@, o.show_hidden) + spec_opt_str_param(
        "updatedMin"@,
        o.updated_min,
    )
}

impl ListOptions {
    /// Renders these options as query pairs.
    pub fn query_pairs(&self) -> (q: Vec<(String, String)>)
        ensures
            q.deep_view() == spec_tasks_query(self@),
    {
        let mut q: Vec<(String, String)> = Vec::new();
        push_opt_str_param(&mut q, "completedMax", &self.completed_max);
        push_opt_str_param(&mut q, "completedMin", &self.completed_min);
        push_opt_str_param(&mut q, "dueMax", &self.due_max);
        push_opt_str_param(&mut q, "dueMin", &self.due_min);
        push_opt_u64_param(&mut q, "maxResults", &self.max_results);
        push_opt_str_param(&mut q, "pageToken", &self.page_token);
        push_opt_bool_param(&mut q, "showCompleted", &self.show_completed);
        push_opt_bool_param(&mut q, "showDeleted", &self.show_deleted);
        push_opt_bool_param(&mut q, "showHidden", &self.show_hidden);
        push_opt_str_param(&mut q, "updatedMin", &self.updated_min);
        proof {
            assert(q.deep_view() =~= spec_tasks_query(self@));
        }
        q
    }
}

/// Mathematical form of [`InsertOptions`].
pub struct InsertOptionsView {
    pub parent: Option<Seq<char>>,
    pub previous: Option<Seq<char>>,
}

/// Optional placement of a created or moved task.
#[derive(Debug, Clone)]
pub struct InsertOptions {
    /// Parent task identifier. Omitted for a top-level task. Optional.
    pub parent: Option<String>,
    /// Previous sibling task identifier. Omitted for the first position
    /// among its siblings. Optional.
    pub previous: Option<String>,
}

impl View for InsertOptions {
    type V = InsertOptionsView;

    open spec fn view(&self) -> InsertOptionsView {
        InsertOptionsView {
            parent: self.parent.deep_view(),
            previous: self.previous.deep_view(),
        }
    }
}

impl Default for InsertOptions {
    /// Options with nothing set.
    fn default() -> (r: InsertOptions)
        ensures
            r@ == (InsertOptionsView { parent: None, previous: None }),
    {
        InsertOptions { parent: None, previous: None }
    }
}

/// The query pairs of a placement, under their wire names.
pub open spec fn spec_insert_query(o: InsertOptionsView) -> Seq<(Seq<char>, Seq<char>)> {
    spec_opt_str_param("parent"@, o.parent) + spec_opt_str_param("previous"@, o.previous)
}

impl InsertOptions {
    /// Renders this placement as query pairs.
    pub fn query_pairs(&self) -> (q: Vec<(String, String)>)
        ensures
            q.deep_view() == spec_insert_query(self@),
    {
        let mut q: Vec<(String, String)> = Vec::new();
        push_opt_str_param(&mut q, "parent", &self.parent);
        push_opt_str_param(&mut q, "previous", &self.previous);
        proof {
            assert(q.deep_view() =~= spec_insert_query(self@));
        }
        q
    }
}

/// The URL of a task list's task collection.
pub open spec fn spec_tasks_url(tasklist_id: Seq<char>) -> Seq<char> {
    base_url() + "/lists/"@ + tasklist_id + "/tasks"@
}

/// The URL of one task.
pub open spec fn spec_task_url(tasklist_id: Seq<char>, task_id: Seq<char>) -> Seq<char> {
    spec_tasks_url(tasklist_id) + "/"@ + task_id
}

/// The URL that clears a task list's completed tasks.
pub open spec fn spec_clear_url(tasklist_id: Seq<char>) -> Seq<char> {
    base_url() + "/lists/"@ + tasklist_id + "/clear"@
}

/// The URL that moves one task.
pub open spec fn spec_move_url(tasklist_id: Seq<char>, task_id: Seq<char>) -> Seq<char> {
    spec_task_url(tasklist_id, task_id) + "/move"@
}

/// Builds the URL of a task list's task collection.
pub fn tasks_url(tasklist_id: &str) -> (r: String)
    ensures
        r@ == spec_tasks_url(tasklist_id@),
{
    base_url_string().concat("/lists/").concat(tasklist_id).concat("/tasks")
}

/// Builds the URL of one task.
pub fn task_url(tasklist_id: &str, task_id: &str) -> (r: String)
    ensures
        r@ == spec_task_url(tasklist_id@, task_id@),
{
    tasks_url(tasklist_id).concat("/").concat(task_id)
}

/// Builds the URL that clears a task list's completed tasks.
pub fn clear_url(tasklist_id: &str) -> (r: String)
    ensures
        r@ == spec_clear_url(tasklist_id@),
{
    base_url_string().concat("/lists/").concat(tasklist_id).concat("/clear")
}

/// Builds the URL that moves one task.
pub fn move_url(tasklist_id: &str, task_id: &str) -> (r: String)
    ensures
        r@ == spec_move_url(tasklist_id@, task_id@),
{
    task_url(tasklist_id, task_id).concat("/move")
}

/// The conditional-read header: `If-None-Match` with the caller's
/// previously observed ETag, when one was given.
pub open spec fn spec_etag_headers(etag: Option<Seq<char>>) -> Seq<(Seq<char>, Seq<char>)> {
    match etag {
        Some(e) => seq![("If-None-Match"@, e)],
        None => Seq::empty(),
    }
}

/// Builds the conditional-read header list.
fn etag_headers(etag: &Option<String>) -> (h: Vec<(String, String)>)
    ensures
        h.deep_view() == spec_etag_headers(etag.deep_view()),
{
    let mut h: Vec<(String, String)> = Vec::new();
    match etag {
        Some(e) => {
            h.push((String::from_str("If-None-Match"), e.clone()));
            assert(h.deep_view() =~= spec_etag_headers(etag.deep_view()));
        },
        None => {
            assert(h.deep_view() =~= spec_etag_headers(etag.deep_view()));
        },
    }
    h
}

/// The explicit zero-length-body header attached to posts that carry no
/// payload, so the transport does not have to guess.
pub open spec fn spec_zero_length_headers() -> Seq<(Seq<char>, Seq<char>)> {
    seq![("Content-Length"@, "0"@)]
}

/// Builds the zero-length-body header list.
fn zero_length_headers() -> (h: Vec<(String, String)>)
    ensures
        h.deep_view() == spec_zero_length_headers(),
{
    let mut h: Vec<(String, String)> = Vec::new();
    h.push((String::from_str("Content-Length"), String::from_str("0")));
    assert(h.deep_view() =~= spec_zero_length_headers());
    h
}

/// The request of a list-tasks call: a read of the collection with the
/// options' query pairs, conditional when an ETag is given.
pub open spec fn spec_list_tasks_request(
    tasklist_id: Seq<char>,
    opt: Option<ListOptionsView>,
    etag: Option<Seq<char>>,
) -> HttpRequestView {
    HttpRequestView {
        method: Method::Get,
        url: spec_tasks_url(tasklist_id),
        query: match opt {
            Some(o) => spec_tasks_query(o),
            None => Seq::empty(),
        },
        headers: spec_etag_headers(etag),
        body: None,
    }
}

/// Builds the request of a list-tasks call.
pub fn list_tasks_request(
    tasklist_id: &str,
    opt: &Option<ListOptions>,
    etag: &Option<String>,
) -> (req: HttpRequest)
    ensures
        req@ == spec_list_tasks_request(
            tasklist_id@,
            match opt {
                Some(o) => Some(o@),
                None => None,
            },
            etag.deep_view(),
        ),
{
    let query = match opt {
        Some(o) => o.query_pairs(),
        None => Vec::new(),
    };
    let req = HttpRequest {
        method: Method::Get,
        url: tasks_url(tasklist_id),
        query,
        headers: etag_headers(etag),
        body: None,
    };
    proof {
        if opt is None {
            assert(req@.query =~= Seq::<(Seq<char>, Seq<char>)>::empty());
        }
    }
    req
}

/// The request of a get-task call, conditional when an ETag is given.
pub open spec fn spec_get_task_request(
    tasklist_id: Seq<char>,
    task_id: Seq<char>,
    etag: Option<Seq<char>>,
) -> HttpRequestView {
    HttpRequestView {
        method: Method::Get,
        url: spec_task_url(tasklist_id, task_id),
        query: Seq::empty(),
        headers: spec_etag_headers(etag),
        body: None,
    }
}

/// Builds the request of a get-task call.
pub fn get_task_request(tasklist_id: &str, task_id: &str, etag: &Option<String>) -> (req:
    HttpRequest)
    ensures
        req@ == spec_get_task_request(tasklist_id@, task_id@, etag.deep_view()),
{
    let req = HttpRequest {
        method: Method::Get,
        url: task_url(tasklist_id, task_id),
        query: Vec::new(),
        headers: etag_headers(etag),
        body: None,
    };
    proof {
        assert(req@.query =~= Seq::<(Seq<char>, Seq<char>)>::empty());
    }
    req
}

/// The request that creates a task: a post of its JSON to the collection,
/// with the placement's query pairs.
pub open spec fn spec_insert_task_request(
    tasklist_id: Seq<char>,
    t: TaskView,
    opts: Option<InsertOptionsView>,
) -> HttpRequestView {
    HttpRequestView {
        method: Method::Post,
        url: spec_tasks_url(tasklist_id),
        query: match opts {
            Some(o) => spec_insert_query(o),
            None => Seq::empty(),
        },
        headers: Seq::empty(),
        body: Some(spec_json_text(spec_task_to_json(t))),
    }
}

/// Builds the request that creates a task.
pub fn insert_task_request(tasklist_id: &str, t: &Task, opts: &Option<InsertOptions>) -> (req:
    HttpRequest)
    ensures
        req@ == spec_insert_task_request(
            tasklist_id@,
            t@,
            match opts {
                Some(o) => Some(o@),
                None => None,
            },
        ),
{
    let query = match opts {
        Some(o) => o.query_pairs(),
        None => Vec::new(),
    };
    let req = HttpRequest {
        method: Method::Post,
        url: tasks_url(tasklist_id),
        query,
        headers: Vec::new(),
        body: Some(render_json(&t.to_json())),
    };
    proof {
        assert(req@.headers =~= Seq::<(Seq<char>, Seq<char>)>::empty());
        if opts is None {
            assert(req@.query =~= Seq::<(Seq<char>, Seq<char>)>::empty());
        }
    }
    req
}

/// The request that writes or deletes one task: the verb, the task's URL,
/// and for writes the task rendered as JSON.
pub open spec fn spec_task_request(
    method: Method,
    tasklist_id: Seq<char>,
    task_id: Seq<char>,
    body: Option<TaskView>,
) -> HttpRequestView {
    HttpRequestView {
        method,
        url: spec_task_url(tasklist_id, task_id),
        query: Seq::empty(),
        headers: Seq::empty(),
        body: match body {
            Some(t) => Some(spec_json_text(spec_task_to_json(t))),
            None => None,
        },
    }
}

/// Builds a request against one task.
pub fn task_request(method: Method, tasklist_id: &str, task_id: &str, body: Option<&Task>) -> (req:
    HttpRequest)
    ensures
        req@ == spec_task_request(
            method,
            tasklist_id@,
            task_id@,
            match body {
                Some(t) => Some(t@),
                None => None,
            },
        ),
{
    let rendered = match body {
        Some(t) => Some(render_json(&t.to_json())),
        None => None,
    };
    let req = HttpRequest {
        method,
        url: task_url(tasklist_id, task_id),
        query: Vec::new(),
        headers: Vec::new(),
        body: rendered,
    };
    proof {
        assert(req@.query =~= Seq::<(Seq<char>, Seq<char>)>::empty());
        assert(req@.headers =~= Seq::<(Seq<char>, Seq<char>)>::empty());
    }
    req
}

/// The request that clears a task list's completed tasks: a post with an
/// explicitly zero-length body.
pub open spec fn spec_clear_request(tasklist_id: Seq<char>) -> HttpRequestView {
    HttpRequestView {
        method: Method::Post,
        url: spec_clear_url(tasklist_id),
        query: Seq::empty(),
        headers: spec_zero_length_headers(),
        body: None,
    }
}

/// Builds the request that clears a task list's completed tasks.
pub fn clear_request(tasklist_id: &str) -> (req: HttpRequest)
    ensures
        req@ == spec_clear_request(tasklist_id@),
{
    let req = HttpRequest {
        method: Method::Post,
        url: clear_url(tasklist_id),
        query: Vec::new(),
        headers: zero_length_headers(),
        body: None,
    };
    proof {
        assert(req@.query =~= Seq::<(Seq<char>, Seq<char>)>::empty());
    }
    req
}

/// The request that moves one task: a post with an explicitly zero-length
/// body and the placement's query pairs.
pub open spec fn spec_move_request(
    tasklist_id: Seq<char>,
    task_id: Seq<char>,
    opts: InsertOptionsView,
) -> HttpRequestView {
    HttpRequestView {
        method: Method::Post,
        url: spec_move_url(tasklist_id, task_id),
        query: spec_insert_query(opts),
        headers: spec_zero_length_headers(),
        body: None,
    }
}

/// Builds the request that moves one task.
pub fn move_request(tasklist_id: &str, task_id: &str, opts: &InsertOptions) -> (req: HttpRequest)
    ensures
        req@ == spec_move_request(tasklist_id@, task_id@, opts@),
{
    HttpRequest {
        method: Method::Post,
        url: move_url(tasklist_id, task_id),
        query: opts.query_pairs(),
        headers: zero_length_headers(),
        body: None,
    }
}

/// What a completed response denotes for a conditional read of one task:
/// `None` when the conditional read matched, the decoded task otherwise.
pub open spec fn spec_handle_task_read(resp: HttpResponseView, conditional: bool) -> Result<
    Option<TaskView>,
    TasksErrorView,
> {
    match spec_classify(resp, true, conditional) {
        Err(e) => Err(e),
        Ok(OutcomeView::Unchanged) => Ok(None),
        Ok(OutcomeView::Payload(v)) => match spec_task_of_json(v) {
            Some(t) => Ok(Some(t)),
            None => Err(TasksErrorView::DecodeError(resp.body, schema_diag())),
        },
        Ok(OutcomeView::Empty) => Err(TasksErrorView::DecodeError(resp.body, schema_diag())),
    }
}

/// Classifies and decodes a response carrying one task, for a read that
/// may have been conditional.
pub fn handle_task_read(resp: &HttpResponse, conditional: bool) -> (r: Result<
    Option<Task>,
    TasksError,
>)
    ensures
        (match r {
            Ok(Some(t)) => Ok(Some(t@)),
            Ok(None) => Ok(None),
            Err(e) => Err(e@),
        }) == spec_handle_task_read(resp@, conditional),
{
    match classify(resp, true, conditional) {
        Err(e) => Err(e),
        Ok(o) => match o {
            Outcome::Unchanged => Ok(None),
            Outcome::Payload(v) => match Task::from_json(&v) {
                Some(t) => Ok(Some(t)),
                None => Err(TasksError::DecodeError(resp.body.clone(), schema_diag_string())),
            },
            Outcome::Empty => Err(TasksError::DecodeError(resp.body.clone(), schema_diag_string())),
        },
    }
}

/// What a completed response denotes for a write that returns the task.
pub open spec fn spec_handle_task_write(resp: HttpResponseView) -> Result<
    TaskView,
    TasksErrorView,
> {
    match spec_classify(resp, true, false) {
        Err(e) => Err(e),
        Ok(OutcomeView::Payload(v)) => match spec_task_of_json(v) {
            Some(t) => Ok(t),
            None => Err(TasksErrorView::DecodeError(resp.body, schema_diag())),
        },
        Ok(_) => Err(TasksErrorView::DecodeError(resp.body, schema_diag())),
    }
}

/// Classifies and decodes a response carrying one task, for a write.
pub fn handle_task_write(resp: &HttpResponse) -> (r: Result<Task, TasksError>)
    ensures
        (match r {
            Ok(t) => Ok(t@),
            Err(e) => Err(e@),
        }) == spec_handle_task_write(resp@),
{
    match classify(resp, true, false) {
        Err(e) => Err(e),
        Ok(o) => match o {
            Outcome::Payload(v) => match Task::from_json(&v) {
                Some(t) => Ok(t),
                None => Err(TasksError::DecodeError(resp.body.clone(), schema_diag_string())),
            },
            _ => Err(TasksError::DecodeError(resp.body.clone(), schema_diag_string())),
        },
    }
}

/// What a completed response denotes for a conditional read of a page of
/// tasks.
pub open spec fn spec_handle_tasks_read(resp: HttpResponseView, conditional: bool) -> Result<
    Option<TasksView>,
    TasksErrorView,
> {
    match spec_classify(resp, true, conditional) {
        Err(e) => Err(e),
        Ok(OutcomeView::Unchanged) => Ok(None),
        Ok(OutcomeView::Payload(v)) => match spec_tasks_of_json(v) {
            Some(t) => Ok(Some(t)),
            None => Err(TasksErrorView::DecodeError(resp.body, schema_diag())),
        },
        Ok(OutcomeView::Empty) => Err(TasksErrorView::DecodeError(resp.body, schema_diag())),
    }
}

/// Classifies and decodes a response carrying a page of tasks.
pub fn handle_tasks_read(resp: &HttpResponse, conditional: bool) -> (r: Result<
    Option<Tasks>,
    TasksError,
>)
    ensures
        (match r {
            Ok(Some(t)) => Ok(Some(t@)),
            Ok(None) => Ok(None),
            Err(e) => Err(e@),
        }) == spec_handle_tasks_read(resp@, conditional),
{
    match classify(resp, true, conditional) {
        Err(e) => Err(e),
        Ok(o) => match o {
            Outcome::Unchanged => Ok(None),
            Outcome::Payload(v) => match Tasks::from_json(&v) {
                Some(t) => Ok(Some(t)),
                None => Err(TasksError::DecodeError(resp.body.clone(), schema_diag_string())),
            },
            Outcome::Empty => Err(TasksError::DecodeError(resp.body.clone(), schema_diag_string())),
        },
    }
}

/// Returns all tasks in the specified task list. With a previously
/// observed ETag the read is conditional, and `Ok(None)` reports that
/// nothing changed; without one the result always carries a page.
pub fn list<P: TokenProvider, T: Transport>(
    client: &mut HttpClient<P, T>,
    tasklist_id: &str,
    opt: Option<ListOptions>,
    etag: Option<String>,
) -> (r: Result<Option<Tasks>, TasksError>)
    ensures
        etag is None ==> !(r matches Ok(None)),
        r matches Err(e) ==> !(e@ is InvalidArgument),
{
    let conditional = etag.is_some();
    let req = list_tasks_request(tasklist_id, &opt, &etag);
    match client.execute(req) {
        Err(e) => Err(e),
        Ok(resp) => handle_tasks_read(&resp, conditional),
    }
}

/// Returns the specified task. With a previously observed ETag the read
/// is conditional, and `Ok(None)` reports that nothing changed.
pub fn get<P: TokenProvider, T: Transport>(
    client: &mut HttpClient<P, T>,
    tasklist_id: &str,
    task_id: &str,
    etag: Option<String>,
) -> (r: Result<Option<Task>, TasksError>)
    ensures
        etag is None ==> !(r matches Ok(None)),
        r matches Err(e) ==> !(e@ is InvalidArgument),
{
    let conditional = etag.is_some();
    let req = get_task_request(tasklist_id, task_id, &etag);
    match client.execute(req) {
        Err(e) => Err(e),
        Ok(resp) => handle_task_read(&resp, conditional),
    }
}

/// Creates a new task on the specified task list.
pub fn insert<P: TokenProvider, T: Transport>(
    client: &mut HttpClient<P, T>,
    tasklist_id: &str,
    v: Task,
    opts: Option<InsertOptions>,
) -> (r: Result<Task, TasksError>)
    ensures
        r matches Err(e) ==> !(e@ is InvalidArgument),
{
    let req = insert_task_request(tasklist_id, &v, &opts);
    match client.execute(req) {
        Err(e) => Err(e),
        Ok(resp) => handle_task_write(&resp),
    }
}

/// The task with its server-assigned last-modified field cleared.
pub open spec fn spec_clear_task_updated(t: TaskView) -> TaskView {
    TaskView { updated: None, ..t }
}

/// Updates the specified task. A task with no identifier is refused
/// before anything is sent; the server-assigned last-modified field is
/// cleared from the outgoing body.
pub fn update<P: TokenProvider, T: Transport>(
    client: &mut HttpClient<P, T>,
    tasklist_id: &str,
    v: Task,
) -> (r: Result<Task, TasksError>)
    ensures
        v.id is None ==> (r matches Err(e) && e@ == TasksErrorView::InvalidArgument(
            "task id cannot be None"@,
        )),
        v.id is Some ==> (r matches Err(e) ==> !(e@ is InvalidArgument)),
{
    let task_id = match &v.id {
        Some(id) => id.clone(),
        None => {
            return Err(TasksError::InvalidArgument(String::from_str("task id cannot be None")));
        },
    };
    let mut body = v;
    body.updated = None;
    let req = task_request(Method::Put, tasklist_id, task_id.as_str(), Some(&body));
    match client.execute(req) {
        Err(e) => Err(e),
        Ok(resp) => handle_task_write(&resp),
    }
}

/// Deletes the specified task from the task list.
pub fn delete<P: TokenProvider, T: Transport>(
    client: &mut HttpClient<P, T>,
    tasklist_id: &str,
    task_id: &str,
) -> (r: Result<(), TasksError>)
    ensures
        r matches Err(e) ==> !(e@ is InvalidArgument),
{
    let req = task_request(Method::Delete, tasklist_id, task_id, None);
    match client.execute(req) {
        Err(e) => Err(e),
        Ok(resp) => match classify(&resp, false, false) {
            Err(e) => Err(e),
            Ok(_) => Ok(()),
        },
    }
}

/// Clears all completed tasks from the specified task list; they are
/// hidden from default reads afterwards.
pub fn clear<P: TokenProvider, T: Transport>(
    client: &mut HttpClient<P, T>,
    tasklist_id: &str,
) -> (r: Result<(), TasksError>)
    ensures
        r matches Err(e) ==> !(e@ is InvalidArgument),
{
    let req = clear_request(tasklist_id);
    match client.execute(req) {
        Err(e) => Err(e),
        Ok(resp) => match classify(&resp, false, false) {
            Err(e) => Err(e),
            Ok(_) => Ok(()),
        },
    }
}

/// Moves the specified task to another position in the task list: under a
/// new parent and/or after another sibling.
pub fn move_task<P: TokenProvider, T: Transport>(
    client: &mut HttpClient<P, T>,
    tasklist_id: &str,
    task_id: &str,
    opts: InsertOptions,
) -> (r: Result<Task, TasksError>)
    ensures
        r matches Err(e) ==> !(e@ is InvalidArgument),
{
    let req = move_request(tasklist_id, task_id, &opts);
    match client.execute(req) {
        Err(e) => Err(e),
        Ok(resp) => handle_task_write(&resp),
    }
}

/// Updates the specified task with patch semantics: the body carries the
/// fields as given.
pub fn patch<P: TokenProvider, T: Transport>(
    client: &mut HttpClient<P, T>,
    tasklist_id: &str,
    task_id: &str,
    v: Task,
) -> (r: Result<Task, TasksError>)
    ensures
        r matches Err(e) ==> !(e@ is InvalidArgument),
{
    let req = task_request(Method::Patch, tasklist_id, task_id, Some(&v));
    match client.execute(req) {
        Err(e) => Err(e),
        Ok(resp) => handle_task_write(&resp),
    }
}

/// Law: the outgoing body of an update omits the last-modified field:
/// once it is cleared, no member of the serialized object is named
/// `updated`.
pub proof fn lemma_update_task_omits_updated(t: TaskView)
    ensures
        !spec_obj_has_key(spec_task_members(spec_clear_task_updated(t)), "updated"@),
{
    let c = spec_clear_task_updated(t);
    let part1 = spec_opt_str_member("kind"@, c.kind);
    let part2 = spec_opt_str_member("id"@, c.id);
    let part3 = spec_opt_str_member("etag"@, c.etag);
    let part4 = spec_opt_str_member("title"@, c.title);
    let part5 = spec_opt_str_member("updated"@, c.updated);
    let part6 = spec_opt_str_member("selfLink"@, c.self_link);
    let part7 = spec_opt_str_member("parent"@, c.parent);
    let part8 = spec_opt_str_member("position"@, c.position);
    let part9 = spec_opt_str_member("notes"@, c.notes);
    let part10 = spec_opt_status_member("status"@, c.status);
    let part11 = spec_opt_str_member("due"@, c.due);
    let part12 = spec_opt_str_member("completed"@, c.completed);
    let part13 = spec_opt_bool_member("deleted"@, c.deleted);
    let part14 = spec_opt_bool_member("hidden"@, c.hidden);
    let part15 = spec_opt_links_member("links"@, c.links);
    let key = "updated"@;
    crate::json::lemma_obj_has_key_concat(part1, part2, key);
    crate::json::lemma_obj_has_key_concat(part1 + part2, part3, key);
    crate::json::lemma_obj_has_key_concat(part1 + part2 + part3, part4, key);
    crate::json::lemma_obj_has_key_concat(part1 + part2 + part3 + part4, part5, key);
    crate::json::lemma_obj_has_key_concat(part1 + part2 + part3 + part4 + part5, part6, key);
    crate::json::lemma_obj_has_key_concat(
        part1 + part2 + part3 + part4 + part5 + part6,
        part7,
        key,
    );
    crate::json::lemma_obj_has_key_concat(
        part1 + part2 + part3 + part4 + part5 + part6 + part7,
        part8,
        key,
    );
    crate::json::lemma_obj_has_key_concat(
        part1 + part2 + part3 + part4 + part5 + part6 + part7 + part8,
        part9,
        key,
    );
    crate::json::lemma_obj_has_key_concat(
        part1 + part2 + part3 + part4 + part5 + part6 + part7 + part8 + part9,
        part10,
        key,
    );
    crate::json::lemma_obj_has_key_concat(
        part1 + part2 + part3 + part4 + part5 + part6 + part7 + part8 + part9 + part10,
        part11,
        key,
    );
    crate::json::lemma_obj_has_key_concat(
        part1 + part2 + part3 + part4 + part5 + part6 + part7 + part8 + part9 + part10 + part11,
        part12,
        key,
    );
    crate::json::lemma_obj_has_key_concat(
        part1 + part2 + part3 + part4 + part5 + part6 + part7 + part8 + part9 + part10 + part11
            + part12,
        part13,
        key,
    );
    crate::json::lemma_obj_has_key_concat(
        part1 + part2 + part3 + part4 + part5 + part6 + part7 + part8 + part9 + part10 + part11
            + part12 + part13,
        part14,
        key,
    );
    crate::json::lemma_obj_has_key_concat(
        part1 + part2 + part3 + part4 + part5 + part6 + part7 + part8 + part9 + part10 + part11
            + part12 + part13 + part14,
        part15,
        key,
    );
    crate::json::lemma_has_key_opt_str_member("kind"@, c.kind, key);
    crate::json::lemma_has_key_opt_str_member("id"@, c.id, key);
    crate::json::lemma_has_key_opt_str_member("etag"@, c.etag, key);
    crate::json::lemma_has_key_opt_str_member("title"@, c.title, key);
    crate::json::lemma_has_key_opt_str_member("updated"@, c.updated, key);
    crate::json::lemma_has_key_opt_str_member("selfLink"@, c.self_link, key);
    crate::json::lemma_has_key_opt_str_member("parent"@, c.parent, key);
    crate::json::lemma_has_key_opt_str_member("position"@, c.position, key);
    crate::json::lemma_has_key_opt_str_member("notes"@, c.notes, key);
    lemma_has_key_opt_status_member("status"@, c.status, key);
    crate::json::lemma_has_key_opt_str_member("due"@, c.due, key);
    crate::json::lemma_has_key_opt_str_member("completed"@, c.completed, key);
    crate::json::lemma_has_key_opt_bool_member("deleted"@, c.deleted, key);
    crate::json::lemma_has_key_opt_bool_member("hidden"@, c.hidden, key);
    lemma_has_key_opt_links_member("links"@, c.links, key);
    assert("kind"@ != key) by {
        reveal_strlit("kind");
        reveal_strlit("updated");
        assert("kind"@.len() == 4);
        assert("updated"@.len() == 7);
    }
    assert("id"@ != key) by {
        reveal_strlit("id");
        reveal_strlit("updated");
        assert("id"@.len() == 2);
        assert("updated"@.len() == 7);
    }
    assert("etag"@ != key) by {
        reveal_strlit("etag");
        reveal_strlit("updated");
        assert("etag"@.len() == 4);
        assert("updated"@.len() == 7);
    }
    assert("title"@ != key) by {
        reveal_strlit("title");
        reveal_strlit("updated");
        assert("title"@.len() == 5);
        assert("updated"@.len() == 7);
    }
    assert("selfLink"@ != key) by {
        reveal_strlit("selfLink");
        reveal_strlit("updated");
        assert("selfLink"@.len() == 8);
        assert("updated"@.len() == 7);
    }
    assert("parent"@ != key) by {
        reveal_strlit("parent");
        reveal_strlit("updated");
        assert("parent"@.len() == 6);
        assert("updated"@.len() == 7);
    }
    assert("position"@ != key) by {
        reveal_strlit("position");
        reveal_strlit("updated");
        assert("position"@.len() == 8);
        assert("updated"@.len() == 7);
    }
    assert("notes"@ != key) by {
        reveal_strlit("notes");
        reveal_strlit("updated");
        assert("notes"@.len() == 5);
        assert("updated"@.len() == 7);
    }
    assert("status"@ != key) by {
        reveal_strlit("status");
        reveal_strlit("updated");
        assert("status"@.len() == 6);
        assert("updated"@.len() == 7);
    }
    assert("due"@ != key) by {
        reveal_strlit("due");
        reveal_strlit("updated");
        assert("due"@.len() == 3);
        assert("updated"@.len() == 7);
    }
    assert("completed"@ != key) by {
        reveal_strlit("completed");
        reveal_strlit("updated");
        assert("completed"@.len() == 9);
        assert("updated"@.len() == 7);
    }
    assert("deleted"@ != key) by {
        reveal_strlit("deleted");
        reveal_strlit("updated");
        assert("deleted"@[0] == 'd');
        assert("updated"@[0] == 'u');
    }
    assert("hidden"@ != key) by {
        reveal_strlit("hidden");
        reveal_strlit("updated");
        assert("hidden"@.len() == 6);
        assert("updated"@.len() == 7);
    }
    assert("links"@ != key) by {
        reveal_strlit("links");
        reveal_strlit("updated");
        assert("links"@.len() == 5);
        assert("updated"@.len() == 7);
    }
}

/// The status field contributes `key` exactly when it is present under
/// that key.
proof fn lemma_has_key_opt_status_member(k: Seq<char>, o: Option<TaskStatus>, key: Seq<char>)
    ensures
        spec_obj_has_key(spec_opt_status_member(k, o), key) <==> (o is Some && k == key),
{
    match o {
        Some(s) => {
            assert(spec_opt_status_member(k, o)[0].0 == k);
        },
        None => {
        },
    }
}

/// The links field contributes `key` exactly when it is present under
/// that key.
proof fn lemma_has_key_opt_links_member(
    k: Seq<char>,
    o: Option<Seq<TaskLinkView>>,
    key: Seq<char>,
)
    ensures
        spec_obj_has_key(spec_opt_links_member(k, o), key) <==> (o is Some && k == key),
{
    match o {
        Some(ls) => {
            assert(spec_opt_links_member(k, o)[0].0 == k);
        },
        None => {
        },
    }
}

} // verus!
