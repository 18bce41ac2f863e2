//! Exercises the middleware and transport seams with mock collaborators.

use gtasks::http::{header_value, HttpRequest, HttpResponse, TokenProvider, Transport};
use gtasks::{Service, TasksError};

/// A transport that always answers with one canned response and records
/// what was sent through it.
struct MockTransport {
    status: u16,
    body: String,
    calls: usize,
    requests: Vec<HttpRequest>,
}

impl MockTransport {
    fn canned(status: u16, body: &str) -> MockTransport {
        MockTransport { status, body: body.to_string(), calls: 0, requests: Vec::new() }
    }
}

impl Transport for MockTransport {
    fn send(&mut self, req: &HttpRequest) -> Result<HttpResponse, String> {
        self.calls += 1;
        self.requests.push(req.clone());
        Ok(HttpResponse { status: self.status, body: self.body.clone() })
    }
}

/// A transport whose connection always fails.
struct BrokenTransport {
    calls: usize,
}

impl Transport for BrokenTransport {
    fn send(&mut self, _req: &HttpRequest) -> Result<HttpResponse, String> {
        self.calls += 1;
        Err("connection refused".to_string())
    }
}

/// A credential supplier that always fails.
struct FailingProvider;

impl TokenProvider for FailingProvider {
    fn token(&self) -> Result<String, String> {
        Err("expired refresh token".to_string())
    }
}

#[test]
fn it_works() {
    assert_eq!(2 + 2, 4);
}

#[test]
fn authorization_header_is_bearer_of_supplied_token() {
    let mock = MockTransport::canned(200, "{\"kind\":\"tasks#taskList\",\"id\":\"l1\"}");
    let mut svc = Service::with_token("token123", mock);
    let got = svc.get_tasklist("l1").expect("should succeed");
    assert_eq!(got.id.as_deref(), Some("l1"));
    let transport = &svc.http_client.transport;
    assert_eq!(transport.calls, 1);
    let sent = &transport.requests[0];
    assert_eq!(
        header_value(&sent.headers, "Authorization").as_deref(),
        Some("Bearer token123")
    );
}

#[test]
fn content_type_defaults_to_json() {
    let mock = MockTransport::canned(200, "{\"kind\":\"tasks#taskList\"}");
    let mut svc = Service::with_token("t", mock);
    let _ = svc.get_tasklist("l1");
    let sent = &svc.http_client.transport.requests[0];
    assert_eq!(
        header_value(&sent.headers, "Content-Type").as_deref(),
        Some("application/json")
    );
}

#[test]
fn failing_supplier_blocks_request_and_surfaces_credential_error() {
    let mock = MockTransport::canned(200, "{}");
    let mut svc = Service::with_auth(FailingProvider, mock);
    let err = svc.get_tasklist("l1").unwrap_err();
    match err {
        TasksError::CredentialError(msg) => assert_eq!(msg, "expired refresh token"),
        other => panic!("expected CredentialError, got {:?}", other),
    }
    assert_eq!(svc.http_client.transport.calls, 0);
}

#[test]
fn transport_failure_surfaces_as_transport_error() {
    let broken = BrokenTransport { calls: 0 };
    let mut svc = Service::with_token("t", broken);
    let err = svc.get_tasklist("l1").unwrap_err();
    match err {
        TasksError::TransportError(msg) => assert_eq!(msg, "connection refused"),
        other => panic!("expected TransportError, got {:?}", other),
    }
    assert_eq!(svc.http_client.transport.calls, 1);
}

#[test]
fn update_without_id_fails_fast_with_no_network_call() {
    let mock = MockTransport::canned(200, "{}");
    let mut svc = Service::with_token("t", mock);
    let task = gtasks::Task::default();
    let err = svc.update_task("l1", task).unwrap_err();
    match err {
        TasksError::InvalidArgument(msg) => assert_eq!(msg, "task id cannot be None"),
        other => panic!("expected InvalidArgument, got {:?}", other),
    }
    assert_eq!(svc.http_client.transport.calls, 0);
}

#[test]
fn update_tasklist_without_id_fails_fast_with_no_network_call() {
    let mock = MockTransport::canned(200, "{}");
    let mut svc = Service::with_token("t", mock);
    let list = gtasks::Tasklist::default();
    let err = svc.update_tasklist(list).unwrap_err();
    match err {
        TasksError::InvalidArgument(msg) => assert_eq!(msg, "tasklist id cannot be None"),
        other => panic!("expected InvalidArgument, got {:?}", other),
    }
    assert_eq!(svc.http_client.transport.calls, 0);
}

#[test]
fn update_body_omits_last_modified_field() {
    let mock = MockTransport::canned(
        200,
        "{\"kind\":\"tasks#task\",\"id\":\"t1\",\"title\":\"Buy milk\"}",
    );
    let mut svc = Service::with_token("t", mock);
    let mut task = gtasks::Task::default();
    task.id = Some("t1".to_string());
    task.title = Some("Buy milk".to_string());
    task.updated = Some("2019-03-05T17:12:02.000Z".to_string());
    svc.update_task("l1", task).expect("should succeed");
    let sent = &svc.http_client.transport.requests[0];
    let body = sent.body.as_deref().expect("update sends a body");
    let parsed: serde_json::Value = serde_json::from_str(body).expect("body is valid JSON");
    assert!(parsed.get("updated").is_none());
    assert_eq!(
        parsed.get("title").and_then(|v| v.as_str()),
        Some("Buy milk")
    );
    assert_eq!(parsed.get("id").and_then(|v| v.as_str()), Some("t1"));
}

#[test]
fn get_task_success_decodes_payload() {
    let mock = MockTransport::canned(
        200,
        "{\"kind\":\"tasks#task\",\"id\":\"t1\",\"title\":\"Buy milk\"}",
    );
    let mut svc = Service::with_token("t", mock);
    let task = svc
        .get_task("l1", "t1", None)
        .expect("should succeed")
        .expect("no etag was given, so a payload must come back");
    assert_eq!(task.kind.as_deref(), Some("tasks#task"));
    assert_eq!(task.id.as_deref(), Some("t1"));
    assert_eq!(task.title.as_deref(), Some("Buy milk"));
    assert!(task.etag.is_none());
    assert!(task.updated.is_none());
    assert!(task.self_link.is_none());
    assert!(task.parent.is_none());
    assert!(task.position.is_none());
    assert!(task.notes.is_none());
    assert!(task.status.is_none());
    assert!(task.due.is_none());
    assert!(task.completed.is_none());
    assert!(task.deleted.is_none());
    assert!(task.hidden.is_none());
    assert!(task.links.is_none());
}

#[test]
fn get_task_rejection_carries_status_and_body() {
    let mock = MockTransport::canned(404, "Task not found");
    let mut svc = Service::with_token("t", mock);
    let err = svc.get_task("l1", "t1", None).unwrap_err();
    match err {
        TasksError::RemoteRejected(status, body) => {
            assert_eq!(status, 404);
            assert_eq!(body, "Task not found");
        },
        other => panic!("expected RemoteRejected, got {:?}", other),
    }
}

#[test]
fn list_tasks_not_modified_is_unchanged() {
    let mock = MockTransport::canned(304, "");
    let mut svc = Service::with_token("t", mock);
    let outcome = svc
        .list_tasks("l1", None, Some("abc".to_string()))
        .expect("should succeed");
    assert!(outcome.is_none());
    let sent = &svc.http_client.transport.requests[0];
    assert_eq!(header_value(&sent.headers, "If-None-Match").as_deref(), Some("abc"));
}

#[test]
fn unparseable_success_body_is_decode_error() {
    let mock = MockTransport::canned(200, "this is not json");
    let mut svc = Service::with_token("t", mock);
    let err = svc.get_task("l1", "t1", None).unwrap_err();
    match err {
        TasksError::DecodeError(body, _diag) => assert_eq!(body, "this is not json"),
        other => panic!("expected DecodeError, got {:?}", other),
    }
}

#[test]
fn wrong_shape_success_body_is_decode_error() {
    let mock = MockTransport::canned(200, "[1,2,3]");
    let mut svc = Service::with_token("t", mock);
    let err = svc.get_task("l1", "t1", None).unwrap_err();
    match err {
        TasksError::DecodeError(body, _diag) => assert_eq!(body, "[1,2,3]"),
        other => panic!("expected DecodeError, got {:?}", other),
    }
}

#[test]
fn delete_task_sends_delete_and_succeeds_on_no_content() {
    let mock = MockTransport::canned(204, "");
    let mut svc = Service::with_token("t", mock);
    svc.delete_task("l1", "t1").expect("should succeed");
    let sent = &svc.http_client.transport.requests[0];
    assert!(sent.url.ends_with("/lists/l1/tasks/t1"));
    assert!(sent.body.is_none());
}

#[test]
fn clear_tasks_posts_zero_length_body() {
    let mock = MockTransport::canned(204, "");
    let mut svc = Service::with_token("t", mock);
    svc.clear_tasks("l1").expect("should succeed");
    let sent = &svc.http_client.transport.requests[0];
    assert!(sent.url.ends_with("/lists/l1/clear"));
    assert_eq!(header_value(&sent.headers, "Content-Length").as_deref(), Some("0"));
    assert!(sent.body.is_none());
}

#[test]
fn move_task_sends_placement_query() {
    let mock = MockTransport::canned(200, "{\"kind\":\"tasks#task\",\"id\":\"t1\"}");
    let mut svc = Service::with_token("t", mock);
    let opts = gtasks::TaskInsertOptions {
        parent: Some("p1".to_string()),
        previous: None,
    };
    svc.move_task("l1", "t1", opts).expect("should succeed");
    let sent = &svc.http_client.transport.requests[0];
    assert!(sent.url.ends_with("/lists/l1/tasks/t1/move"));
    assert_eq!(sent.query, vec![("parent".to_string(), "p1".to_string())]);
}

#[test]
fn list_tasklists_decodes_page() {
    let body = "{\"kind\":\"tasks#taskLists\",\"etag\":\"e0\",\"items\":[\
                {\"kind\":\"tasks#taskList\",\"id\":\"l1\",\"title\":\"Home\"},\
                {\"kind\":\"tasks#taskList\",\"id\":\"l2\",\"title\":\"Work\"}]}";
    let mock = MockTransport::canned(200, body);
    let mut svc = Service::with_token("t", mock);
    let page = svc.list_tasklists(None).expect("should succeed");
    assert_eq!(page.kind, "tasks#taskLists");
    assert_eq!(page.etag, "e0");
    assert!(page.next_page_token.is_none());
    assert_eq!(page.items.len(), 2);
    assert_eq!(page.items[0].id.as_deref(), Some("l1"));
    assert_eq!(page.items[1].title.as_deref(), Some("Work"));
}

#[test]
fn error_messages_describe_the_failure() {
    let mock = MockTransport::canned(404, "Task not found");
    let mut svc = Service::with_token("t", mock);
    let err = svc.get_task("l1", "t1", None).unwrap_err();
    assert_eq!(err.message(), "remote rejected: status 404, Task not found");
    let invalid = TasksError::InvalidArgument("task id cannot be None".to_string());
    assert_eq!(invalid.message(), "invalid argument: task id cannot be None");
}

#[test]
fn superseded_constructor_behaves_like_with_token() {
    let mock = MockTransport::canned(200, "{\"kind\":\"tasks#taskList\",\"id\":\"l1\"}");
    let mut svc = Service::new("tok", mock);
    let got = svc.get_tasklist("l1").expect("should succeed");
    assert_eq!(got.id.as_deref(), Some("l1"));
    let sent = &svc.http_client.transport.requests[0];
    assert_eq!(
        header_value(&sent.headers, "Authorization").as_deref(),
        Some("Bearer tok")
    );
}

#[test]
fn insert_task_posts_body_and_placement() {
    let mock = MockTransport::canned(200, "{\"kind\":\"tasks#task\",\"id\":\"t9\"}");
    let mut svc = Service::with_token("t", mock);
    let mut task = gtasks::Task::default();
    task.title = Some("New".to_string());
    task.status = Some(gtasks::TaskStatus::NeedsAction);
    let opts = gtasks::TaskInsertOptions {
        parent: None,
        previous: Some("t3".to_string()),
    };
    let created = svc.insert_task("l1", task, Some(opts)).expect("should succeed");
    assert_eq!(created.id.as_deref(), Some("t9"));
    let sent = &svc.http_client.transport.requests[0];
    assert!(sent.url.ends_with("/lists/l1/tasks"));
    assert_eq!(sent.query, vec![("previous".to_string(), "t3".to_string())]);
    let body = sent.body.as_deref().expect("insert sends a body");
    assert_eq!(body, "{\"title\":\"New\",\"status\":\"needsAction\"}");
}

#[test]
fn patch_task_sends_fields_as_given() {
    let mock = MockTransport::canned(200, "{\"kind\":\"tasks#task\",\"id\":\"t1\"}");
    let mut svc = Service::with_token("t", mock);
    let mut task = gtasks::Task::default();
    task.notes = Some("n".to_string());
    svc.patch_task("l1", "t1", task).expect("should succeed");
    let sent = &svc.http_client.transport.requests[0];
    assert_eq!(sent.body.as_deref(), Some("{\"notes\":\"n\"}"));
}

#[test]
fn update_success_returns_decoded_task() {
    let mock = MockTransport::canned(
        200,
        "{\"kind\":\"tasks#task\",\"id\":\"t1\",\"title\":\"Renamed\",\"status\":\"completed\"}",
    );
    let mut svc = Service::with_token("t", mock);
    let mut task = gtasks::Task::default();
    task.id = Some("t1".to_string());
    task.title = Some("Renamed".to_string());
    let updated = svc.update_task("l1", task).expect("should succeed");
    assert_eq!(updated.title.as_deref(), Some("Renamed"));
    assert!(matches!(updated.status, Some(gtasks::TaskStatus::Completed)));
    let sent = &svc.http_client.transport.requests[0];
    assert!(sent.url.ends_with("/lists/l1/tasks/t1"));
}

#[test]
fn get_task_not_modified_with_etag_is_unchanged() {
    let mock = MockTransport::canned(304, "ignored");
    let mut svc = Service::with_token("t", mock);
    let outcome = svc
        .get_task("l1", "t1", Some("e7".to_string()))
        .expect("should succeed");
    assert!(outcome.is_none());
}

#[test]
fn list_tasks_sends_options_as_query() {
    let mock = MockTransport::canned(
        200,
        "{\"kind\":\"tasks#tasks\",\"etag\":\"e1\",\"items\":[]}",
    );
    let mut svc = Service::with_token("t", mock);
    let mut opt = gtasks::TaskOptions::default();
    opt.max_results = Some(25);
    opt.show_completed = Some(false);
    opt.page_token = Some("pp".to_string());
    let page = svc
        .list_tasks("l1", Some(opt), None)
        .expect("should succeed")
        .expect("unconditional read always carries a page");
    assert_eq!(page.items.map(|v| v.len()), Some(0));
    let sent = &svc.http_client.transport.requests[0];
    assert_eq!(
        sent.query,
        vec![
            ("maxResults".to_string(), "25".to_string()),
            ("pageToken".to_string(), "pp".to_string()),
            ("showCompleted".to_string(), "false".to_string()),
        ]
    );
}
