//! A typed client for a remote task-list web API.
//!
//! The crate models HTTP requests and responses as plain values, injects a
//! bearer credential into every outbound request, classifies completed
//! responses into success / unchanged / rejected outcomes, and encodes and
//! decodes the JSON wire format of the task and task-list resources.

use vstd::prelude::*;

pub mod errors;
pub mod http;
pub mod json;
mod strutil;
pub mod tasklists;
pub mod tasks;

pub use errors::TasksError;
pub use http::{AuthMiddleware, FixedToken, HttpClient, TokenProvider, Transport};
pub use tasklists::{ListOptions as TasklistsOptions, Tasklist, Tasklists};
pub use tasks::{
    InsertOptions as TaskInsertOptions, ListOptions as TaskOptions, Task, TaskLink, TaskStatus,
    Tasks,
};

use errors::TasksErrorView;

verus! {

/// The fixed origin and versioned path prefix of the remote API, never
/// configurable per call.
pub open spec fn base_url() -> Seq<char> {
    "https://www.googleapis.com/tasks/v1"@
}

/// Returns the base URL as an owned string.
pub fn base_url_string() -> (r: String)
    ensures
        r@ == base_url(),
{
    String::from_str("https://www.googleapis.com/tasks/v1")
}

/// A client of the remote task-list API: one method per remote operation,
/// each sending one authenticated request through the wrapped transport
/// and classifying its response.
pub struct Service<P: TokenProvider, T: Transport> {
    /// The credential-injecting client the operations dispatch through.
    pub http_client: HttpClient<P, T>,
}

impl<P: TokenProvider, T: Transport> Service<P, T> {
    /// Creates a new service with the given token provider, dispatching
    /// through the given transport.
    pub fn with_auth(token_provider: P, transport: T) -> Service<P, T> {
        let http_client = AuthMiddleware::new(token_provider).init_http_client(transport);
        Service { http_client }
    }

    /// Returns all the authenticated user's task lists.
    pub fn list_tasklists(&mut self, opt: Option<TasklistsOptions>) -> (r: Result<
        Tasklists,
        TasksError,
    >)
        ensures
            r matches Err(e) ==> !(e@ is InvalidArgument),
    {
        tasklists::list(&mut self.http_client, opt)
    }

    /// Returns the authenticated user's specified task list.
    pub fn get_tasklist(&mut self, id: &str) -> (r: Result<Tasklist, TasksError>)
        ensures
            r matches Err(e) ==> !(e@ is InvalidArgument),
    {
        tasklists::get(&mut self.http_client, id)
    }

    /// Creates a new task list and adds it to the authenticated user's
    /// task lists.
    pub fn insert_tasklist(&mut self, v: Tasklist) -> (r: Result<Tasklist, TasksError>)
        ensures
            r matches Err(e) ==> !(e@ is InvalidArgument),
    {
        tasklists::insert(&mut self.http_client, v)
    }

    /// Updates the authenticated user's specified task list. A task list
    /// with no identifier is refused before anything is sent.
    pub fn update_tasklist(&mut self, v: Tasklist) -> (r: Result<Tasklist, TasksError>)
        ensures
            v.id is None ==> (r matches Err(e) && e@ == TasksErrorView::InvalidArgument(
                "tasklist id cannot be None"@,
            )),
            v.id is Some ==> (r matches Err(e) ==> !(e@ is InvalidArgument)),
    {
        tasklists::update(&mut self.http_client, v)
    }

    /// Deletes the authenticated user's specified task list.
    pub fn delete_tasklist(&mut self, id: &str) -> (r: Result<(), TasksError>)
        ensures
            r matches Err(e) ==> !(e@ is InvalidArgument),
    {
        tasklists::delete(&mut self.http_client, id)
    }

    /// Updates the authenticated user's specified task list with patch
    /// semantics.
    pub fn patch_tasklist(&mut self, tasklist_id: &str, v: Tasklist) -> (r: Result<
        Tasklist,
        TasksError,
    >)
        ensures
            r matches Err(e) ==> !(e@ is InvalidArgument),
    {
        tasklists::patch(&mut self.http_client, tasklist_id, v)
    }

    /// Returns all tasks in the specified task list; `Ok(None)` reports
    /// that a conditional read matched the given ETag.
    pub fn list_tasks(
        &mut self,
        tasklist_id: &str,
        opt: Option<TaskOptions>,
        etag: Option<String>,
    ) -> (r: Result<Option<Tasks>, TasksError>)
        ensures
            etag is None ==> !(r matches Ok(None)),
            r matches Err(e) ==> !(e@ is InvalidArgument),
    {
        tasks::list(&mut self.http_client, tasklist_id, opt, etag)
    }

    /// Returns the specified task; `Ok(None)` reports that a conditional
    /// read matched the given ETag.
    pub fn get_task(&mut self, tasklist_id: &str, task_id: &str, etag: Option<String>) -> (r:
        Result<Option<Task>, TasksError>)
        ensures
            etag is None ==> !(r matches Ok(None)),
            r matches Err(e) ==> !(e@ is InvalidArgument),
    {
        tasks::get(&mut self.http_client, tasklist_id, task_id, etag)
    }

    /// Creates a new task on the specified task list.
    pub fn insert_task(
        &mut self,
        tasklist_id: &str,
        v: Task,
        opts: Option<TaskInsertOptions>,
    ) -> (r: Result<Task, TasksError>)
        ensures
            r matches Err(e) ==> !(e@ is InvalidArgument),
    {
        tasks::insert(&mut self.http_client, tasklist_id, v, opts)
    }

    /// Updates the specified task. A task with no identifier is refused
    /// before anything is sent.
    pub fn update_task(&mut self, tasklist_id: &str, v: Task) -> (r: Result<Task, TasksError>)
        ensures
            v.id is None ==> (r matches Err(e) && e@ == TasksErrorView::InvalidArgument(
                "task id cannot be None"@,
            )),
            v.id is Some ==> (r matches Err(e) ==> !(e@ is InvalidArgument)),
    {
        tasks::update(&mut self.http_client, tasklist_id, v)
    }

    /// Deletes the specified task from the task list.
    pub fn delete_task(&mut self, tasklist_id: &str, task_id: &str) -> (r: Result<(), TasksError>)
        ensures
            r matches Err(e) ==> !(e@ is InvalidArgument),
    {
        tasks::delete(&mut self.http_client, tasklist_id, task_id)
    }

    /// Clears all completed tasks from the specified task list. The
    /// affected tasks are marked hidden and no longer returned by default
    /// when retrieving all tasks of the list.
    pub fn clear_tasks(&mut self, tasklist_id: &str) -> (r: Result<(), TasksError>)
        ensures
            r matches Err(e) ==> !(e@ is InvalidArgument),
    {
        tasks::clear(&mut self.http_client, tasklist_id)
    }

    /// Moves the specified task to another position in the task list:
    /// under a new parent and/or after another sibling.
    pub fn move_task(&mut self, tasklist_id: &str, task_id: &str, opts: TaskInsertOptions) -> (r:
        Result<Task, TasksError>)
        ensures
            r matches Err(e) ==> !(e@ is InvalidArgument),
    {
        tasks::move_task(&mut self.http_client, tasklist_id, task_id, opts)
    }

    /// Updates the specified task with patch semantics.
    pub fn patch_task(&mut self, tasklist_id: &str, task_id: &str, v: Task) -> (r: Result<
        Task,
        TasksError,
    >)
        ensures
            r matches Err(e) ==> !(e@ is InvalidArgument),
    {
        tasks::patch(&mut self.http_client, tasklist_id, task_id, v)
    }
}

impl<T: Transport> Service<FixedToken, T> {
    /// Creates a new service with the given access token.
    pub fn with_token(access_token: &str, transport: T) -> Service<FixedToken, T> {
        Service::with_auth(FixedToken::new(access_token), transport)
    }

    /// Creates a new service with the given access token. Superseded by
    /// [`Service::with_token`].
    pub fn new(access_token: &str, transport: T) -> Service<FixedToken, T> {
        Service::with_token(access_token, transport)
    }
}

} // verus!
