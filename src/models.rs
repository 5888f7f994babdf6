//! Plain data of the HTTP layer and of the scheduled-job service, with the
//! validation rules of the query types.
use vstd::prelude::*;

verus! {

/// Page selection of a list query.
#[derive(Debug, Clone)]
pub struct PageQuery {
    /// First page is 1.
    pub page_index: u32,
    /// Between 1 and 100 entries per page.
    pub page_size: u32,
}

impl PageQuery {
    /// Whether the page index is at least 1 and the page size between 1 and 100.
    pub fn validate(&self) -> (r: bool)
        ensures
            r == (self.page_index >= 1 && 1 <= self.page_size <= 100),
    {
        self.page_index >= 1 && self.page_size >= 1 && self.page_size <= 100
    }
}

/// Search for projects by name, one page at a time.
#[derive(Debug, Clone)]
pub struct ProjectSearch {
    /// Part of the project name to look for; 1 to 100 characters when given.
    pub project_name: Option<String>,
    pub page_query: PageQuery,
}

impl ProjectSearch {
    /// Whether the name, when given, has 1 to 100 characters, and the page is valid.
    pub fn validate(&self) -> (r: bool)
        ensures
            r == ((match self.project_name {
                Some(n) => 1 <= n@.len() <= 100,
                None => true,
            }) && self.page_query.page_index >= 1 && 1 <= self.page_query.page_size <= 100),
    {
        let name_ok = match &self.project_name {
            Some(n) => {
                let len = n.as_str().unicode_len();
                len >= 1 && len <= 100
            },
            None => true,
        };
        name_ok && self.page_query.validate()
    }
}

/// A project as stored.
#[derive(Debug, Clone)]
pub struct ProjectInfo {
    pub id: i32,
    pub project_name: String,
    pub comment: String,
}

/// One page of projects and the number of matches in all.
#[derive(Debug, Clone)]
pub struct ProjectSearchResult {
    pub projects: Vec<ProjectInfo>,
    pub total: u32,
}

/// What creating a project takes.
#[derive(Debug, Clone)]
pub struct ProjectCreate {
    pub project_name: String,
    pub comment: String,
}

/// What updating a project may change; absent fields stay as they are.
#[derive(Debug, Clone)]
pub struct ProjectUpdate {
    pub project_name: Option<String>,
    pub comment: Option<String>,
}

/// A single object in a reply.
pub struct Reply<T> {
    pub data: T,
}

/// A page of objects in a reply.
pub struct ReplyList<T> {
    pub data: Vec<T>,
    /// Number of matches in all.
    pub total: u32,
    pub page_size: u32,
    pub page_index: u32,
}

/// Paging of the project listing.
#[derive(Debug, Clone)]
pub struct ListProjectsQuery {
    pub page: Option<u32>,
    pub limit: Option<u32>,
}

/// A project in the listing.
#[derive(Debug, Clone)]
pub struct Project {
    pub id: u32,
    pub name: String,
    pub description: String,
    pub status: String,
}

/// Paging of the user listing.
#[derive(Debug, Clone)]
pub struct ListUsersQuery {
    pub page: Option<u32>,
    pub limit: Option<u32>,
}

/// A user in the listing.
#[derive(Debug, Clone)]
pub struct User {
    pub id: u32,
    pub name: String,
    pub email: String,
}

/// Settings of the scheduled-job service.
#[derive(Debug, Clone)]
pub struct CronjobConfig {
    pub redis_url: String,
    pub queue_name: String,
    /// Seconds between two liveness log lines of the service.
    pub heartbeat_interval_secs: u64,
}

impl Default for CronjobConfig {
    fn default() -> (r: Self)
        ensures
            r.redis_url@ == "redis://localhost:6379"@,
            r.queue_name@ == "task_queue"@,
            r.heartbeat_interval_secs == 30,
    {
        CronjobConfig {
            redis_url: String::from_str("redis://localhost:6379"),
            queue_name: String::from_str("task_queue"),
            heartbeat_interval_secs: 30,
        }
    }
}

} // verus!
