//! The stream bindings of the deployment: which stream each handler drains
//! and under which consumer-name prefix.
use std::sync::Arc;
use vstd::prelude::*;

verus! {

/// The handler bound to the stream of type-A tasks.
pub struct TaskTypeACreator;

impl TaskTypeACreator {
    /// A shared instance of the handler.
    pub fn new() -> (r: Arc<Self>) {
        Arc::new(TaskTypeACreator)
    }

    /// The stream this handler drains.
    pub fn stream_name(&self) -> (r: &'static str)
        ensures
            r@ == "task_type_a"@,
    {
        "task_type_a"
    }

    /// The prefix of the identities of this handler's consumers.
    pub fn consumer_name_template(&self) -> (r: &'static str)
        ensures
            r@ == "task_consumer"@,
    {
        "task_consumer"
    }
}

/// The handler bound to the stream of type-B tasks.
pub struct TaskTypeBCreator;

impl TaskTypeBCreator {
    /// A shared instance of the handler.
    pub fn new() -> (r: Arc<Self>) {
        Arc::new(TaskTypeBCreator)
    }

    /// The stream this handler drains.
    pub fn stream_name(&self) -> (r: &'static str)
        ensures
            r@ == "task_type_b"@,
    {
        "task_type_b"
    }

    /// The prefix of the identities of this handler's consumers.
    pub fn consumer_name_template(&self) -> (r: &'static str)
        ensures
            r@ == "task_consumer"@,
    {
        "task_consumer"
    }
}

/// The generic task handler, bound to the type-A stream.
pub struct TaskCreator;

impl TaskCreator {
    /// The stream this handler drains.
    pub fn stream_name(&self) -> (r: &'static str)
        ensures
            r@ == "task_type_a"@,
    {
        "task_type_a"
    }

    /// The prefix of the identities of this handler's consumers.
    pub fn consumer_name_template(&self) -> (r: &'static str)
        ensures
            r@ == "task_consumer"@,
    {
        "task_consumer"
    }
}

/// The payload that the task handlers expect, as JSON text.
#[derive(Debug, Clone)]
pub struct TaskInfo {
    pub title: String,
    pub description: Option<String>,
    pub command: String,
    pub author: String,
    pub ip: Option<String>,
}

} // verus!
