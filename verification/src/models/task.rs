use vstd::prelude::*;
use crate::paging::spec_page_window;
use vstd::std_specs::convert::FromSpecImpl;
use crate::text::{joined, lowercase, same_text, to_lowercase};

verus! {

/// Where a scheduled task stands.
#[derive(Debug, Clone, Copy, PartialEq, Eq, Structural)]
pub enum TaskStatus {
    Pending,
    Scheduled,
    Running,
    Completed,
    Failed,
    Paused,
    Canceled,
}

impl TaskStatus {
    pub open spec fn spec_name(self) -> Seq<char> {
        match self {
            TaskStatus::Pending => "pending"@,
            TaskStatus::Scheduled => "scheduled"@,
            TaskStatus::Running => "running"@,
            TaskStatus::Completed => "completed"@,
            TaskStatus::Failed => "failed"@,
            TaskStatus::Paused => "paused"@,
            TaskStatus::Canceled => "canceled"@,
        }
    }

    /// The status that a lower-case name stands for; `Pending` where the name
    /// is not known.
    pub open spec fn spec_from_lowercase(name: Seq<char>) -> TaskStatus {
        if name == "scheduled"@ {
            TaskStatus::Scheduled
        } else if name == "running"@ {
            TaskStatus::Running
        } else if name == "completed"@ {
            TaskStatus::Completed
        } else if name == "failed"@ {
            TaskStatus::Failed
        } else if name == "paused"@ {
            TaskStatus::Paused
        } else if name == "canceled"@ {
            TaskStatus::Canceled
        } else {
            TaskStatus::Pending
        }
    }

    pub fn as_str(&self) -> (name: &'static str)
        ensures
            name@ == self.spec_name(),
    {
        match self {
            TaskStatus::Pending => "pending",
            TaskStatus::Scheduled => "scheduled",
            TaskStatus::Running => "running",
            TaskStatus::Completed => "completed",
            TaskStatus::Failed => "failed",
            TaskStatus::Paused => "paused",
            TaskStatus::Canceled => "canceled",
        }
    }

    pub fn to_string(&self) -> (name: String)
        ensures
            name@ == self.spec_name(),
    {
        self.as_str().to_owned()
    }

    /// Reads a status from a name that is already in lower case.
    pub fn from_lowercase(name: &str) -> (status: TaskStatus)
        ensures
            status == TaskStatus::spec_from_lowercase(name@),
    {
        if same_text(name, "scheduled") {
            TaskStatus::Scheduled
        } else if same_text(name, "running") {
            TaskStatus::Running
        } else if same_text(name, "completed") {
            TaskStatus::Completed
        } else if same_text(name, "failed") {
            TaskStatus::Failed
        } else if same_text(name, "paused") {
            TaskStatus::Paused
        } else if same_text(name, "canceled") {
            TaskStatus::Canceled
        } else {
            TaskStatus::Pending
        }
    }
}

impl From<String> for TaskStatus {
    /// Reads a status from its name in any mix of upper and lower case.
    fn from(s: String) -> (status: TaskStatus) {
        let lower = to_lowercase(s.as_str());
        TaskStatus::from_lowercase(lower.as_str())
    }
}

impl FromSpecImpl<String> for TaskStatus {
    open spec fn obeys_from_spec() -> bool {
        true
    }

    open spec fn from_spec(s: String) -> TaskStatus {
        TaskStatus::spec_from_lowercase(lowercase(s@))
    }
}

/// A status is read back from its own name.
pub proof fn lemma_task_status_round_trip(status: TaskStatus)
    ensures
        TaskStatus::spec_from_lowercase(status.spec_name()) == status,
{
    reveal_strlit("pending");
    reveal_strlit("scheduled");
    reveal_strlit("running");
    reveal_strlit("completed");
    reveal_strlit("failed");
    reveal_strlit("paused");
    reveal_strlit("canceled");
    assert("pending"@.len() == 7 && "scheduled"@.len() == 9 && "running"@.len() == 7);
    assert("completed"@.len() == 9 && "failed"@.len() == 6 && "paused"@.len() == 6);
    assert("canceled"@.len() == 8);
    assert("pending"@[0] == 'p' && "running"@[0] == 'r' && "scheduled"@[0] == 's');
    assert("completed"@[0] == 'c' && "failed"@[0] == 'f' && "paused"@[0] == 'p');
}

/// How urgent a scheduled task is.
#[derive(Debug, Clone, Copy, PartialEq, Eq, Structural)]
pub enum TaskPriority {
    Low,
    Medium,
    High,
    Critical,
}

impl TaskPriority {
    pub open spec fn spec_name(self) -> Seq<char> {
        match self {
            TaskPriority::Low => "low"@,
            TaskPriority::Medium => "medium"@,
            TaskPriority::High => "high"@,
            TaskPriority::Critical => "critical"@,
        }
    }

    /// The priority that a lower-case name stands for; `Low` where the name is
    /// not known.
    pub open spec fn spec_from_lowercase(name: Seq<char>) -> TaskPriority {
        if name == "medium"@ {
            TaskPriority::Medium
        } else if name == "high"@ {
            TaskPriority::High
        } else if name == "critical"@ {
            TaskPriority::Critical
        } else {
            TaskPriority::Low
        }
    }

    pub fn as_str(&self) -> (name: &'static str)
        ensures
            name@ == self.spec_name(),
    {
        match self {
            TaskPriority::Low => "low",
            TaskPriority::Medium => "medium",
            TaskPriority::High => "high",
            TaskPriority::Critical => "critical",
        }
    }

    pub fn to_string(&self) -> (name: String)
        ensures
            name@ == self.spec_name(),
    {
        self.as_str().to_owned()
    }

    /// Reads a priority from a name that is already in lower case.
    pub fn from_lowercase(name: &str) -> (priority: TaskPriority)
        ensures
            priority == TaskPriority::spec_from_lowercase(name@),
    {
        if same_text(name, "medium") {
            TaskPriority::Medium
        } else if same_text(name, "high") {
            TaskPriority::High
        } else if same_text(name, "critical") {
            TaskPriority::Critical
        } else {
            TaskPriority::Low
        }
    }
}

impl From<String> for TaskPriority {
    /// Reads a priority from its name in any mix of upper and lower case.
    fn from(s: String) -> (priority: TaskPriority) {
        let lower = to_lowercase(s.as_str());
        TaskPriority::from_lowercase(lower.as_str())
    }
}

impl FromSpecImpl<String> for TaskPriority {
    open spec fn obeys_from_spec() -> bool {
        true
    }

    open spec fn from_spec(s: String) -> TaskPriority {
        TaskPriority::spec_from_lowercase(lowercase(s@))
    }
}

/// A priority is read back from its own name.
pub proof fn lemma_task_priority_round_trip(priority: TaskPriority)
    ensures
        TaskPriority::spec_from_lowercase(priority.spec_name()) == priority,
{
    reveal_strlit("low");
    reveal_strlit("medium");
    reveal_strlit("high");
    reveal_strlit("critical");
    assert("low"@.len() == 3 && "medium"@.len() == 6 && "high"@.len() == 4);
    assert("critical"@.len() == 8);
}

/// What a scheduled task does.
#[derive(Debug, Clone, PartialEq, Eq)]
pub enum TaskType {
    EmailNotification,
    DataBackup,
    SystemCleanup,
    Custom(String),
}

impl TaskType {
    pub open spec fn spec_name(self) -> Seq<char> {
        match self {
            TaskType::EmailNotification => "email_notification"@,
            TaskType::DataBackup => "data_backup"@,
            TaskType::SystemCleanup => "system_cleanup"@,
            TaskType::Custom(name) => "custom_"@ + name@,
        }
    }

    /// The type that a text stands for, given the text's lower-case form. A
    /// text that names none of the built-in types is a custom type under the
    /// text as it was written.
    pub open spec fn spec_from_text(text: String, lower: Seq<char>) -> TaskType {
        if lower == "email_notification"@ {
            TaskType::EmailNotification
        } else if lower == "data_backup"@ {
            TaskType::DataBackup
        } else if lower == "system_cleanup"@ {
            TaskType::SystemCleanup
        } else {
            TaskType::Custom(text)
        }
    }

    pub fn to_string(&self) -> (name: String)
        ensures
            name@ == self.spec_name(),
    {
        match self {
            TaskType::EmailNotification => "email_notification".to_owned(),
            TaskType::DataBackup => "data_backup".to_owned(),
            TaskType::SystemCleanup => "system_cleanup".to_owned(),
            TaskType::Custom(name) => joined("custom_", name.as_str()),
        }
    }

    /// Reads a type from a text and the text's lower-case form.
    pub fn from_text(text: String, lower: &str) -> (kind: TaskType)
        ensures
            kind == TaskType::spec_from_text(text, lower@),
    {
        if same_text(lower, "email_notification") {
            TaskType::EmailNotification
        } else if same_text(lower, "data_backup") {
            TaskType::DataBackup
        } else if same_text(lower, "system_cleanup") {
            TaskType::SystemCleanup
        } else {
            TaskType::Custom(text)
        }
    }
}

impl From<String> for TaskType {
    /// Reads a type from its name in any mix of upper and lower case.
    fn from(s: String) -> (kind: TaskType) {
        let lower = to_lowercase(s.as_str());
        TaskType::from_text(s, lower.as_str())
    }
}

impl FromSpecImpl<String> for TaskType {
    open spec fn obeys_from_spec() -> bool {
        true
    }

    open spec fn from_spec(s: String) -> TaskType {
        TaskType::spec_from_text(s, lowercase(s@))
    }
}

#[derive(Debug, Clone, PartialEq, Eq)]
pub struct ListTasksQuery {
    pub search: Option<String>,
    pub task_type: Option<TaskType>,
    pub status: Option<TaskStatus>,
    pub priority: Option<TaskPriority>,
    pub is_active: Option<bool>,
    pub page: i32,
    pub size: i32,
}

impl ListTasksQuery {
    /// The rows to read: how many, and how many to skip. `None` where the
    /// number of rows to skip leaves the range of the arithmetic.
    pub fn window(&self) -> (window: Option<(i32, i32)>)
        ensures
            match window {
                Some(found) => (found.0 as int, found.1 as int) == spec_page_window(
                    self.page as int,
                    self.size as int,
                ),
                None => !(i32::MIN <= spec_page_window(self.page as int, self.size as int).1
                    <= i32::MAX),
            },
    {
        match self.page.checked_sub(1) {
            None => {
                assert((self.page - 1) * self.size < i32::MIN || (self.page - 1) * self.size
                    > i32::MAX || self.size == 0) by (nonlinear_arith)
                    requires
                        self.page == i32::MIN,
                        i32::MIN <= self.size <= i32::MAX,
                ;
                if self.size == 0 {
                    Some((0, 0))
                } else {
                    None
                }
            },
            Some(before) => match before.checked_mul(self.size) {
                None => None,
                Some(offset) => Some((self.size, offset)),
            },
        }
    }
}

/// A task of the scheduler. `parameters` is a JSON text, times are seconds
/// since the epoch.
#[derive(Debug, Clone, PartialEq, Eq)]
pub struct ScheduledTask {
    pub id: u128,
    pub name: String,
    pub description: Option<String>,
    pub task_type: TaskType,
    pub cron_expression: Option<String>,
    pub one_time: bool,
    pub priority: TaskPriority,
    pub timeout_seconds: Option<i64>,
    pub max_retries: i64,
    pub retry_delay_seconds: i64,
    pub parameters: Option<String>,
    pub status: TaskStatus,
    pub is_active: bool,
    pub created_by: u128,
    pub created_at: Option<i64>,
    pub updated_at: Option<i64>,
    pub next_run_at: Option<i64>,
    pub last_run_at: Option<i64>,
}

#[derive(Debug, Clone, PartialEq, Eq)]
pub struct CreateTaskRequest {
    pub id: u128,
    pub name: String,
    pub description: Option<String>,
    pub task_type: TaskType,
    pub cron_expression: Option<String>,
    pub one_time: Option<bool>,
    pub priority: Option<TaskPriority>,
    pub timeout_seconds: Option<i32>,
    pub max_retries: Option<i32>,
    pub retry_delay_seconds: Option<i32>,
    pub parameters: Option<String>,
    pub is_active: Option<bool>,
    pub status: TaskStatus,
    pub created_by: u128,
}

#[derive(Debug, Clone, PartialEq, Eq)]
pub struct UpdateTaskRequest {
    pub name: Option<String>,
    pub description: Option<String>,
    pub cron_expression: Option<String>,
    pub one_time: Option<bool>,
    pub priority: Option<TaskPriority>,
    pub timeout_seconds: Option<i32>,
    pub max_retries: Option<i32>,
    pub retry_delay_seconds: Option<i32>,
    pub parameters: Option<String>,
    pub is_active: Option<bool>,
    pub status: Option<TaskStatus>,
}

#[derive(Debug, Clone, PartialEq, Eq)]
pub struct TaskExecution {
    pub id: u128,
    pub task_id: u128,
    pub status: TaskStatus,
    pub started_at: i64,
    pub completed_at: Option<i64>,
    pub duration_ms: Option<i32>,
    pub error_message: Option<String>,
    pub node_id: String,
    pub attempt_number: i32,
    pub parameters: Option<String>,
    pub created_at: i64,
}

#[derive(Debug, Clone, Copy, PartialEq, Eq)]
pub struct TaskDependency {
    pub id: u128,
    pub dependent_task_id: u128,
    pub prerequisite_task_id: u128,
    pub created_at: i64,
}

#[derive(Debug, Clone, PartialEq, Eq)]
pub struct TaskAuditLog {
    pub id: u128,
    pub task_id: u128,
    pub action: String,
    pub user_id: Option<u128>,
    pub details: String,
    pub created_at: i64,
}

impl ScheduledTask {
    /// The cron expression that the task is scheduled under: the empty one
    /// where the task names none.
    pub fn schedule(&self) -> (expression: String)
        ensures
            expression@ == match self.cron_expression {
                Some(text) => text@,
                None => Seq::<char>::empty(),
            },
    {
        match &self.cron_expression {
            Some(text) => text.clone(),
            None => String::new(),
        }
    }
}

} // verus!
