use work_designer_server::config::{default_system_email, Config};
use work_designer_server::error::AppError;
use work_designer_server::models::document::{DocumentType, PermissionType, UpdateDocumentRequest};
use work_designer_server::models::log::{ListLogsQuery, LogLevel};
use work_designer_server::models::program::{ListProgramQuery, ProgramStatus};
use work_designer_server::models::task::{
    ListTasksQuery, ScheduledTask, TaskPriority, TaskStatus, TaskType,
};
use work_designer_server::models::user::{ListUsersQuery, User, UserRole};
use work_designer_server::models::ResponseResult;
use work_designer_server::paging::page_window;
use work_designer_server::text::{decimal, same_text, starts_with};

#[test]
fn names_round_trip() {
    for kind in [DocumentType::Text, DocumentType::Markdown, DocumentType::Html, DocumentType::Code, DocumentType::Json] {
        assert_eq!(DocumentType::from(kind.to_string()), kind);
    }
    for permission in [PermissionType::Read, PermissionType::Write, PermissionType::Admin] {
        assert_eq!(PermissionType::from(permission.to_string()), permission);
        assert_eq!(permission.can_write(), permission != PermissionType::Read);
    }
    for level in [LogLevel::Debug, LogLevel::Info, LogLevel::Warning, LogLevel::Error, LogLevel::Critical, LogLevel::Event] {
        assert_eq!(LogLevel::from(level.to_string()), level);
    }
    for status in [ProgramStatus::Pending, ProgramStatus::Compiling, ProgramStatus::Compiled, ProgramStatus::Failed, ProgramStatus::Running, ProgramStatus::Stopped] {
        assert_eq!(ProgramStatus::from(status.to_string()), status);
    }
    for status in [TaskStatus::Pending, TaskStatus::Scheduled, TaskStatus::Running, TaskStatus::Completed, TaskStatus::Failed, TaskStatus::Paused, TaskStatus::Canceled] {
        assert_eq!(TaskStatus::from(status.to_string()), status);
    }
    for priority in [TaskPriority::Low, TaskPriority::Medium, TaskPriority::High, TaskPriority::Critical] {
        assert_eq!(TaskPriority::from(priority.to_string()), priority);
    }
    for role in [UserRole::Admin, UserRole::User, UserRole::Guest] {
        assert_eq!(UserRole::from(role.to_string()), role);
    }
}

#[test]
fn unknown_names_fall_back() {
    assert_eq!(DocumentType::from("pdf".to_string()), DocumentType::Text);
    assert_eq!(DocumentType::from("Markdown".to_string()), DocumentType::Text);
    assert_eq!(PermissionType::from("owner".to_string()), PermissionType::Read);
    assert_eq!(LogLevel::from("trace".to_string()), LogLevel::Info);
    assert_eq!(UserRole::from("root".to_string()), UserRole::User);
    assert_eq!(UserRole::from("ADMIN".to_string()), UserRole::User);
    assert_eq!(ProgramStatus::from("unknown".to_string()), ProgramStatus::Pending);
    assert_eq!(TaskStatus::from("".to_string()), TaskStatus::Pending);
    assert_eq!(TaskPriority::from("urgent".to_string()), TaskPriority::Low);
}

#[test]
fn status_names_are_read_in_any_case() {
    assert_eq!(ProgramStatus::from("RUNNING".to_string()), ProgramStatus::Running);
    assert_eq!(ProgramStatus::from("Compiled".to_string()), ProgramStatus::Compiled);
    assert_eq!(ProgramStatus::from_lowercase("RUNNING"), ProgramStatus::Pending);
    assert_eq!(TaskStatus::from("CANCELED".to_string()), TaskStatus::Canceled);
    assert_eq!(TaskPriority::from("High".to_string()), TaskPriority::High);
    assert_eq!(TaskType::from("Data_Backup".to_string()), TaskType::DataBackup);
    assert_eq!(TaskType::from("Report".to_string()), TaskType::Custom("Report".to_string()));
    assert_eq!(TaskType::from_text("x".to_string(), "system_cleanup"), TaskType::SystemCleanup);
}

#[test]
fn task_type_names() {
    assert_eq!(TaskType::EmailNotification.to_string(), "email_notification");
    assert_eq!(TaskType::DataBackup.to_string(), "data_backup");
    assert_eq!(TaskType::SystemCleanup.to_string(), "system_cleanup");
    assert_eq!(TaskType::Custom("nightly".to_string()).to_string(), "custom_nightly");
    assert_eq!(DocumentType::Json.as_str(), "json");
    assert_eq!(LogLevel::Critical.to_string(), "critical");
}

#[test]
fn page_windows() {
    assert_eq!(page_window(1, 10), Some((10, 0)));
    assert_eq!(page_window(3, 25), Some((25, 50)));
    assert_eq!(page_window(0, 10), Some((10, -10)));
    assert_eq!(page_window(i64::MAX, 2), None);
    assert_eq!(page_window(i64::MIN, 1), None);
    assert_eq!(page_window(i64::MIN, 0), Some((0, 0)));
    let logs = ListLogsQuery { level: None, source: None, from: None, to: None, page: None, size: None };
    assert_eq!(logs.window(), Some((10, 0)));
    let users = ListUsersQuery { role: None, is_active: None, is_online: None, search: None, page: None, size: None };
    assert_eq!(users.window(), Some((10, -10)));
    let users = ListUsersQuery { role: None, is_active: None, is_online: None, search: None, page: Some(4), size: Some(5) };
    assert_eq!(users.window(), Some((5, 15)));
    let programs = ListProgramQuery { search: None, page: Some(2), size: None, sort: None };
    assert_eq!(programs.window(), Some((10, 10)));
    let tasks = ListTasksQuery { search: None, task_type: None, status: None, priority: None, is_active: None, page: 3, size: 7 };
    assert_eq!(tasks.window(), Some((7, 14)));
    let tasks = ListTasksQuery { search: None, task_type: None, status: None, priority: None, is_active: None, page: i32::MAX, size: 7 };
    assert_eq!(tasks.window(), None);
}

#[test]
fn error_statuses_and_messages() {
    let text = |s: &str| s.to_string();
    let cases = [
        (AppError::Database(text("disk")), 500, "A database error occurred", "Database error: disk"),
        (AppError::Migration(text("m")), 500, "m", "Database migration error: m"),
        (AppError::Auth(text("a")), 401, "a", "Authentication error: a"),
        (AppError::Validation(text("v")), 400, "v", "Validation error: v"),
        (AppError::NotFound(text("n")), 404, "n", "Not found: n"),
        (AppError::BadRequest(text("b")), 400, "b", "Bad request: b"),
        (AppError::InvalidInput(text("i")), 400, "i", "Invalid input: i"),
        (AppError::Configuration(text("c")), 500, "c", "Configuration error: c"),
        (AppError::Server(text("s")), 500, "s", "Server error: s"),
        (AppError::Email(text("e")), 500, "e", "Email error: e"),
        (AppError::External(text("x")), 502, "x", "External service error: x"),
        (AppError::JobScheduler(text("j")), 500, "j", "Job scheduler error: j"),
        (AppError::Jwt(text("t")), 500, "t", "JWT error: t"),
        (AppError::Io(text("io")), 500, "An IO error occurred", "IO error: io"),
        (AppError::Python(text("py")), 500, "A Python error occurred", "Python error: py"),
        (AppError::Multipart(text("mp")), 400, "A Multipart error occurred", "Multipart error: mp"),
    ];
    for (error, status, message, description) in cases {
        assert_eq!(error.status_code(), status);
        assert_eq!(error.response_message(), message);
        assert_eq!(error.to_string(), description);
        assert_eq!(error.clone().into_response(), (status, message.to_string()));
    }
    assert_eq!(AppError::from("boom".to_string()), AppError::Server("boom".to_string()));
}

#[test]
fn text_helpers() {
    assert_eq!(decimal(0), "0");
    assert_eq!(decimal(7), "7");
    assert_eq!(decimal(10), "10");
    assert_eq!(decimal(1234567890), "1234567890");
    assert_eq!(decimal(u128::MAX), u128::MAX.to_string());
    assert!(same_text("abc", "abc"));
    assert!(!same_text("abc", "abd"));
    assert!(starts_with("Bearer x", "Bearer "));
    assert!(starts_with("x", ""));
    assert!(!starts_with("Bear", "Bearer "));
    assert!(starts_with("\u{e9}t\u{e9}", "\u{e9}t"));
}

#[test]
fn records() {
    let user = User::registered(9, "a@b.c".to_string(), "hash".to_string(), "salt".to_string(), "Ann".to_string(), 1700);
    assert_eq!(user.role, UserRole::User);
    assert_eq!(user.gender, 2);
    assert!(user.is_active && !user.is_online);
    assert_eq!(user.created_at, Some(1700));
    let public = user.clone().without_secrets();
    assert_eq!(public.password, None);
    assert_eq!(public.salt, None);
    assert_eq!(public.email, user.email);
    assert_eq!(public.username, Some("Ann".to_string()));
    let request = UpdateDocumentRequest::content_only("hello".to_string());
    assert_eq!(request.content, Some("hello".to_string()));
    assert_eq!(request.title, None);
    let answer = ResponseResult::success(Some("ok".to_string()), Some(3u8));
    assert_eq!((answer.code, answer.result), (0, Some(3u8)));
    assert_eq!(default_system_email(), "system@example.com");
    let config = Config {
        database_url: String::new(),
        redis_url: String::new(),
        jwt_secret: String::new(),
        server_port: 8080,
        smtp_host: "mail.example.com".to_string(),
        smtp_username: String::new(),
        smtp_password: String::new(),
        system_user_id: 1,
        system_user_email: default_system_email(),
    };
    assert_eq!(config.listen_address(), "127.0.0.1:8080");
    assert_eq!(config.mail_sender(), "noreply@mail.example.com");
    let task = ScheduledTask {
        id: 1, name: "t".to_string(), description: None, task_type: TaskType::DataBackup,
        cron_expression: None, one_time: false, priority: TaskPriority::Low, timeout_seconds: None,
        max_retries: 0, retry_delay_seconds: 0, parameters: None, status: TaskStatus::Pending,
        is_active: true, created_by: 2, created_at: None, updated_at: None, next_run_at: None,
        last_run_at: None,
    };
    assert_eq!(task.schedule(), "");
    let timed = ScheduledTask { cron_expression: Some("0 0 * * * *".to_string()), ..task };
    assert_eq!(timed.schedule(), "0 0 * * * *");
}
