use work_designer_server::api::auth::{
    create_token, login, register, send_verification_code, LoginDecision, RegisterDecision,
};
use work_designer_server::api::documents;
use work_designer_server::api::logs;
use work_designer_server::api::documents::UpdateDecision;
use work_designer_server::api::monitor::{
    get_status, monitor_reply, ws_monitor, MonitorDecision, MonitorFrame, MonitorReply,
};
use work_designer_server::models::document::DocumentUpdateMessage;
use work_designer_server::models::message::SocketPushMessage;
use work_designer_server::api::program;
use work_designer_server::api::users;
use work_designer_server::error::AppError;
use work_designer_server::middleware::auth::{bearer_token, principal, AuthRejection, AuthUser, Claims};
use work_designer_server::middleware::monitor::{request_level, request_message, track_metrics};
use work_designer_server::middleware::{needs_auth, require_auth};
use work_designer_server::models::log::LogLevel;
use work_designer_server::models::program::{ProgramCompileResponse, ProgramStatus};
use work_designer_server::models::user::{User, UserRole};
use work_designer_server::services::program::{
    compile_program, compiling, execution_failure, execution_update, run_program,
};
use work_designer_server::services::user::create_verification_code;
use work_designer_server::utils::cron::validate_cron;
use work_designer_server::utils::password::{generate, try_generate, try_verify, verify};
use work_designer_server::utils::python::PythonExecutor;

fn auth(id: u128, role: &str) -> AuthUser {
    AuthUser { user_id: id, role: role.to_string() }
}

fn denied(message: &str) -> Result<(), AppError> {
    Err(AppError::Auth(message.to_string()))
}

#[test]
fn login_steps() {
    let refuse = |m: &str| LoginDecision::Refuse(AppError::Auth(m.to_string()));
    assert_eq!(login(0, Some(true), Some(true)), refuse("User not found"));
    assert_eq!(login(5, None, None), LoginDecision::VerifyPassword);
    assert_eq!(login(5, Some(false), Some(true)), refuse("Password is incorrect"));
    assert_eq!(login(5, Some(true), None), LoginDecision::VerifyCode);
    assert_eq!(login(5, Some(true), Some(false)), refuse("Invalid verification code"));
    assert_eq!(login(5, Some(true), Some(true)), LoginDecision::IssueToken);
    assert_eq!(
        register(true, Some(true)),
        RegisterDecision::Refuse(AppError::Validation("Email already exists".to_string()))
    );
    assert_eq!(register(false, None), RegisterDecision::VerifyCode);
    assert_eq!(
        register(false, Some(false)),
        RegisterDecision::Refuse(AppError::Auth("Invalid verification code".to_string()))
    );
    assert_eq!(register(false, Some(true)), RegisterDecision::CreateUser);
}

#[test]
fn token_claims_expire_after_a_day() {
    let claims = create_token("u-1", "admin", 1_700_000_000).unwrap();
    assert_eq!(claims, Claims { sub: "u-1".to_string(), role: "admin".to_string(), exp: 1_700_086_400 });
    assert_eq!(create_token("u", "user", -86_401), None);
    assert_eq!(create_token("u", "user", -86_400).unwrap().exp, 0);
    let (subject, body) = send_verification_code("123456");
    assert_eq!(subject, "您的验证码");
    assert_eq!(body, "您的验证码是: 123456，15分钟内有效。");
    let user = principal(77, Claims { sub: "x".to_string(), role: "guest".to_string(), exp: 1 });
    assert_eq!(user, auth(77, "guest"));
    assert_eq!(user.role(), UserRole::Guest);
}

#[test]
fn requests_need_a_bearer_token() {
    assert!(!needs_auth("/api/v1/auth/login"));
    assert!(needs_auth("/api/v1/auth"));
    assert!(needs_auth("/api/v1/users"));
    assert!(needs_auth(""));
    assert_eq!(require_auth("/api/v1/auth/register", None), Ok(()));
    assert_eq!(require_auth("/api/v1/users", Some("Bearer abc")), Ok(()));
    assert_eq!(require_auth("/api/v1/users", Some("Basic abc")), denied("Missing or invalid authorization"));
    assert_eq!(require_auth("/api/v1/users", None), denied("Missing or invalid authorization"));
    assert_eq!(bearer_token(Some("Bearer abc.def")), Ok("abc.def"));
    assert_eq!(bearer_token(Some("Bearer ")), Ok(""));
    assert_eq!(bearer_token(Some("bearer abc")), Err(AuthRejection::InvalidFormat));
    assert_eq!(bearer_token(None), Err(AuthRejection::MissingHeader));
    assert_eq!(AuthRejection::InvalidToken.message(), "Invalid token");
    assert_eq!(AuthRejection::MissingHeader.status_code(), 401);
}

#[test]
fn document_rules() {
    let some = |s: &str| Some(s.to_string());
    assert!(documents::may_update(&some("write")));
    assert!(!documents::may_update(&some("read")));
    assert!(!documents::may_update(&None));
    assert_eq!(documents::update_permissions(1, &auth(1, "user"), &None), Ok(()));
    assert_eq!(documents::update_permissions(1, &auth(2, "user"), &some("read")), Ok(()));
    assert_eq!(documents::update_permissions(1, &auth(2, "admin"), &None), denied("Insufficient permissions"));
    assert_eq!(documents::delete_document(&auth(1, "admin")), Ok(()));
    assert_eq!(documents::delete_document(&auth(1, "user")), denied("Insufficient permissions"));
    assert_eq!(documents::list_documents(&auth(1, "guest")), denied("Insufficient permissions"));
}

#[test]
fn user_rules() {
    assert_eq!(users::list_users(&auth(1, "admin")), Ok(()));
    assert_eq!(users::list_users(&auth(1, "user")), denied("Unauthorized"));
    assert_eq!(users::get_user(&auth(1, "user"), 1), Ok(()));
    assert_eq!(users::get_user(&auth(1, "admin"), 2), denied("Unauthorized"));
    assert_eq!(users::update_user(&auth(1, "user"), 2), denied("Unauthorized"));
    assert_eq!(users::update_user_password(&auth(3, "user"), 3), Ok(()));
    assert_eq!(users::delete_user(&auth(1, "user"), 1), Ok(()));
    assert_eq!(users::delete_user(&auth(1, "admin"), 2), Ok(()));
    assert_eq!(
        users::delete_user(&auth(1, "user"), 2),
        denied("Not allowed to delete users, only admin can do this")
    );
    assert_eq!(users::create_user(&auth(1, "admin"), false), Ok(()));
    assert_eq!(users::create_user(&auth(1, "admin"), true), denied("Email already exists"));
    assert_eq!(
        users::create_user(&auth(1, "user"), false),
        denied("Not allowed to create users, only admin can do this")
    );
    assert_eq!(users::upload_user_avatar(&auth(1, "user"), 1, Some("me.jpg")), Ok("./uploads/me.jpg".to_string()));
    assert_eq!(users::upload_user_avatar(&auth(1, "user"), 1, None), Ok("./uploads/avatar.png".to_string()));
    assert_eq!(
        users::upload_user_avatar(&auth(1, "user"), 2, None),
        Err(AppError::Auth("Unauthorized".to_string()))
    );
    assert_eq!(users::no_file_uploaded(), AppError::BadRequest("No file uploaded".to_string()));
}

#[test]
fn program_log_and_monitor_rules() {
    let bad = |m: &str| Err(AppError::BadRequest(m.to_string()));
    assert_eq!(program::create_program("x"), Ok(()));
    assert_eq!(program::create_program(""), bad("Name is required"));
    assert_eq!(program::get_program(0), bad("Id is required"));
    assert_eq!(program::update_program(1), Ok(()));
    assert_eq!(program::delete_program(0), bad("Id is required"));
    assert_eq!(logs::list_logs(&auth(1, "user")), denied("Unauthorized"));
    assert_eq!(logs::get_log(&auth(1, "user")), denied("Insufficient permissions"));
    assert_eq!(logs::delete_old_logs(&auth(1, "admin")), Ok(()));
    assert_eq!(logs::deleted_message(0), "No logs deleted");
    assert_eq!(logs::deleted_message(12), "Deleted 12 logs");
    assert_eq!(get_status(&auth(1, "admin")), Ok(()));
    assert_eq!(get_status(&auth(1, "guest")), denied("Unauthorized"));
    assert_eq!(ws_monitor(&auth(1, "admin")), MonitorDecision::Stream);
    assert_eq!(ws_monitor(&auth(1, "user")), MonitorDecision::Refuse("Unauthorized".to_string()));
    assert_eq!(ws_monitor(&auth(1, "guest")), MonitorDecision::Refuse("Unauthorized".to_string()));
    assert_eq!(ws_monitor(&auth(1, "Admin")), MonitorDecision::Refuse("Unauthorized".to_string()));
    assert_eq!(monitor_reply(MonitorFrame::Ping(vec![9])), MonitorReply::Pong(vec![9]));
    assert_eq!(monitor_reply(MonitorFrame::Close), MonitorReply::Stop);
    assert_eq!(monitor_reply(MonitorFrame::Other), MonitorReply::Ignore);
}

#[test]
fn request_log_entries() {
    assert_eq!(request_level(200), LogLevel::Info);
    assert_eq!(request_level(399), LogLevel::Info);
    assert_eq!(request_level(400), LogLevel::Error);
    assert_eq!(request_message("GET", "/api/v1/users", 404, 12), "GET /api/v1/users 404 12ms");
    let entry = track_metrics(5, "POST", "/x", 500, 0, Some("{}".to_string()), 99);
    assert_eq!(entry.id, 5);
    assert_eq!(entry.level, LogLevel::Error);
    assert_eq!(entry.message, "POST /x 500 0ms");
    assert_eq!(entry.source, Some("monitor middleware".to_string()));
    assert_eq!(entry.metadata, Some("{}".to_string()));
    assert_eq!(entry.created_at, Some(99));
}

#[test]
fn program_compilation_and_run() {
    let executor = PythonExecutor::new();
    let compiled = executor.compile("print(1)", 50);
    assert_eq!(compiled.clone().unwrap().status, ProgramStatus::Compiled);
    assert_eq!(compiled.clone().unwrap().time, 50);
    assert_eq!(compiling(), ProgramStatus::Compiling);
    let (status, answer) = compile_program(compiled, 60);
    assert_eq!(status, ProgramStatus::Compiled);
    assert_eq!((answer.status, answer.time, answer.error_line), (ProgramStatus::Compiled, 60, None));
    let failure = ProgramCompileResponse {
        status: ProgramStatus::Pending,
        time: 1,
        error_file: Some("main.py".to_string()),
        error_type: Some("SyntaxError".to_string()),
        error_line: Some(3),
        error_message: Some("bad".to_string()),
        error_suggestions: None,
    };
    let (status, answer) = compile_program(Err(failure), 70);
    assert_eq!(status, ProgramStatus::Failed);
    assert_eq!(answer.status, ProgramStatus::Failed);
    assert_eq!(answer.time, 70);
    assert_eq!(answer.error_line, Some(3));
    assert_eq!(answer.error_file, Some("main.py".to_string()));
    assert_eq!(run_program(ProgramStatus::Compiled), Ok(()));
    assert_eq!(
        run_program(ProgramStatus::Failed),
        Err(AppError::BadRequest("Program must be compiled first".to_string()))
    );
    let update = execution_update(4, 10, Some("out".to_string()), None, 5);
    assert_eq!((update.id, update.line, update.input.clone(), update.timestamp), (4, 10, None, 5));
    let failed = execution_failure(4, "boom".to_string(), 6);
    assert_eq!((failed.line, failed.error, failed.output), (-1, Some("boom".to_string()), None));
}

#[test]
fn cron_expressions() {
    assert!(validate_cron("0 30 9,12,15 1,15 May-Aug Mon,Wed,Fri 2018/2"));
    assert!(validate_cron("0 0 * * * *"));
    assert!(!validate_cron("not a schedule"));
    assert!(!validate_cron(""));
    assert!(!validate_cron("0 0 25 * * *"));
}

#[test]
fn verification_codes_are_six_digits() {
    for _ in 0..50 {
        let code = create_verification_code();
        assert_eq!(code.len(), 6);
        assert!(code.chars().all(|c| c.is_ascii_digit()));
    }
}

#[test]
fn passwords_are_hashed_and_verified() {
    let (hash, salt) = generate("password123", None).unwrap();
    assert!(hash.starts_with("$argon2"));
    assert_ne!(hash, "password123");
    assert_eq!(verify("password123", &hash), Ok(true));
    assert_eq!(verify("password124", &hash), Ok(false));
    let (again, same_salt) = generate("password123", Some(&salt)).unwrap();
    assert_eq!(again, hash);
    assert_eq!(same_salt, salt);
    let (other, _) = generate("password123", None).unwrap();
    assert_ne!(other, hash);
    assert_eq!(try_generate("p", Some("not a salt!")), None);
    assert_eq!(try_generate("p", Some(&salt)).unwrap().unwrap().1, salt);
    assert!(matches!(try_generate("p", Some("abcd")), Some(Err(AppError::Auth(_)))));
    assert_eq!(try_verify("password123", &hash), Some(true));
    assert_eq!(try_verify("nope", &hash), Some(false));
    assert_eq!(try_verify("password123", "plain"), None);
}

#[test]
fn test_register_and_login() {
    assert_eq!(register(false, None), RegisterDecision::VerifyCode);
    assert_eq!(register(false, Some(true)), RegisterDecision::CreateUser);
    let (hash, salt) = generate("password123", None).unwrap();
    let user = User::registered(
        41,
        "test@example.com".to_string(),
        hash.clone(),
        salt,
        "Test User".to_string(),
        1_700_000_000,
    );
    assert_eq!(user.email, "test@example.com");
    assert_eq!(user.username, Some("Test User".to_string()));
    assert_eq!(user.role, UserRole::User);

    assert_eq!(login(user.id, None, None), LoginDecision::VerifyPassword);
    let accepted = try_verify("password123", &hash);
    assert_eq!(accepted, Some(true));
    assert_eq!(login(user.id, accepted, None), LoginDecision::VerifyCode);
    assert_eq!(login(user.id, accepted, Some(true)), LoginDecision::IssueToken);
    let answered = user.without_secrets();
    assert_eq!(answered.email, "test@example.com");
    assert_eq!(answered.password, None);
    assert_eq!(answered.salt, None);
}

#[test]
fn document_update_is_stored_before_it_is_published() {
    let editor = auth(10, "user");
    let write = Some("write".to_string());
    let hello = Some("hello".to_string());
    let refuse = UpdateDecision::Refuse(AppError::Auth("Insufficient permissions".to_string()));

    assert_eq!(documents::update_document(1, &editor, &None, hello.clone(), None), refuse);
    assert_eq!(
        documents::update_document(1, &editor, &Some("read".to_string()), hello.clone(), Some(Ok(()))),
        refuse
    );
    assert_eq!(
        documents::update_document(1, &editor, &write, hello.clone(), None),
        UpdateDecision::Persist
    );
    assert_eq!(
        documents::update_document(1, &editor, &write, hello.clone(), Some(Ok(()))),
        UpdateDecision::Publish(SocketPushMessage::Document(DocumentUpdateMessage {
            document_id: 1,
            user_id: 10,
            content: "hello".to_string(),
            cursor_position: None,
        }))
    );
    assert_eq!(
        documents::update_document(1, &editor, &write, None, Some(Ok(()))),
        UpdateDecision::Done
    );
    let failure = AppError::Database("disk full".to_string());
    assert_eq!(
        documents::update_document(1, &editor, &write, hello, Some(Err(failure.clone()))),
        UpdateDecision::Fail(failure)
    );
}
