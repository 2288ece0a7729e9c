use ledger_core::auth::{
    bearer_header, bearer_token, explain_registration_failure, login, new_user, normalize_username,
    register, registered, AuthError, Claims, LoginRequest, RegisterRequest, StoredUser,
};
use ledger_core::config::{
    parse_port, parse_recipients, split_commas, NotificationConfig, SmtpConfig, SmtpValues,
};
use ledger_core::error::{join, ServiceError, StoreFault};
use ledger_core::notify::{
    summarize, wiring_for, MultiNotifier, NoopNotifier, Notifier, TestNotificationResponse, Wiring,
};
use ledger_core::ownership::{check_link, check_subject};
use ledger_core::session::{
    AppState, AuthMode, AuthPayload, CreateAccountRequest, ErrorResponse, Tab, User,
};
use ledger_core::text::{
    char_is_letter, char_is_letter_or_digit, normalize_lower, normalize_upper, only_letters,
    only_letters_or_digits, same_text, three_letters,
};

#[test]
fn text_is_trimmed_and_cased() {
    assert_eq!(normalize_lower("  BaNk_CaRd \n"), "bank_card");
    assert_eq!(normalize_upper("\tusd  "), "USD");
    assert_eq!(normalize_lower(""), "");
    assert_eq!(normalize_upper("  "), "");
    assert_eq!(normalize_upper(" straße "), "STRASSE");
    assert_eq!(normalize_lower(" ÉCU "), "écu");
}

#[test]
fn character_classes() {
    for c in ['a', 'z', 'A', 'Z', 'm'] {
        assert!(char_is_letter(c));
        assert!(char_is_letter_or_digit(c));
    }
    for c in ['0', '9', '5'] {
        assert!(!char_is_letter(c));
        assert!(char_is_letter_or_digit(c));
    }
    for c in ['@', '[', '`', '{', '/', ':', ' ', 'é', '_'] {
        assert!(!char_is_letter(c));
        assert!(!char_is_letter_or_digit(c));
    }
    assert!(only_letters("abcXYZ"));
    assert!(only_letters(""));
    assert!(!only_letters("abc1"));
    assert!(only_letters_or_digits("abc123"));
    assert!(!only_letters_or_digits("abc-123"));
    assert!(three_letters("abc"));
    assert!(!three_letters("ab"));
    assert!(!three_letters("abcd"));
    assert!(!three_letters("ab1"));
    assert!(same_text("héllo", "héllo"));
    assert!(!same_text("hello", "hellO"));
    assert!(!same_text("hello", "hell"));
    assert!(same_text("", ""));
    assert_eq!(join("ab", "cd"), "abcd");
}

#[test]
fn guard_tells_absent_foreign_and_own() {
    assert!(matches!(check_subject(None, 1), Err(ServiceError::NotFound)));
    assert!(matches!(check_subject(Some(2), 1), Err(ServiceError::Forbidden)));
    assert!(check_subject(Some(1), 1).is_ok());

    assert!(check_link(Some(1), 1, 5).is_ok());
    assert!(matches!(check_link(Some(2), 1, 5), Err(ServiceError::Forbidden)));
    match check_link(None, 1, u128::MAX).unwrap_err() {
        ServiceError::Validation(m) => {
            assert_eq!(m, "Account ffffffff-ffff-ffff-ffff-ffffffffffff not found")
        }
        other => panic!("expected a validation failure, got {:?}", other),
    }
}

#[test]
fn failures_have_a_status_and_two_texts() {
    let cases = [
        (ServiceError::NotFound, 404, "Resource not found", "Resource not found"),
        (ServiceError::Forbidden, 403, "Access forbidden", "Access forbidden"),
        (ServiceError::validation("bad"), 400, "bad", "Validation error: bad"),
        (ServiceError::conflict("taken"), 409, "taken", "Conflict: taken"),
        (
            ServiceError::Database("disk".to_string()),
            500,
            "Internal server error",
            "Database error: disk",
        ),
    ];
    for (e, status, shown, described) in cases {
        assert_eq!(e.status_code(), status);
        assert_eq!(e.public_message(), shown);
        assert_eq!(e.describe(), described);
    }
    let e = ServiceError::from_store(StoreFault::Exec("refused".to_string()));
    assert_eq!(e.describe(), "Database error: refused");
    let e = ServiceError::from_store(StoreFault::Unique("taken".to_string()));
    assert_eq!(e.describe(), "Database error: taken");
    let e = ServiceError::from_store(StoreFault::Query("q".to_string()));
    assert_eq!(e.describe(), "Database error: q");
    let e = ServiceError::from_store(StoreFault::Other("o".to_string()));
    assert_eq!(e.describe(), "Database error: o");
}

#[test]
fn auth_mode_texts() {
    assert_eq!(AuthMode::Login.endpoint(), "/login");
    assert_eq!(AuthMode::Register.endpoint(), "/register");
    assert_eq!(AuthMode::Login.button_text(), "登录");
    assert_eq!(AuthMode::Register.button_text(), "注册");
    assert_eq!(AuthMode::Login.toggle_text(), "还没有账号？去注册");
    assert_eq!(AuthMode::Register.toggle_text(), "已有账号？去登录");
    assert_eq!(AuthMode::Login.toggle(), AuthMode::Register);
    assert_eq!(AuthMode::Register.toggle(), AuthMode::Login);
    assert_eq!(AuthMode::Login.toggle().toggle(), AuthMode::Login);
}

#[test]
fn sign_in_form_needs_name_and_password() {
    let p = AuthPayload::from_form("alice", "secret").unwrap();
    assert_eq!(p.username, "alice");
    assert_eq!(p.password, "secret");
    assert_eq!(AuthPayload::from_form("", "secret").unwrap_err(), "用户名和密码不能为空");
    assert_eq!(AuthPayload::from_form("alice", "").unwrap_err(), "用户名和密码不能为空");
    // Blanks are not empty.
    assert!(AuthPayload::from_form(" ", " ").is_ok());
}

#[test]
fn session_state() {
    let mut state = AppState::new();
    assert!(!state.is_authenticated());
    state.set_auth(User { id: "1".to_string(), username: "alice".to_string() }, "tok".to_string());
    assert!(state.is_authenticated());
    assert_eq!(state.user.as_ref().unwrap().username, "alice");
    assert_eq!(state.token.as_deref(), Some("tok"));
    state.token = None;
    assert!(!state.is_authenticated());
    state.logout();
    assert!(state.user.is_none());
    assert!(!state.is_authenticated());

    assert_eq!(ledger_core::session::AuthError::Network("超时".to_string()).message(), "网络错误: 超时");
    assert_eq!(ledger_core::session::AuthError::Server("no".to_string()).message(), "no");
    assert_eq!(ledger_core::session::AuthError::InvalidResponse.message(), "服务器响应异常");
}

fn attempt(password: &str) -> LoginRequest {
    LoginRequest { username: "Alice".to_string(), password: password.to_string() }
}

#[test]
fn registration_and_login() {
    assert_eq!(normalize_username("  Alice "), "alice");
    let req = RegisterRequest { username: "  Alice ".to_string(), password: "password123".to_string() };
    let user = register(&req, 42, 1_000).unwrap();
    assert_eq!(user.id, 42);
    assert_eq!(user.username, "alice");
    assert_eq!(user.created_at, 1_000);
    assert_ne!(user.password_hash, "password123");
    assert!(user.password_hash.starts_with("$argon2"));

    let again = register(&req, 43, 1_000).unwrap();
    assert_ne!(again.password_hash, user.password_hash);

    let stored = || StoredUser {
        id: 42,
        username: "alice".to_string(),
        password_hash: user.password_hash.clone(),
        created_at: 1_000,
    };
    let shown = login(Some(stored()), &attempt("password123")).unwrap();
    assert_eq!(shown.id, 42);
    assert_eq!(shown.username, "alice");
    assert!(matches!(login(Some(stored()), &attempt("password124")), Err(AuthError::AuthenticationFailed)));
    assert!(matches!(login(None, &attempt("password123")), Err(AuthError::AuthenticationFailed)));
    let broken = StoredUser {
        id: 1,
        username: "bob".to_string(),
        password_hash: "password123".to_string(),
        created_at: 0,
    };
    assert!(matches!(login(Some(broken), &attempt("password123")), Err(AuthError::AuthenticationFailed)));

    let shown = registered(stored());
    assert_eq!(shown.id, 42);
    assert_eq!(shown.username, "alice");

    assert!(matches!(new_user(&req, None, 1, 2), Err(AuthError::PasswordHashError)));
    let made = new_user(&req, Some("h".to_string()), 1, 2).unwrap();
    assert_eq!(made.username, "alice");
    assert_eq!(made.password_hash, "h");
}

#[test]
fn auth_failures() {
    assert!(matches!(
        explain_registration_failure(StoreFault::Unique("x".to_string())),
        AuthError::RegistrationFailed
    ));
    assert!(matches!(
        explain_registration_failure(StoreFault::Exec("x".to_string())),
        AuthError::RegistrationFailed
    ));
    assert!(matches!(
        explain_registration_failure(StoreFault::Query("x".to_string())),
        AuthError::RegistrationFailed
    ));
    assert!(matches!(
        explain_registration_failure(StoreFault::Other("x".to_string())),
        AuthError::Database(_)
    ));
    let cases = [
        (AuthError::AuthenticationFailed, 401, "Authentication failed", "Authentication failed"),
        (AuthError::InvalidToken, 401, "Invalid token", "Invalid token"),
        (AuthError::RegistrationFailed, 400, "Registration failed", "Registration failed"),
        (AuthError::PasswordHashError, 500, "Internal server error", "Password hash error"),
        (AuthError::Database("d".to_string()), 500, "Internal server error", "Database error: d"),
    ];
    for (e, status, shown, described) in cases {
        assert_eq!(e.status_code(), status);
        assert_eq!(e.public_message(), shown);
        assert_eq!(e.describe(), described);
    }
}

#[test]
fn tokens() {
    let claims = Claims::issue("sub".to_string(), 1_700_000_000).unwrap();
    assert_eq!(claims.sub, "sub");
    assert_eq!(claims.iat, 1_700_000_000);
    assert_eq!(claims.exp, 1_700_086_400);
    assert!(Claims::issue("sub".to_string(), -1).is_none());
    assert!(Claims::issue("sub".to_string(), i64::MAX).is_none());
    assert!(Claims::issue("sub".to_string(), 0).is_some());

    let claims = Claims::issue("00000000-0000-0000-0000-00000000002a".to_string(), 0).unwrap();
    assert_eq!(claims.subject_id(), Some(42));
    let claims = Claims::issue("not an id".to_string(), 0).unwrap();
    assert_eq!(claims.subject_id(), None);

    assert_eq!(bearer_token("Bearer abc.def"), Some("abc.def"));
    assert_eq!(bearer_token("Bearer "), Some(""));
    assert_eq!(bearer_token("Bearer é"), Some("é"));
    assert_eq!(bearer_token("bearer abc"), None);
    assert_eq!(bearer_token("Bearer"), None);
    assert_eq!(bearer_token("Basic abc"), None);
    assert_eq!(bearer_token(""), None);
}

struct Fails(&'static str);

impl Notifier for Fails {
    fn send(&self, _message: &str) -> Result<(), String> {
        if self.0.is_empty() {
            Ok(())
        } else {
            Err(self.0.to_string())
        }
    }
}

#[test]
fn several_channels_fail_only_together() {
    assert!(summarize(&vec![]).is_ok());
    assert!(summarize(&vec![Ok(())]).is_ok());
    assert!(summarize(&vec![Err("a".to_string()), Ok(()), Err("b".to_string())]).is_ok());
    assert_eq!(summarize(&vec![Err("a".to_string())]).unwrap_err(), "All notifiers failed: a");
    assert_eq!(
        summarize(&vec![Err("a".to_string()), Err("b".to_string()), Err("c".to_string())]).unwrap_err(),
        "All notifiers failed: a, b, c"
    );

    let none: MultiNotifier<Fails> = MultiNotifier::new(vec![]);
    assert_eq!(none.len(), 0);
    assert!(none.send("hi").is_ok());
    let mixed = MultiNotifier::new(vec![Fails("x"), Fails(""), Fails("y")]);
    assert_eq!(mixed.len(), 3);
    assert!(mixed.send("hi").is_ok());
    let all = MultiNotifier::new(vec![Fails("x"), Fails("y")]);
    assert_eq!(all.send("hi").unwrap_err(), "All notifiers failed: x, y");
    assert!(NoopNotifier.send("hi").is_ok());
    assert!(MultiNotifier::new(vec![NoopNotifier, NoopNotifier]).send("hi").is_ok());
}

#[test]
fn channels_are_wired_by_their_number() {
    assert_eq!(wiring_for(0), Wiring::Noop);
    assert_eq!(wiring_for(1), Wiring::Single);
    assert_eq!(wiring_for(2), Wiring::Multi);
    assert_eq!(wiring_for(usize::MAX), Wiring::Multi);

    let (status, body) = TestNotificationResponse::report(Ok(()));
    assert_eq!(status, 200);
    assert!(body.success);
    assert_eq!(body.error, None);
    let (status, body) = TestNotificationResponse::report(Err("down".to_string()));
    assert_eq!(status, 500);
    assert!(!body.success);
    assert_eq!(body.error.as_deref(), Some("down"));
}

fn values(port: &str, recipients: &str) -> SmtpValues {
    SmtpValues {
        server: Some("smtp.example.com".to_string()),
        port: Some(port.to_string()),
        username: Some("user".to_string()),
        password: Some("pass".to_string()),
        from: Some("from@example.com".to_string()),
        recipients: Some(recipients.to_string()),
    }
}

#[test]
fn mail_configuration() {
    assert_eq!(parse_port("2525"), 2525);
    assert_eq!(parse_port("65535"), 65535);
    assert_eq!(parse_port("65536"), 587);
    assert_eq!(parse_port("smtp"), 587);
    assert_eq!(parse_port(""), 587);
    assert_eq!(parse_port(" 25"), 587);
    assert_eq!(parse_port("25 "), 587);
    assert_eq!(parse_port("+25"), 25);
    assert_eq!(parse_port("0025"), 25);
    assert_eq!(parse_port("000000000000000000065535"), 65535);
    assert_eq!(parse_port("0"), 0);
    assert_eq!(parse_port("+"), 587);
    assert_eq!(parse_port("++25"), 587);
    assert_eq!(parse_port("-1"), 587);
    assert_eq!(parse_port("-0"), 587);
    assert_eq!(parse_port("2５"), 587);
    assert_eq!(parse_port("99999"), 587);

    assert_eq!(split_commas("a,b,c"), vec!["a", "b", "c"]);
    assert_eq!(split_commas(""), vec![""]);
    assert_eq!(split_commas(","), vec!["", ""]);
    assert_eq!(split_commas("a,,b,"), vec!["a", "", "b", ""]);
    assert_eq!(split_commas("é, ü"), vec!["é", " ü"]);
    assert_eq!(parse_recipients(" a@x.org , ,b@x.org,"), vec!["a@x.org", "b@x.org"]);
    assert!(parse_recipients(" , ,").is_empty());
    assert!(parse_recipients("").is_empty());

    let config = SmtpConfig::from_values(values("465", "a@x.org, b@x.org")).unwrap();
    assert_eq!(config.server, "smtp.example.com");
    assert_eq!(config.port, 465);
    assert_eq!(config.username, "user");
    assert_eq!(config.password, "pass");
    assert_eq!(config.from, "from@example.com");
    assert_eq!(config.recipients, vec!["a@x.org", "b@x.org"]);

    assert_eq!(SmtpConfig::from_values(values("x", "a@x.org")).unwrap().port, 587);
    assert!(SmtpConfig::from_values(values("465", " , ")).is_none());
    let mut missing = values("465", "a@x.org");
    missing.from = None;
    assert!(SmtpConfig::from_values(missing).is_none());

    let config = NotificationConfig::from_values(Some("https://hook".to_string()), values("25", "a@x.org"));
    assert_eq!(config.feishu_webhook_url.as_deref(), Some("https://hook"));
    assert_eq!(config.smtp_config.unwrap().port, 25);
    let mut missing = values("25", "a@x.org");
    missing.server = None;
    let config = NotificationConfig::from_values(None, missing);
    assert!(config.feishu_webhook_url.is_none());
    assert!(config.smtp_config.is_none());
}

#[test]
fn header_and_token_round_trip() {
    assert_eq!(bearer_header("abc.def"), "Bearer abc.def");
    assert_eq!(bearer_header(""), "Bearer ");
    for token in ["abc.def", "", "Bearer x", "é"] {
        assert_eq!(bearer_token(&bearer_header(token)), Some(token));
    }
}

#[test]
fn account_form_needs_name_type_and_currency() {
    let f = CreateAccountRequest::from_fields("Cash", "cash", "USD", "").unwrap();
    assert_eq!(f.name, "Cash");
    assert_eq!(f.account_type, "cash");
    assert_eq!(f.currency_code, "USD");
    assert_eq!(f.initial_balance, None);
    let f = CreateAccountRequest::from_fields("Cash", "cash", "USD", "12.50").unwrap();
    assert_eq!(f.initial_balance.as_deref(), Some("12.50"));
    for (name, kind, currency) in [("", "cash", "USD"), ("Cash", "", "USD"), ("Cash", "cash", "")] {
        assert_eq!(
            CreateAccountRequest::from_fields(name, kind, currency, "1").unwrap_err(),
            "Name, Type and Currency are required"
        );
    }
    assert_eq!(Tab::Accounts.label(), "Accounts");
    assert_eq!(Tab::Transactions.label(), "Transactions");
    assert_eq!(Tab::Holdings.label(), "Holdings");
}

struct Echo;

impl Notifier for Echo {
    fn send(&self, message: &str) -> Result<(), String> {
        Err(message.to_string())
    }
}

#[test]
fn every_channel_gets_the_message() {
    let all = MultiNotifier::new(vec![Echo, Echo, Echo]);
    assert_eq!(all.send("ping").unwrap_err(), "All notifiers failed: ping, ping, ping");
    assert_eq!(MultiNotifier::new(vec![Echo]).send("").unwrap_err(), "All notifiers failed: ");
}

#[test]
fn a_refusal_of_the_server_is_shown_with_its_own_text() {
    let e = ledger_core::session::AuthError::from_refusal(
        Some(ErrorResponse { error: "Authentication failed".to_string() }),
        "401",
    );
    assert_eq!(e.message(), "Authentication failed");
    let e = ledger_core::session::AuthError::from_refusal(None, "502");
    assert_eq!(e.message(), "服务器错误 (502)");
}
