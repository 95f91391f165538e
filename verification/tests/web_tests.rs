use oracle::state::{copy_texts, Config, Configuration, Smtp, User};
use oracle::time::Timestamp;
use oracle::webserver::{
    api_error, authorize, login, logout_cookie, open_session, Session, COOKIE_LENGTH,
    SESSION_MAX_AGE_SECS, STATUS_BAD_REQUEST, STATUS_UNAUTHORIZED,
};

fn at(secs: u64) -> Timestamp {
    Timestamp::new(secs, 0)
}

fn user(name: &str, password: &str) -> User {
    User { name: name.to_string(), password: password.to_string() }
}

fn configuration(smtp: Option<Smtp>) -> Configuration {
    Configuration {
        config: Config { web_port: 8080, ping_interval: 10 },
        smtp,
        users: vec![user("admin", "secret"), user("guest", "")],
    }
}

fn smtp(recievers: &[&str]) -> Smtp {
    Smtp {
        server: "mail.example.org".to_string(),
        from: "monitor@example.org".to_string(),
        user: "monitor".to_string(),
        password: "pw".to_string(),
        recievers: recievers.iter().map(|r| r.to_string()).collect(),
    }
}

fn cookies(sessions: &Vec<Session>) -> Vec<String> {
    sessions.iter().map(|s| s.0.clone()).collect()
}

#[test]
fn settings_need_a_port_and_an_interval() {
    assert!(Config { web_port: 1, ping_interval: 1 }.acceptable());
    assert!(!Config { web_port: 0, ping_interval: 1 }.acceptable());
    assert!(!Config { web_port: 1, ping_interval: 0 }.acceptable());
    assert!(!Config { web_port: 0, ping_interval: 0 }.acceptable());
}

#[test]
fn only_acceptable_settings_are_applied() {
    let mut state = configuration(None);
    assert!(!state.apply(Config { web_port: 0, ping_interval: 5 }));
    assert_eq!(state.config, Config { web_port: 8080, ping_interval: 10 });
    assert!(state.apply(Config { web_port: 80, ping_interval: 5 }));
    assert_eq!(state.config, Config { web_port: 80, ping_interval: 5 });
    assert_eq!(state.users.len(), 2);
}

#[test]
fn receivers_come_from_the_mail_settings() {
    assert!(configuration(None).receivers().is_empty());
    assert!(configuration(Some(smtp(&[]))).receivers().is_empty());
    assert_eq!(
        configuration(Some(smtp(&["a@example.org", "b@example.org"]))).receivers(),
        vec!["a@example.org".to_string(), "b@example.org".to_string()]
    );
    assert_eq!(copy_texts(&vec!["x".to_string()]), vec!["x".to_string()]);
}

#[test]
fn mail_settings_clone_keeps_every_field() {
    let copy = smtp(&["a@example.org"]).clone();
    assert_eq!(copy.server, "mail.example.org");
    assert_eq!(copy.from, "monitor@example.org");
    assert_eq!(copy.user, "monitor");
    assert_eq!(copy.password, "pw");
    assert_eq!(copy.recievers, vec!["a@example.org".to_string()]);
    let copy = user("n", "p").clone();
    assert_eq!((copy.name.as_str(), copy.password.as_str()), ("n", "p"));
}

#[test]
fn user_is_known_by_name_and_password() {
    let state = configuration(None);
    assert!(state.has_user(&user("admin", "secret")));
    assert!(state.has_user(&user("guest", "")));
    assert!(!state.has_user(&user("admin", "wrong")));
    assert!(!state.has_user(&user("secret", "admin")));
    assert!(!state.has_user(&user("nobody", "secret")));
    assert!(user("a", "b").same(&user("a", "b")));
    assert!(!user("a", "b").same(&user("a", "c")));
}

#[test]
fn login_of_a_known_user_opens_a_session() {
    let state = configuration(None);
    let mut sessions: Vec<Session> = vec![("old".to_string(), at(1))];
    let header = login(&state, &mut sessions, &user("admin", "secret"), at(50)).expect("a cookie");
    assert_eq!(sessions.len(), 2);
    assert_eq!(sessions[0], ("old".to_string(), at(1)));
    let (cookie, opened) = &sessions[1];
    assert_eq!(*opened, at(50));
    assert_eq!(cookie.chars().count(), COOKIE_LENGTH);
    assert_eq!(COOKIE_LENGTH, 128);
    assert!(cookie.chars().all(|c| c.is_ascii_alphanumeric()));
    assert_eq!(
        header,
        format!("token={}; HttpOnly; Max-Age=2592000; SameSite=Strict", cookie)
    );
    assert!(authorize(&mut sessions, at(60), &Some(cookie_of(&header))));
}

fn cookie_of(header: &str) -> String {
    header["token=".len()..].split(';').next().unwrap().to_string()
}

#[test]
fn two_logins_get_different_cookies() {
    let state = configuration(None);
    let mut sessions: Vec<Session> = Vec::new();
    login(&state, &mut sessions, &user("admin", "secret"), at(1));
    login(&state, &mut sessions, &user("admin", "secret"), at(2));
    assert_eq!(sessions.len(), 2);
    assert_ne!(sessions[0].0, sessions[1].0);
}

#[test]
fn login_of_an_unknown_user_opens_nothing() {
    let state = configuration(None);
    let mut sessions: Vec<Session> = vec![("old".to_string(), at(1))];
    assert_eq!(login(&state, &mut sessions, &user("admin", "nope"), at(50)), None);
    assert_eq!(sessions, vec![("old".to_string(), at(1))]);
}

#[test]
fn open_session_appends_and_names_the_cookie() {
    let mut sessions: Vec<Session> = Vec::new();
    let header = open_session(&mut sessions, "abc".to_string(), at(9));
    assert_eq!(header, "token=abc; HttpOnly; Max-Age=2592000; SameSite=Strict");
    assert_eq!(sessions, vec![("abc".to_string(), at(9))]);
    assert_eq!(logout_cookie(), "token=; HttpOnly; Max-Age=0; SameSite=Strict");
}

#[test]
fn request_is_authorized_by_the_cookie_of_a_session() {
    let mut sessions: Vec<Session> = vec![("one".to_string(), at(1)), ("two".to_string(), at(2))];
    assert!(authorize(&mut sessions, at(10), &Some("two".to_string())));
    assert!(authorize(&mut sessions, at(10), &Some("one".to_string())));
    assert!(!authorize(&mut sessions, at(10), &Some("three".to_string())));
    assert!(!authorize(&mut sessions, at(10), &Some("".to_string())));
    assert!(!authorize(&mut sessions, at(10), &None));
    assert_eq!(cookies(&sessions), vec!["one", "two"]);
    assert!(!authorize(&mut Vec::new(), at(10), &Some("one".to_string())));
}

#[test]
fn sessions_of_any_age_are_kept() {
    let mut sessions: Vec<Session> = vec![("one".to_string(), at(1))];
    assert!(authorize(&mut sessions, at(1 + 10 * SESSION_MAX_AGE_SECS), &Some("one".to_string())));
    assert_eq!(sessions.len(), 1);
}

#[test]
fn sessions_stamped_a_month_ahead_are_dropped() {
    assert_eq!(SESSION_MAX_AGE_SECS, 2_592_000);
    let now = at(1000);
    let mut sessions: Vec<Session> = vec![
        ("early".to_string(), at(999)),
        ("ahead".to_string(), at(1000 + SESSION_MAX_AGE_SECS)),
        ("nearly".to_string(), Timestamp::new(999 + SESSION_MAX_AGE_SECS, 999_999_999)),
        ("far".to_string(), at(u64::MAX)),
    ];
    assert!(!authorize(&mut sessions, now, &Some("ahead".to_string())));
    assert_eq!(cookies(&sessions), vec!["early", "nearly"]);
    assert!(authorize(&mut sessions, now, &Some("nearly".to_string())));
}

#[test]
fn rejected_requests_are_answered_by_kind() {
    assert_eq!(api_error(true), (401, "Unauthorized"));
    assert_eq!(api_error(false), (400, "Error"));
    assert_eq!(STATUS_UNAUTHORIZED, 401);
    assert_eq!(STATUS_BAD_REQUEST, 400);
}
