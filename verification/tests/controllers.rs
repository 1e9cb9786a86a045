use rust_web_demo::controllers::{absolute_url, catch, login_gate, ok_json, ok_text, redirect, template, ContentKind, RequestUrl};
use rust_web_demo::controllers::account::{check_login, login_outcome, logout_reply, LoginOutcome};
use rust_web_demo::controllers::task::{get_path_param, task_from_form, task_id, task_to_act_on};
use rust_web_demo::models::time::Time;
use rust_web_demo::models::Account;

fn url(path: &[&str]) -> RequestUrl {
    RequestUrl {
        scheme: "http".to_string(),
        host: "localhost".to_string(),
        port: 8080,
        path: path.iter().map(|s| s.to_string()).collect(),
    }
}

#[test]
fn redirect_targets_same_server() {
    let u = url(&["task"]);
    assert_eq!(absolute_url(&u, "/task/"), "http://localhost:8080/task/");
    let r = redirect(&u, "/task/");
    assert_eq!(r.status, 302);
    assert_eq!(r.location.as_deref(), Some("http://localhost:8080/task/"));
    assert!(r.body.is_none());
}

#[test]
fn data_replies() {
    let j = ok_json("[1,2]");
    assert_eq!(j.status, 200);
    assert_eq!(j.content_type, Some(ContentKind::Json));
    assert_eq!(j.body.as_deref(), Some("[1,2]"));
    let t = ok_text("hello");
    assert_eq!(t.content_type, Some(ContentKind::PlainText));
    assert_eq!(t.body.as_deref(), Some("hello"));
    let p = template("<p>x</p>".to_string());
    assert_eq!(p.content_type, Some(ContentKind::Html));
    assert_eq!(p.status, 200);
}

#[test]
fn gate_lets_logged_in_visitors_through() {
    assert!(login_gate(true, &url(&["task", "1"])).is_none());
}

#[test]
fn gate_lets_account_pages_through() {
    assert!(login_gate(false, &url(&["account", "login", ""])).is_none());
    assert!(login_gate(false, &url(&["my", "accounts"])).is_none());
}

#[test]
fn gate_sends_others_to_login() {
    let r = login_gate(false, &url(&["task", ""])).unwrap();
    assert_eq!(r.status, 302);
    assert_eq!(r.location.as_deref(), Some("http://localhost:8080/account/login/"));
    let r = login_gate(false, &url(&["acc", "ount"])).unwrap();
    assert_eq!(r.status, 302);
}

#[test]
fn unknown_routes_get_404() {
    let r = catch(true).unwrap();
    assert_eq!(r.status, 404);
    assert_eq!(r.body.as_deref(), Some("Custom 404 response"));
    assert!(catch(false).is_none());
}

#[test]
fn login_state_and_outcome() {
    assert!(!check_login(&None));
    let a = Account { id: 1, name: Some("admin".to_string()), password: None };
    assert!(check_login(&Some(a.clone())));
    match login_outcome(&url(&["account", "login", ""]), Some(a)) {
        LoginOutcome::SignedIn(acc, reply) => {
            assert_eq!(acc.id, 1);
            assert_eq!(reply.location.as_deref(), Some("http://localhost:8080/"));
        }
        LoginOutcome::Rejected => panic!("expected a sign-in"),
    }
    assert!(matches!(login_outcome(&url(&[]), None), LoginOutcome::Rejected));
    let out = logout_reply(&url(&["account", "logout", ""]));
    assert!(out.content_type.is_none());
    assert_eq!(out.location.as_deref(), Some("http://localhost:8080/account/login/"));
}

#[test]
fn path_parameters() {
    assert_eq!(get_path_param(Some("12")), Some("12".to_string()));
    assert_eq!(get_path_param(Some("")), None);
    assert_eq!(get_path_param(None), None);
}

#[test]
fn task_ids_from_paths() {
    assert_eq!(task_id(Some("12")), 12);
    assert_eq!(task_id(Some("-3")), -3);
    assert_eq!(task_id(Some("abc")), 0);
    assert_eq!(task_id(Some("")), 0);
    assert_eq!(task_id(None), 0);
    assert_eq!(task_to_act_on(Some("12")), Some(12));
    assert_eq!(task_to_act_on(Some("0")), None);
    assert_eq!(task_to_act_on(Some("-3")), None);
    assert_eq!(task_to_act_on(Some("x")), None);
}

#[test]
fn tasks_from_the_form() {
    let now = Time::from_timestamp(1462105845, 0).unwrap();
    let t = task_from_form(None, Some("n".to_string()), None, None, now);
    assert_eq!(t.id, 0);
    assert_eq!(t.status, 0);
    assert_eq!(t.name.as_deref(), Some("n"));
    assert_eq!(t.create_time, Some(now));
    assert_eq!(t.update_time, Some(now));
    let t = task_from_form(Some(4), None, Some("c".to_string()), Some(2), now);
    assert_eq!(t.id, 4);
    assert_eq!(t.status, 2);
    assert_eq!(t.content.as_deref(), Some("c"));
}
