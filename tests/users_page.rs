use leptos_full_stack::reply::settle;
use leptos_full_stack::{Failure, Reply, User, UsersPage};

fn user(id: i64, name: &str, email: &str) -> User {
    User::new(id, name.to_string(), email.to_string())
}

fn filled(name: &str, email: &str) -> UsersPage {
    let mut page = UsersPage::new();
    page.set_name(name.to_string());
    page.set_email(email.to_string());
    page
}

fn ids(page: &UsersPage) -> Vec<i64> {
    page.users().iter().map(|u| u.id).collect()
}

#[test]
fn new_page_is_empty() {
    let page = UsersPage::new();
    assert!(page.users().is_empty());
    assert_eq!(page.name(), "");
    assert_eq!(page.email(), "");
}

#[test]
fn create_then_delete_scenario() {
    let mut page = filled("Ann", "ann@x.com");
    let sent = page.submit().expect("both fields are filled");
    assert_eq!(sent.id, 0);
    assert_eq!(sent.name, "Ann");
    assert_eq!(sent.email, "ann@x.com");

    let logged = page.finish_create(Reply::Answered(200, Some(user(1, "Ann", "ann@x.com"))));
    assert_eq!(logged, None);
    assert_eq!(page.users().len(), 1);
    assert_eq!(page.users()[0].id, 1);
    assert_eq!(page.users()[0].name, "Ann");
    assert_eq!(page.users()[0].email, "ann@x.com");
    assert_eq!(page.name(), "");
    assert_eq!(page.email(), "");

    let logged = page.finish_delete(1, Reply::Answered(204, Some(())));
    assert_eq!(logged, None);
    assert!(page.users().is_empty());
}

#[test]
fn empty_name_is_refused_without_a_request() {
    let page = filled("", "b@x.com");
    assert_eq!(page.submit().unwrap_err(), Failure::EmptyField);
    assert!(page.users().is_empty());
    assert_eq!(page.name(), "");
    assert_eq!(page.email(), "b@x.com");
}

#[test]
fn empty_email_is_refused() {
    let page = filled("Bob", "");
    assert_eq!(page.submit().unwrap_err(), Failure::EmptyField);
    assert_eq!(page.name(), "Bob");
}

#[test]
fn delete_absent_id_is_logged_and_keeps_mirror() {
    let mut page = UsersPage::new();
    let logged = page.finish_delete(999, Reply::Answered(404, Some(())));
    assert_eq!(logged, Some(Failure::Status(404)));
    assert!(page.users().is_empty());
}

#[test]
fn delete_failure_keeps_row() {
    let mut page = UsersPage::new();
    page.finish_load(Reply::Answered(200, Some(vec![user(3, "C", "c@x")])));
    assert_eq!(page.finish_delete(3, Reply::Unreachable), Some(Failure::Transport));
    assert_eq!(page.finish_delete(3, Reply::Answered(500, Some(()))), Some(Failure::Status(500)));
    assert_eq!(ids(&page), vec![3]);
}

#[test]
fn delete_removes_only_that_id_and_keeps_order() {
    let mut page = UsersPage::new();
    let rows = vec![user(1, "A", "a@x"), user(2, "B", "b@x"), user(3, "C", "c@x"), user(2, "D", "d@x")];
    assert_eq!(page.finish_load(Reply::Answered(200, Some(rows))), None);
    assert_eq!(page.finish_delete(2, Reply::Answered(204, Some(()))), None);
    assert_eq!(ids(&page), vec![1, 3]);
    assert_eq!(page.users()[1].name, "C");
}

#[test]
fn load_replaces_mirror_in_store_order() {
    let mut page = UsersPage::new();
    let rows = vec![user(5, "E", "e@x"), user(2, "B", "b@x")];
    assert_eq!(page.finish_load(Reply::Answered(200, Some(rows))), None);
    assert_eq!(ids(&page), vec![5, 2]);
    let rows = vec![user(7, "G", "g@x")];
    assert_eq!(page.finish_load(Reply::Answered(200, Some(rows))), None);
    assert_eq!(ids(&page), vec![7]);
}

#[test]
fn load_failures_leave_mirror_empty() {
    let mut page = UsersPage::new();
    assert_eq!(page.finish_load(Reply::Unreachable), Some(Failure::Transport));
    assert_eq!(page.finish_load(Reply::Answered(200, None)), Some(Failure::Decode));
    assert_eq!(page.finish_load(Reply::Answered(500, None)), Some(Failure::Status(500)));
    assert!(page.users().is_empty());
}

#[test]
fn load_with_unassigned_id_is_malformed() {
    let mut page = UsersPage::new();
    let rows = vec![user(1, "A", "a@x"), user(0, "B", "b@x")];
    assert_eq!(page.finish_load(Reply::Answered(200, Some(rows))), Some(Failure::Decode));
    assert!(page.users().is_empty());
}

#[test]
fn create_failures_keep_mirror_and_buffers() {
    let mut page = filled("Ann", "ann@x.com");
    assert_eq!(page.finish_create(Reply::Unreachable), Some(Failure::Transport));
    assert_eq!(page.finish_create(Reply::Answered(500, None)), Some(Failure::Status(500)));
    assert_eq!(page.finish_create(Reply::Answered(200, None)), Some(Failure::Decode));
    let unassigned = user(0, "Ann", "ann@x.com");
    assert_eq!(page.finish_create(Reply::Answered(200, Some(unassigned))), Some(Failure::Decode));
    assert!(page.users().is_empty());
    assert_eq!(page.name(), "Ann");
    assert_eq!(page.email(), "ann@x.com");
}

#[test]
fn create_appends_at_end() {
    let mut page = UsersPage::new();
    page.finish_load(Reply::Answered(200, Some(vec![user(4, "D", "d@x"), user(9, "I", "i@x")])));
    page.set_name("Ann".to_string());
    page.set_email("ann@x.com".to_string());
    assert_eq!(page.finish_create(Reply::Answered(201, Some(user(2, "Ann", "ann@x.com")))), None);
    assert_eq!(ids(&page), vec![4, 9, 2]);
    assert_eq!(page.users().len(), 3);
}

#[test]
fn list_create_list_has_record_once() {
    let mut page = UsersPage::new();
    let stored = vec![user(1, "A", "a@x")];
    page.finish_load(Reply::Answered(200, Some(stored.clone())));
    page.set_name("Ann".to_string());
    page.set_email("ann@x.com".to_string());
    let sent = page.submit().unwrap();
    let created = user(2, &sent.name, &sent.email);
    page.finish_create(Reply::Answered(200, Some(created.clone())));
    let mut after = stored;
    after.push(created);
    page.finish_load(Reply::Answered(200, Some(after)));
    assert_eq!(page.users().iter().filter(|u| u.id == 2).count(), 1);
    assert_eq!(ids(&page), vec![1, 2]);
}

#[test]
fn success_class_bounds() {
    assert!(leptos_full_stack::reply::status_is_success(200));
    assert!(leptos_full_stack::reply::status_is_success(299));
    assert!(!leptos_full_stack::reply::status_is_success(199));
    assert!(!leptos_full_stack::reply::status_is_success(300));
    assert!(!leptos_full_stack::reply::status_is_success(404));
}

#[test]
fn settle_reports_first_failure() {
    assert_eq!(settle::<i32>(Reply::Unreachable), Err(Failure::Transport));
    assert_eq!(settle::<i32>(Reply::Answered(404, Some(1))), Err(Failure::Status(404)));
    assert_eq!(settle::<i32>(Reply::Answered(204, None)), Err(Failure::Decode));
    assert_eq!(settle(Reply::Answered(200, Some(7))), Ok(7));
}
