use yew_form::events::{ChangeValue, FileData, FileMeta, FormError, InputEventData};
use yew_form::form::{Model, Msg, Props, SubmitEvent};
use yew_form::store::Store;

fn text_event(s: &str) -> InputEventData {
    InputEventData { value: s.to_string() }
}

#[test]
fn text_field_round_trip() {
    let store = Store::new(String::new());
    let props = Props { default: None, auto_reset: false };
    let mut m = Model::create(props, store);
    m.set_text(|_s, v| v, text_event("Al"));
    m.set_text(|_s, v| v, text_event("Ali"));
    m.set_text(|_s, v| v, text_event("Alice"));
    m.bind_form();
    assert!(m.submit());
    let out = m.update(Msg::Submit(SubmitEvent { has_target: true }));
    assert_eq!(out.submitted, Some("Alice".to_string()));
    assert_eq!(m.state(), "Alice");
    assert!(!out.reset_event);
}

#[test]
fn auto_reset_submits_pre_reset_state() {
    let store = Store::new(0i32);
    let props = Props { default: Some(0i32), auto_reset: true };
    let mut m = Model::create(props, store);
    m.set(|_n| 7);
    assert_eq!(*m.state(), 7);
    let out = m.update(Msg::Submit(SubmitEvent { has_target: true }));
    assert_eq!(out.submitted, Some(7));
    assert_eq!(*m.state(), 0);
    assert!(out.reset_event);
}

#[test]
fn submit_without_auto_reset_keeps_store() {
    let store = Store::new(0i32);
    let props = Props { default: None, auto_reset: false };
    let mut m = Model::create(props, store);
    m.set(|_n| 7);
    let out = m.update(Msg::Submit(SubmitEvent { has_target: true }));
    assert_eq!(out.submitted, Some(7));
    assert_eq!(*m.state(), 7);
    assert!(!out.reset_event);
}

#[test]
fn submit_event_without_target_still_resets() {
    let store = Store::new(1i32);
    let props = Props { default: Some(4i32), auto_reset: true };
    let mut m = Model::create(props, store);
    m.set(|_n| 9);
    let out = m.update(Msg::Submit(SubmitEvent { has_target: false }));
    assert_eq!(out.submitted, Some(9));
    assert!(!out.reset_event);
    assert_eq!(*m.state(), 4);
}

#[test]
fn default_round_trip_on_mount() {
    let store = Store::new(3i32);
    let props = Props { default: Some(5i32), auto_reset: false };
    let m = Model::create(props, store);
    assert_eq!(*m.state(), 5);
}

#[test]
fn mount_without_default_keeps_store() {
    let store = Store::new(3i32);
    let props = Props { default: None, auto_reset: false };
    let m = Model::create(props, store);
    assert_eq!(*m.state(), 3);
}

#[test]
fn default_change_resets_exactly_once() {
    let store = Store::new(0i32);
    let props = Props { default: Some(1i32), auto_reset: false };
    let mut m = Model::create(props, store);
    assert_eq!(*m.state(), 1);
    m.change(Props { default: Some(2i32), auto_reset: false });
    assert_eq!(*m.state(), 2);
    m.change(Props { default: Some(2i32), auto_reset: false });
    m.set(|_n| 9);
    m.change(Props { default: Some(2i32), auto_reset: false });
    assert_eq!(*m.state(), 9);
}

#[test]
fn default_absent_to_present_counts_as_change() {
    let store = Store::new(3i32);
    let props = Props { default: None, auto_reset: false };
    let mut m = Model::create(props, store);
    assert_eq!(*m.state(), 3);
    m.change(Props { default: Some(4i32), auto_reset: false });
    assert_eq!(*m.state(), 4);
    m.change(Props { default: None, auto_reset: false });
    assert_eq!(*m.state(), 4);
}

#[test]
fn file_upload_last_completion_wins() {
    let store = Store::new(String::new());
    let props = Props { default: None, auto_reset: false };
    let mut m = Model::create(props, store);
    let files = vec![
        FileMeta { name: "a.txt".to_string() },
        FileMeta { name: "b.txt".to_string() },
    ];
    let msg = m.set_file(ChangeValue::Files(files));
    let out = m.update(msg);
    assert_eq!(out.scheduled, 2);
    assert_eq!(m.task_count(), 2);
    m.file_loaded(0, FileData { name: "a.txt".to_string(), content: vec![1] }, |_s, fd| fd.name);
    m.file_loaded(1, FileData { name: "b.txt".to_string(), content: vec![2] }, |_s, fd| fd.name);
    assert_eq!(m.state(), "b.txt");
}

#[test]
fn file_upload_completion_order_is_free() {
    let store = Store::new(String::new());
    let props = Props { default: None, auto_reset: false };
    let mut m = Model::create(props, store);
    let files = vec![
        FileMeta { name: "a.txt".to_string() },
        FileMeta { name: "b.txt".to_string() },
    ];
    let msg = m.set_file(ChangeValue::Files(files));
    m.update(msg);
    m.file_loaded(1, FileData { name: "b.txt".to_string(), content: vec![] }, |_s, fd| fd.name);
    m.file_loaded(0, FileData { name: "a.txt".to_string(), content: vec![] }, |_s, fd| fd.name);
    assert_eq!(m.state(), "a.txt");
}

#[test]
fn inactive_tasks_are_pruned_on_next_schedule() {
    let store = Store::new(String::new());
    let props = Props { default: None, auto_reset: false };
    let mut m = Model::create(props, store);
    let first = vec![
        FileMeta { name: "a.txt".to_string() },
        FileMeta { name: "b.txt".to_string() },
    ];
    let msg = m.set_file(ChangeValue::Files(first));
    m.update(msg);
    m.file_loaded(0, FileData { name: "a.txt".to_string(), content: vec![] }, |s, _fd| s);
    m.file_loaded(1, FileData { name: "b.txt".to_string(), content: vec![] }, |s, _fd| s);
    assert_eq!(m.task_count(), 2);
    let more = vec![FileMeta { name: "c.txt".to_string() }];
    let msg = m.set_file(ChangeValue::Files(more));
    let out = m.update(msg);
    assert_eq!(out.scheduled, 1);
    assert_eq!(m.task_count(), 1);
}

#[test]
fn file_callback_on_non_file_event_schedules_nothing() {
    let store = Store::new(String::new());
    let props = Props { default: None, auto_reset: false };
    let mut m = Model::create(props, store);
    let msg = m.set_file(ChangeValue::Value("x".to_string()));
    let out = m.update(msg);
    assert_eq!(out.scheduled, 0);
    assert_eq!(m.task_count(), 0);
}

#[test]
fn select_misuse_fails_and_keeps_store() {
    let store = Store::new(2i32);
    let props = Props { default: None, auto_reset: false };
    let mut m = Model::create(props, store);
    let r = m.set_select(|_n, _v| 5, ChangeValue::Value("x".to_string()));
    assert!(matches!(r, Err(FormError::SelectRequired)));
    assert_eq!(*m.state(), 2);
}

#[test]
fn select_delivers_selected_value() {
    let store = Store::new(String::new());
    let props = Props { default: None, auto_reset: false };
    let mut m = Model::create(props, store);
    let r = m.set_select(|_s, v| v, ChangeValue::Select("two".to_string()));
    assert!(r.is_ok());
    assert_eq!(m.state(), "two");
}

#[test]
fn submit_before_form_attached_is_a_noop() {
    let store = Store::new(1i32);
    let props = Props { default: None, auto_reset: false };
    let m = Model::create(props, store);
    assert!(!m.submit());
    assert_eq!(*m.state(), 1);
}

#[test]
fn text_extraction_is_uninterpreted() {
    let store = Store::new(String::new());
    let props = Props { default: None, auto_reset: false };
    let mut m = Model::create(props, store);
    m.set_text(|_s, v| v, text_event("  MiXeD case, untouched  "));
    assert_eq!(m.state(), "  MiXeD case, untouched  ");
}

#[test]
fn set_with_receives_the_event_payload() {
    let store = Store::new(0i32);
    let props = Props { default: None, auto_reset: false };
    let mut m = Model::create(props, store);
    m.set_with(|n: i32, e: i32| n + e, 41);
    assert_eq!(*m.state(), 41);
}
