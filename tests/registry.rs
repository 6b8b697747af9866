use std::time::Instant;
use ticket_grab::registry::{RegistryError, TaskDetail, TaskKind, TaskRegistry, TaskStatus};

fn grab(project: &str) -> TaskDetail {
    TaskDetail::GrabTicket {
        project_id: project.to_string(),
        screen_id: "1".to_string(),
        ticket_id: "2".to_string(),
        grab_mode: 1,
    }
}

fn push() -> TaskDetail {
    TaskDetail::LoginSms { phone: "13800000000".to_string() }
}

#[test]
fn submit_records_pending() {
    let mut r = TaskRegistry::new();
    let id = r.submit_task(grab("85939")).unwrap();
    assert_eq!(id.len(), 36);
    assert!(matches!(r.get_task_status(&id), Some(TaskStatus::Pending)));
    let other = r.submit_task(push()).unwrap();
    assert_ne!(id, other);
}

#[test]
fn detail_kinds() {
    assert_eq!(grab("1").kind(), TaskKind::GrabTicket);
    assert_eq!(push().kind(), TaskKind::LoginSms);
    assert_eq!(TaskDetail::GetBuyerInfo { uid: 3 }.kind(), TaskKind::GetBuyerInfo);
}

#[test]
fn unknown_task_is_not_found() {
    let mut r = TaskRegistry::new();
    assert!(r.get_task_status("nope").is_none());
    assert_eq!(r.cancel_task("nope"), Err(RegistryError::NotFound));
    assert_eq!(r.mark_running("nope"), Err(RegistryError::NotFound));
    assert_eq!(r.remove_task("nope"), Err(RegistryError::NotFound));
}

#[test]
fn status_never_goes_back() {
    let mut r = TaskRegistry::new();
    r.register("a".to_string(), grab("1"), Instant::now()).unwrap();
    r.mark_running("a").unwrap();
    assert!(matches!(r.get_task_status("a"), Some(TaskStatus::Running)));
    r.complete("a", false, Some("sold out".to_string())).unwrap();
    match r.get_task_status("a") {
        Some(TaskStatus::Failed(m)) => assert_eq!(m, "sold out"),
        _ => panic!("expected failure"),
    }
    r.mark_running("a").unwrap();
    r.complete("a", true, None).unwrap();
    assert!(matches!(r.get_task_status("a"), Some(TaskStatus::Failed(_))));
}

#[test]
fn duplicate_id_refused() {
    let mut r = TaskRegistry::new();
    r.register("a".to_string(), push(), Instant::now()).unwrap();
    assert_eq!(r.register("a".to_string(), push(), Instant::now()), Err(RegistryError::DuplicateId));
}

#[test]
fn cancel_sets_flag() {
    let mut r = TaskRegistry::new();
    r.register("a".to_string(), grab("1"), Instant::now()).unwrap();
    r.register("b".to_string(), grab("2"), Instant::now()).unwrap();
    assert!(!r.is_cancel_requested("a"));
    r.cancel_task("a").unwrap();
    assert!(r.is_cancel_requested("a"));
    assert!(!r.is_cancel_requested("b"));
}

#[test]
fn removed_task_is_gone() {
    let mut r = TaskRegistry::new();
    r.register("a".to_string(), grab("1"), Instant::now()).unwrap();
    r.register("b".to_string(), grab("2"), Instant::now()).unwrap();
    r.remove_task("a").unwrap();
    assert!(r.get_task_status("a").is_none());
    assert!(matches!(r.get_task_status("b"), Some(TaskStatus::Pending)));
    r.register("a".to_string(), push(), Instant::now()).unwrap();
}

#[test]
fn shutdown_is_idempotent_and_refuses_new_work() {
    let mut r = TaskRegistry::new();
    r.register("a".to_string(), grab("1"), Instant::now()).unwrap();
    r.shutdown();
    r.shutdown();
    assert_eq!(r.submit_task(push()), Err(RegistryError::Closed));
    assert_eq!(r.register("b".to_string(), push(), Instant::now()), Err(RegistryError::Closed));
    assert!(matches!(r.get_task_status("a"), Some(TaskStatus::Pending)));
}
