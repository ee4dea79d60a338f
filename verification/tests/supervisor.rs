use std::time::{Duration, Instant};
use task_supervisor::status::TaskStatus;
use task_supervisor::task_manager::TaskManager;
use tokio::process::{Child, Command};

fn runtime() -> tokio::runtime::Runtime {
    tokio::runtime::Runtime::new().expect("runtime")
}

fn spawn_shell(command: &str) -> Child {
    Command::new("sh").arg("-c").arg(command).spawn().expect("spawn")
}

fn completed_code(s: &TaskStatus) -> Option<i32> {
    match s {
        TaskStatus::Completed(c) => Some(*c),
        _ => None,
    }
}

fn failed_reason(s: &TaskStatus) -> Option<String> {
    match s {
        TaskStatus::Failed(reason) => Some(reason.clone()),
        _ => None,
    }
}

/// Polls until the task reaches a terminal status, never weakening what was
/// observed on the way: every status before the terminal one must be
/// `Running`.
async fn check_until_terminal(manager: &mut TaskManager, id: u32) -> TaskStatus {
    for _ in 0..2000 {
        let status = manager.check_task_status(id).expect("registered id");
        match status {
            TaskStatus::Running => tokio::time::sleep(Duration::from_millis(5)).await,
            terminal => return terminal,
        }
    }
    panic!("process never reached a terminal status");
}

#[test]
fn unknown_id_on_empty_registry() {
    let mut manager = TaskManager::new();
    assert!(manager.get_task(999999).is_none());
    assert!(manager.check_task_status(999999).is_none());
    assert_eq!(manager.task_count(), 0);
    assert!(manager.list_tasks().is_empty());
}

#[test]
fn id_zero_and_one_past_the_end_are_unknown() {
    let rt = runtime();
    rt.block_on(async {
        let mut manager = TaskManager::new();
        let id = manager.add_task(String::from("exit 0"), spawn_shell("exit 0"));
        assert_eq!(id, 1);
        assert!(manager.get_task(0).is_none());
        assert!(manager.check_task_status(0).is_none());
        assert!(manager.get_task(2).is_none());
        assert!(manager.check_task_status(2).is_none());
        assert!(manager.get_task(1).is_some());
    });
}

#[test]
fn ids_are_distinct_and_consecutive() {
    let rt = runtime();
    rt.block_on(async {
        let mut manager = TaskManager::new();
        let a = manager.add_task(String::from("exit 0"), spawn_shell("exit 0"));
        let b = manager.add_task(String::from("exit 0"), spawn_shell("exit 0"));
        let c = manager.add_task(String::from("exit 0"), spawn_shell("exit 0"));
        assert_eq!((a, b, c), (1, 2, 3));
        let listed = manager.list_tasks();
        assert_eq!(listed.len(), 3);
        for (i, info) in listed.iter().enumerate() {
            assert_eq!(info.id as usize, i + 1);
        }
        assert_ne!(a, b);
        assert_ne!(b, c);
        assert_ne!(a, c);
    });
}

#[test]
fn completed_zero_scenario() {
    let rt = runtime();
    rt.block_on(async {
        let mut manager = TaskManager::new();
        let id = manager.add_task(String::from("exit 0"), spawn_shell("exit 0"));
        let first = manager.get_task(id).expect("registered id");
        assert_eq!(first.command, "exit 0");
        let start_time = first.start_time;

        // An immediate check may race the process: either answer is sound.
        let immediate = manager.check_task_status(id).expect("registered id");
        assert!(matches!(
            immediate,
            TaskStatus::Running | TaskStatus::Completed(0)
        ));

        let terminal = check_until_terminal(&mut manager, id).await;
        assert_eq!(completed_code(&terminal), Some(0));

        let after = manager.get_task(id).expect("registered id");
        assert_eq!(completed_code(&after.status), Some(0));
        assert_eq!(after.command, "exit 0");
        assert_eq!(after.start_time, start_time);
        assert_eq!(after.id, id);
    });
}

#[test]
fn failed_exit_one_scenario() {
    let rt = runtime();
    rt.block_on(async {
        let mut manager = TaskManager::new();
        let id = manager.add_task(String::from("exit 1"), spawn_shell("exit 1"));
        let terminal = check_until_terminal(&mut manager, id).await;
        assert_eq!(
            failed_reason(&terminal).as_deref(),
            Some("Exit code: Some(1)")
        );
        assert!(completed_code(&terminal).is_none());
    });
}

#[test]
fn signal_killed_process_fails_without_code() {
    let rt = runtime();
    rt.block_on(async {
        let mut manager = TaskManager::new();
        let id = manager.add_task(String::from("kill self"), spawn_shell("kill -9 $$"));
        let terminal = check_until_terminal(&mut manager, id).await;
        assert_eq!(failed_reason(&terminal).as_deref(), Some("Exit code: None"));
    });
}

#[test]
fn idempotent_checks_after_termination() {
    let rt = runtime();
    rt.block_on(async {
        let mut manager = TaskManager::new();
        let id = manager.add_task(String::from("exit 3"), spawn_shell("exit 3"));
        let terminal = check_until_terminal(&mut manager, id).await;
        let reason = failed_reason(&terminal).expect("non-zero exit fails the task");
        assert_eq!(reason, "Exit code: Some(3)");
        for _ in 0..5 {
            let again = manager.check_task_status(id).expect("registered id");
            assert_eq!(failed_reason(&again).as_deref(), Some(reason.as_str()));
        }
        let stored = manager.get_task(id).expect("registered id");
        assert_eq!(failed_reason(&stored.status).as_deref(), Some(reason.as_str()));
    });
}

#[test]
fn check_on_running_process_does_not_wait() {
    let rt = runtime();
    rt.block_on(async {
        let mut manager = TaskManager::new();
        let id = manager.add_task(String::from("sleep 3"), spawn_shell("sleep 3"));
        let clock = Instant::now();
        let first = manager.check_task_status(id).expect("registered id");
        let second = manager.check_task_status(id).expect("registered id");
        let elapsed = clock.elapsed();
        assert!(matches!(first, TaskStatus::Running));
        assert!(matches!(second, TaskStatus::Running));
        assert!(elapsed < Duration::from_secs(2), "check must not wait for the process");
    });
}

#[test]
fn listing_reflects_latest_reconciliation() {
    let rt = runtime();
    rt.block_on(async {
        let mut manager = TaskManager::new();
        let done = manager.add_task(String::from("exit 0"), spawn_shell("exit 0"));
        let running = manager.add_task(String::from("sleep 3"), spawn_shell("sleep 3"));
        let terminal = check_until_terminal(&mut manager, done).await;
        assert_eq!(completed_code(&terminal), Some(0));
        let listed = manager.list_tasks();
        assert_eq!(listed.len(), 2);
        assert_eq!(completed_code(&listed[0].status), Some(0));
        assert!(matches!(listed[1].status, TaskStatus::Running));
        assert_eq!(listed[0].id, done);
        assert_eq!(listed[1].id, running);
    });
}
