use supervisor::config::TaskConfig;
use supervisor::task::{
    plan, startup_command, stop_after_grace, stop_begin, Step, StopAction, TaskCommand, TaskState,
    GRACE_MS,
};

#[test]
fn plans_of_commands() {
    assert_eq!(plan(&TaskCommand::Stop), vec![Step::StopProcess]);
    assert_eq!(plan(&TaskCommand::Restart), vec![Step::StopProcess, Step::Launch, Step::Watch]);
    assert_eq!(
        plan(&TaskCommand::RestartWith { on_stop: None, on_start: None }),
        vec![Step::StopProcess, Step::AckStop, Step::Launch, Step::Watch, Step::AckStart]
    );
    assert_eq!(plan(&TaskCommand::Break), vec![Step::StopProcess, Step::Exit]);
}

#[test]
fn auto_start_follows_no_start() {
    let t = TaskConfig { id: "A".to_string(), cmd: "true".to_string(), no_start: false };
    assert!(t.starts_at_launch());
    let t = TaskConfig { id: "B".to_string(), cmd: "true".to_string(), no_start: true };
    assert!(!t.starts_at_launch());
}

#[test]
fn new_task_is_down() {
    let s = TaskState::new();
    assert!(!s.running);
    assert_eq!(s.generation, 0);
    assert_eq!(s.watching, None);
    assert!(!s.done);
}

#[test]
fn restart_then_natural_exit_is_reported_once() {
    let mut s = TaskState::new();
    assert!(!s.acquire());
    s.mark_stopped();
    s.mark_launched(true);
    assert_eq!(s.watch(), Some(1));
    assert!(s.exited(1));
    assert!(!s.running);
    assert!(!s.exited(1));
    assert!(!s.acquire());
}

#[test]
fn command_preempts_watcher_and_silences_exit() {
    let mut s = TaskState::new();
    s.mark_launched(true);
    assert_eq!(s.watch(), Some(1));
    assert!(s.acquire());
    assert!(!s.exited(1));
    s.mark_stopped();
    s.mark_launched(true);
    assert_eq!(s.watch(), Some(2));
    assert!(!s.exited(1));
    assert!(s.exited(2));
}

#[test]
fn failed_launch_leaves_nothing_to_watch() {
    let mut s = TaskState::new();
    s.mark_launched(false);
    assert!(!s.running);
    assert_eq!(s.watch(), None);
    s.mark_launched(true);
    assert!(s.running);
}

#[test]
fn break_ends_supervisor() {
    let mut s = TaskState::new();
    s.mark_launched(true);
    s.watch();
    assert!(s.acquire());
    s.mark_stopped();
    s.finish();
    assert!(s.done);
    assert!(!s.running);
}

#[test]
fn stop_of_stopped_task_does_nothing() {
    assert_eq!(stop_begin(false, false), StopAction::Nothing);
    assert_eq!(stop_begin(true, true), StopAction::Nothing);
    assert_eq!(stop_begin(true, false), StopAction::Interrupt);
}

#[test]
fn stop_escalates_after_grace() {
    assert_eq!(GRACE_MS, 3000);
    assert_eq!(stop_after_grace(true), StopAction::Done);
    assert_eq!(stop_after_grace(false), StopAction::ForceKill);
}

#[test]
fn startup_command_follows_no_start() {
    let t = TaskConfig { id: "A".to_string(), cmd: "true".to_string(), no_start: false };
    assert!(matches!(startup_command(&t), Some(TaskCommand::Restart)));
    let t = TaskConfig { id: "B".to_string(), cmd: "true".to_string(), no_start: true };
    assert!(startup_command(&t).is_none());
}
