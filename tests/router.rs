use supervisor::com::{context, Com};
use supervisor::config::{Config, TaskConfig};
use supervisor::router::{route, route_exit, route_line, route_remote, EvCommand, Route};
use supervisor::wire::{decode_message, Message, MessageVariant};

fn task(id: &str, no_start: bool) -> TaskConfig {
    TaskConfig { id: id.to_string(), cmd: format!("echo {id}"), no_start }
}

fn bus(ids: &[&str]) -> Com {
    let cfg = Config {
        notify_vsock: None,
        listen_vsock: false,
        tasks: ids.iter().map(|id| task(id, false)).collect(),
    };
    let (ctx, bundle) = context(cfg);
    assert_eq!(bundle.tasks_rx.len(), ids.len());
    ctx.com
}

fn restarted(r: Route) -> Vec<usize> {
    match r {
        Route::Restart(v) => v,
        _ => panic!("expected a restart"),
    }
}

#[test]
fn line_with_known_id_restarts_that_task() {
    let com = bus(&["A", "C"]);
    assert_eq!(restarted(route_line(&com, "A".to_string())), vec![0]);
    assert_eq!(restarted(route_line(&com, "C".to_string())), vec![1]);
}

#[test]
fn line_with_unknown_id_is_not_found() {
    let com = bus(&["A"]);
    match route_line(&com, "B".to_string()) {
        Route::NotFound(l) => assert_eq!(l, "B"),
        _ => panic!("expected not found"),
    }
}

#[test]
fn line_r_restarts_every_task() {
    let com = bus(&["A", "C", "D"]);
    assert_eq!(restarted(route_line(&com, "R".to_string())), vec![0, 1, 2]);
}

#[test]
fn line_r_on_empty_bus_restarts_nothing() {
    let com = bus(&[]);
    assert_eq!(restarted(route_line(&com, "R".to_string())), Vec::<usize>::new());
}

#[test]
fn remote_message_for_known_task_restarts_it() {
    let com = bus(&["A", "C"]);
    let m = Message::process_exited("C".to_string());
    assert_eq!(restarted(route_remote(&com, m)), vec![1]);
}

#[test]
fn remote_message_for_unknown_task_is_ignored() {
    let com = bus(&["A"]);
    let m = Message::process_exited("Z".to_string());
    assert!(matches!(route_remote(&com, m), Route::Ignore));
}

#[test]
fn exit_without_target_sends_no_frame() {
    match route_exit("A".to_string(), false) {
        Route::Exited { id, frame } => {
            assert_eq!(id, "A");
            assert!(frame.is_none());
        }
        _ => panic!("expected an exit"),
    }
}

#[test]
fn exit_frame_reaches_peer_as_restart() {
    let frame = match route_exit("A".to_string(), true) {
        Route::Exited { frame: Some(f), .. } => f,
        _ => panic!("expected a frame"),
    };
    assert_eq!(frame, vec![0u8, 1, b'A']);
    let peer = bus(&["A", "B"]);
    let m = decode_message(&frame).unwrap();
    let MessageVariant::ProcessExited(id) = &m.variant;
    assert_eq!(id, "A");
    assert_eq!(restarted(route(&peer, EvCommand::RemoteMessage(m), false)), vec![0]);
}

#[test]
fn route_dispatches_each_event_kind() {
    let com = bus(&["A"]);
    assert_eq!(restarted(route(&com, EvCommand::ReadLine("A".to_string()), false)), vec![0]);
    assert!(matches!(
        route(&com, EvCommand::ProcessExited("A".to_string()), true),
        Route::Exited { frame: Some(_), .. }
    ));
}

#[test]
fn find_and_task_on_bus() {
    let com = bus(&["A", "B"]);
    assert_eq!(com.find(&"B".to_string()), Some(1));
    assert_eq!(com.find(&"Q".to_string()), None);
    assert!(com.task(&"A".to_string()).same_channel(&com.tasks[0]));
}

#[test]
fn context_keeps_configuration() {
    let cfg = Config {
        notify_vsock: Some(("3".to_string(), "9000".to_string())),
        listen_vsock: true,
        tasks: vec![task("A", true)],
    };
    let (ctx, _bundle) = context(cfg);
    assert!(ctx.cfg.listen_vsock);
    assert_eq!(ctx.com.ids, vec!["A".to_string()]);
    assert!(!ctx.cfg.tasks[0].starts_at_launch());
}
