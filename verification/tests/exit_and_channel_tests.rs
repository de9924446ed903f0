use nvim_bridge::EditorInvocation;
use nvim_bridge::IoLoopOutcome;
use nvim_bridge::UiCommand;
use nvim_bridge::drain_pending;
use nvim_bridge::editor_invocation;
use nvim_bridge::host_exit_status;
use nvim_bridge::io_loop_report;
use nvim_bridge::queue_command;

#[test]
fn host_exits_with_status_zero_for_every_io_outcome() {
    assert_eq!(host_exit_status(&IoLoopOutcome::Clean), 0);
    assert_eq!(
        host_exit_status(&IoLoopOutcome::LoopError { message: "broken pipe".to_string() }),
        0
    );
    assert_eq!(
        host_exit_status(&IoLoopOutcome::JoinError { message: "cancelled".to_string() }),
        0
    );
}

#[test]
fn clean_io_exit_logs_nothing() {
    assert_eq!(io_loop_report(&IoLoopOutcome::Clean), None);
}

#[test]
fn io_errors_are_quoted_in_the_report() {
    assert_eq!(
        io_loop_report(&IoLoopOutcome::LoopError { message: "broken pipe".to_string() }),
        Some("Error: 'broken pipe'".to_string())
    );
    assert_eq!(
        io_loop_report(&IoLoopOutcome::JoinError { message: "cancelled".to_string() }),
        Some("Error joining IO loop: 'cancelled'".to_string())
    );
}

#[test]
fn editor_invocation_embeds_and_forwards_arguments_verbatim() {
    let inv = editor_invocation(vec!["--clean".to_string(), "notes.txt".to_string()]);
    assert_eq!(
        inv,
        EditorInvocation {
            program: "nvim".to_string(),
            args: vec![
                "--embed".to_string(),
                "--clean".to_string(),
                "notes.txt".to_string(),
            ],
        }
    );
}

#[test]
fn editor_invocation_with_no_arguments_still_embeds() {
    let inv = editor_invocation(Vec::new());
    assert_eq!(inv.program, "nvim");
    assert_eq!(inv.args, vec!["--embed".to_string()]);
}

#[test]
fn drain_collects_queued_commands_in_arrival_order() {
    let (tx, mut rx) = tokio::sync::mpsc::unbounded_channel::<UiCommand>();
    queue_command(&tx, UiCommand::Input { keys: "b".to_string() }).unwrap();
    queue_command(&tx, UiCommand::Input { keys: "c".to_string() }).unwrap();
    let batch = drain_pending(&mut rx, UiCommand::Input { keys: "a".to_string() });
    assert_eq!(
        batch,
        vec![
            UiCommand::Input { keys: "a".to_string() },
            UiCommand::Input { keys: "b".to_string() },
            UiCommand::Input { keys: "c".to_string() },
        ]
    );
}

#[test]
fn drain_with_empty_queue_yields_only_the_first_command() {
    let (_tx, mut rx) = tokio::sync::mpsc::unbounded_channel::<UiCommand>();
    let batch = drain_pending(&mut rx, UiCommand::Drag { row: 7, column: 9 });
    assert_eq!(batch, vec![UiCommand::Drag { row: 7, column: 9 }]);
}

#[test]
fn queueing_after_pump_terminates_is_the_send_error() {
    let (tx, rx) = tokio::sync::mpsc::unbounded_channel::<UiCommand>();
    drop(rx);
    let r = queue_command(&tx, UiCommand::Input { keys: "q".to_string() });
    let e = r.unwrap_err();
    assert_eq!(e.title, "Could Not Send UI Command");
    assert_eq!(
        e.explanation,
        "Could not send UI command from the window system to the neovim process."
    );
}
