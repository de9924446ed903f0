use nvim_bridge::UiCommand;
use nvim_bridge::plan_batch;

fn input(keys: &str) -> UiCommand {
    UiCommand::Input { keys: keys.to_string() }
}

#[test]
fn inputs_keep_fifo_order() {
    let batch = vec![input("a"), input("b"), input("c")];
    let plan = plan_batch(batch);
    assert_eq!(plan, vec![input("a"), input("b"), input("c")]);
}

#[test]
fn resizes_in_one_batch_coalesce_to_last() {
    let batch = vec![
        UiCommand::Resize { width: 80, height: 24 },
        UiCommand::Resize { width: 100, height: 30 },
        UiCommand::Resize { width: 120, height: 40 },
    ];
    let plan = plan_batch(batch);
    assert_eq!(plan, vec![UiCommand::Resize { width: 120, height: 40 }]);
}

#[test]
fn mixed_batch_keeps_input_and_last_resize() {
    let batch = vec![
        UiCommand::Resize { width: 80, height: 24 },
        input("x"),
        UiCommand::Resize { width: 100, height: 30 },
    ];
    let plan = plan_batch(batch);
    assert_eq!(plan, vec![UiCommand::Resize { width: 100, height: 30 }, input("x")]);
}

#[test]
fn empty_batch_plans_nothing() {
    let plan = plan_batch(Vec::new());
    assert!(plan.is_empty());
}

#[test]
fn lone_resize_is_executed() {
    let plan = plan_batch(vec![UiCommand::Resize { width: 10, height: 5 }]);
    assert_eq!(plan, vec![UiCommand::Resize { width: 10, height: 5 }]);
}

#[test]
fn resize_moves_ahead_of_others_within_batch() {
    let batch = vec![
        input("j"),
        UiCommand::Scroll { direction: "up".to_string(), row: 3, column: 4 },
        UiCommand::Resize { width: 90, height: 30 },
        UiCommand::Drag { row: 1, column: 2 },
    ];
    let plan = plan_batch(batch);
    assert_eq!(
        plan,
        vec![
            UiCommand::Resize { width: 90, height: 30 },
            input("j"),
            UiCommand::Scroll { direction: "up".to_string(), row: 3, column: 4 },
            UiCommand::Drag { row: 1, column: 2 },
        ]
    );
}

#[test]
fn non_resizes_keep_fifo_order_across_batches() {
    let batch1 = vec![
        input("a"),
        UiCommand::Resize { width: 80, height: 24 },
        input("b"),
    ];
    let batch2 = vec![
        UiCommand::Resize { width: 100, height: 30 },
        input("c"),
    ];
    let mut executed = plan_batch(batch1);
    executed.extend(plan_batch(batch2));
    let non_resizes: Vec<&UiCommand> = executed.iter().filter(|c| !c.is_resize()).collect();
    assert_eq!(
        non_resizes,
        vec![&input("a"), &input("b"), &input("c")]
    );
}

#[test]
fn is_resize_distinguishes_variants() {
    assert!(UiCommand::Resize { width: 1, height: 1 }.is_resize());
    assert!(!input("q").is_resize());
    assert!(!UiCommand::MouseButton { action: "press".to_string(), row: 0, column: 0 }.is_resize());
    assert!(!UiCommand::Drag { row: 0, column: 0 }.is_resize());
}
