use nurep::{Color, DrawCommand, Rendering};

fn sample_frame() -> Vec<DrawCommand> {
    let black = Color { r: 0, g: 0, b: 0 };
    let gray = Color { r: 0x80, g: 0x80, b: 0x80 };
    vec![
        DrawCommand::Clear { color: black },
        DrawCommand::Line { from: (1, 2), to: (3, 4), color: gray },
        DrawCommand::Circle { center: (1, 2), radius: 5, color: gray },
    ]
}

fn run(results: &[bool]) -> (Vec<DrawCommand>, Rendering) {
    let mut rendering = Rendering::new(sample_frame());
    let mut performed = Vec::new();
    let mut results = results.iter();
    while let Some(command) = rendering.pending() {
        match results.next() {
            Some(&succeeded) => {
                if succeeded {
                    performed.push(command);
                }
                rendering.report(succeeded);
            }
            None => break,
        }
    }
    (performed, rendering)
}

#[test]
fn a_surface_that_works_gets_the_whole_frame_in_order() {
    let (performed, rendering) = run(&[true, true, true]);
    assert_eq!(performed, sample_frame());
    assert!(rendering.complete());
    assert_eq!(rendering.failure(), None);
    assert_eq!(rendering.pending(), None);
}

#[test]
fn first_failure_ends_the_frame() {
    let (performed, rendering) = run(&[true, false, true]);
    assert_eq!(performed, sample_frame()[..1].to_vec());
    assert!(!rendering.complete());
    assert_eq!(rendering.failure(), Some(1));
    assert_eq!(rendering.pending(), None);
}

#[test]
fn failing_clear_draws_nothing() {
    let (performed, rendering) = run(&[false, true, true]);
    assert_eq!(performed, vec![]);
    assert!(!rendering.complete());
    assert_eq!(rendering.failure(), Some(0));
}

#[test]
fn failure_of_the_last_operation_leaves_the_rest_drawn() {
    let (performed, rendering) = run(&[true, true, false]);
    assert_eq!(performed, sample_frame()[..2].to_vec());
    assert!(!rendering.complete());
    assert_eq!(rendering.failure(), Some(2));
}

#[test]
fn a_frame_in_progress_is_not_complete() {
    let (performed, rendering) = run(&[true, true]);
    assert_eq!(performed.len(), 2);
    assert!(!rendering.complete());
    assert_eq!(rendering.failure(), None);
    assert_eq!(rendering.pending(), Some(sample_frame()[2]));
}

#[test]
fn reports_after_the_end_change_nothing() {
    let (_, mut failed) = run(&[true, false]);
    failed.report(true);
    failed.report(false);
    assert_eq!(failed.failure(), Some(1));
    assert_eq!(failed.pending(), None);
    assert!(!failed.complete());

    let (_, mut done) = run(&[true, true, true]);
    done.report(false);
    done.report(true);
    assert!(done.complete());
    assert_eq!(done.failure(), None);
}

#[test]
fn an_empty_frame_is_complete_at_once() {
    let rendering = Rendering::new(vec![]);
    assert_eq!(rendering.pending(), None);
    assert!(rendering.complete());
    assert_eq!(rendering.failure(), None);
}
