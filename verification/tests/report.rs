use blendshape::report::panic_report;

#[test]
fn report_puts_the_stack_under_its_heading() {
    let msg = panic_report("panicked at 'boom', src/lib.rs:1:1", "at main (game.js:10)");
    assert_eq!(
        msg,
        "panicked at 'boom', src/lib.rs:1:1\n\nStack:\n\nat main (game.js:10)\n\n"
    );
}

#[test]
fn report_of_nothing_is_the_frame_alone() {
    assert_eq!(panic_report("", ""), "\n\nStack:\n\n\n\n");
}

#[test]
fn report_keeps_text_that_is_not_ascii() {
    assert_eq!(panic_report("é", "∑\nλ"), "é\n\nStack:\n\n∑\nλ\n\n");
}

#[test]
fn report_differs_from_its_message() {
    let msg = panic_report("a", "b");
    assert_ne!(msg, "a");
    assert_eq!(msg.len(), 1 + 10 + 1 + 2);
}
