use amica_shell::splash::close_splashscreen;
use amica_shell::splash::hand_off_next;
use amica_shell::splash::HandOffNext;
use amica_shell::splash::WindowOp;
use amica_shell::splash::WindowReply;
use amica_shell::splash::WindowStep;
use amica_shell::splash::MAIN_LABEL;
use amica_shell::splash::NO_MAIN_MESSAGE;
use amica_shell::splash::NO_SPLASHSCREEN_MESSAGE;
use amica_shell::splash::SPLASHSCREEN_LABEL;

use amica_shell::splash::WindowReply::Done;
use amica_shell::splash::WindowReply::Failed;
use amica_shell::splash::WindowReply::Missing;

const CLOSE_SPLASH: WindowStep = WindowStep { op: WindowOp::Close, label: "splashscreen" };
const SHOW_MAIN: WindowStep = WindowStep { op: WindowOp::Show, label: "main" };

/// A window system that answers from a script, and notes what it was asked.
fn run(script: &[WindowReply]) -> (Vec<WindowStep>, HandOffNext) {
    let mut sent: Vec<WindowStep> = Vec::new();
    let mut replies: Vec<WindowReply> = Vec::new();
    loop {
        match hand_off_next(&replies) {
            HandOffNext::Request { step } => {
                sent.push(step);
                replies.push(script[replies.len()]);
            }
            outcome => return (sent, outcome),
        }
    }
}

#[test]
fn window_labels_are_spelled_as_expected() {
    assert_eq!(SPLASHSCREEN_LABEL, "splashscreen");
    assert_eq!(MAIN_LABEL, "main");
    assert_ne!(SPLASHSCREEN_LABEL, MAIN_LABEL);
}

#[test]
fn messages_are_spelled_as_expected() {
    assert_eq!(NO_SPLASHSCREEN_MESSAGE, "no window labeled 'splashscreen' found");
    assert_eq!(NO_MAIN_MESSAGE, "no window labeled 'main' found");
}

#[test]
fn messages_name_their_windows() {
    assert_eq!(NO_SPLASHSCREEN_MESSAGE, format!("no window labeled '{}' found", SPLASHSCREEN_LABEL));
    assert_eq!(NO_MAIN_MESSAGE, format!("no window labeled '{}' found", MAIN_LABEL));
}

#[test]
fn splash_screen_is_closed_before_main_window_is_shown() {
    assert_eq!(close_splashscreen(), vec![CLOSE_SPLASH, SHOW_MAIN]);
}

#[test]
fn hand_off_touches_each_window_once() {
    let steps = close_splashscreen();
    assert_eq!(steps.len(), 2);
    assert_eq!(steps.iter().filter(|s| s.label == "splashscreen").count(), 1);
    assert_eq!(steps.iter().filter(|s| s.label == "main").count(), 1);
}

#[test]
fn hand_off_never_shows_the_splash_screen_nor_closes_main() {
    for step in close_splashscreen() {
        match step.op {
            WindowOp::Close => assert_eq!(step.label, "splashscreen"),
            WindowOp::Show => assert_eq!(step.label, "main"),
        }
    }
}

#[test]
fn hand_off_starts_by_closing_the_splash_screen() {
    assert_eq!(hand_off_next(&[]), HandOffNext::Request { step: CLOSE_SPLASH });
}

#[test]
fn main_window_is_shown_after_the_splash_screen_was_closed() {
    assert_eq!(hand_off_next(&[Done]), HandOffNext::Request { step: SHOW_MAIN });
}

#[test]
fn hand_off_is_complete_after_two_successes() {
    assert_eq!(hand_off_next(&[Done, Done]), HandOffNext::Finished);
}

#[test]
fn missing_splash_screen_fails_the_hand_off() {
    assert_eq!(
        hand_off_next(&[Missing]),
        HandOffNext::WindowMissing {
            label: "splashscreen",
            message: "no window labeled 'splashscreen' found",
        }
    );
}

#[test]
fn missing_main_window_fails_the_hand_off() {
    assert_eq!(
        hand_off_next(&[Done, Missing]),
        HandOffNext::WindowMissing { label: "main", message: "no window labeled 'main' found" }
    );
}

#[test]
fn failed_close_fails_the_hand_off() {
    assert_eq!(hand_off_next(&[Failed]), HandOffNext::RequestFailed { step: CLOSE_SPLASH });
}

#[test]
fn failed_show_fails_the_hand_off() {
    assert_eq!(hand_off_next(&[Done, Failed]), HandOffNext::RequestFailed { step: SHOW_MAIN });
}

#[test]
fn first_bad_reply_decides_whatever_follows() {
    for later in [Missing, Failed, Done] {
        assert_eq!(hand_off_next(&[Failed, later]), hand_off_next(&[Failed]));
        assert_eq!(hand_off_next(&[Missing, later]), hand_off_next(&[Missing]));
        assert_eq!(hand_off_next(&[Done, Failed, later]), hand_off_next(&[Done, Failed]));
        assert_eq!(hand_off_next(&[Done, Missing, later]), hand_off_next(&[Done, Missing]));
        assert_eq!(hand_off_next(&[Done, Done, later]), HandOffNext::Finished);
        assert_eq!(hand_off_next(&[Done, Done, later, later]), HandOffNext::Finished);
    }
}

#[test]
fn run_with_both_windows_sends_close_then_show() {
    let (sent, outcome) = run(&[Done, Done]);
    assert_eq!(sent, vec![CLOSE_SPLASH, SHOW_MAIN]);
    assert_eq!(outcome, HandOffNext::Finished);
}

#[test]
fn run_without_splash_screen_sends_one_request_and_fails() {
    let (sent, outcome) = run(&[Missing]);
    assert_eq!(sent, vec![CLOSE_SPLASH]);
    assert_eq!(
        outcome,
        HandOffNext::WindowMissing {
            label: "splashscreen",
            message: "no window labeled 'splashscreen' found",
        }
    );
}

#[test]
fn run_with_failed_close_never_asks_for_main() {
    let (sent, outcome) = run(&[Failed]);
    assert_eq!(sent, vec![CLOSE_SPLASH]);
    assert_eq!(outcome, HandOffNext::RequestFailed { step: CLOSE_SPLASH });
}

#[test]
fn run_without_main_window_fails_after_the_close() {
    let (sent, outcome) = run(&[Done, Missing]);
    assert_eq!(sent, vec![CLOSE_SPLASH, SHOW_MAIN]);
    assert_eq!(
        outcome,
        HandOffNext::WindowMissing { label: "main", message: "no window labeled 'main' found" }
    );
}

#[test]
fn run_with_failed_show_fails_without_a_further_request() {
    let (sent, outcome) = run(&[Done, Failed]);
    assert_eq!(sent, vec![CLOSE_SPLASH, SHOW_MAIN]);
    assert_eq!(outcome, HandOffNext::RequestFailed { step: SHOW_MAIN });
}

#[test]
fn every_run_sends_a_prefix_of_the_plan() {
    let plan = close_splashscreen();
    let answers = [Missing, Failed, Done];
    for first in answers {
        for second in answers {
            let (sent, outcome) = run(&[first, second]);
            assert!(sent.len() >= 1 && sent.len() <= plan.len());
            assert_eq!(sent[..], plan[..sent.len()]);
            assert_eq!(outcome == HandOffNext::Finished, first == Done && second == Done);
            assert_eq!(sent.contains(&SHOW_MAIN), first == Done);
        }
    }
}
