//! The hand-off from the splash screen to the main window.
//!
//! While the application loads, a small splash window is on screen and the main
//! window exists but is hidden. Once loading is done the two change places: the
//! splash screen is closed, and only when that went well the main window is
//! shown. Each request goes to the window system and comes back with a reply;
//! [`hand_off_next`] reads the replies so far and says what comes next.

use crate::text::str_eq;
use vstd::prelude::*;

verus! {

/// Label of the window that is shown while the application loads.
pub const SPLASHSCREEN_LABEL: &'static str = "splashscreen";

/// Label of the window that holds the application.
pub const MAIN_LABEL: &'static str = "main";

/// What the hand-off reports when there is no splash screen to close.
pub const NO_SPLASHSCREEN_MESSAGE: &'static str = "no window labeled 'splashscreen' found";

/// What the hand-off reports when there is no main window to show.
pub const NO_MAIN_MESSAGE: &'static str = "no window labeled 'main' found";

/// What can be asked of a window during the hand-off.
#[derive(Clone, Copy, Debug, PartialEq, Eq)]
pub enum WindowOp {
    /// Close the window for good.
    Close,
    /// Make the window visible.
    Show,
}

/// One request to the window system: look up the window called `label` and do
/// `op` to it.
#[derive(Clone, Copy, Debug, PartialEq, Eq)]
pub struct WindowStep {
    pub op: WindowOp,
    pub label: &'static str,
}

/// A [`WindowStep`] with its label as a sequence of characters.
pub struct WindowStepView {
    pub op: WindowOp,
    pub label: Seq<char>,
}

impl View for WindowStep {
    type V = WindowStepView;

    open spec fn view(&self) -> WindowStepView {
        WindowStepView { op: self.op, label: self.label@ }
    }
}

/// How the window system answered one request.
#[derive(Clone, Copy, Debug, PartialEq, Eq)]
pub enum WindowReply {
    /// There is no window with the label; nothing was done.
    Missing,
    /// The window is there, but the operation on it failed.
    Failed,
    /// The operation was carried out.
    Done,
}

/// What comes next in the hand-off.
#[derive(Clone, Copy, Debug, PartialEq, Eq)]
pub enum HandOffNext {
    /// Send this request and come back with its reply.
    Request { step: WindowStep },
    /// The hand-off has failed: the window `label` does not exist. `message`
    /// says so in words.
    WindowMissing { label: &'static str, message: &'static str },
    /// The hand-off has failed: the window system could not carry out `step`.
    RequestFailed { step: WindowStep },
    /// The hand-off is complete.
    Finished,
}

/// A [`HandOffNext`] with its texts as sequences of characters.
pub enum HandOffNextView {
    Request { step: WindowStepView },
    WindowMissing { label: Seq<char>, message: Seq<char> },
    RequestFailed { step: WindowStepView },
    Finished,
}

impl View for HandOffNext {
    type V = HandOffNextView;

    open spec fn view(&self) -> HandOffNextView {
        match *self {
            HandOffNext::Request { step } => HandOffNextView::Request { step: step@ },
            HandOffNext::WindowMissing { label, message } => HandOffNextView::WindowMissing {
                label: label@,
                message: message@,
            },
            HandOffNext::RequestFailed { step } => HandOffNextView::RequestFailed { step: step@ },
            HandOffNext::Finished => HandOffNextView::Finished,
        }
    }
}

/// The hand-off, in the order in which it is carried out: first the splash
/// screen is closed, then the main window is shown.
pub open spec fn close_splashscreen_spec() -> Seq<WindowStepView> {
    seq![
        WindowStepView { op: WindowOp::Close, label: SPLASHSCREEN_LABEL@ },
        WindowStepView { op: WindowOp::Show, label: MAIN_LABEL@ },
    ]
}

/// The words for a window that is not there: they name the window by its
/// label, between single quotes.
pub open spec fn missing_window_message(label: Seq<char>) -> Seq<char> {
    "no window labeled '"@ + label + "' found"@
}

/// What comes next when the requests of `plan` before position `at` have all
/// been carried out, and `replies` holds the answer to each request sent so
/// far, oldest first. The replies are read in order: the first one that is not
/// [`WindowReply::Done`] fails the hand-off, a request without a reply is the
/// one to send, and when every request has been carried out the hand-off is
/// complete.
pub open spec fn hand_off_from(
    plan: Seq<WindowStepView>,
    replies: Seq<WindowReply>,
    at: int,
) -> HandOffNextView
    decreases plan.len() - at,
{
    if at < 0 || at >= plan.len() {
        HandOffNextView::Finished
    } else if at >= replies.len() {
        HandOffNextView::Request { step: plan[at] }
    } else {
        match replies[at] {
            WindowReply::Missing => HandOffNextView::WindowMissing {
                label: plan[at].label,
                message: missing_window_message(plan[at].label),
            },
            WindowReply::Failed => HandOffNextView::RequestFailed { step: plan[at] },
            WindowReply::Done => hand_off_from(plan, replies, at + 1),
        }
    }
}

/// What comes next in the hand-off after these replies.
pub open spec fn hand_off_next_spec(replies: Seq<WindowReply>) -> HandOffNextView {
    hand_off_from(close_splashscreen_spec(), replies, 0)
}

/// The requests that replace the splash screen by the main window when all
/// goes well, in the order in which they are sent.
pub fn close_splashscreen() -> (steps: Vec<WindowStep>)
    ensures
        steps@.len() == close_splashscreen_spec().len(),
        forall|i: int|
            0 <= i < steps@.len() ==> (#[trigger] steps@[i])@ == close_splashscreen_spec()[i],
{
    let mut steps: Vec<WindowStep> = Vec::new();
    steps.push(WindowStep { op: WindowOp::Close, label: SPLASHSCREEN_LABEL });
    steps.push(WindowStep { op: WindowOp::Show, label: MAIN_LABEL });
    steps
}

/// Says what comes next in the hand-off. `replies` holds the window system's
/// answer to each request sent so far, oldest first; it is empty at the start.
/// The caller sends the request it is given, adds the reply and asks again,
/// until it is told that the hand-off has failed or is complete.
pub fn hand_off_next(replies: &[WindowReply]) -> (next: HandOffNext)
    ensures
        next@ == hand_off_next_spec(replies@),
{
    let steps = close_splashscreen();
    let ghost plan = close_splashscreen_spec();
    let mut at: usize = 0;
    while at < steps.len() && at < replies.len()
        invariant
            at <= steps.len(),
            at <= replies.len(),
            plan == close_splashscreen_spec(),
            steps@.len() == plan.len(),
            forall|i: int| 0 <= i < steps@.len() ==> (#[trigger] steps@[i])@ == plan[i],
            hand_off_from(plan, replies@, at as int) == hand_off_from(plan, replies@, 0),
        decreases steps.len() - at,
    {
        let step = steps[at];
        match replies[at] {
            WindowReply::Missing => {
                let message = if str_eq(step.label, MAIN_LABEL) {
                    NO_MAIN_MESSAGE
                } else {
                    NO_SPLASHSCREEN_MESSAGE
                };
                proof {
                    lemma_messages_name_windows();
                }
                return HandOffNext::WindowMissing { label: step.label, message };
            },
            WindowReply::Failed => {
                return HandOffNext::RequestFailed { step };
            },
            WindowReply::Done => {},
        }
        at = at + 1;
    }
    if at < steps.len() {
        HandOffNext::Request { step: steps[at] }
    } else {
        HandOffNext::Finished
    }
}

/// The hand-off never asks for the same window twice: the two labels name two
/// different windows.
pub proof fn lemma_labels_differ()
    ensures
        SPLASHSCREEN_LABEL@ != MAIN_LABEL@,
{
    reveal_strlit("splashscreen");
    reveal_strlit("main");
    assert(SPLASHSCREEN_LABEL@.len() != MAIN_LABEL@.len());
}

/// The two messages of the hand-off are the words for a missing window, each
/// with the label of its own window.
pub proof fn lemma_messages_name_windows()
    ensures
        missing_window_message(SPLASHSCREEN_LABEL@) == NO_SPLASHSCREEN_MESSAGE@,
        missing_window_message(MAIN_LABEL@) == NO_MAIN_MESSAGE@,
{
    reveal_strlit("no window labeled 'splashscreen' found");
    reveal_strlit("no window labeled 'main' found");
    reveal_strlit("no window labeled '");
    reveal_strlit("' found");
    reveal_strlit("splashscreen");
    reveal_strlit("main");
    assert(missing_window_message(SPLASHSCREEN_LABEL@) =~= NO_SPLASHSCREEN_MESSAGE@);
    assert(missing_window_message(MAIN_LABEL@) =~= NO_MAIN_MESSAGE@);
}

/// The hand-off spelled out, reply by reply. With no reply yet the splash
/// screen is to be closed. If that window is missing or cannot be closed the
/// hand-off has failed, and the main window is left alone. After a close that
/// went well the main window is to be shown; if it is missing or cannot be
/// shown the hand-off has failed, and the splash screen stays closed. After
/// two requests that went well the hand-off is complete.
pub proof fn lemma_hand_off_cases(replies: Seq<WindowReply>)
    ensures
        hand_off_next_spec(replies) == (if replies.len() == 0 {
            HandOffNextView::Request {
                step: WindowStepView { op: WindowOp::Close, label: SPLASHSCREEN_LABEL@ },
            }
        } else {
            match replies[0] {
                WindowReply::Missing => HandOffNextView::WindowMissing {
                    label: SPLASHSCREEN_LABEL@,
                    message: NO_SPLASHSCREEN_MESSAGE@,
                },
                WindowReply::Failed => HandOffNextView::RequestFailed {
                    step: WindowStepView { op: WindowOp::Close, label: SPLASHSCREEN_LABEL@ },
                },
                WindowReply::Done => if replies.len() == 1 {
                    HandOffNextView::Request {
                        step: WindowStepView { op: WindowOp::Show, label: MAIN_LABEL@ },
                    }
                } else {
                    match replies[1] {
                        WindowReply::Missing => HandOffNextView::WindowMissing {
                            label: MAIN_LABEL@,
                            message: NO_MAIN_MESSAGE@,
                        },
                        WindowReply::Failed => HandOffNextView::RequestFailed {
                            step: WindowStepView { op: WindowOp::Show, label: MAIN_LABEL@ },
                        },
                        WindowReply::Done => HandOffNextView::Finished,
                    }
                },
            }
        }),
{
    reveal_with_fuel(hand_off_from, 3);
    lemma_messages_name_windows();
}

/// A request is sent only while all has gone well: when the hand-off asks for
/// a request, every request before it was carried out, and the request is the
/// next one of the plan.
pub proof fn lemma_request_follows_success(replies: Seq<WindowReply>)
    requires
        hand_off_next_spec(replies) is Request,
    ensures
        forall|i: int| 0 <= i < replies.len() ==> replies[i] == WindowReply::Done,
        replies.len() < close_splashscreen_spec().len(),
        hand_off_next_spec(replies)->Request_step == close_splashscreen_spec()[
            replies.len() as int],
{
    lemma_hand_off_cases(replies);
}

/// The main window is shown only after the splash screen was closed: the
/// hand-off asks to show a window exactly when one request has been sent and
/// was carried out, and the request it asks for is none but to show the main
/// window.
pub proof fn lemma_show_follows_close(replies: Seq<WindowReply>)
    ensures
        (hand_off_next_spec(replies) matches HandOffNextView::Request { step } && step.op
            == WindowOp::Show) <==> (replies.len() == 1 && replies[0] == WindowReply::Done),
        (hand_off_next_spec(replies) matches HandOffNextView::Request { step } && step.label
            == MAIN_LABEL@) <==> (replies.len() == 1 && replies[0] == WindowReply::Done),
{
    lemma_hand_off_cases(replies);
    lemma_labels_differ();
}

/// The hand-off is complete exactly when both requests were sent and both were
/// carried out.
pub proof fn lemma_finished_iff_both_done(replies: Seq<WindowReply>)
    ensures
        hand_off_next_spec(replies) is Finished <==> (replies.len() >= 2 && replies[0]
            == WindowReply::Done && replies[1] == WindowReply::Done),
{
    lemma_hand_off_cases(replies);
}

/// The first reply that is not a success fails the hand-off, if it answers a
/// request of the plan: that request is the one reported, as missing its
/// window or as failed, whatever replies stand behind it.
pub proof fn lemma_failure_names_first_bad_reply(replies: Seq<WindowReply>, at: int)
    requires
        0 <= at < replies.len(),
        at < close_splashscreen_spec().len(),
        replies[at] != WindowReply::Done,
        forall|i: int| 0 <= i < at ==> replies[i] == WindowReply::Done,
    ensures
        replies[at] == WindowReply::Missing ==> hand_off_next_spec(replies) == (
        HandOffNextView::WindowMissing {
            label: close_splashscreen_spec()[at].label,
            message: missing_window_message(close_splashscreen_spec()[at].label),
        }),
        replies[at] == WindowReply::Failed ==> hand_off_next_spec(replies) == (
        HandOffNextView::RequestFailed { step: close_splashscreen_spec()[at] }),
{
    lemma_hand_off_cases(replies);
    lemma_messages_name_windows();
}

/// An outcome is final: once the hand-off has failed or is complete, no later
/// reply changes what it says, and so no further request is ever asked for.
pub proof fn lemma_outcome_is_final(replies: Seq<WindowReply>, later: Seq<WindowReply>)
    requires
        !(hand_off_next_spec(replies) is Request),
    ensures
        hand_off_next_spec(replies + later) == hand_off_next_spec(replies),
{
    lemma_hand_off_cases(replies);
    lemma_hand_off_cases(replies + later);
}

} // verus!
