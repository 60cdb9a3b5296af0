//! What happens once the selection delay after a release has passed: read the
//! selection, hand it to the front end, and bring the toolbar up beside the cursor
//! with the text in it. Each step stops the flow when what it needs is missing.
//!
//! The caller does the work (the capture, the events, the window calls); this machine
//! decides, from the outcome of each action, which action comes next.
use vstd::prelude::*;
use crate::placement::{chosen_screen, place_toolbar, placement_fits, search_fits, toolbar_x, toolbar_y, Monitor};

verus! {

/// The next thing the caller does.
pub enum PopupAction {
    /// Read the selected text (a capture, see `selection`).
    ReadSelection,
    /// Send the text to the front end on `text_selected`.
    EmitTextSelected(String),
    /// Look up the toolbar window.
    FindToolbarWindow,
    /// Send the text to the toolbar window on `set_text`.
    SendToToolbar(String),
    /// Report the monitors, the primary monitor and the last cursor position.
    QueryScreens,
    /// Move the toolbar window's top-left corner here.
    MoveToolbar(i32, i32),
    /// Show the toolbar window.
    ShowToolbar,
    /// Give the toolbar window the focus.
    FocusToolbar,
    /// Nothing more to do.
    Stop,
}

/// How the last action went.
pub enum PopupOutcome {
    /// It was done.
    Completed,
    /// The selected text, if one was read.
    Selection(Option<String>),
    /// Whether the toolbar window exists.
    WindowFound(bool),
    /// The monitors, the primary monitor and the last cursor position.
    Screens(Vec<Monitor>, Option<Monitor>, i32, i32),
}

/// A flow in progress: the action whose outcome is awaited, with the text read when
/// it is still needed.
pub enum PopupFlow {
    AwaitSelection,
    AfterTextSelected(String),
    AwaitWindow(String),
    AfterSetText,
    AwaitScreens,
    AfterMove,
    AfterShow,
    AfterFocus,
    Done,
}

/// The flow's first state and action: read the selection when showing it is allowed,
/// else stop at once.
pub open spec fn popup_start(allowed: bool) -> (PopupFlow, PopupAction) {
    if allowed {
        (PopupFlow::AwaitSelection, PopupAction::ReadSelection)
    } else {
        (PopupFlow::Done, PopupAction::Stop)
    }
}

/// The flow is over, with nothing more to do.
pub open spec fn stopped() -> (PopupFlow, PopupAction) {
    (PopupFlow::Done, PopupAction::Stop)
}

/// Whether the placement can be computed for the screens reported in `o`.
pub open spec fn screens_fit(o: PopupOutcome) -> bool {
    match o {
        PopupOutcome::Screens(monitors, primary, mx, my) => {
            &&& search_fits(monitors@, mx, my, 0)
            &&& placement_fits(chosen_screen(monitors@, primary, mx, my), mx, my)
        },
        _ => true,
    }
}

/// The next state and action, given the outcome of the action awaited in `s`.
pub open spec fn popup_next(s: PopupFlow, o: PopupOutcome) -> (PopupFlow, PopupAction) {
    match s {
        PopupFlow::AwaitSelection => match o {
            PopupOutcome::Selection(Some(t)) => (
                PopupFlow::AfterTextSelected(t),
                PopupAction::EmitTextSelected(t),
            ),
            _ => stopped(),
        },
        PopupFlow::AfterTextSelected(t) => (PopupFlow::AwaitWindow(t), PopupAction::FindToolbarWindow),
        PopupFlow::AwaitWindow(t) => match o {
            PopupOutcome::WindowFound(true) => (PopupFlow::AfterSetText, PopupAction::SendToToolbar(t)),
            _ => stopped(),
        },
        PopupFlow::AfterSetText => (PopupFlow::AwaitScreens, PopupAction::QueryScreens),
        PopupFlow::AwaitScreens => match o {
            PopupOutcome::Screens(monitors, primary, mx, my) => {
                let screen = chosen_screen(monitors@, primary, mx, my);
                (
                    PopupFlow::AfterMove,
                    PopupAction::MoveToolbar(
                        toolbar_x(screen, mx) as i32,
                        toolbar_y(screen, my) as i32,
                    ),
                )
            },
            _ => stopped(),
        },
        PopupFlow::AfterMove => (PopupFlow::AfterShow, PopupAction::ShowToolbar),
        PopupFlow::AfterShow => (PopupFlow::AfterFocus, PopupAction::FocusToolbar),
        PopupFlow::AfterFocus => stopped(),
        PopupFlow::Done => stopped(),
    }
}

/// The actions a flow takes from `s` when the outcomes come in this order.
pub open spec fn popup_drive(s: PopupFlow, outcomes: Seq<PopupOutcome>) -> Seq<PopupAction>
    decreases outcomes.len(),
{
    if outcomes.len() == 0 {
        Seq::empty()
    } else {
        let (s2, a) = popup_next(s, outcomes[0]);
        seq![a] + popup_drive(s2, outcomes.drop_first())
    }
}

impl PopupFlow {
    /// Starts the flow: `allowed` says whether showing the selection is allowed now
    /// (the toolbar was not closed since the last press).
    pub fn start(allowed: bool) -> (r: (PopupFlow, PopupAction))
        ensures
            r == popup_start(allowed),
    {
        if allowed {
            (PopupFlow::AwaitSelection, PopupAction::ReadSelection)
        } else {
            (PopupFlow::Done, PopupAction::Stop)
        }
    }

    /// Whether the flow is over.
    pub fn is_done(&self) -> (r: bool)
        ensures
            r == (*self is Done),
    {
        match self {
            PopupFlow::Done => true,
            _ => false,
        }
    }

    /// Takes the outcome of the awaited action and gives the next state and action.
    pub fn step(self, outcome: PopupOutcome) -> (r: (PopupFlow, PopupAction))
        requires
            self is AwaitScreens ==> screens_fit(outcome),
        ensures
            r == popup_next(self, outcome),
    {
        match self {
            PopupFlow::AwaitSelection => match outcome {
                PopupOutcome::Selection(Some(t)) => {
                    let sent = t.clone();
                    (PopupFlow::AfterTextSelected(t), PopupAction::EmitTextSelected(sent))
                },
                _ => (PopupFlow::Done, PopupAction::Stop),
            },
            PopupFlow::AfterTextSelected(t) => (
                PopupFlow::AwaitWindow(t),
                PopupAction::FindToolbarWindow,
            ),
            PopupFlow::AwaitWindow(t) => match outcome {
                PopupOutcome::WindowFound(true) => (
                    PopupFlow::AfterSetText,
                    PopupAction::SendToToolbar(t),
                ),
                _ => (PopupFlow::Done, PopupAction::Stop),
            },
            PopupFlow::AfterSetText => (PopupFlow::AwaitScreens, PopupAction::QueryScreens),
            PopupFlow::AwaitScreens => match outcome {
                PopupOutcome::Screens(monitors, primary, mx, my) => {
                    let (x, y) = place_toolbar(monitors.as_slice(), primary, mx, my);
                    (PopupFlow::AfterMove, PopupAction::MoveToolbar(x, y))
                },
                _ => (PopupFlow::Done, PopupAction::Stop),
            },
            PopupFlow::AfterMove => (PopupFlow::AfterShow, PopupAction::ShowToolbar),
            PopupFlow::AfterShow => (PopupFlow::AfterFocus, PopupAction::FocusToolbar),
            PopupFlow::AfterFocus | PopupFlow::Done => (PopupFlow::Done, PopupAction::Stop),
        }
    }
}

/// When showing is allowed, a text was read, the toolbar window exists and the
/// placement fits: the text goes to the front end, then the same text to the toolbar,
/// then the toolbar moves beside the cursor on the chosen screen, is shown and gets
/// the focus, in that order.
pub proof fn lemma_full_popup(
    text: String,
    monitors: Vec<Monitor>,
    primary: Option<Monitor>,
    mx: i32,
    my: i32,
)
    ensures
        popup_drive(
            popup_start(true).0,
            seq![
                PopupOutcome::Selection(Some(text)),
                PopupOutcome::Completed,
                PopupOutcome::WindowFound(true),
                PopupOutcome::Completed,
                PopupOutcome::Screens(monitors, primary, mx, my),
                PopupOutcome::Completed,
                PopupOutcome::Completed,
                PopupOutcome::Completed,
            ],
        ) == seq![
            PopupAction::EmitTextSelected(text),
            PopupAction::FindToolbarWindow,
            PopupAction::SendToToolbar(text),
            PopupAction::QueryScreens,
            PopupAction::MoveToolbar(
                toolbar_x(chosen_screen(monitors@, primary, mx, my), mx) as i32,
                toolbar_y(chosen_screen(monitors@, primary, mx, my), my) as i32,
            ),
            PopupAction::ShowToolbar,
            PopupAction::FocusToolbar,
            PopupAction::Stop,
        ],
{
    reveal_with_fuel(popup_drive, 9);
    let outcomes = seq![
        PopupOutcome::Selection(Some(text)),
        PopupOutcome::Completed,
        PopupOutcome::WindowFound(true),
        PopupOutcome::Completed,
        PopupOutcome::Screens(monitors, primary, mx, my),
        PopupOutcome::Completed,
        PopupOutcome::Completed,
        PopupOutcome::Completed,
    ];
    assert(popup_drive(popup_start(true).0, outcomes) =~= seq![
        PopupAction::EmitTextSelected(text),
        PopupAction::FindToolbarWindow,
        PopupAction::SendToToolbar(text),
        PopupAction::QueryScreens,
        PopupAction::MoveToolbar(
            toolbar_x(chosen_screen(monitors@, primary, mx, my), mx) as i32,
            toolbar_y(chosen_screen(monitors@, primary, mx, my), my) as i32,
        ),
        PopupAction::ShowToolbar,
        PopupAction::FocusToolbar,
        PopupAction::Stop,
    ]);
}

/// When showing is not allowed, nothing at all is done.
pub proof fn lemma_blocked_does_nothing()
    ensures
        popup_start(false) == stopped(),
{
}

/// When no text was read, the flow stops before any event is sent.
pub proof fn lemma_no_text_stops()
    ensures
        popup_next(popup_start(true).0, PopupOutcome::Selection(None)) == stopped(),
{
}

/// When the toolbar window is missing, the flow stops after handing the text to the
/// front end, without touching any window.
pub proof fn lemma_no_window_stops(t: String)
    ensures
        popup_next(PopupFlow::AwaitWindow(t), PopupOutcome::WindowFound(false)) == stopped(),
{
}

/// The text sent to the toolbar is the text that was read and handed to the front end.
pub proof fn lemma_toolbar_gets_read_text(t: String, o: PopupOutcome)
    ensures
        ({
            let s1 = popup_next(popup_start(true).0, PopupOutcome::Selection(Some(t))).0;
            let s2 = popup_next(s1, o).0;
            popup_next(s2, PopupOutcome::WindowFound(true)).1 == PopupAction::SendToToolbar(t)
        }),
{
}

} // verus!
