//! Reading the text selected in another application: keep the clipboard, clear it,
//! press Ctrl+C, read what was copied, put the clipboard back, and keep the copy only
//! when it is not blank. The clipboard is put back also when the keyboard fails.
//!
//! The work with the clipboard, the keyboard and the clock is done by the caller; this
//! machine decides, from the outcome of each action, which action comes next.
use vstd::prelude::*;
use crate::text::{has_content, is_blank};

verus! {

/// Milliseconds to wait after clearing the clipboard.
pub const CLEAR_WAIT_MS: u64 = 50;

/// Milliseconds to wait for the copy to reach the clipboard.
pub const COPY_WAIT_MS: u64 = 150;

/// A key of the copy shortcut.
#[derive(Clone, Copy, Debug, PartialEq, Eq)]
pub enum ShortcutKey {
    Control,
    /// The letter `c`.
    C,
}

/// Whether a key goes down or comes up.
#[derive(Clone, Copy, Debug, PartialEq, Eq)]
pub enum KeyDirection {
    Press,
    Release,
}

/// The next thing the caller does.
pub enum CaptureAction {
    /// Read the clipboard's text.
    ReadClipboard,
    /// Empty the clipboard.
    ClearClipboard,
    /// Sleep this many milliseconds.
    Wait(u64),
    /// Open the keyboard simulator.
    OpenKeyboard,
    /// Send this key stroke.
    Key(ShortcutKey, KeyDirection),
    /// Put this text on the clipboard.
    WriteClipboard(String),
    /// Stop: the selected text, if there is one.
    Finish(Option<String>),
}

/// How the last action went.
pub enum ActionOutcome {
    /// It was done.
    Completed,
    /// It failed.
    Failed,
    /// The clipboard was read: its text, or `None` when it held none or could not be read.
    Text(Option<String>),
}

/// How far the capture has come: the action whose outcome is awaited.
#[derive(Clone, Copy, Debug, PartialEq, Eq)]
pub enum CaptureStage {
    ReadBackup,
    ClearBefore,
    WaitClear,
    OpenKeyboard,
    ControlDown,
    CDown,
    CUp,
    ControlUp,
    WaitCopy,
    ReadSelection,
    Restore,
    Done,
}

/// A capture in progress.
pub struct SelectionCapture {
    pub stage: CaptureStage,
    /// What the clipboard held before the capture.
    pub backup: Option<String>,
    /// What the copy put on the clipboard.
    pub selected: Option<String>,
}

/// The text read, when the outcome is a read.
pub open spec fn read_text(o: ActionOutcome) -> Option<String> {
    match o {
        ActionOutcome::Text(t) => t,
        _ => None,
    }
}

/// The copied text, kept only when it holds a character that is not white space.
pub open spec fn accepted(text: Option<String>) -> Option<String> {
    match text {
        Some(t) => if has_content(t@) {
            Some(t)
        } else {
            None
        },
        None => None,
    }
}

/// How the clipboard is put back: the text it held is written again, or it is
/// emptied when it held none.
pub open spec fn restore_action(backup: Option<String>) -> CaptureAction {
    match backup {
        Some(b) => CaptureAction::WriteClipboard(b),
        None => CaptureAction::ClearClipboard,
    }
}

/// A keyboard step that failed skips the copy: the clipboard is put back at once and
/// the capture then ends with nothing.
pub open spec fn key_step(
    s: SelectionCapture,
    o: ActionOutcome,
    stage: CaptureStage,
    action: CaptureAction,
) -> (SelectionCapture, CaptureAction) {
    if o is Failed {
        (
            SelectionCapture { stage: CaptureStage::Restore, backup: None, selected: None },
            restore_action(s.backup),
        )
    } else {
        (SelectionCapture { stage, ..s }, action)
    }
}

/// The state at the start of a capture.
pub open spec fn capture_start() -> SelectionCapture {
    SelectionCapture { stage: CaptureStage::ReadBackup, backup: None, selected: None }
}

/// The next state and action, given the outcome of the action awaited in `s`.
pub open spec fn capture_next(s: SelectionCapture, o: ActionOutcome) -> (
    SelectionCapture,
    CaptureAction,
) {
    match s.stage {
        CaptureStage::ReadBackup => (
            SelectionCapture { stage: CaptureStage::ClearBefore, backup: read_text(o), ..s },
            CaptureAction::ClearClipboard,
        ),
        CaptureStage::ClearBefore => (
            SelectionCapture { stage: CaptureStage::WaitClear, ..s },
            CaptureAction::Wait(CLEAR_WAIT_MS),
        ),
        CaptureStage::WaitClear => (
            SelectionCapture { stage: CaptureStage::OpenKeyboard, ..s },
            CaptureAction::OpenKeyboard,
        ),
        CaptureStage::OpenKeyboard => key_step(
            s,
            o,
            CaptureStage::ControlDown,
            CaptureAction::Key(ShortcutKey::Control, KeyDirection::Press),
        ),
        CaptureStage::ControlDown => key_step(
            s,
            o,
            CaptureStage::CDown,
            CaptureAction::Key(ShortcutKey::C, KeyDirection::Press),
        ),
        CaptureStage::CDown => key_step(
            s,
            o,
            CaptureStage::CUp,
            CaptureAction::Key(ShortcutKey::C, KeyDirection::Release),
        ),
        CaptureStage::CUp => key_step(
            s,
            o,
            CaptureStage::ControlUp,
            CaptureAction::Key(ShortcutKey::Control, KeyDirection::Release),
        ),
        CaptureStage::ControlUp => key_step(
            s,
            o,
            CaptureStage::WaitCopy,
            CaptureAction::Wait(COPY_WAIT_MS),
        ),
        CaptureStage::WaitCopy => (
            SelectionCapture { stage: CaptureStage::ReadSelection, ..s },
            CaptureAction::ReadClipboard,
        ),
        CaptureStage::ReadSelection => (
            SelectionCapture {
                stage: CaptureStage::Restore,
                backup: None,
                selected: read_text(o),
            },
            restore_action(s.backup),
        ),
        CaptureStage::Restore => (
            SelectionCapture { stage: CaptureStage::Done, selected: None, ..s },
            CaptureAction::Finish(accepted(s.selected)),
        ),
        CaptureStage::Done => (s, CaptureAction::Finish(None)),
    }
}

/// The actions a capture takes from `s` when the outcomes come in this order.
pub open spec fn drive(s: SelectionCapture, outcomes: Seq<ActionOutcome>) -> Seq<CaptureAction>
    decreases outcomes.len(),
{
    if outcomes.len() == 0 {
        Seq::empty()
    } else {
        let (s2, a) = capture_next(s, outcomes[0]);
        seq![a] + drive(s2, outcomes.drop_first())
    }
}

/// The copied text, kept only when it is not blank.
pub fn filter_selection(text: Option<String>) -> (r: Option<String>)
    ensures
        r == accepted(text),
{
    match text {
        Some(t) => {
            if is_blank(t.as_str()) {
                None
            } else {
                Some(t)
            }
        },
        None => None,
    }
}

fn take_text(o: ActionOutcome) -> (r: Option<String>)
    ensures
        r == read_text(o),
{
    match o {
        ActionOutcome::Text(t) => t,
        _ => None,
    }
}

impl SelectionCapture {
    /// A new capture and its first action: read the clipboard to keep its text.
    pub fn start() -> (r: (SelectionCapture, CaptureAction))
        ensures
            r.0 == capture_start(),
            r.1 == CaptureAction::ReadClipboard,
    {
        (
            SelectionCapture { stage: CaptureStage::ReadBackup, backup: None, selected: None },
            CaptureAction::ReadClipboard,
        )
    }

    /// Whether the capture has ended.
    pub fn is_done(&self) -> (r: bool)
        ensures
            r == (self.stage == CaptureStage::Done),
    {
        match self.stage {
            CaptureStage::Done => true,
            _ => false,
        }
    }

    /// Takes the outcome of the awaited action and gives the next state and action.
    pub fn step(self, outcome: ActionOutcome) -> (r: (SelectionCapture, CaptureAction))
        ensures
            r == capture_next(self, outcome),
    {
        let SelectionCapture { stage, backup, selected } = self;
        match stage {
            CaptureStage::ReadBackup => (
                SelectionCapture {
                    stage: CaptureStage::ClearBefore,
                    backup: take_text(outcome),
                    selected,
                },
                CaptureAction::ClearClipboard,
            ),
            CaptureStage::ClearBefore => (
                SelectionCapture { stage: CaptureStage::WaitClear, backup, selected },
                CaptureAction::Wait(CLEAR_WAIT_MS),
            ),
            CaptureStage::WaitClear => (
                SelectionCapture { stage: CaptureStage::OpenKeyboard, backup, selected },
                CaptureAction::OpenKeyboard,
            ),
            CaptureStage::OpenKeyboard | CaptureStage::ControlDown | CaptureStage::CDown
            | CaptureStage::CUp | CaptureStage::ControlUp => {
                if matches!(outcome, ActionOutcome::Failed) {
                    let action = match backup {
                        Some(b) => CaptureAction::WriteClipboard(b),
                        None => CaptureAction::ClearClipboard,
                    };
                    return (
                        SelectionCapture { stage: CaptureStage::Restore, backup: None, selected: None },
                        action,
                    );
                }
                let (next_stage, action) = match stage {
                    CaptureStage::OpenKeyboard => (
                        CaptureStage::ControlDown,
                        CaptureAction::Key(ShortcutKey::Control, KeyDirection::Press),
                    ),
                    CaptureStage::ControlDown => (
                        CaptureStage::CDown,
                        CaptureAction::Key(ShortcutKey::C, KeyDirection::Press),
                    ),
                    CaptureStage::CDown => (
                        CaptureStage::CUp,
                        CaptureAction::Key(ShortcutKey::C, KeyDirection::Release),
                    ),
                    CaptureStage::CUp => (
                        CaptureStage::ControlUp,
                        CaptureAction::Key(ShortcutKey::Control, KeyDirection::Release),
                    ),
                    _ => (CaptureStage::WaitCopy, CaptureAction::Wait(COPY_WAIT_MS)),
                };
                (SelectionCapture { stage: next_stage, backup, selected }, action)
            },
            CaptureStage::WaitCopy => (
                SelectionCapture { stage: CaptureStage::ReadSelection, backup, selected },
                CaptureAction::ReadClipboard,
            ),
            CaptureStage::ReadSelection => {
                let action = match backup {
                    Some(b) => CaptureAction::WriteClipboard(b),
                    None => CaptureAction::ClearClipboard,
                };
                (
                    SelectionCapture {
                        stage: CaptureStage::Restore,
                        backup: None,
                        selected: take_text(outcome),
                    },
                    action,
                )
            },
            CaptureStage::Restore => (
                SelectionCapture { stage: CaptureStage::Done, backup, selected: None },
                CaptureAction::Finish(filter_selection(selected)),
            ),
            CaptureStage::Done => (
                SelectionCapture { stage, backup, selected },
                CaptureAction::Finish(None),
            ),
        }
    }
}

/// When every step succeeds, a capture reads the clipboard, clears it, waits, presses
/// and releases Ctrl+C, waits, reads the copy, puts back exactly the text the clipboard
/// held before (or clears it when it held none), and ends with the copy if it is not
/// blank.
pub proof fn lemma_full_capture(backup: Option<String>, copied: Option<String>)
    ensures
        drive(
            capture_start(),
            seq![
                ActionOutcome::Text(backup),
                ActionOutcome::Completed,
                ActionOutcome::Completed,
                ActionOutcome::Completed,
                ActionOutcome::Completed,
                ActionOutcome::Completed,
                ActionOutcome::Completed,
                ActionOutcome::Completed,
                ActionOutcome::Completed,
                ActionOutcome::Text(copied),
                ActionOutcome::Completed,
            ],
        ) == seq![
            CaptureAction::ClearClipboard,
            CaptureAction::Wait(CLEAR_WAIT_MS),
            CaptureAction::OpenKeyboard,
            CaptureAction::Key(ShortcutKey::Control, KeyDirection::Press),
            CaptureAction::Key(ShortcutKey::C, KeyDirection::Press),
            CaptureAction::Key(ShortcutKey::C, KeyDirection::Release),
            CaptureAction::Key(ShortcutKey::Control, KeyDirection::Release),
            CaptureAction::Wait(COPY_WAIT_MS),
            CaptureAction::ReadClipboard,
            restore_action(backup),
            CaptureAction::Finish(accepted(copied)),
        ],
{
    reveal_with_fuel(drive, 12);
    let outcomes = seq![
        ActionOutcome::Text(backup),
        ActionOutcome::Completed,
        ActionOutcome::Completed,
        ActionOutcome::Completed,
        ActionOutcome::Completed,
        ActionOutcome::Completed,
        ActionOutcome::Completed,
        ActionOutcome::Completed,
        ActionOutcome::Completed,
        ActionOutcome::Text(copied),
        ActionOutcome::Completed,
    ];
    assert(drive(capture_start(), outcomes) =~= seq![
        CaptureAction::ClearClipboard,
        CaptureAction::Wait(CLEAR_WAIT_MS),
        CaptureAction::OpenKeyboard,
        CaptureAction::Key(ShortcutKey::Control, KeyDirection::Press),
        CaptureAction::Key(ShortcutKey::C, KeyDirection::Press),
        CaptureAction::Key(ShortcutKey::C, KeyDirection::Release),
        CaptureAction::Key(ShortcutKey::Control, KeyDirection::Release),
        CaptureAction::Wait(COPY_WAIT_MS),
        CaptureAction::ReadClipboard,
        restore_action(backup),
        CaptureAction::Finish(accepted(copied)),
    ]);
}

/// A failed keyboard step puts the clipboard back at once, and the capture then ends
/// with nothing.
pub proof fn lemma_key_failure_restores(s: SelectionCapture, o: ActionOutcome)
    requires
        s.stage == CaptureStage::OpenKeyboard || s.stage == CaptureStage::ControlDown
            || s.stage == CaptureStage::CDown || s.stage == CaptureStage::CUp || s.stage
            == CaptureStage::ControlUp,
    ensures
        capture_next(s, ActionOutcome::Failed).1 == restore_action(s.backup),
        capture_next(capture_next(s, ActionOutcome::Failed).0, o).1 == CaptureAction::Finish(None),
        capture_next(capture_next(s, ActionOutcome::Failed).0, o).0.stage == CaptureStage::Done,
{
}

/// How many more actions a capture at this stage takes, its last one included.
pub open spec fn steps_left(stage: CaptureStage) -> nat {
    match stage {
        CaptureStage::ReadBackup => 11,
        CaptureStage::ClearBefore => 10,
        CaptureStage::WaitClear => 9,
        CaptureStage::OpenKeyboard => 8,
        CaptureStage::ControlDown => 7,
        CaptureStage::CDown => 6,
        CaptureStage::CUp => 5,
        CaptureStage::ControlUp => 4,
        CaptureStage::WaitCopy => 3,
        CaptureStage::ReadSelection => 2,
        CaptureStage::Restore => 1,
        CaptureStage::Done => 0,
    }
}

/// The capture's actions come in as many as there are outcomes.
proof fn lemma_drive_len(s: SelectionCapture, outcomes: Seq<ActionOutcome>)
    ensures
        drive(s, outcomes).len() == outcomes.len(),
    decreases outcomes.len(),
{
    if outcomes.len() > 0 {
        lemma_drive_len(capture_next(s, outcomes[0]).0, outcomes.drop_first());
    }
}

/// From any stage between the first clear and the read of the copy, with the kept text
/// `b`, the capture finishes within its remaining steps, and the action just before it
/// finishes puts `b` back.
proof fn lemma_restores_before_finish(
    s: SelectionCapture,
    outcomes: Seq<ActionOutcome>,
    b: Option<String>,
) -> (k: int)
    requires
        s.stage != CaptureStage::ReadBackup,
        s.stage != CaptureStage::Restore,
        s.stage != CaptureStage::Done,
        s.backup == b,
        outcomes.len() >= steps_left(s.stage),
    ensures
        1 <= k < steps_left(s.stage),
        drive(s, outcomes).len() == outcomes.len(),
        drive(s, outcomes)[k] is Finish,
        drive(s, outcomes)[k - 1] == restore_action(b),
        forall|j: int| 0 <= j < k ==> !(#[trigger] drive(s, outcomes)[j] is Finish),
    decreases steps_left(s.stage),
{
    lemma_drive_len(s, outcomes);
    let o = outcomes[0];
    let (s2, a) = capture_next(s, o);
    let rest = outcomes.drop_first();
    lemma_drive_len(s2, rest);
    assert(drive(s, outcomes) == seq![a] + drive(s2, rest));
    if s2.stage == CaptureStage::Restore {
        assert(a == restore_action(b));
        let (s3, a3) = capture_next(s2, rest[0]);
        assert(drive(s2, rest) == seq![a3] + drive(s3, rest.drop_first()));
        assert(drive(s, outcomes)[1] == a3);
        assert(a3 is Finish);
        assert(!(a is Finish));
        1
    } else {
        let k2 = lemma_restores_before_finish(s2, rest, b);
        assert forall|j: int| 0 <= j < k2 + 1 implies !(#[trigger] drive(s, outcomes)[j] is Finish) by {
            if j > 0 {
                assert(drive(s, outcomes)[j] == drive(s2, rest)[j - 1]);
            }
        }
        assert(drive(s, outcomes)[k2 + 1] == drive(s2, rest)[k2]);
        assert(drive(s, outcomes)[k2] == drive(s2, rest)[k2 - 1]);
        k2 + 1
    }
}

/// Whatever each step's outcome, a capture finishes within its eleven steps, and the
/// action just before it finishes puts back the text the clipboard held when the
/// capture began (or empties it when there was none): the user's clipboard is restored
/// on every run.
pub proof fn lemma_clipboard_restored(outcomes: Seq<ActionOutcome>)
    requires
        outcomes.len() >= 11,
    ensures
        exists|k: int|
            #![trigger drive(capture_start(), outcomes)[k]]
            2 <= k < 11 && drive(capture_start(), outcomes)[k] is Finish && drive(
                capture_start(),
                outcomes,
            )[k - 1] == restore_action(read_text(outcomes[0])) && forall|j: int|
                0 <= j < k ==> !(#[trigger] drive(capture_start(), outcomes)[j] is Finish),
{
    let s = capture_start();
    let (s1, a) = capture_next(s, outcomes[0]);
    let rest = outcomes.drop_first();
    assert(drive(s, outcomes) == seq![a] + drive(s1, rest));
    let k1 = lemma_restores_before_finish(s1, rest, read_text(outcomes[0]));
    let k = k1 + 1;
    assert(drive(s, outcomes)[k] == drive(s1, rest)[k1]);
    assert(drive(s, outcomes)[k - 1] == drive(s1, rest)[k1 - 1]);
    assert forall|j: int| 0 <= j < k implies !(#[trigger] drive(s, outcomes)[j] is Finish) by {
        if j > 0 {
            assert(drive(s, outcomes)[j] == drive(s1, rest)[j - 1]);
        }
    }
}

/// A capture only ever hands back text that is not blank, and then the very text
/// that was copied.
pub proof fn lemma_finish_not_blank(s: SelectionCapture, o: ActionOutcome)
    ensures
        capture_next(s, o).1 matches CaptureAction::Finish(Some(t)) ==> has_content(t@) && s.selected
            == Some(t),
{
}

} // verus!
