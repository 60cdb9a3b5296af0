//! The decisions of the global mouse listener: what each mouse event forwards to the
//! front end, that each release of a button reads the selected text, and when closing
//! the toolbar keeps the text from being shown.
use vstd::prelude::*;

verus! {

/// Milliseconds to let a selection settle after a release before reading it.
pub const SELECTION_DELAY_MS: u64 = 200;

/// The front-end event that carries the text read after a release.
pub const TEXT_SELECTED_EVENT: &'static str = "text_selected";

/// The event that hands the text read after a release to the toolbar window.
pub const SET_TEXT_EVENT: &'static str = "set_text";

/// A mouse event as the listener receives it.
pub enum MouseEvent {
    /// The cursor moved to this position (whole pixels).
    Move(i32, i32),
    /// The named button was pressed.
    Down(String),
    /// The named button was released.
    Up(String),
    /// The wheel turned by this vertical amount.
    Wheel(i64),
}

/// What an event forwards to the front end.
pub enum Emission {
    /// The cursor position, on `global_mouse_move`.
    MouseMove,
    /// The pressed button's name, on `global_mouse_down`.
    MouseDown(String),
    /// The released button's name, on `global_mouse_up`.
    MouseUp(String),
    /// The wheel amount, on `global_wheel`.
    Wheel(i64),
}

impl Emission {
    /// The front-end event that carries this emission.
    pub fn channel(&self) -> (r: &'static str)
        ensures
            r@ == channel_of(*self)@,
    {
        match self {
            Emission::MouseMove => "global_mouse_move",
            Emission::MouseDown(_) => "global_mouse_down",
            Emission::MouseUp(_) => "global_mouse_up",
            Emission::Wheel(_) => "global_wheel",
        }
    }
}

/// The front-end event name of an emission.
pub open spec fn channel_of(e: Emission) -> &'static str {
    match e {
        Emission::MouseMove => "global_mouse_move",
        Emission::MouseDown(_) => "global_mouse_down",
        Emission::MouseUp(_) => "global_mouse_up",
        Emission::Wheel(_) => "global_wheel",
    }
}

/// What the listener does for one event.
pub struct StepOutput {
    /// What is forwarded to the front end.
    pub emission: Emission,
    /// Whether to read the selected text, after a short delay, and show it.
    pub show_selection: bool,
}

/// The listener's memory between events.
pub struct ListenerState {
    /// Last cursor position seen; `(0, 0)` until the cursor has moved.
    pub last_mouse_pos: (i32, i32),
    /// Set when the user closed the toolbar: the selected text is not shown again
    /// until the next button press.
    pub suppress_set_text: bool,
}

/// The state before any event.
pub open spec fn initial_state() -> ListenerState {
    ListenerState { last_mouse_pos: (0, 0), suppress_set_text: false }
}

/// The next state and the output of the listener for one event.
pub open spec fn next(s: ListenerState, e: MouseEvent) -> (ListenerState, StepOutput) {
    match e {
        MouseEvent::Move(x, y) => (
            ListenerState { last_mouse_pos: (x, y), ..s },
            StepOutput { emission: Emission::MouseMove, show_selection: false },
        ),
        MouseEvent::Down(name) => (
            ListenerState { suppress_set_text: false, ..s },
            StepOutput { emission: Emission::MouseDown(name), show_selection: false },
        ),
        MouseEvent::Up(name) => (
            s,
            StepOutput { emission: Emission::MouseUp(name), show_selection: true },
        ),
        MouseEvent::Wheel(delta) => (
            s,
            StepOutput { emission: Emission::Wheel(delta), show_selection: false },
        ),
    }
}

/// The state after a run of events.
pub open spec fn run(s: ListenerState, events: Seq<MouseEvent>) -> ListenerState
    decreases events.len(),
{
    if events.len() == 0 {
        s
    } else {
        next(run(s, events.drop_last()), events.last()).0
    }
}

/// The message of `get_mouse_position` before the cursor has moved.
pub open spec fn position_unset_message() -> Seq<char> {
    "鼠标位置未初始化"@
}

impl ListenerState {
    /// The state before any event: no position, nothing suppressed.
    pub fn new() -> (r: ListenerState)
        ensures
            r == initial_state(),
    {
        ListenerState { last_mouse_pos: (0, 0), suppress_set_text: false }
    }

    /// Takes one event: records what it changes and says what to forward and whether
    /// to show the selected text.
    pub fn handle_event(&mut self, event: MouseEvent) -> (out: StepOutput)
        ensures
            (*final(self), out) == next(*old(self), event),
            event matches MouseEvent::Move(x, y) ==> final(self).last_mouse_pos == (x, y),
            !(event is Move) ==> final(self).last_mouse_pos == old(self).last_mouse_pos,
            event is Down ==> !final(self).suppress_set_text,
            !(event is Down) ==> final(self).suppress_set_text == old(self).suppress_set_text,
            out.show_selection <==> event is Up,
    {
        match event {
            MouseEvent::Move(x, y) => {
                self.last_mouse_pos = (x, y);
                StepOutput { emission: Emission::MouseMove, show_selection: false }
            },
            MouseEvent::Down(name) => {
                if self.suppress_set_text {
                    self.suppress_set_text = false;
                }
                StepOutput { emission: Emission::MouseDown(name), show_selection: false }
            },
            MouseEvent::Up(name) => {
                StepOutput { emission: Emission::MouseUp(name), show_selection: true }
            },
            MouseEvent::Wheel(delta) => {
                StepOutput { emission: Emission::Wheel(delta), show_selection: false }
            },
        }
    }

    /// The user closed the toolbar: the selected text is not shown again until the
    /// next button press.
    pub fn toolbar_closed(&mut self)
        ensures
            *final(self) == (ListenerState { suppress_set_text: true, ..*old(self) }),
    {
        self.suppress_set_text = true;
    }

    /// Whether the selected text may be shown now, when the delay after a release
    /// has passed.
    pub fn selection_allowed(&self) -> (r: bool)
        ensures
            r == !self.suppress_set_text,
    {
        !self.suppress_set_text
    }

    /// The last cursor position, or an error while the cursor has not moved yet.
    pub fn get_mouse_position(&self) -> (r: Result<(i32, i32), String>)
        ensures
            r is Ok <==> self.last_mouse_pos != (0i32, 0i32),
            r matches Ok(p) ==> p == self.last_mouse_pos,
            r matches Err(m) ==> m@ == position_unset_message(),
    {
        if self.last_mouse_pos.0 == 0 && self.last_mouse_pos.1 == 0 {
            return Err(String::from_str("鼠标位置未初始化"));
        }
        Ok(self.last_mouse_pos)
    }
}

/// A position read after a move gives back the position moved to, unless that is the
/// origin, which reads as not yet known.
pub proof fn lemma_position_after_move(s: ListenerState, x: i32, y: i32)
    ensures
        next(s, MouseEvent::Move(x, y)).0.last_mouse_pos == (x, y),
        next(s, MouseEvent::Move(x, y)).0.suppress_set_text == s.suppress_set_text,
{
}

/// Every release of a button, and only a release, reads the selected text.
pub proof fn lemma_release_reads_selection(s: ListenerState, e: MouseEvent)
    ensures
        next(s, e).1.show_selection <==> e is Up,
{
}

/// Closing the toolbar blocks the selected text, and it stays blocked through any run
/// of events without a button press.
pub proof fn lemma_suppressed_until_press(s: ListenerState, events: Seq<MouseEvent>)
    requires
        s.suppress_set_text,
        forall|i: int| 0 <= i < events.len() ==> !(#[trigger] events[i] is Down),
    ensures
        run(s, events).suppress_set_text,
    decreases events.len(),
{
    if events.len() > 0 {
        let rest = events.drop_last();
        assert forall|i: int| 0 <= i < rest.len() implies !(#[trigger] rest[i] is Down) by {
            assert(rest[i] == events[i]);
        }
        lemma_suppressed_until_press(s, rest);
        assert(!(events[events.len() - 1] is Down));
    }
}

/// A button press lifts the block, whatever came before.
pub proof fn lemma_press_unblocks(s: ListenerState, name: String)
    ensures
        !next(s, MouseEvent::Down(name)).0.suppress_set_text,
{
}

/// What an event forwards to the front end: its kind, with the button name or the
/// wheel amount it carried.
pub open spec fn forwarded(e: MouseEvent) -> Emission {
    match e {
        MouseEvent::Move(_, _) => Emission::MouseMove,
        MouseEvent::Down(n) => Emission::MouseDown(n),
        MouseEvent::Up(n) => Emission::MouseUp(n),
        MouseEvent::Wheel(d) => Emission::Wheel(d),
    }
}

/// The outputs of a run of events, one per event, in order.
pub open spec fn outputs(s: ListenerState, events: Seq<MouseEvent>) -> Seq<StepOutput>
    decreases events.len(),
{
    if events.len() == 0 {
        Seq::empty()
    } else {
        outputs(s, events.drop_last()).push(next(run(s, events.drop_last()), events.last()).1)
    }
}

/// Every event is forwarded on the channel of its kind, carrying what it carried.
pub proof fn lemma_every_event_forwarded(s: ListenerState, e: MouseEvent)
    ensures
        next(s, e).1.emission == forwarded(e),
{
}

/// A run of events forwards one emission per event, in the order the events came.
pub proof fn lemma_run_forwards_in_order(s: ListenerState, events: Seq<MouseEvent>)
    ensures
        outputs(s, events).len() == events.len(),
        forall|i: int| 0 <= i < events.len() ==> (#[trigger] outputs(s, events)[i]).emission
            == forwarded(events[i]),
    decreases events.len(),
{
    if events.len() > 0 {
        let rest = events.drop_last();
        lemma_run_forwards_in_order(s, rest);
        assert forall|i: int| 0 <= i < events.len() implies (#[trigger] outputs(s, events)[i]).emission
            == forwarded(events[i]) by {
            if i < rest.len() {
                assert(events[i] == rest[i]);
            }
        }
    }
}

/// Only a press lifts the block on showing the selection, and nothing but closing the
/// toolbar sets it: a move, a release or a wheel turn leaves it as it was.
pub proof fn lemma_block_changes_only_on_press(s: ListenerState, e: MouseEvent)
    ensures
        !(e is Down) ==> next(s, e).0.suppress_set_text == s.suppress_set_text,
        e is Down ==> !next(s, e).0.suppress_set_text,
{
}

/// A click (a press, then a release) always leaves showing the selection allowed,
/// whatever came before, and it stays allowed through any events after the press:
/// only closing the toolbar, which is no mouse event, blocks it again.
pub proof fn lemma_click_leaves_showing_allowed(s: ListenerState, a: String, b: String, later: Seq<MouseEvent>)
    ensures
        !next(next(s, MouseEvent::Down(a)).0, MouseEvent::Up(b)).0.suppress_set_text,
        !run(next(s, MouseEvent::Down(a)).0, later).suppress_set_text,
    decreases later.len(),
{
    if later.len() > 0 {
        lemma_click_leaves_showing_allowed(s, a, b, later.drop_last());
    }
}

/// Only a move changes the last cursor position, and a move sets it to where the
/// cursor went; presses, releases and wheel turns leave it as it was.
pub proof fn lemma_position_changes_only_on_move(s: ListenerState, e: MouseEvent)
    ensures
        !(e is Move) ==> next(s, e).0.last_mouse_pos == s.last_mouse_pos,
        e matches MouseEvent::Move(x, y) ==> next(s, e).0.last_mouse_pos == (x, y),
{
}

/// After any run of events, the last cursor position is where the last move in the
/// run went, or what it was before the run when the run holds no move.
pub proof fn lemma_position_is_last_move(s: ListenerState, events: Seq<MouseEvent>, k: int)
    requires
        0 <= k < events.len(),
        events[k] is Move,
        forall|j: int| k < j < events.len() ==> !(#[trigger] events[j] is Move),
    ensures
        run(s, events).last_mouse_pos == (events[k]->Move_0, events[k]->Move_1),
    decreases events.len(),
{
    if k < events.len() - 1 {
        let rest = events.drop_last();
        assert forall|j: int| k < j < rest.len() implies !(#[trigger] rest[j] is Move) by {
            assert(rest[j] == events[j]);
        }
        assert(rest[k] == events[k]);
        lemma_position_is_last_move(s, rest, k);
        assert(!(events[events.len() - 1] is Move));
    }
}

/// A run without moves leaves the last cursor position as it was.
pub proof fn lemma_no_move_keeps_position(s: ListenerState, events: Seq<MouseEvent>)
    requires
        forall|j: int| 0 <= j < events.len() ==> !(#[trigger] events[j] is Move),
    ensures
        run(s, events).last_mouse_pos == s.last_mouse_pos,
    decreases events.len(),
{
    if events.len() > 0 {
        let rest = events.drop_last();
        assert forall|j: int| 0 <= j < rest.len() implies !(#[trigger] rest[j] is Move) by {
            assert(rest[j] == events[j]);
        }
        lemma_no_move_keeps_position(s, rest);
        assert(!(events[events.len() - 1] is Move));
    }
}

} // verus!
