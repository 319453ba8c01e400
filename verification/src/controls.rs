//! Input handling: which movement keys the player holds, what becomes of the
//! look delta when the cursor moves or enters the window, and what the main
//! loop does about each window event.
use vstd::prelude::*;

verus! {

/// The keys the game reacts to; every other key is `Other`.
#[derive(Debug, Clone, Copy, PartialEq, Eq, Structural)]
pub enum Key {
    W,
    A,
    S,
    D,
    Space,
    LeftShift,
    Tab,
    Escape,
    Other,
}

/// What happened to a key.
#[derive(Debug, Clone, Copy, PartialEq, Eq, Structural)]
pub enum KeyAction {
    Press,
    Release,
    Repeat,
}

/// A window event, as far as the game's decisions read it. Cursor coordinates
/// stay with the caller: only the fact that the cursor moved is decided on.
#[derive(Debug, Clone, Copy, PartialEq, Eq, Structural)]
pub enum WindowInput {
    CursorPos,
    CursorEnter(bool),
    Key(Key, KeyAction),
    Size,
    FramebufferSize(i32, i32),
    Close,
    Other,
}

/// A direction the player can move in.
#[derive(Debug, Clone, Copy, PartialEq, Eq, Structural)]
pub enum MoveDirection {
    Forward,
    Right,
    Left,
    Back,
    Up,
    Down,
}

/// The movement key bound to each direction: W forward, D right, S back,
/// A left, Space up, left Shift down.
pub open spec fn key_direction(k: Key) -> Option<MoveDirection> {
    match k {
        Key::W => Some(MoveDirection::Forward),
        Key::D => Some(MoveDirection::Right),
        Key::S => Some(MoveDirection::Back),
        Key::A => Some(MoveDirection::Left),
        Key::Space => Some(MoveDirection::Up),
        Key::LeftShift => Some(MoveDirection::Down),
        _ => None,
    }
}

/// Rank of a direction when several movement keys are held: the lowest rank
/// wins.
pub open spec fn direction_rank(d: MoveDirection) -> int {
    match d {
        MoveDirection::Forward => 0,
        MoveDirection::Right => 1,
        MoveDirection::Left => 2,
        MoveDirection::Back => 3,
        MoveDirection::Up => 4,
        MoveDirection::Down => 5,
    }
}

/// What becomes of the look delta (the cursor's movement since its last
/// position, which turns the view at the next tick).
#[derive(Debug, Clone, Copy, PartialEq, Eq, Structural)]
pub enum LookDelta {
    /// Take the cursor's movement since its last position.
    FromCursor,
    /// Set it to zero.
    Reset,
    /// Leave it as it is.
    Keep,
}

/// The player's input state: the movement keys held, and whether the cursor
/// has just entered the window (its first position then turns nothing).
#[derive(Debug, Clone, Copy, PartialEq, Eq, Structural)]
pub struct PlayerControls {
    pub moving_forward: bool,
    pub moving_right: bool,
    pub moving_left: bool,
    pub moving_back: bool,
    pub moving_up: bool,
    pub moving_down: bool,
    pub cursor_entered: bool,
}

impl PlayerControls {
    /// Whether the key for direction `d` is held.
    pub open spec fn moving(self, d: MoveDirection) -> bool {
        match d {
            MoveDirection::Forward => self.moving_forward,
            MoveDirection::Right => self.moving_right,
            MoveDirection::Left => self.moving_left,
            MoveDirection::Back => self.moving_back,
            MoveDirection::Up => self.moving_up,
            MoveDirection::Down => self.moving_down,
        }
    }

    /// The same state with the key for direction `d` held or not.
    pub open spec fn with_moving(self, d: MoveDirection, held: bool) -> PlayerControls {
        match d {
            MoveDirection::Forward => PlayerControls { moving_forward: held, ..self },
            MoveDirection::Right => PlayerControls { moving_right: held, ..self },
            MoveDirection::Left => PlayerControls { moving_left: held, ..self },
            MoveDirection::Back => PlayerControls { moving_back: held, ..self },
            MoveDirection::Up => PlayerControls { moving_up: held, ..self },
            MoveDirection::Down => PlayerControls { moving_down: held, ..self },
        }
    }

    /// The state after `event`: a press of a movement key holds its direction
    /// and a release lets it go; the cursor entering or leaving the window sets
    /// `cursor_entered` to that, and a cursor move clears it.
    pub open spec fn after_event(self, event: WindowInput) -> PlayerControls {
        match event {
            WindowInput::CursorPos => PlayerControls { cursor_entered: false, ..self },
            WindowInput::CursorEnter(entered) => PlayerControls { cursor_entered: entered, ..self },
            WindowInput::Key(k, KeyAction::Press) => match key_direction(k) {
                Some(d) => self.with_moving(d, true),
                None => self,
            },
            WindowInput::Key(k, KeyAction::Release) => match key_direction(k) {
                Some(d) => self.with_moving(d, false),
                None => self,
            },
            _ => self,
        }
    }

    /// What `event` does to the look delta: a cursor move gives it the
    /// cursor's movement unless the cursor has just entered the window; the
    /// cursor entering or leaving sets it to zero.
    pub open spec fn look_delta_for(self, event: WindowInput) -> LookDelta {
        match event {
            WindowInput::CursorPos => if self.cursor_entered {
                LookDelta::Keep
            } else {
                LookDelta::FromCursor
            },
            WindowInput::CursorEnter(_) => LookDelta::Reset,
            _ => LookDelta::Keep,
        }
    }

    /// The direction the player moves in at a tick: the held direction of
    /// lowest rank (forward, right, left, back, up, down), if any is held.
    pub open spec fn chosen_direction(self) -> Option<MoveDirection> {
        if self.moving_forward {
            Some(MoveDirection::Forward)
        } else if self.moving_right {
            Some(MoveDirection::Right)
        } else if self.moving_left {
            Some(MoveDirection::Left)
        } else if self.moving_back {
            Some(MoveDirection::Back)
        } else if self.moving_up {
            Some(MoveDirection::Up)
        } else if self.moving_down {
            Some(MoveDirection::Down)
        } else {
            None
        }
    }

    /// No key held, and the cursor not just entered.
    pub fn new() -> (c: PlayerControls)
        ensures
            forall|d: MoveDirection| !#[trigger] c.moving(d),
            !c.cursor_entered,
    {
        PlayerControls {
            moving_forward: false,
            moving_right: false,
            moving_left: false,
            moving_back: false,
            moving_up: false,
            moving_down: false,
            cursor_entered: false,
        }
    }

    fn set_moving(&mut self, d: MoveDirection, held: bool)
        ensures
            *final(self) == old(self).with_moving(d, held),
    {
        match d {
            MoveDirection::Forward => self.moving_forward = held,
            MoveDirection::Right => self.moving_right = held,
            MoveDirection::Left => self.moving_left = held,
            MoveDirection::Back => self.moving_back = held,
            MoveDirection::Up => self.moving_up = held,
            MoveDirection::Down => self.moving_down = held,
        }
    }

    /// Updates the state for `event` and says what becomes of the look delta.
    pub fn handle_window_event(&mut self, event: &WindowInput) -> (delta: LookDelta)
        ensures
            *final(self) == old(self).after_event(*event),
            delta == old(self).look_delta_for(*event),
            !(*event is CursorPos) && !(*event is CursorEnter) ==> delta == LookDelta::Keep,
            *event is CursorEnter ==> delta == LookDelta::Reset,
            *event is CursorPos ==> (delta == LookDelta::Keep <==> old(self).cursor_entered) && (
            delta == LookDelta::FromCursor <==> !old(self).cursor_entered),
    {
        match *event {
            WindowInput::CursorPos => {
                let delta = if self.cursor_entered {
                    LookDelta::Keep
                } else {
                    LookDelta::FromCursor
                };
                self.cursor_entered = false;
                delta
            },
            WindowInput::CursorEnter(entered) => {
                self.cursor_entered = entered;
                LookDelta::Reset
            },
            WindowInput::Key(k, action) => {
                let held = match action {
                    KeyAction::Press => Some(true),
                    KeyAction::Release => Some(false),
                    KeyAction::Repeat => None,
                };
                let dir = match k {
                    Key::W => Some(MoveDirection::Forward),
                    Key::D => Some(MoveDirection::Right),
                    Key::S => Some(MoveDirection::Back),
                    Key::A => Some(MoveDirection::Left),
                    Key::Space => Some(MoveDirection::Up),
                    Key::LeftShift => Some(MoveDirection::Down),
                    _ => None,
                };
                match (dir, held) {
                    (Some(d), Some(h)) => self.set_moving(d, h),
                    _ => {},
                }
                LookDelta::Keep
            },
            _ => LookDelta::Keep,
        }
    }

    /// The direction to move in at a tick, if any movement key is held.
    pub fn movement_direction(&self) -> (d: Option<MoveDirection>)
        ensures
            d == self.chosen_direction(),
    {
        if self.moving_forward {
            Some(MoveDirection::Forward)
        } else if self.moving_right {
            Some(MoveDirection::Right)
        } else if self.moving_left {
            Some(MoveDirection::Left)
        } else if self.moving_back {
            Some(MoveDirection::Back)
        } else if self.moving_up {
            Some(MoveDirection::Up)
        } else if self.moving_down {
            Some(MoveDirection::Down)
        } else {
            None
        }
    }
}

impl Default for PlayerControls {
    /// The same state as [`PlayerControls::new`].
    fn default() -> (c: Self)
        ensures
            forall|d: MoveDirection| !#[trigger] c.moving(d),
            !c.cursor_entered,
    {
        PlayerControls::new()
    }
}

/// Among the held directions the player moves in the one of lowest rank, and
/// does not move when none is held.
pub proof fn lemma_movement_picks_lowest_rank(c: PlayerControls)
    ensures
        c.chosen_direction() is None <==> forall|d: MoveDirection| !#[trigger] c.moving(d),
        c.chosen_direction() matches Some(d) ==> c.moving(d) && forall|e: MoveDirection|
            direction_rank(e) < direction_rank(d) ==> !#[trigger] c.moving(e),
{
    if c.chosen_direction() is None {
        assert forall|d: MoveDirection| !#[trigger] c.moving(d) by {
            match d {
                MoveDirection::Forward => {},
                MoveDirection::Right => {},
                MoveDirection::Left => {},
                MoveDirection::Back => {},
                MoveDirection::Up => {},
                MoveDirection::Down => {},
            }
        }
    }
    if let Some(d) = c.chosen_direction() {
        assert(c.moving(d));
        assert forall|e: MoveDirection| direction_rank(e) < direction_rank(d) implies !#[trigger] c.moving(e) by {
            match e {
                MoveDirection::Forward => {},
                MoveDirection::Right => {},
                MoveDirection::Left => {},
                MoveDirection::Back => {},
                MoveDirection::Up => {},
                MoveDirection::Down => {},
            }
        }
    }
}

/// Pressing a movement key holds its direction and changes nothing else;
/// releasing it afterwards leaves the state as it was, but with that direction
/// not held.
pub proof fn lemma_press_then_release(c: PlayerControls, k: Key)
    requires
        key_direction(k) is Some,
    ensures
        ({
            let d = key_direction(k)->0;
            let pressed = c.after_event(WindowInput::Key(k, KeyAction::Press));
            &&& pressed == c.with_moving(d, true)
            &&& pressed.moving(d)
            &&& forall|e: MoveDirection| e != d ==> #[trigger] pressed.moving(e) == c.moving(e)
            &&& pressed.after_event(WindowInput::Key(k, KeyAction::Release)) == c.with_moving(d, false)
        }),
{
    let d = key_direction(k)->0;
    let pressed = c.after_event(WindowInput::Key(k, KeyAction::Press));
    assert forall|e: MoveDirection| e != d implies #[trigger] pressed.moving(e) == c.moving(e) by {
        match e {
            MoveDirection::Forward => {},
            MoveDirection::Right => {},
            MoveDirection::Left => {},
            MoveDirection::Back => {},
            MoveDirection::Up => {},
            MoveDirection::Down => {},
        }
    }
}

/// Key events never change whether the cursor has just entered, and cursor
/// events never change which movement keys are held; a repeated key changes
/// nothing.
pub proof fn lemma_keys_and_cursor_are_independent(c: PlayerControls, event: WindowInput)
    ensures
        event is Key ==> c.after_event(event).cursor_entered == c.cursor_entered,
        (event is CursorPos || event is CursorEnter) ==> forall|d: MoveDirection|
            #[trigger] c.after_event(event).moving(d) == c.moving(d),
        event matches WindowInput::Key(_, KeyAction::Repeat) ==> c.after_event(event) == c,
{
    if let WindowInput::Key(k, a) = event {
        match key_direction(k) {
            Some(d) => {
                match d {
                    MoveDirection::Forward => {},
                    MoveDirection::Right => {},
                    MoveDirection::Left => {},
                    MoveDirection::Back => {},
                    MoveDirection::Up => {},
                    MoveDirection::Down => {},
                }
            },
            None => {},
        }
    }
}

/// The first cursor move after the cursor enters the window turns nothing;
/// the moves after it turn the view by the cursor's movement.
pub proof fn lemma_first_move_after_entering_is_ignored(c: PlayerControls)
    ensures
        ({
            let entered = c.after_event(WindowInput::CursorEnter(true));
            &&& c.look_delta_for(WindowInput::CursorEnter(true)) == LookDelta::Reset
            &&& entered.look_delta_for(WindowInput::CursorPos) == LookDelta::Keep
            &&& entered.after_event(WindowInput::CursorPos).look_delta_for(WindowInput::CursorPos)
                == LookDelta::FromCursor
        }),
{
}

/// How the window's cursor behaves.
#[derive(Debug, Clone, Copy, PartialEq, Eq, Structural)]
pub enum CursorMode {
    Normal,
    Hidden,
    Captured,
    Disabled,
}

/// The cursor mode that Tab switches to: a normal cursor is disabled (held by
/// the window for looking around); any other mode goes back to normal.
pub open spec fn toggled_cursor_mode(current: CursorMode) -> CursorMode {
    if current == CursorMode::Normal {
        CursorMode::Disabled
    } else {
        CursorMode::Normal
    }
}

/// The cursor mode after Tab is pressed in `current`.
pub fn next_cursor_mode(current: CursorMode) -> (next: CursorMode)
    ensures
        next == toggled_cursor_mode(current),
{
    match current {
        CursorMode::Normal => CursorMode::Disabled,
        _ => CursorMode::Normal,
    }
}

/// Tab always lands on a normal or a disabled cursor, and from there pressing
/// it twice comes back to the same mode.
pub proof fn lemma_cursor_toggle_alternates(m: CursorMode)
    ensures
        toggled_cursor_mode(m) == CursorMode::Normal || toggled_cursor_mode(m) == CursorMode::Disabled,
        (m == CursorMode::Normal || m == CursorMode::Disabled) ==> toggled_cursor_mode(
            toggled_cursor_mode(m),
        ) == m,
        toggled_cursor_mode(m) != m,
{
}

/// What the main loop does about a window event, besides handing it to the
/// player.
#[derive(Debug, Clone, Copy, PartialEq, Eq, Structural)]
pub enum LoopAction {
    /// Switch the cursor mode with [`next_cursor_mode`].
    ToggleCursorMode,
    /// Ask the window to close.
    RequestClose,
    /// The window was minimized: wait for events until
    /// [`ends_minimized_wait`] says it is back.
    WaitWhileMinimized,
    /// Stop handling the events of this frame.
    StopEventProcessing,
    /// Nothing more.
    Nothing,
}

/// The main loop's decision for each event: Tab pressed toggles the cursor,
/// Escape pressed closes the window, a framebuffer of size zero by zero waits
/// until the window is restored, a close request stops the handling of this
/// frame's events.
pub open spec fn loop_action_for(event: WindowInput) -> LoopAction {
    match event {
        WindowInput::Key(Key::Tab, KeyAction::Press) => LoopAction::ToggleCursorMode,
        WindowInput::Key(Key::Escape, KeyAction::Press) => LoopAction::RequestClose,
        WindowInput::FramebufferSize(w, h) => if w == 0 && h == 0 {
            LoopAction::WaitWhileMinimized
        } else {
            LoopAction::Nothing
        },
        WindowInput::Close => LoopAction::StopEventProcessing,
        _ => LoopAction::Nothing,
    }
}

/// What the main loop does about `event`.
pub fn window_event_action(event: &WindowInput) -> (a: LoopAction)
    ensures
        a == loop_action_for(*event),
        a == LoopAction::ToggleCursorMode <==> *event == WindowInput::Key(Key::Tab, KeyAction::Press),
        a == LoopAction::RequestClose <==> *event == WindowInput::Key(Key::Escape, KeyAction::Press),
        a == LoopAction::WaitWhileMinimized <==> *event == WindowInput::FramebufferSize(0, 0),
        a == LoopAction::StopEventProcessing <==> *event == WindowInput::Close,
{
    match *event {
        WindowInput::Key(Key::Tab, KeyAction::Press) => LoopAction::ToggleCursorMode,
        WindowInput::Key(Key::Escape, KeyAction::Press) => LoopAction::RequestClose,
        WindowInput::FramebufferSize(w, h) => {
            if w == 0 && h == 0 {
                LoopAction::WaitWhileMinimized
            } else {
                LoopAction::Nothing
            }
        },
        WindowInput::Close => LoopAction::StopEventProcessing,
        _ => LoopAction::Nothing,
    }
}

/// While the window is minimized, whether `event` ends the wait: only a
/// framebuffer size that is not zero by zero does.
pub fn ends_minimized_wait(event: &WindowInput) -> (done: bool)
    ensures
        done <==> (event matches WindowInput::FramebufferSize(w, h) && !(w == 0 && h == 0)),
{
    match *event {
        WindowInput::FramebufferSize(w, h) => !(w == 0 && h == 0),
        _ => false,
    }
}

/// Only the cursor touches the look delta: every event other than a cursor
/// move or the cursor entering or leaving (every key event among them) leaves
/// it as it is; entering or leaving sets it to zero; a move gives it the
/// cursor's movement unless the cursor has just entered.
pub proof fn lemma_only_cursor_events_change_look_delta(c: PlayerControls, event: WindowInput)
    ensures
        !(event is CursorPos) && !(event is CursorEnter) ==> c.look_delta_for(event) == LookDelta::Keep,
        event is CursorEnter ==> c.look_delta_for(event) == LookDelta::Reset,
        event is CursorPos ==> (c.look_delta_for(event) == LookDelta::Keep <==> c.cursor_entered),
        event is CursorPos ==> (c.look_delta_for(event) == LookDelta::FromCursor <==> !c.cursor_entered),
{
}

/// Each loop action answers exactly one event: the cursor mode toggles only on
/// a press of Tab (never on its release or repeat), the window closes only on a
/// press of Escape (never on another key), the loop waits only for a zero by
/// zero framebuffer, and stops only on a close request; every other event asks
/// for nothing.
pub proof fn lemma_each_loop_action_has_one_event(event: WindowInput)
    ensures
        loop_action_for(event) == LoopAction::ToggleCursorMode <==> event == WindowInput::Key(
            Key::Tab,
            KeyAction::Press,
        ),
        loop_action_for(event) == LoopAction::RequestClose <==> event == WindowInput::Key(
            Key::Escape,
            KeyAction::Press,
        ),
        loop_action_for(event) == LoopAction::WaitWhileMinimized <==> event
            == WindowInput::FramebufferSize(0, 0),
        loop_action_for(event) == LoopAction::StopEventProcessing <==> event == WindowInput::Close,
        loop_action_for(event) == LoopAction::Nothing <==> !(event == WindowInput::Key(
            Key::Tab,
            KeyAction::Press,
        ) || event == WindowInput::Key(Key::Escape, KeyAction::Press) || event
            == WindowInput::FramebufferSize(0, 0) || event == WindowInput::Close),
{
}
} // verus!
