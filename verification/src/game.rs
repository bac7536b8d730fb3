use crate::actions::{Action, ActionSet};
use crate::gui::{action_drawn, is_handled, UiElement};
use crate::math::bounds::{Bounds, Point, Rect};
use crate::math::fixed::{saturate, Fixed, SCALE};
use crate::mouse::{Mouse, MouseButtonState, LEFT_BUTTON, MIDDLE_BUTTON, RIGHT_BUTTON};
use std::ops::{Add, Div, Sub};
use vstd::prelude::*;
use vstd::std_specs::ops::{AddSpec, DivSpec, SubSpec};

verus! {

pub type MilliSeconds = u64;

/// The longest time a frame is stretched to, in milliseconds: that of one
/// frame a second.
pub const LONGEST_FRAME: MilliSeconds = 1_000;

/// What is counted from frame to frame. Ticks are those of a counter that
/// never runs backward; a last tick of zero says that no frame has begun
/// since the start, or since the menu was opened or closed.
#[derive(Debug, Copy, Clone, Default)]
pub struct FrameData {
    pub last_tick: u64,
    /// How long the last frame took, in milliseconds.
    pub frame_time: u64,
    pub frame_number: u64,
    pub fps_frame_count: u64,
    pub fps_last_tick: u64,
    pub fps: Fixed,
}

#[derive(Debug, Copy, Clone, Default, PartialEq, Eq, Structural)]
pub struct SystemState {
    pub should_quit: bool,
    pub should_show_debug: bool,
    pub menu_open: bool,
}

/// A button of the mouse.
#[derive(Debug, Copy, Clone, PartialEq, Eq, Structural)]
pub enum MouseButton {
    Left,
    Middle,
    Right,
    /// Any button that the game does not know.
    Unknown,
}

/// What the window reports, as far as the game listens.
#[derive(Debug, Copy, Clone)]
pub enum InputEvent {
    /// A key went down, not by repeating, that stands for the action.
    ActionPressed(Action),
    /// A key went up that stands for the action.
    ActionReleased(Action),
    MouseMotion(Point),
    MouseButtonDown(MouseButton),
    MouseButtonUp(MouseButton),
    Quit,
    /// Anything else.
    Other,
}

/// What the game knows apart from its world: what is asked for, where the
/// mouse is, and how the frames go by.
#[derive(Debug, Copy, Clone)]
pub struct GameState {
    pub actions: ActionSet,
    pub mouse: Mouse,
    pub system_state: SystemState,
    pub frame_data: FrameData,
    pub frame_limit_active: bool,
    /// The shortest time a frame takes while the limit is active.
    pub min_frame_time: MilliSeconds,
}

/// The bit of a button; none for a button that the game does not know.
pub open spec fn button_bits(button: MouseButton) -> u32 {
    match button {
        MouseButton::Left => LEFT_BUTTON,
        MouseButton::Middle => MIDDLE_BUTTON,
        MouseButton::Right => RIGHT_BUTTON,
        MouseButton::Unknown => 0,
    }
}

/// The seconds that `ticks` of a counter with `frequency` ticks a second
/// make, rounded down to a millionth.
pub open spec fn seconds_of(ticks: u64, frequency: u64) -> Fixed {
    Fixed { raw: saturate((ticks * SCALE) / (frequency as int)) as i64 }
}

/// The milliseconds that `ticks` of a counter with `frequency` ticks a
/// second make, rounded down.
pub open spec fn millis_of(ticks: u64, frequency: u64) -> u64 {
    let whole = (ticks * 1_000) / (frequency as int);
    if whole > u64::MAX {
        u64::MAX
    } else {
        whole as u64
    }
}

/// A count as a number of whole units.
pub open spec fn count_of(count: u64) -> Fixed {
    Fixed { raw: saturate(count * SCALE) as i64 }
}

/// A counter one further, which stops at the largest number.
pub open spec fn counted_on(count: u64) -> u64 {
    if count < u64::MAX {
        (count + 1) as u64
    } else {
        count
    }
}

/// `actions` with the action, if there is one.
pub open spec fn with_action(actions: Set<Action>, action: Option<Action>) -> Set<Action> {
    match action {
        Some(a) => actions.insert(a),
        None => actions,
    }
}

fn seconds(ticks: u64, frequency: u64) -> (r: Fixed)
    requires
        frequency > 0,
    ensures
        r == seconds_of(ticks, frequency),
{
    let wide: u128 = (ticks as u128 * 1_000_000) / (frequency as u128);
    if wide > 0x7fff_ffff_ffff_ffff {
        Fixed { raw: 0x7fff_ffff_ffff_ffff }
    } else {
        Fixed { raw: wide as i64 }
    }
}

fn millis(ticks: u64, frequency: u64) -> (r: u64)
    requires
        frequency > 0,
    ensures
        r == millis_of(ticks, frequency),
{
    let wide: u128 = (ticks as u128 * 1_000) / (frequency as u128);
    if wide > 0xffff_ffff_ffff_ffff {
        0xffff_ffff_ffff_ffff
    } else {
        wide as u64
    }
}

fn whole(count: u64) -> (r: Fixed)
    ensures
        r == count_of(count),
{
    let wide: u128 = count as u128 * 1_000_000;
    if wide > 0x7fff_ffff_ffff_ffff {
        Fixed { raw: 0x7fff_ffff_ffff_ffff }
    } else {
        Fixed { raw: wide as i64 }
    }
}

fn count_on(count: u64) -> (r: u64)
    ensures
        r == counted_on(count),
{
    if count < 0xffff_ffff_ffff_ffff {
        count + 1
    } else {
        count
    }
}

impl MouseButton {
    /// The button as a state in which it alone is held.
    pub fn state(self) -> (r: MouseButtonState)
        ensures
            r.bits == button_bits(self),
    {
        match self {
            MouseButton::Left => MouseButtonState::left_button(),
            MouseButton::Middle => MouseButtonState::middle_button(),
            MouseButton::Right => MouseButtonState::right_button(),
            MouseButton::Unknown => MouseButtonState::none(),
        }
    }
}

/// The rectangle that is drawn round `rect` to show it: one wider on each
/// side.
pub open spec fn outline_of(rect: Rect) -> Rect {
    Rect {
        x: rect.x.sub_spec(Fixed { raw: 1_000_000 }),
        y: rect.y.sub_spec(Fixed { raw: 1_000_000 }),
        w: rect.w.add_spec(Fixed { raw: 2_000_000 }),
        h: rect.h.add_spec(Fixed { raw: 2_000_000 }),
    }
}

pub fn debug_outline(rect: Rect) -> (r: Rect)
    ensures
        r == outline_of(rect),
{
    Rect {
        x: rect.x - Fixed::from_int(1),
        y: rect.y - Fixed::from_int(1),
        w: rect.w + Fixed::from_int(2),
        h: rect.h + Fixed::from_int(2),
    }
}

/// The rectangle of the text of a message at `pos` whose text has the
/// given width and height: five to the right and two below `pos`.
pub open spec fn message_text_rect(pos: Point, width: Fixed, height: Fixed) -> Rect {
    Rect {
        x: pos.x.add_spec(Fixed { raw: 5_000_000 }),
        y: pos.y.add_spec(Fixed { raw: 2_000_000 }),
        w: width,
        h: height,
    }
}

/// The rectangle behind the text of a message at `pos`: ten wider and
/// four higher than the text.
pub open spec fn message_back_rect(pos: Point, width: Fixed, height: Fixed) -> Rect {
    Rect {
        x: pos.x,
        y: pos.y,
        w: width.add_spec(Fixed { raw: 10_000_000 }),
        h: height.add_spec(Fixed { raw: 4_000_000 }),
    }
}

/// The rectangles of a message: that of its text and that behind it.
pub fn message_rects(pos: Point, width: Fixed, height: Fixed) -> (r: (Rect, Rect))
    ensures
        r.0 == message_text_rect(pos, width, height),
        r.1 == message_back_rect(pos, width, height),
{
    let text_rect = Rect {
        x: pos.x + Fixed::from_int(5),
        y: pos.y + Fixed::from_int(2),
        w: width,
        h: height,
    };
    let bg_rect = Rect {
        x: pos.x,
        y: pos.y,
        w: width + Fixed::from_int(10),
        h: height + Fixed::from_int(4),
    };
    (text_rect, bg_rect)
}

impl GameState {
    /// Whether the state is in order: no frame is stretched beyond a second.
    pub open spec fn wf(&self) -> bool {
        self.min_frame_time <= LONGEST_FRAME
    }

    /// The state at the start: nothing asked for, the mouse at rest, no
    /// frame counted, and the shortest frame that of `frame_limit` frames
    /// a second.
    pub fn new(frame_limit: u16, frame_limit_active: bool) -> (r: Self)
        requires
            frame_limit > 0,
        ensures
            r.actions@ == Set::<Action>::empty(),
            r.mouse == Mouse::default_spec(),
            r.system_state == (SystemState {
                should_quit: false,
                should_show_debug: false,
                menu_open: false,
            }),
            r.frame_data.last_tick == 0,
            r.frame_data.frame_time == 0,
            r.frame_data.frame_number == 0,
            r.frame_data.fps_frame_count == 0,
            r.frame_data.fps_last_tick == 0,
            r.frame_data.fps@ == 0,
            r.frame_limit_active == frame_limit_active,
            r.min_frame_time == 1_000int / (frame_limit as int),
            r.wf(),
    {
        let limit: u64 = frame_limit as u64;
        GameState {
            actions: ActionSet::empty(),
            mouse: Mouse::default(),
            system_state: SystemState {
                should_quit: false,
                should_show_debug: false,
                menu_open: false,
            },
            frame_data: FrameData {
                last_tick: 0,
                frame_time: 0,
                frame_number: 0,
                fps_frame_count: 0,
                fps_last_tick: 0,
                fps: Fixed::zero(),
            },
            frame_limit_active,
            min_frame_time: 1_000u64 / limit,
        }
    }

    /// The actions after an event: a key adds or removes its action, and
    /// a wish to quit adds that action.
    pub open spec fn spec_actions_after(self, event: InputEvent) -> Set<Action> {
        match event {
            InputEvent::ActionPressed(a) => self.actions@.insert(a),
            InputEvent::ActionReleased(a) => self.actions@.remove(a),
            InputEvent::Quit => self.actions@.insert(Action::Quit),
            _ => self.actions@,
        }
    }

    /// The mouse after an event. Every event lets go of all buttons; a
    /// button that goes down is then held, and a movement sets the place.
    pub open spec fn spec_mouse_after(self, event: InputEvent) -> Mouse {
        match event {
            InputEvent::MouseMotion(pos) => Mouse { buttons: MouseButtonState { bits: 0 }, pos },
            InputEvent::MouseButtonDown(button) => Mouse {
                buttons: MouseButtonState { bits: button_bits(button) },
                pos: self.mouse.pos,
            },
            _ => Mouse { buttons: MouseButtonState { bits: 0 }, pos: self.mouse.pos },
        }
    }

    /// Takes note of an event.
    pub fn register_events(&mut self, event: InputEvent)
        ensures
            final(self).actions@ == old(self).spec_actions_after(event),
            final(self).mouse == old(self).spec_mouse_after(event),
            final(self).system_state == old(self).system_state,
            final(self).frame_data == old(self).frame_data,
            final(self).frame_limit_active == old(self).frame_limit_active,
            final(self).min_frame_time == old(self).min_frame_time,
    {
        self.mouse.buttons = MouseButtonState::none();
        match event {
            InputEvent::ActionPressed(action) => {
                self.actions.insert(action);
            },
            InputEvent::ActionReleased(action) => {
                self.actions.remove(action);
            },
            InputEvent::MouseMotion(pos) => {
                self.mouse.pos = pos;
            },
            InputEvent::MouseButtonDown(mouse_btn) => {
                let held = mouse_btn.state();
                proof {
                    let b = held.bits;
                    assert(0u32 | b == b) by (bit_vector);
                }
                self.mouse.buttons = self.mouse.buttons.or(held);
            },
            InputEvent::MouseButtonUp(mouse_btn) => {
                let let_go = mouse_btn.state().not();
                proof {
                    let b = let_go.bits;
                    assert(0u32 & b == 0) by (bit_vector);
                }
                self.mouse.buttons = self.mouse.buttons.and(let_go);
            },
            InputEvent::Quit => {
                self.actions.insert(Action::Quit);
            },
            InputEvent::Other => {},
        }
    }

    /// Whether the menu is open once the actions have been seen to.
    pub open spec fn spec_menu_open(self) -> bool {
        if self.actions@.contains(Action::Menu) {
            !self.system_state.menu_open
        } else {
            self.system_state.menu_open
        }
    }

    /// The state once the actions that concern the game itself have been
    /// seen to, before the menu has its turn. A wish to quit is noted and
    /// ends it. Else the actions for the menu, the frame limit and the
    /// debug display each switch what they stand for and are taken back;
    /// switching the menu also lets the next frame begin anew.
    pub open spec fn spec_system_events(self) -> (Set<Action>, SystemState, FrameData, bool) {
        if self.actions@.contains(Action::Quit) {
            (
                self.actions@,
                SystemState {
                    should_quit: true,
                    should_show_debug: self.system_state.should_show_debug,
                    menu_open: self.system_state.menu_open,
                },
                self.frame_data,
                self.frame_limit_active,
            )
        } else {
            (
                self.actions@.remove(Action::Menu).remove(Action::FpsLimit).remove(Action::Debug),
                SystemState {
                    should_quit: self.system_state.should_quit,
                    should_show_debug: if self.actions@.contains(Action::Debug) {
                        !self.system_state.should_show_debug
                    } else {
                        self.system_state.should_show_debug
                    },
                    menu_open: self.spec_menu_open(),
                },
                FrameData {
                    last_tick: if self.actions@.contains(Action::Menu) {
                        0
                    } else {
                        self.frame_data.last_tick
                    },
                    frame_time: self.frame_data.frame_time,
                    frame_number: self.frame_data.frame_number,
                    fps_frame_count: self.frame_data.fps_frame_count,
                    fps_last_tick: self.frame_data.fps_last_tick,
                    fps: self.frame_data.fps,
                },
                if self.actions@.contains(Action::FpsLimit) {
                    !self.frame_limit_active
                } else {
                    self.frame_limit_active
                },
            )
        }
    }

    /// Whether the menu has its turn: nobody wants to quit, the menu is
    /// open, and there is one.
    pub open spec fn spec_menu_has_turn(self, gui: Seq<UiElement>) -> bool {
        !self.actions@.contains(Action::Quit) && self.spec_menu_open() && gui.len() > 0
    }

    /// Sees to the actions that concern the game itself, and lets the
    /// mouse act on the menu while that is open.
    pub fn handle_system_events(&mut self, gui: &mut Vec<UiElement>)
        ensures
            final(self).system_state == old(self).spec_system_events().1,
            final(self).frame_data == old(self).spec_system_events().2,
            final(self).frame_limit_active == old(self).spec_system_events().3,
            final(self).mouse == old(self).mouse,
            final(self).min_frame_time == old(self).min_frame_time,
            final(gui)@.len() == old(gui)@.len(),
            forall|i: int| 1 <= i < old(gui)@.len() ==> final(gui)@[i] == old(gui)@[i],
            old(self).spec_menu_has_turn(old(gui)@) ==> is_handled(
                old(gui)@[0],
                final(gui)@[0],
                old(self).mouse,
            ),
            old(self).spec_menu_has_turn(old(gui)@) ==> final(self).actions@ == with_action(
                old(self).spec_system_events().0,
                action_drawn(old(gui)@[0], old(self).mouse),
            ),
            !old(self).spec_menu_has_turn(old(gui)@) ==> final(gui)@ == old(gui)@,
            !old(self).spec_menu_has_turn(old(gui)@) ==> final(self).actions@
                == old(self).spec_system_events().0,
    {
        if self.actions.contains(Action::Quit) {
            self.system_state.should_quit = true;
            return ;
        }
        if self.actions.contains(Action::Menu) {
            self.actions.remove(Action::Menu);
            self.system_state.menu_open = !self.system_state.menu_open;
            self.frame_data.last_tick = 0;
        }
        if self.actions.contains(Action::FpsLimit) {
            self.actions.remove(Action::FpsLimit);
            self.frame_limit_active = !self.frame_limit_active
        }
        if self.actions.contains(Action::Debug) {
            self.actions.remove(Action::Debug);
            self.system_state.should_show_debug = !self.system_state.should_show_debug
        }
        proof {
            assert(self.actions@ =~= old(self).spec_system_events().0);
        }
        if self.system_state.menu_open {
            self.handle_ui_events(gui);
        }
    }

    /// Lets the mouse act on the first menu, if there is one, and takes
    /// up the action that this draws.
    pub fn handle_ui_events(&mut self, gui: &mut Vec<UiElement>)
        ensures
            final(self).system_state == old(self).system_state,
            final(self).frame_data == old(self).frame_data,
            final(self).frame_limit_active == old(self).frame_limit_active,
            final(self).mouse == old(self).mouse,
            final(self).min_frame_time == old(self).min_frame_time,
            final(gui)@.len() == old(gui)@.len(),
            forall|i: int| 1 <= i < old(gui)@.len() ==> final(gui)@[i] == old(gui)@[i],
            old(gui)@.len() > 0 ==> is_handled(old(gui)@[0], final(gui)@[0], old(self).mouse),
            old(gui)@.len() > 0 ==> final(self).actions@ == with_action(
                old(self).actions@,
                action_drawn(old(gui)@[0], old(self).mouse),
            ),
            old(gui)@.len() == 0 ==> final(self).actions@ == old(self).actions@,
    {
        if gui.len() == 0 {
            return ;
        }
        let mouse = self.mouse;
        let drawn = gui[0].handle_event(mouse);
        match drawn {
            Some(action) => {
                self.actions.insert(action);
            },
            None => {},
        }
    }

    /// Whether a frame that begins at `now` is the first: the one from
    /// which time is counted, and in which nothing moves.
    pub open spec fn spec_is_first_frame(self) -> bool {
        self.frame_data.last_tick == 0
    }

    /// Begins a frame at the tick `now` of a counter with `frequency` ticks
    /// a second. The first frame only notes the tick and gives no time
    /// step; every other frame gives the seconds since the frame before.
    pub fn begin_frame(&mut self, now: u64, frequency: u64) -> (r: Option<Fixed>)
        requires
            frequency > 0,
            now >= old(self).frame_data.last_tick,
        ensures
            old(self).spec_is_first_frame() ==> r is None && final(self).frame_data == (FrameData {
                last_tick: now,
                fps_last_tick: now,
                ..old(self).frame_data
            }),
            !old(self).spec_is_first_frame() ==> r == Some(
                seconds_of((now - old(self).frame_data.last_tick) as u64, frequency),
            ) && final(self).frame_data == old(self).frame_data,
            final(self).actions == old(self).actions,
            final(self).mouse == old(self).mouse,
            final(self).system_state == old(self).system_state,
            final(self).frame_limit_active == old(self).frame_limit_active,
            final(self).min_frame_time == old(self).min_frame_time,
    {
        if self.frame_data.last_tick == 0 {
            self.frame_data.last_tick = now;
            self.frame_data.fps_last_tick = now;
            return None;
        }
        Some(seconds(now - self.frame_data.last_tick, frequency))
    }

    /// What is counted once a frame that began at `now` was done at
    /// `finished`. Once a second and more has gone by since the frames a
    /// second were last told, they are told anew and counted from zero.
    pub open spec fn spec_frame_ended(self, now: u64, finished: u64, frequency: u64) -> FrameData {
        let since = seconds_of((now - self.frame_data.fps_last_tick) as u64, frequency);
        let frames = counted_on(self.frame_data.fps_frame_count);
        let told = since@ > SCALE;
        FrameData {
            last_tick: now,
            frame_time: millis_of((finished - now) as u64, frequency),
            frame_number: counted_on(self.frame_data.frame_number),
            fps_frame_count: if told {
                0
            } else {
                frames
            },
            fps_last_tick: if told {
                now
            } else {
                self.frame_data.fps_last_tick
            },
            fps: if told {
                count_of(frames).div_spec(since)
            } else {
                self.frame_data.fps
            },
        }
    }

    /// How long to wait after a frame that took `frame_time` milliseconds,
    /// in nanoseconds: what is missing to the shortest frame while the
    /// limit is active, nothing else.
    pub open spec fn spec_wait(self, frame_time: u64) -> u32 {
        if self.frame_limit_active && frame_time < self.min_frame_time {
            ((self.min_frame_time - frame_time) * 1_000_000) as u32
        } else {
            0
        }
    }

    /// Ends a frame that began at the tick `now` and was done at the tick
    /// `finished`, and says how many nanoseconds to wait before the next.
    pub fn end_frame(&mut self, now: u64, finished: u64, frequency: u64) -> (r: u32)
        requires
            old(self).wf(),
            frequency > 0,
            now >= old(self).frame_data.fps_last_tick,
            finished >= now,
        ensures
            final(self).frame_data == old(self).spec_frame_ended(now, finished, frequency),
            r == old(self).spec_wait(millis_of((finished - now) as u64, frequency)),
            r <= 1_000_000_000,
            final(self).actions == old(self).actions,
            final(self).mouse == old(self).mouse,
            final(self).system_state == old(self).system_state,
            final(self).frame_limit_active == old(self).frame_limit_active,
            final(self).min_frame_time == old(self).min_frame_time,
            final(self).wf(),
    {
        self.frame_data.last_tick = now;
        self.frame_data.frame_number = count_on(self.frame_data.frame_number);
        self.frame_data.fps_frame_count = count_on(self.frame_data.fps_frame_count);
        self.frame_data.frame_time = millis(finished - now, frequency);

        let fps_time = seconds(now - self.frame_data.fps_last_tick, frequency);
        if fps_time.raw > SCALE {
            self.frame_data.fps = whole(self.frame_data.fps_frame_count) / fps_time;
            self.frame_data.fps_last_tick = now;
            self.frame_data.fps_frame_count = 0;
        }
        if !self.frame_limit_active {
            return 0;
        }
        if self.frame_data.frame_time < self.min_frame_time {
            let wait_time: u64 = (self.min_frame_time - self.frame_data.frame_time) * 1_000_000;
            return wait_time as u32;
        }
        0
    }
}

} // verus!
