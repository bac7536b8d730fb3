use game_core::actions::{Action, ActionSet};
use game_core::game::{
    debug_outline, message_rects, GameState, InputEvent, MouseButton,
};
use game_core::game_object::drawable::DrawLayer;
use game_core::gui::{ElementType, EventHandlers, Handler, UiElement};
use game_core::math::bounds::Rect;
use game_core::math::fixed::Fixed;
use game_core::math::vector2::Vector2;
use game_core::mouse::{Mouse, MouseButtonState};
use game_core::serialization::AssetColor;

fn fx(n: i32) -> Fixed {
    Fixed::from_int(n)
}

fn rect(x: i32, y: i32, w: i32, h: i32) -> Rect {
    Rect { x: fx(x), y: fx(y), w: fx(w), h: fx(h) }
}

fn button(action: Action) -> UiElement {
    UiElement {
        id: 1,
        bounds: rect(0, 0, 100, 100),
        z: DrawLayer::Foreground(0),
        bg: AssetColor { r: 0, g: 0, b: 0, a: 255 },
        on_event: EventHandlers {
            mouse_down: Some(vec![Handler::Action(action)]),
            mouse_up: None,
        },
        children: vec![],
        mouse: Mouse::default(),
        element_type: ElementType::Box,
    }
}

#[test]
fn new_state_is_at_rest() {
    let s = GameState::new(60, true);
    assert_eq!(s.actions, ActionSet::empty());
    assert_eq!(s.mouse.buttons, MouseButtonState::none());
    assert!(!s.system_state.should_quit);
    assert!(!s.system_state.should_show_debug);
    assert!(!s.system_state.menu_open);
    assert_eq!(s.frame_data.last_tick, 0);
    assert_eq!(s.frame_data.frame_number, 0);
    assert!(s.frame_limit_active);
    assert_eq!(s.min_frame_time, 16);
    assert_eq!(GameState::new(1, false).min_frame_time, 1000);
    assert_eq!(GameState::new(u16::MAX, false).min_frame_time, 0);
}

#[test]
fn keys_add_and_remove_their_actions() {
    let mut s = GameState::new(60, true);
    s.register_events(InputEvent::ActionPressed(Action::Jump));
    s.register_events(InputEvent::ActionPressed(Action::MoveLeft));
    assert!(s.actions.contains(Action::Jump));
    assert!(s.actions.contains(Action::MoveLeft));
    s.register_events(InputEvent::ActionReleased(Action::Jump));
    assert!(!s.actions.contains(Action::Jump));
    assert!(s.actions.contains(Action::MoveLeft));
    s.register_events(InputEvent::Quit);
    assert!(s.actions.contains(Action::Quit));
}

#[test]
fn every_event_lets_go_of_the_buttons() {
    let mut s = GameState::new(60, true);
    s.register_events(InputEvent::MouseButtonDown(MouseButton::Left));
    assert_eq!(s.mouse.buttons.bits, 1);
    s.register_events(InputEvent::MouseButtonDown(MouseButton::Right));
    assert_eq!(s.mouse.buttons.bits, 2);
    s.register_events(InputEvent::MouseButtonDown(MouseButton::Middle));
    assert_eq!(s.mouse.buttons.bits, 4);
    s.register_events(InputEvent::MouseButtonDown(MouseButton::Unknown));
    assert_eq!(s.mouse.buttons.bits, 0);
    s.register_events(InputEvent::MouseButtonDown(MouseButton::Left));
    s.register_events(InputEvent::MouseMotion(Vector2 { x: fx(3), y: fx(4) }));
    assert_eq!(s.mouse.buttons.bits, 0);
    assert_eq!(s.mouse.pos, Vector2 { x: fx(3), y: fx(4) });
    s.register_events(InputEvent::MouseButtonDown(MouseButton::Left));
    s.register_events(InputEvent::MouseButtonUp(MouseButton::Left));
    assert_eq!(s.mouse.buttons.bits, 0);
    s.register_events(InputEvent::MouseButtonDown(MouseButton::Left));
    s.register_events(InputEvent::Other);
    assert_eq!(s.mouse.buttons.bits, 0);
    assert_eq!(s.mouse.pos, Vector2 { x: fx(3), y: fx(4) });
}

#[test]
fn quit_ends_before_anything_else_is_seen_to() {
    let mut s = GameState::new(60, true);
    s.actions.insert(Action::Quit);
    s.actions.insert(Action::Menu);
    let mut gui = vec![];
    s.handle_system_events(&mut gui);
    assert!(s.system_state.should_quit);
    assert!(!s.system_state.menu_open);
    assert!(s.actions.contains(Action::Menu));
}

#[test]
fn menu_limit_and_debug_are_switched_and_taken_back() {
    let mut s = GameState::new(60, true);
    s.frame_data.last_tick = 77;
    s.actions.insert(Action::Menu);
    s.actions.insert(Action::FpsLimit);
    s.actions.insert(Action::Debug);
    s.actions.insert(Action::Jump);
    let mut gui = vec![];
    s.handle_system_events(&mut gui);
    assert!(s.system_state.menu_open);
    assert!(s.system_state.should_show_debug);
    assert!(!s.frame_limit_active);
    assert_eq!(s.frame_data.last_tick, 0);
    assert!(!s.actions.contains(Action::Menu));
    assert!(!s.actions.contains(Action::FpsLimit));
    assert!(!s.actions.contains(Action::Debug));
    assert!(s.actions.contains(Action::Jump));
    assert!(!s.system_state.should_quit);

    s.frame_data.last_tick = 78;
    s.handle_system_events(&mut gui);
    assert!(s.system_state.menu_open);
    assert_eq!(s.frame_data.last_tick, 78);

    s.actions.insert(Action::Menu);
    s.handle_system_events(&mut gui);
    assert!(!s.system_state.menu_open);
}

#[test]
fn open_menu_takes_the_mouse() {
    let mut s = GameState::new(60, true);
    let mut gui = vec![button(Action::Quit), button(Action::Debug)];
    s.register_events(InputEvent::MouseMotion(Vector2 { x: fx(5), y: fx(5) }));
    s.register_events(InputEvent::MouseButtonDown(MouseButton::Left));

    // while the menu is closed the mouse does nothing
    s.handle_system_events(&mut gui);
    assert!(!s.actions.contains(Action::Quit));
    assert_eq!(gui[0].mouse.buttons.bits, 0);

    s.actions.insert(Action::Menu);
    s.handle_system_events(&mut gui);
    assert!(s.system_state.menu_open);
    assert!(s.actions.contains(Action::Quit));
    assert!(!s.actions.contains(Action::Debug));
    assert_eq!(gui[0].mouse.buttons.bits, 1);
    assert_eq!(gui[1].mouse.buttons.bits, 0);
    assert!(!s.system_state.should_quit);

    s.handle_system_events(&mut gui);
    assert!(s.system_state.should_quit);
}

#[test]
fn ui_events_without_a_menu_do_nothing() {
    let mut s = GameState::new(60, true);
    let mut gui = vec![];
    s.handle_ui_events(&mut gui);
    assert_eq!(s.actions, ActionSet::empty());
}

#[test]
fn first_frame_gives_no_time_step() {
    let mut s = GameState::new(60, true);
    assert_eq!(s.begin_frame(5_000, 1_000), None);
    assert_eq!(s.frame_data.last_tick, 5_000);
    assert_eq!(s.frame_data.fps_last_tick, 5_000);
    // the frame has not ended: the time is still counted from its start
    assert_eq!(s.begin_frame(5_016, 1_000), Some(Fixed::from_raw(16_000)));
    assert_eq!(s.frame_data.last_tick, 5_000);
}

#[test]
fn time_step_is_ticks_by_frequency() {
    let mut s = GameState::new(60, true);
    s.frame_data.last_tick = 1_000_000;
    assert_eq!(s.begin_frame(1_000_001, 3), Some(Fixed::from_raw(333_333)));
    assert_eq!(s.begin_frame(4_000_000, 1_000_000), Some(fx(3)));
    s.frame_data.last_tick = 1;
    assert_eq!(s.begin_frame(u64::MAX, 1), Some(Fixed::from_raw(i64::MAX)));
}

#[test]
fn end_of_frame_counts_and_waits() {
    let mut s = GameState::new(50, true);
    assert_eq!(s.min_frame_time, 20);
    s.begin_frame(1_000, 1_000);
    let wait = s.end_frame(1_010, 1_015, 1_000);
    // the frame took 5 of 20 milliseconds
    assert_eq!(wait, 15_000_000);
    assert_eq!(s.frame_data.last_tick, 1_010);
    assert_eq!(s.frame_data.frame_time, 5);
    assert_eq!(s.frame_data.frame_number, 1);
    assert_eq!(s.frame_data.fps_frame_count, 1);
    assert_eq!(s.frame_data.fps_last_tick, 1_000);
    assert_eq!(s.frame_data.fps, fx(0));

    // a frame that takes longer than the shortest does not wait
    assert_eq!(s.end_frame(1_020, 1_050, 1_000), 0);
    assert_eq!(s.frame_data.frame_time, 30);

    // nor does any frame while the limit is off
    s.frame_limit_active = false;
    assert_eq!(s.end_frame(1_030, 1_031, 1_000), 0);
    assert_eq!(s.frame_data.frame_number, 3);
}

#[test]
fn frames_a_second_are_told_after_more_than_a_second() {
    let mut s = GameState::new(50, false);
    s.begin_frame(1_000, 1_000);
    s.end_frame(1_500, 1_500, 1_000);
    s.end_frame(2_000, 2_000, 1_000);
    // exactly one second is not more than a second
    assert_eq!(s.frame_data.fps, fx(0));
    assert_eq!(s.frame_data.fps_frame_count, 2);
    s.end_frame(2_500, 2_500, 1_000);
    // three frames in a second and a half
    assert_eq!(s.frame_data.fps, fx(2));
    assert_eq!(s.frame_data.fps_frame_count, 0);
    assert_eq!(s.frame_data.fps_last_tick, 2_500);
}

#[test]
fn counters_stop_at_the_largest_number() {
    let mut s = GameState::new(50, false);
    s.frame_data.frame_number = u64::MAX;
    s.frame_data.fps_frame_count = u64::MAX;
    s.end_frame(10, 10, 1_000);
    assert_eq!(s.frame_data.frame_number, u64::MAX);
    assert_eq!(s.frame_data.fps_frame_count, u64::MAX);
}

#[test]
fn outline_is_one_wider_on_each_side() {
    assert_eq!(debug_outline(rect(10, 20, 30, 40)), rect(9, 19, 32, 42));
}

#[test]
fn message_rectangles() {
    let (text, back) = message_rects(Vector2 { x: fx(10), y: fx(20) }, fx(100), fx(12));
    assert_eq!(text, rect(15, 22, 100, 12));
    assert_eq!(back, rect(10, 20, 110, 16));
}

#[test]
fn buttons_as_states() {
    assert_eq!(MouseButton::Left.state(), MouseButtonState::left_button());
    assert_eq!(MouseButton::Middle.state(), MouseButtonState::middle_button());
    assert_eq!(MouseButton::Right.state(), MouseButtonState::right_button());
    assert_eq!(MouseButton::Unknown.state(), MouseButtonState::none());
}

#[test]
fn element_is_placed_relative_to_its_parent() {
    let e = button(Action::Quit);
    assert_eq!(e.placed_in(rect(10, 20, 500, 500)), rect(10, 20, 100, 100));
}
