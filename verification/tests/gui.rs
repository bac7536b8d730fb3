use game_core::actions::Action;
use game_core::game_object::drawable::DrawLayer;
use game_core::gui::{
    Align, ElementType, Event, EventHandlers, Handler, TextFormat, UiElement,
};
use game_core::math::bounds::Rect;
use game_core::math::fixed::Fixed;
use game_core::math::vector2::Vector2;
use game_core::mouse::{Mouse, MouseButtonState};
use game_core::serialization::AssetColor;

fn fx(n: i32) -> Fixed {
    Fixed::from_int(n)
}

fn rect(x: i32, y: i32, w: i32, h: i32) -> Rect {
    Rect { x: fx(x), y: fx(y), w: fx(w), h: fx(h) }
}

fn color(n: u8) -> AssetColor {
    AssetColor { r: n, g: n, b: n, a: 255 }
}

fn mouse(x: i32, y: i32, bits: u32) -> Mouse {
    Mouse { buttons: MouseButtonState { bits }, pos: Vector2 { x: fx(x), y: fx(y) } }
}

fn format() -> TextFormat {
    TextFormat { font_id: 1, color: color(0), justify: Align::Start, align: Align::Start }
}

fn element(id: i32, bounds: Rect, z: i32, children: Vec<UiElement>) -> UiElement {
    UiElement {
        id,
        bounds,
        z: DrawLayer::Foreground(z),
        bg: color(10),
        on_event: EventHandlers::default(),
        children,
        mouse: Mouse::default(),
        element_type: ElementType::Box,
    }
}

fn label(id: i32, bounds: Rect, z: i32, text: &str) -> UiElement {
    let mut e = element(id, bounds, z, vec![]);
    e.element_type = ElementType::Label { text: String::from(text), format: format() };
    e
}

fn menu() -> UiElement {
    // a root with two buttons side by side and a label that overlaps the first
    let mut play = label(2, rect(10, 10, 40, 20), 1, "play");
    play.on_event.mouse_down = Some(vec![
        Handler::SetBackgroundColor(color(99)),
        Handler::SetTextColor(color(50)),
        Handler::SetText(String::from("go")),
        Handler::Action(Action::Menu),
    ]);
    play.on_event.mouse_up = Some(vec![]);
    let quit = element(3, rect(60, 10, 40, 20), 1, vec![]);
    let badge = label(4, rect(40, 10, 10, 10), 5, "!");
    element(1, rect(100, 100, 200, 100), 0, vec![play, quit, badge])
}

#[test]
fn event_type_follows_the_buttons() {
    let up = mouse(0, 0, 0);
    let left = mouse(0, 0, 1);
    let both = mouse(0, 0, 3);
    let right = mouse(0, 0, 2);
    assert_eq!(UiElement::get_event_type(&up, &up), None);
    assert_eq!(UiElement::get_event_type(&left, &left), None);
    assert_eq!(UiElement::get_event_type(&up, &left), Some(Event::MouseDown));
    assert_eq!(UiElement::get_event_type(&left, &up), Some(Event::MouseUp));
    assert_eq!(UiElement::get_event_type(&left, &both), Some(Event::MouseDown));
    assert_eq!(UiElement::get_event_type(&both, &left), Some(Event::MouseUp));
    // one button pressed while another is released counts as a press
    assert_eq!(UiElement::get_event_type(&left, &right), Some(Event::MouseDown));
}

#[test]
fn mouse_button_state_operations() {
    let l = MouseButtonState::left_button();
    let r = MouseButtonState::right_button();
    let m = MouseButtonState::middle_button();
    assert_eq!(l.bits, 1);
    assert_eq!(r.bits, 2);
    assert_eq!(m.bits, 4);
    assert!(MouseButtonState::none().is_none());
    assert_eq!(l.or(r).bits, 3);
    assert_eq!(l.or(r).and(r), r);
    assert_eq!(l.or(r).xor(r), l);
    assert_eq!(l.or(r).and(r.not()), l);
    assert!(l.or(r).contains(l));
    assert!(!l.contains(r));
    assert_eq!(Mouse::default().buttons, MouseButtonState::none());
    assert_eq!(Mouse::default().pos, Vector2 { x: fx(0), y: fx(0) });
}

#[test]
fn has_child_with_id_is_never_true() {
    let root = menu();
    assert!(!root.has_child_with_id(2));
    assert!(!root.has_child_with_id(1));
    assert!(!root.has_child_with_id(77));
}

#[test]
fn element_with_id_searches_the_element_first_then_its_children() {
    let inner = element(9, rect(0, 0, 1, 1), 0, vec![]);
    let twin = element(9, rect(5, 5, 1, 1), 0, vec![]);
    let holder = element(8, rect(0, 0, 10, 10), 0, vec![inner]);
    let root = element(1, rect(0, 0, 100, 100), 0, vec![holder, twin]);
    assert_eq!(root.element_with_id(1).unwrap().bounds, rect(0, 0, 100, 100));
    assert_eq!(root.element_with_id(8).unwrap().bounds, rect(0, 0, 10, 10));
    // the one further down in the first child comes before the second child
    assert_eq!(root.element_with_id(9).unwrap().bounds, rect(0, 0, 1, 1));
    assert!(root.element_with_id(7).is_none());
}

#[test]
fn elements_at_a_point_are_given_from_the_outside_in() {
    let root = menu();
    let hit: Vec<i32> =
        root.get_elements_at(Vector2 { x: fx(145), y: fx(115) }).iter().map(|e| e.id).collect();
    assert_eq!(hit, vec![1, 2, 4]);
    let hit: Vec<i32> =
        root.get_elements_at(Vector2 { x: fx(165), y: fx(115) }).iter().map(|e| e.id).collect();
    assert_eq!(hit, vec![1, 3]);
    let hit: Vec<i32> =
        root.get_elements_at(Vector2 { x: fx(250), y: fx(190) }).iter().map(|e| e.id).collect();
    assert_eq!(hit, vec![1]);
    assert!(root.get_elements_at(Vector2 { x: fx(50), y: fx(50) }).is_empty());
}

#[test]
fn element_at_a_point_is_the_one_on_top() {
    let root = menu();
    assert_eq!(root.get_element_at(Vector2 { x: fx(145), y: fx(115) }).unwrap().id, 4);
    assert_eq!(root.get_element_at(Vector2 { x: fx(120), y: fx(115) }).unwrap().id, 2);
    assert_eq!(root.get_element_at(Vector2 { x: fx(165), y: fx(115) }).unwrap().id, 3);
    assert_eq!(root.get_element_at(Vector2 { x: fx(250), y: fx(190) }).unwrap().id, 1);
    assert!(root.get_element_at(Vector2 { x: fx(50), y: fx(50) }).is_none());
}

#[test]
fn of_two_elements_on_one_layer_the_later_is_on_top() {
    let a = element(2, rect(0, 0, 10, 10), 1, vec![]);
    let b = element(3, rect(0, 0, 10, 10), 1, vec![]);
    let root = element(1, rect(0, 0, 100, 100), 0, vec![a, b]);
    assert_eq!(root.get_element_at(Vector2 { x: fx(5), y: fx(5) }).unwrap().id, 3);
}

#[test]
fn update_element_changes_the_element_itself() {
    let mut root = menu();
    let mut source = label(1, rect(0, 0, 0, 0), 0, "new");
    source.bg = color(77);
    source.mouse = mouse(3, 4, 1);
    root.update_element(source);
    assert_eq!(root.bg, color(77));
    assert_eq!(root.mouse.buttons.bits, 1);
    assert!(matches!(&root.element_type, ElementType::Label { text, .. } if text == "new"));
    assert_eq!(root.bounds, rect(100, 100, 200, 100));
    assert_eq!(root.children.len(), 3);
}

#[test]
fn update_element_changes_the_first_child_with_the_number() {
    let mut root = menu();
    let mut source = element(3, rect(0, 0, 0, 0), 0, vec![]);
    source.bg = color(77);
    root.update_element(source);
    assert_eq!(root.bg, color(10));
    assert_eq!(root.children[0].bg, color(10));
    assert_eq!(root.children[1].bg, color(77));
    assert_eq!(root.children[1].bounds, rect(60, 10, 40, 20));
    assert_eq!(root.children[2].bg, color(10));
}

#[test]
fn update_element_does_not_reach_below_the_children() {
    let inner = element(9, rect(0, 0, 1, 1), 0, vec![]);
    let holder = element(8, rect(0, 0, 10, 10), 0, vec![inner]);
    let mut root = element(1, rect(0, 0, 100, 100), 0, vec![holder]);
    let mut source = element(9, rect(0, 0, 0, 0), 0, vec![]);
    source.bg = color(77);
    root.update_element(source);
    assert_eq!(root.children[0].children[0].bg, color(10));
    assert_eq!(root.children[0].bg, color(10));
    assert_eq!(root.bg, color(10));
}

#[test]
fn press_runs_the_handlers_and_returns_the_action() {
    let mut root = menu();
    let action = root.handle_event(mouse(120, 115, 1));
    assert_eq!(action, Some(Action::Menu));
    let play = &root.children[0];
    assert_eq!(play.bg, color(99));
    assert_eq!(play.mouse.buttons.bits, 1);
    assert_eq!(play.mouse.pos, Vector2 { x: fx(120), y: fx(115) });
    match &play.element_type {
        ElementType::Label { text, format } => {
            assert_eq!(text, "go");
            assert_eq!(format.color, color(50));
            assert_eq!(format.font_id, 1);
        }
        ElementType::Box => panic!("a label"),
    }
    // the others are as they were
    assert_eq!(root.children[1].bg, color(10));
    assert_eq!(root.bg, color(10));
}

#[test]
fn release_with_an_empty_list_only_takes_the_mouse_state() {
    let mut root = menu();
    root.handle_event(mouse(120, 115, 1));
    let action = root.handle_event(mouse(121, 115, 0));
    assert_eq!(action, None);
    assert_eq!(root.children[0].mouse.buttons.bits, 0);
    assert_eq!(root.children[0].mouse.pos, Vector2 { x: fx(121), y: fx(115) });
    assert_eq!(root.children[0].bg, color(99));
}

#[test]
fn event_without_an_entry_changes_nothing() {
    let mut root = menu();
    // the second button has no handlers at all
    let action = root.handle_event(mouse(165, 115, 1));
    assert_eq!(action, None);
    assert_eq!(root.children[1].mouse.buttons.bits, 0);
    assert_eq!(root.children[1].mouse.pos, Vector2 { x: fx(0), y: fx(0) });
}

#[test]
fn movement_without_a_change_of_buttons_is_taken_over() {
    let mut root = menu();
    let action = root.handle_event(mouse(165, 115, 0));
    assert_eq!(action, None);
    assert_eq!(root.children[1].mouse.pos, Vector2 { x: fx(165), y: fx(115) });
}

#[test]
fn mouse_outside_the_menu_does_nothing() {
    let mut root = menu();
    let action = root.handle_event(mouse(5, 5, 1));
    assert_eq!(action, None);
    assert_eq!(root.mouse.buttons.bits, 0);
}

#[test]
fn handlers_of_a_box_leave_its_text_alone() {
    let mut b = element(1, rect(0, 0, 10, 10), 0, vec![]);
    b.on_event.mouse_down = Some(vec![
        Handler::SetText(String::from("x")),
        Handler::SetTextColor(color(1)),
        Handler::Action(Action::Quit),
        Handler::Action(Action::Debug),
    ]);
    let action = b.handle_event(mouse(5, 5, 4));
    assert_eq!(action, Some(Action::Debug));
    assert!(matches!(b.element_type, ElementType::Box));
    assert_eq!(b.mouse.buttons.bits, 4);
}

#[test]
fn text_is_placed_as_the_format_says() {
    let bounds = rect(100, 50, 200, 40);
    let mut f = format();
    assert_eq!(f.place(bounds, fx(60), fx(10)), rect(100, 50, 60, 10));
    f.justify = Align::Center;
    f.align = Align::End;
    assert_eq!(f.place(bounds, fx(60), fx(10)), rect(170, 80, 60, 10));
    f.justify = Align::End;
    f.align = Align::Center;
    assert_eq!(f.place(bounds, fx(60), fx(10)), rect(240, 65, 60, 10));
}

#[test]
fn duplicate_of_a_kind_is_equal() {
    let l = ElementType::Label { text: String::from("a"), format: format() };
    match l.duplicate() {
        ElementType::Label { text, format } => {
            assert_eq!(text, "a");
            assert_eq!(format.font_id, 1);
        }
        ElementType::Box => panic!("a label"),
    }
    assert!(matches!(ElementType::Box.duplicate(), ElementType::Box));
}

fn nested() -> UiElement {
    let mut leaf = element(3, rect(5, 5, 10, 10), 2, vec![]);
    leaf.on_event.mouse_down =
        Some(vec![Handler::SetBackgroundColor(color(99)), Handler::Action(Action::Attack)]);
    let holder = element(2, rect(10, 10, 80, 80), 1, vec![leaf]);
    element(1, rect(100, 100, 200, 200), 0, vec![holder])
}

#[test]
fn children_are_placed_relative_to_their_parent() {
    let root = nested();
    let at = |x: i32, y: i32| -> Vec<i32> {
        root.get_elements_at(Vector2 { x: fx(x), y: fx(y) }).iter().map(|e| e.id).collect()
    };
    assert_eq!(at(118, 118), vec![1, 2, 3]);
    assert_eq!(at(115, 115), vec![1, 2, 3]);
    assert_eq!(at(125, 125), vec![1, 2, 3]);
    assert_eq!(at(126, 126), vec![1, 2]);
    assert_eq!(at(112, 112), vec![1, 2]);
    assert_eq!(at(105, 105), vec![1]);
    assert_eq!(root.get_element_at(Vector2 { x: fx(118), y: fx(118) }).unwrap().id, 3);
}

#[test]
fn element_below_a_child_runs_its_handlers_but_is_not_reached_by_the_update() {
    let mut root = nested();
    let action = root.handle_event(mouse(118, 118, 1));
    assert_eq!(action, Some(Action::Attack));
    let leaf = &root.children[0].children[0];
    assert_eq!(leaf.bg, color(10));
    assert_eq!(leaf.mouse.buttons.bits, 0);
    assert_eq!(root.children[0].bg, color(10));
    assert_eq!(root.bg, color(10));
}
