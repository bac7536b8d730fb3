pub mod constraints;

use crate::actions::Action;
use crate::game_object::drawable::DrawLayer;
use crate::math::bounds::{Bounds, Point, Rect};
use crate::math::fixed::Fixed;
use crate::math::vector2::Vector2;
use crate::mouse::Mouse;
use crate::serialization::{AssetColor, AssetId};
use std::ops::{Add, Sub};
use vstd::prelude::*;
use vstd::std_specs::ops::{AddSpec, SubSpec};

verus! {

/// What an element does when an event reaches it.
#[derive(Debug, Clone)]
pub enum Handler {
    Action(Action),
    SetBackgroundColor(AssetColor),
    SetTextColor(AssetColor),
    SetText(String),
}

/// What the mouse can do to an element.
#[derive(Debug, Clone, Copy, PartialEq, Eq, Hash, Structural)]
pub enum Event {
    MouseDown,
    MouseUp,
}

#[derive(Debug, Clone, Copy, PartialEq, Eq, Structural)]
pub enum Align {
    Start,
    Center,
    End,
}

/// How a label's text is set.
#[derive(Debug, Clone, Copy)]
pub struct TextFormat {
    pub font_id: AssetId,
    pub color: AssetColor,
    pub justify: Align,
    pub align: Align,
}

pub type FormattedString = String;

#[derive(Debug, Clone)]
pub enum ElementType {
    Box,
    Label { text: FormattedString, format: TextFormat },
}

/// The handlers of an element, by event. An event without an entry is not
/// the same as one whose list is empty: see `UiElement::handle_event`.
#[derive(Debug, Clone, Default)]
pub struct EventHandlers {
    pub mouse_down: Option<Vec<Handler>>,
    pub mouse_up: Option<Vec<Handler>>,
}

/// An element of the menu. Its rectangle is given relative to the element
/// that holds it.
#[derive(Debug)]
pub struct UiElement {
    pub id: AssetId,
    pub bounds: Rect,
    pub z: DrawLayer,
    pub bg: AssetColor,
    pub on_event: EventHandlers,
    pub children: Vec<UiElement>,
    pub mouse: Mouse,
    pub element_type: ElementType,
}

/// The event that a change of the held buttons amounts to: none where the
/// same buttons are held; a press where a button is held that was not; a
/// release else.
pub open spec fn event_between(old_state: Mouse, new_state: Mouse) -> Option<Event> {
    if old_state.buttons.bits == new_state.buttons.bits {
        None
    } else if new_state.buttons.bits & !old_state.buttons.bits == 0 {
        Some(Event::MouseUp)
    } else {
        Some(Event::MouseDown)
    }
}

/// `target` with another mouse state, background and kind.
pub open spec fn restyled(
    target: UiElement,
    mouse: Mouse,
    bg: AssetColor,
    kind: ElementType,
) -> UiElement {
    UiElement {
        id: target.id,
        bounds: target.bounds,
        z: target.z,
        bg,
        on_event: target.on_event,
        children: target.children,
        mouse,
        element_type: kind,
    }
}

/// The place of the first of `children` with the number `id`, or their
/// count where none has it.
pub open spec fn first_with_id(children: Seq<UiElement>, id: AssetId) -> int
    decreases children.len(),
{
    if children.len() == 0 {
        0
    } else if children[0].id == id {
        0
    } else {
        1 + first_with_id(children.drop_first(), id)
    }
}

/// The first of `children` with the number `id` stands at the place that
/// `first_with_id` gives, and none before it has that number.
pub proof fn lemma_first_with_id(children: Seq<UiElement>, id: AssetId)
    ensures
        0 <= first_with_id(children, id) <= children.len(),
        first_with_id(children, id) < children.len() ==> children[first_with_id(
            children,
            id,
        )].id == id,
        forall|k: int| 0 <= k < first_with_id(children, id) ==> (#[trigger] children[k]).id != id,
    decreases children.len(),
{
    if children.len() > 0 && children[0].id != id {
        let rest = children.drop_first();
        lemma_first_with_id(rest, id);
        assert forall|k: int| 0 <= k < first_with_id(children, id) implies (
        #[trigger] children[k]).id != id by {
            if k > 0 {
                assert(children[k] == rest[k - 1]);
            }
        }
    }
}

/// Whether `after` is `before` once the element with the number `id` has
/// taken a mouse state, a background and a kind: the element itself if it
/// has that number, else the first of its children that has it, else
/// nobody. Elements further down are never reached.
pub open spec fn is_updated(
    before: UiElement,
    after: UiElement,
    id: AssetId,
    mouse: Mouse,
    bg: AssetColor,
    kind: ElementType,
) -> bool {
    if before.id == id {
        after == restyled(before, mouse, bg, kind)
    } else {
        let slot = first_with_id(before.children@, id);
        &&& after.id == before.id
        &&& after.bounds == before.bounds
        &&& after.z == before.z
        &&& after.bg == before.bg
        &&& after.on_event == before.on_event
        &&& after.mouse == before.mouse
        &&& after.element_type == before.element_type
        &&& if slot < before.children@.len() {
            after.children@ == before.children@.update(
                slot,
                restyled(before.children@[slot], mouse, bg, kind),
            )
        } else {
            after.children@ == before.children@
        }
    }
}

/// The point `pos` as an element at `bounds` hands it to its children:
/// relative to its own corner.
pub open spec fn seen_from(bounds: Rect, pos: Point) -> Point {
    Vector2 { x: pos.x.sub_spec(bounds.x), y: pos.y.sub_spec(bounds.y) }
}

/// The elements under the point `pos`: the element itself if the point
/// lies in its rectangle, followed by what lies under the point in each
/// of its children, in their order.
pub open spec fn elements_under(element: UiElement, pos: Point) -> Seq<UiElement>
    decreases element, 1nat, 0nat,
{
    if element.bounds.spec_is_inside(pos) {
        seq![element] + children_under(element, seen_from(element.bounds, pos), 0)
    } else {
        Seq::empty()
    }
}

/// What lies under the point `pos` in the children of `element` from the
/// place `from` on.
pub open spec fn children_under(element: UiElement, pos: Point, from: nat) -> Seq<UiElement>
    decreases element, 0nat, element.children@.len() - from,
{
    if from >= element.children@.len() {
        Seq::empty()
    } else {
        elements_under(element.children@[from as int], pos) + children_under(
            element,
            pos,
            from + 1,
        )
    }
}

/// The first element with the number `id`, the element itself coming
/// before its children and each child before the next.
pub open spec fn element_named(element: UiElement, id: AssetId) -> Option<UiElement>
    decreases element, 1nat, 0nat,
{
    if element.id == id {
        Some(element)
    } else {
        child_named(element, id, 0)
    }
}

/// The first element with the number `id` in the children of `element`
/// from the place `from` on.
pub open spec fn child_named(element: UiElement, id: AssetId, from: nat) -> Option<UiElement>
    decreases element, 0nat, element.children@.len() - from,
{
    if from >= element.children@.len() {
        None
    } else {
        match element_named(element.children@[from as int], id) {
            Some(e) => Some(e),
            None => child_named(element, id, from + 1),
        }
    }
}

/// The place of the element that is drawn on top: the one on the highest
/// layer, and of several on that layer the last.
pub open spec fn top_index(elements: Seq<UiElement>) -> int
    decreases elements.len(),
{
    if elements.len() <= 1 {
        0
    } else {
        let before = top_index(elements.drop_last());
        if elements[before].z.spec_below_or_same(elements.last().z) {
            elements.len() - 1
        } else {
            before
        }
    }
}

/// The element that the point `pos` hits: none where the point lies
/// outside the element; the element itself where no child lies under the
/// point; else, of all that lies under the point in its children, what is
/// drawn on top.
pub open spec fn element_under(element: UiElement, pos: Point) -> Option<UiElement> {
    if !element.bounds.spec_is_inside(pos) {
        None
    } else {
        let below = children_under(element, seen_from(element.bounds, pos), 0);
        if below.len() == 0 {
            Some(element)
        } else {
            Some(below[top_index(below)])
        }
    }
}

/// What the handlers of an element have made of it so far.
pub struct Look {
    pub bg: AssetColor,
    pub kind: ElementType,
    pub action: Option<Action>,
}

/// What one handler makes of an element: an action is kept for the
/// caller, a background is set, and a label takes a text color or a text;
/// a box has no text to change.
pub open spec fn handled(look: Look, handler: Handler) -> Look {
    match handler {
        Handler::Action(a) => Look { bg: look.bg, kind: look.kind, action: Some(a) },
        Handler::SetBackgroundColor(c) => Look { bg: c, kind: look.kind, action: look.action },
        Handler::SetTextColor(c) => match look.kind {
            ElementType::Label { text, format } => Look {
                bg: look.bg,
                kind: ElementType::Label {
                    text,
                    format: TextFormat {
                        font_id: format.font_id,
                        color: c,
                        justify: format.justify,
                        align: format.align,
                    },
                },
                action: look.action,
            },
            ElementType::Box => look,
        },
        Handler::SetText(s) => match look.kind {
            ElementType::Label { text, format } => Look {
                bg: look.bg,
                kind: ElementType::Label { text: s, format },
                action: look.action,
            },
            ElementType::Box => look,
        },
    }
}

/// What the handlers make of an element, each taken in its turn.
pub open spec fn handled_by(look: Look, handlers: Seq<Handler>) -> Look
    decreases handlers.len(),
{
    if handlers.len() == 0 {
        look
    } else {
        handled(handled_by(look, handlers.drop_last()), handlers.last())
    }
}

/// The handlers that an element has for an event, if it has an entry for it.
pub open spec fn handlers_for(on_event: EventHandlers, event: Event) -> Option<Vec<Handler>> {
    match event {
        Event::MouseDown => on_event.mouse_down,
        Event::MouseUp => on_event.mouse_up,
    }
}

/// The action that a mouse state draws from the menu below `before`: that
/// of the last handler that names one, among the handlers that the element
/// hit has for the change of the held buttons; none where the mouse hits
/// nothing, the buttons have not changed, or the element has no entry for
/// the event.
pub open spec fn action_drawn(before: UiElement, mouse: Mouse) -> Option<Action> {
    match element_under(before, mouse.pos) {
        None => None,
        Some(target) => match event_between(target.mouse, mouse) {
            None => None,
            Some(event) => match handlers_for(target.on_event, event) {
                None => None,
                Some(handlers) => handled_by(
                    Look { bg: target.bg, kind: target.element_type, action: None },
                    handlers@,
                ).action,
            },
        },
    }
}

/// Whether `after` is what a mouse state makes of the menu below `before`.
/// Where the mouse hits no element nothing changes. The element hit takes
/// the mouse state. Where the held buttons have changed and the element
/// has handlers for that, they run first and the element takes what they
/// made of it; where it has no entry for the event, nothing changes at
/// all.
pub open spec fn is_handled(before: UiElement, after: UiElement, mouse: Mouse) -> bool {
    match element_under(before, mouse.pos) {
        None => after == before,
        Some(target) => match event_between(target.mouse, mouse) {
            None => is_updated(before, after, target.id, mouse, target.bg, target.element_type),
            Some(event) => match handlers_for(target.on_event, event) {
                None => after == before,
                Some(handlers) => {
                    let look = handled_by(
                        Look { bg: target.bg, kind: target.element_type, action: None },
                        handlers@,
                    );
                    is_updated(before, after, target.id, mouse, look.bg, look.kind)
                },
            },
        },
    }
}

/// The references of a vector, each taken for what it points to.
pub open spec fn values_of(elements: Seq<&UiElement>) -> Seq<UiElement> {
    elements.map_values(|p: &UiElement| *p)
}

impl ElementType {
    /// A copy of the kind.
    pub fn duplicate(&self) -> (r: ElementType)
        ensures
            r == *self,
    {
        match self {
            ElementType::Box => ElementType::Box,
            ElementType::Label { text, format } => ElementType::Label {
                text: text.clone(),
                format: *format,
            },
        }
    }
}

impl UiElement {
    /// The element's rectangle as seen from outside an element at `parent`
    /// that holds it.
    pub open spec fn spec_placed_in(&self, parent: Rect) -> Rect {
        Rect {
            x: self.bounds.x.add_spec(parent.x),
            y: self.bounds.y.add_spec(parent.y),
            w: self.bounds.w,
            h: self.bounds.h,
        }
    }

    /// The element's rectangle moved by the corner of the element that
    /// holds it: an element's rectangle is always given relative to that.
    pub fn placed_in(&self, parent: Rect) -> (r: Rect)
        ensures
            r == self.spec_placed_in(parent),
    {
        Rect {
            x: self.bounds.x + parent.x,
            y: self.bounds.y + parent.y,
            w: self.bounds.w,
            h: self.bounds.h,
        }
    }
}

impl TextFormat {
    /// Where a text of the given width and height is set in `bounds`.
    pub open spec fn spec_place(self, bounds: Rect, width: Fixed, height: Fixed) -> Rect {
        Rect {
            x: shifted(self.justify, bounds.w, width).add_spec(bounds.x),
            y: shifted(self.align, bounds.h, height).add_spec(bounds.y),
            w: width,
            h: height,
        }
    }

    /// The rectangle of a text of the given width and height in `bounds`:
    /// at the start, in the middle or at the end, on each axis as the
    /// format says.
    pub fn place(&self, bounds: Rect, width: Fixed, height: Fixed) -> (r: Rect)
        ensures
            r == self.spec_place(bounds, width, height),
    {
        Rect {
            x: shift(self.justify, bounds.w, width) + bounds.x,
            y: shift(self.align, bounds.h, height) + bounds.y,
            w: width,
            h: height,
        }
    }
}

/// How far something of the size `inner` is moved from the start of a room
/// of the size `outer`.
pub open spec fn shifted(align: Align, outer: Fixed, inner: Fixed) -> Fixed {
    match align {
        Align::Start => Fixed { raw: 0 },
        Align::Center => outer.sub_spec(inner).spec_half(),
        Align::End => outer.sub_spec(inner),
    }
}

fn shift(align: Align, outer: Fixed, inner: Fixed) -> (r: Fixed)
    ensures
        r == shifted(align, outer, inner),
{
    match align {
        Align::Start => Fixed::zero(),
        Align::Center => (outer - inner).half(),
        Align::End => outer - inner,
    }
}

/// What one handler makes of an element.
fn apply_handler(handler: &Handler, bg: AssetColor, kind: ElementType, action: Option<Action>) -> (r:
    (AssetColor, ElementType, Option<Action>))
    ensures
        (Look { bg: r.0, kind: r.1, action: r.2 }) == handled(Look { bg, kind, action }, *handler),
{
    match handler {
        Handler::Action(a) => (bg, kind, Some(*a)),
        Handler::SetBackgroundColor(color) => (*color, kind, action),
        Handler::SetTextColor(color) => match kind {
            ElementType::Label { text, format } => (
                bg,
                ElementType::Label {
                    text,
                    format: TextFormat {
                        font_id: format.font_id,
                        color: *color,
                        justify: format.justify,
                        align: format.align,
                    },
                },
                action,
            ),
            ElementType::Box => (bg, ElementType::Box, action),
        },
        Handler::SetText(new_text) => match kind {
            ElementType::Label { text, format } => (
                bg,
                ElementType::Label { text: new_text.clone(), format },
                action,
            ),
            ElementType::Box => (bg, ElementType::Box, action),
        },
    }
}

impl UiElement {
    /// Lets the element with the number of `element` take over its mouse
    /// state, background and kind: this element or, failing that, the
    /// first of its children with that number.
    pub fn update_element(&mut self, element: UiElement)
        ensures
            is_updated(
                *old(self),
                *final(self),
                element.id,
                element.mouse,
                element.bg,
                element.element_type,
            ),
        decreases *old(self),
    {
        if self.id == element.id {
            self.mouse = element.mouse;
            self.bg = element.bg;
            self.element_type = element.element_type;
            return ;
        }
        let n = self.children.len();
        let mut i: usize = 0;
        while i < n
            invariant
                i <= n,
                n == self.children@.len(),
                *self == *old(self),
                self.id != element.id,
                forall|k: int| 0 <= k < i ==> (#[trigger] self.children@[k]).id != element.id,
            decreases n - i,
        {
            let found = self.children[i].id == element.id || self.children[i].has_child_with_id(
                element.id,
            );
            if found {
                proof {
                    lemma_first_with_id(self.children@, element.id);
                    let slot = first_with_id(self.children@, element.id);
                    if slot < i {
                        assert(self.children@[slot].id != element.id);
                    }
                    assert(slot == i);
                }
                self.children[i].update_element(element);
                return ;
            }
            i += 1;
        }
        proof {
            lemma_first_with_id(self.children@, element.id);
            let slot = first_with_id(self.children@, element.id);
            if slot < n {
                assert(self.children@[slot].id != element.id);
            }
        }
    }

    /// Whether a child has the number `id` and itself has such a child,
    /// and so on without end: no element has.
    pub fn has_child_with_id(&self, id: AssetId) -> (r: bool)
        ensures
            !r,
        decreases *self,
    {
        let n = self.children.len();
        let mut i: usize = 0;
        while i < n
            invariant
                i <= n,
                n == self.children@.len(),
            decreases n - i,
        {
            let child = &self.children[i];
            if child.id == id && child.has_child_with_id(id) {
                return true;
            }
            i += 1;
        }
        false
    }

    /// The first element with the number `id`: this element, or one below
    /// it, each child being searched through before the next.
    pub fn element_with_id(&self, id: AssetId) -> (r: Option<&UiElement>)
        ensures
            match r {
                Some(e) => element_named(*self, id) == Some(*e),
                None => element_named(*self, id) is None,
            },
        decreases *self,
    {
        if id == self.id {
            return Some(self);
        }
        let children: &Vec<UiElement> = &self.children;
        let n = children.len();
        let mut i: usize = 0;
        while i < n
            invariant
                i <= n,
                n == self.children@.len(),
                children == &self.children,
                self.id != id,
                child_named(*self, id, 0) == child_named(*self, id, i as nat),
            decreases n - i,
        {
            let child = &children[i];
            if let Some(element) = child.element_with_id(id) {
                return Some(element);
            }
            i += 1;
        }
        None
    }

    /// What lies under the point `child_pos` in the children.
    fn children_at(&self, child_pos: Point) -> (r: Vec<&UiElement>)
        ensures
            values_of(r@) == children_under(*self, child_pos, 0),
        decreases *self, 0nat,
    {
        let mut elements: Vec<&UiElement> = Vec::new();
        let children = &self.children;
        let n = children.len();
        let mut i: usize = 0;
        proof {
            assert(values_of(elements@) =~= Seq::<UiElement>::empty());
            assert(values_of(elements@) + children_under(*self, child_pos, 0)
                =~= children_under(*self, child_pos, 0));
        }
        while i < n
            invariant
                i <= n,
                n == self.children@.len(),
                children == &self.children,
                values_of(elements@) + children_under(*self, child_pos, i as nat)
                    == children_under(*self, child_pos, 0),
            decreases n - i,
        {
            let child = &children[i];
            let ghost so_far = values_of(elements@);
            let ghost rest = children_under(*self, child_pos, (i + 1) as nat);
            if child.bounds.is_inside(child_pos) {
                let matches = child.get_elements_at(child_pos);
                let ghost found = values_of(matches@);
                let m = matches.len();
                let mut k: usize = 0;
                while k < m
                    invariant
                        k <= m,
                        m == matches@.len(),
                        found == values_of(matches@),
                        values_of(elements@) == so_far + found.take(k as int),
                    decreases m - k,
                {
                    let ghost before = values_of(elements@);
                    elements.push(matches[k]);
                    proof {
                        assert(values_of(elements@) =~= before.push(*matches@[k as int]));
                        assert(found[k as int] == *matches@[k as int]);
                        assert(found.take(k + 1) =~= found.take(k as int).push(found[k as int]));
                        assert(values_of(elements@) =~= so_far + found.take(k + 1));
                    }
                    k += 1;
                }
                proof {
                    assert(found.take(m as int) =~= found);
                    assert((so_far + found) + rest =~= so_far + (found + rest));
                }
            } else {
                proof {
                    assert(elements_under(*child, child_pos) =~= Seq::<UiElement>::empty());
                    assert(Seq::<UiElement>::empty() + rest =~= rest);
                }
            }
            i += 1;
        }
        proof {
            assert(values_of(elements@) + Seq::<UiElement>::empty() =~= values_of(elements@));
        }
        elements
    }

    /// The elements under the point `pos`: this element if the point lies
    /// in its rectangle, then what lies under the point in its children.
    pub fn get_elements_at(&self, pos: Point) -> (r: Vec<&UiElement>)
        ensures
            values_of(r@) == elements_under(*self, pos),
        decreases *self, 1nat,
    {
        let mut elements: Vec<&UiElement> = Vec::new();
        let bounds = self.bounds;
        if !bounds.is_inside(pos) {
            proof {
                assert(values_of(elements@) =~= Seq::<UiElement>::empty());
            }
            return elements;
        }
        elements.push(self);
        let child_pos = Vector2 { x: pos.x - bounds.x, y: pos.y - bounds.y };
        let below = self.children_at(child_pos);
        let ghost found = values_of(below@);
        proof {
            assert(values_of(elements@) =~= seq![*self]);
        }
        let m = below.len();
        let mut k: usize = 0;
        while k < m
            invariant
                k <= m,
                m == below@.len(),
                found == values_of(below@),
                values_of(elements@) == seq![*self] + found.take(k as int),
            decreases m - k,
        {
            let ghost before = values_of(elements@);
            elements.push(below[k]);
            proof {
                assert(values_of(elements@) =~= before.push(*below@[k as int]));
                assert(found[k as int] == *below@[k as int]);
                assert(found.take(k + 1) =~= found.take(k as int).push(found[k as int]));
                assert(values_of(elements@) =~= seq![*self] + found.take(k + 1));
            }
            k += 1;
        }
        proof {
            assert(found.take(m as int) =~= found);
        }
        elements
    }

    /// The element that the point `pos` hits: of what lies under the point
    /// in the children, the one that is drawn on top; this element where
    /// nothing does; none where the point lies outside this element.
    pub fn get_element_at(&self, pos: Point) -> (r: Option<&UiElement>)
        ensures
            match r {
                Some(e) => element_under(*self, pos) == Some(*e),
                None => element_under(*self, pos) is None,
            },
    {
        let bounds = self.bounds;
        if !bounds.is_inside(pos) {
            return None;
        }
        let child_pos = Vector2 { x: pos.x - bounds.x, y: pos.y - bounds.y };
        let elements = self.children_at(child_pos);
        if elements.len() == 0 {
            proof {
                assert(values_of(elements@).len() == 0);
            }
            return Some(self);
        }
        let ghost found = values_of(elements@);
        let n = elements.len();
        let mut top: usize = 0;
        let mut i: usize = 1;
        proof {
            assert(found.take(1).len() == 1);
        }
        while i < n
            invariant
                1 <= i <= n,
                n == elements@.len(),
                found == values_of(elements@),
                top < i,
                top == top_index(found.take(i as int)),
            decreases n - i,
        {
            proof {
                let upto = found.take(i + 1);
                assert(upto.drop_last() =~= found.take(i as int));
                assert(upto.last() == *elements@[i as int]);
                assert(upto[top as int] == *elements@[top as int]);
            }
            if elements[top].z.below_or_same(elements[i].z) {
                top = i;
            }
            i += 1;
        }
        proof {
            assert(found.take(n as int) =~= found);
            assert(found[top as int] == *elements@[top as int]);
        }
        Some(elements[top])
    }

    /// Lets the mouse act on the menu below this element. The element that
    /// the mouse hits takes the mouse state; where the held buttons have
    /// changed, its handlers for that run, and the action of the last
    /// handler that names one is returned.
    pub fn handle_event(&mut self, mouse: Mouse) -> (r: Option<Action>)
        ensures
            r == action_drawn(*old(self), mouse),
            is_handled(*old(self), *final(self), mouse),
    {
        let (id, bg, kind, action) = {
            let target = match self.get_element_at(mouse.pos) {
                Some(element) => element,
                None => {
                    return None;
                },
            };
            let prev_state = target.mouse;
            let event = match Self::get_event_type(&prev_state, &mouse) {
                Some(event) => event,
                None => {
                    let id = target.id;
                    let bg = target.bg;
                    let kind = target.element_type.duplicate();
                    self.restyle(id, mouse, bg, kind);
                    return None;
                },
            };
            let entry = match event {
                Event::MouseDown => &target.on_event.mouse_down,
                Event::MouseUp => &target.on_event.mouse_up,
            };
            let handlers = match entry {
                Some(handlers) => handlers,
                None => {
                    return None;
                },
            };
            let mut bg = target.bg;
            let mut kind = target.element_type.duplicate();
            let mut action: Option<Action> = None;
            let n = handlers.len();
            let mut i: usize = 0;
            while i < n
                invariant
                    i <= n,
                    n == handlers@.len(),
                    (Look { bg, kind, action }) == handled_by(
                        Look { bg: target.bg, kind: target.element_type, action: None },
                        handlers@.take(i as int),
                    ),
                decreases n - i,
            {
                proof {
                    let upto = handlers@.take(i + 1);
                    assert(upto.drop_last() =~= handlers@.take(i as int));
                    assert(upto.last() == handlers@[i as int]);
                }
                let next = apply_handler(&handlers[i], bg, kind, action);
                bg = next.0;
                kind = next.1;
                action = next.2;
                i += 1;
            }
            proof {
                assert(handlers@.take(n as int) =~= handlers@);
            }
            (target.id, bg, kind, action)
        };
        self.restyle(id, mouse, bg, kind);
        action
    }

    /// Lets the element with the number `id` take a mouse state, a
    /// background and a kind.
    fn restyle(&mut self, id: AssetId, mouse: Mouse, bg: AssetColor, kind: ElementType)
        ensures
            is_updated(*old(self), *final(self), id, mouse, bg, kind),
    {
        let element = UiElement {
            id,
            bounds: self.bounds,
            z: self.z,
            bg,
            on_event: EventHandlers { mouse_down: None, mouse_up: None },
            children: Vec::new(),
            mouse,
            element_type: kind,
        };
        self.update_element(element);
    }

    /// The event that the change from one mouse state to the next amounts to.
    pub fn get_event_type(old_state: &Mouse, new_state: &Mouse) -> (r: Option<Event>)
        ensures
            r == event_between(*old_state, *new_state),
    {
        let buttons_changes = old_state.buttons.xor(new_state.buttons);
        if buttons_changes.is_none() {
            proof {
                let a = old_state.buttons.bits;
                let b = new_state.buttons.bits;
                assert((a ^ b == 0) ==> a == b) by (bit_vector);
            }
            return None;
        }
        proof {
            let a = old_state.buttons.bits;
            let b = new_state.buttons.bits;
            assert(a ^ a == 0) by (bit_vector);
            assert(((a ^ b) & b == 0) == (b & !a == 0)) by (bit_vector);
        }
        if buttons_changes.and(new_state.buttons).is_none() {
            Some(Event::MouseUp)
        } else {
            Some(Event::MouseDown)
        }
    }
}

} // verus!
