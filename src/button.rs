//! A reusable clickable control: an identifier, a label and an optional
//! click handler, turned into a styled element once per render pass.
use vstd::prelude::*;
use crate::style::{button_style, Style, BUTTON_HOVER_COLOR};
use crate::tree::{click_handler, has_id, is_text, Element, Node};

verus! {

/// A button value. It is built, rendered once and dropped within one
/// render pass; only its identifier ties it to the next pass.
#[derive(Debug)]
pub struct Button<M> {
    id: String,
    label: String,
    on_click: Option<M>,
}

/// `e` is the element of a button keyed by `id`, showing `label`, whose
/// clicks reach `handler`.
pub open spec fn is_button_element<M>(
    e: Element<M>,
    id: Seq<char>,
    label: Seq<char>,
    handler: Option<M>,
) -> bool {
    &&& has_id(e, id)
    &&& e.style == button_style()
    &&& e.hover_background == Some(BUTTON_HOVER_COLOR)
    &&& e.on_click == handler
    &&& e.children@.len() == 1
    &&& is_text(e.children@[0], label)
}

impl<M> Button<M> {
    /// The identifier of the button.
    pub closed spec fn spec_id(&self) -> Seq<char> {
        self.id@
    }

    /// The label of the button.
    pub closed spec fn spec_label(&self) -> Seq<char> {
        self.label@
    }

    /// The click handler of the button, if one is attached.
    pub closed spec fn spec_handler(&self) -> Option<M> {
        self.on_click
    }

    /// A button with no click handler.
    pub fn new(id: String, label: String) -> (r: Button<M>)
        ensures
            r.spec_id() == id@,
            r.spec_label() == label@,
            r.spec_handler() is None,
    {
        Button { id, label, on_click: None }
    }

    /// The same button with `handler` as its click handler, in place of any
    /// handler attached before.
    pub fn on_click(self, handler: M) -> (r: Button<M>)
        ensures
            r.spec_id() == self.spec_id(),
            r.spec_label() == self.spec_label(),
            r.spec_handler() == Some(handler),
    {
        Button { on_click: Some(handler), ..self }
    }

    /// The styled element of the button: keyed by its identifier, in the
    /// button style with the hover background, holding the label as its
    /// only child, and subscribed to clicks with its handler if it has one.
    pub fn render(self) -> (r: Element<M>)
        ensures
            is_button_element(r, self.spec_id(), self.spec_label(), self.spec_handler()),
    {
        Element::new(Style::button())
            .id(self.id)
            .hover_background(BUTTON_HOVER_COLOR)
            .when_clicked(self.on_click)
            .child(Node::text(self.label))
    }
}

/// Buttons are independent: of two buttons with different identifiers,
/// placed side by side in one container, a click keyed by either one's
/// identifier reaches that button's handler and never the other's, whatever
/// their labels and handlers.
pub proof fn lemma_buttons_independent<M>(
    parent: Element<M>,
    first: Element<M>,
    second: Element<M>,
    first_id: Seq<char>,
    second_id: Seq<char>,
    first_label: Seq<char>,
    second_label: Seq<char>,
    first_handler: Option<M>,
    second_handler: Option<M>,
)
    requires
        first_id != second_id,
        is_button_element(first, first_id, first_label, first_handler),
        is_button_element(second, second_id, second_label, second_handler),
        parent.children@ == seq![Node::Element(first), Node::Element(second)],
        !has_id(parent, first_id),
        !has_id(parent, second_id),
    ensures
        click_handler(first, first_id) == first_handler,
        click_handler(second, second_id) == second_handler,
        click_handler(first, second_id) is None,
        click_handler(second, first_id) is None,
        click_handler(parent, first_id) == first_handler,
        click_handler(parent, second_id) == second_handler,
{
    reveal_with_fuel(crate::tree::first_handler, 3);
}

} // verus!
