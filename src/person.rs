//! A stateful view: a person's name and a like counter, with a button whose
//! clicks increment the counter and ask for a re-render.
use vstd::prelude::*;
use vstd::string::StringExecFns;
use crate::button::{is_button_element, Button};
use crate::context::{ClickEvent, ViewContext};
use crate::style::{column_style, likes_style, name_style, Style};
use crate::text::{format_likes, format_name, likes_text, name_text};
use crate::tree::{click_handler, is_text, is_text_block, Element, Node};

verus! {

/// The handlers that a person's view subscribes to clicks.
#[derive(Clone, Copy, Debug, PartialEq, Eq, Structural)]
pub enum PersonListener {
    /// Runs `Person::handle_increment`.
    HandleIncrement,
}

/// The identifier of the like button, `"like-button"`.
pub open spec fn like_button_id() -> Seq<char> {
    seq!['l', 'i', 'k', 'e', '-', 'b', 'u', 't', 't', 'o', 'n']
}

/// The label of the like button, `"Like"`.
pub open spec fn like_label() -> Seq<char> {
    seq!['L', 'i', 'k', 'e']
}

/// The state of a person's view.
pub ghost struct PersonView {
    pub first_name: Seq<char>,
    pub last_name: Seq<char>,
    pub likes: nat,
}

impl PersonView {
    /// The state after one click on the like button.
    pub open spec fn clicked(self) -> PersonView {
        PersonView { likes: self.likes + 1, ..self }
    }

    /// The state after `k` clicks on the like button.
    pub open spec fn clicked_times(self, k: nat) -> PersonView
        decreases k,
    {
        if k == 0 {
            self
        } else {
            self.clicked_times((k - 1) as nat).clicked()
        }
    }
}

/// A person shown by name, with the number of likes given so far. Only its
/// own click handler changes `likes`.
#[derive(Debug)]
pub struct Person {
    first_name: String,
    last_name: String,
    likes: u16,
}

impl View for Person {
    type V = PersonView;

    closed spec fn view(&self) -> PersonView {
        PersonView {
            first_name: self.first_name@,
            last_name: self.last_name@,
            likes: self.likes as nat,
        }
    }
}

/// `e` is the name line of a person in state `p`.
pub open spec fn is_name_line<M>(e: Element<M>, p: PersonView) -> bool {
    is_text_block(e, name_style(), name_text(p.first_name, p.last_name))
}

/// `e` is the likes line of a person in state `p`.
pub open spec fn is_likes_line<M>(e: Element<M>, p: PersonView) -> bool {
    is_text_block(e, likes_style(), likes_text(p.likes))
}

/// `e` is the whole view of a person in state `p`: a column holding the
/// name line, the likes line and the like button, in that order.
pub open spec fn is_person_element(e: Element<PersonListener>, p: PersonView) -> bool {
    &&& e.id is None
    &&& e.style == column_style()
    &&& e.hover_background is None
    &&& e.on_click is None
    &&& e.children@.len() == 3
    &&& e.children@[0] matches Node::Element(a) && is_name_line(a, p)
    &&& e.children@[1] matches Node::Element(b) && is_likes_line(b, p)
    &&& e.children@[2] matches Node::Element(c) && is_button_element(
        c,
        like_button_id(),
        like_label(),
        Some(PersonListener::HandleIncrement),
    )
}

impl Person {
    /// A person with no likes yet.
    pub fn new(first_name: String, last_name: String) -> (r: Person)
        ensures
            r@.first_name == first_name@,
            r@.last_name == last_name@,
            r@.likes == 0,
    {
        Person { first_name, last_name, likes: 0 }
    }

    /// The number of likes given so far.
    pub fn likes(&self) -> (r: u16)
        ensures
            r as nat == self@.likes,
    {
        self.likes
    }

    /// The centered name line, `"{first_name} {last_name}"`.
    pub fn render_name<M>(&self) -> (r: Element<M>)
        ensures
            is_name_line(r, self@),
    {
        let text = format_name(self.first_name.as_str(), self.last_name.as_str());
        Element::new(Style::name_line()).child(Node::text(text))
    }

    /// The centered likes line, `"Likes: {likes}"`, for the current count.
    pub fn render_likes<M>(&self) -> (r: Element<M>)
        ensures
            is_likes_line(r, self@),
    {
        let text = format_likes(self.likes);
        Element::new(Style::likes_line()).child(Node::text(text))
    }

    /// Handles a click on the like button: one more like, and a request to
    /// render the view again.
    pub fn handle_increment(&mut self, event: &ClickEvent, cx: &mut ViewContext)
        requires
            old(self)@.likes < u16::MAX,
        ensures
            final(self)@ == old(self)@.clicked(),
            final(cx).stale,
    {
        self.likes = self.likes + 1;
        cx.notify();
    }

    /// The whole view: the name line, the likes line and a button labelled
    /// `"Like"` whose clicks reach `handle_increment`, in a centered column.
    pub fn render(&self) -> (r: Element<PersonListener>)
        ensures
            is_person_element(r, self@),
    {
        proof {
            reveal_strlit("like-button");
            reveal_strlit("Like");
        }
        let id = String::from_str("like-button");
        let label = String::from_str("Like");
        assert(id@ =~= like_button_id());
        assert(label@ =~= like_label());
        let button = Button::new(id, label).on_click(PersonListener::HandleIncrement);
        Element::new(Style::column())
            .child(Node::Element(self.render_name()))
            .child(Node::Element(self.render_likes()))
            .child(Node::Element(button.render()))
    }

    /// Runs the listener `l` for `event`.
    pub fn handle(&mut self, l: PersonListener, event: &ClickEvent, cx: &mut ViewContext)
        requires
            old(self)@.likes < u16::MAX,
        ensures
            final(self)@ == old(self)@.clicked(),
            final(cx).stale,
    {
        match l {
            PersonListener::HandleIncrement => self.handle_increment(event, cx),
        }
    }

    /// Delivers a click keyed by `id` to the view as it renders now: the
    /// handler that the click reaches runs, and `true` is returned; where
    /// no handler is reached nothing changes and `false` is returned.
    pub fn dispatch_click(&mut self, id: &str, event: &ClickEvent, cx: &mut ViewContext) -> (r: bool)
        requires
            id@ == like_button_id() ==> old(self)@.likes < u16::MAX,
        ensures
            r == (id@ == like_button_id()),
            r ==> final(self)@ == old(self)@.clicked() && final(cx).stale,
            !r ==> final(self)@ == old(self)@ && final(cx).stale == old(cx).stale,
    {
        let view = self.render();
        proof { lemma_click_reaches(view, self@, id@); }
        match view.handler_for(id) {
            Some(l) => {
                self.handle(*l, event, cx);
                true
            },
            None => false,
        }
    }
}

/// A click adds exactly one like, keeps the name, and the likes line
/// rendered afterwards reads `"Likes: {n + 1}"` where `n` was the count
/// before the click.
pub proof fn lemma_click_then_render<M>(before: PersonView, after: PersonView, e: Element<M>)
    requires
        after == before.clicked(),
        is_likes_line(e, after),
    ensures
        after.likes == before.likes + 1,
        after.first_name == before.first_name,
        after.last_name == before.last_name,
        is_text(e.children@[0], likes_text(before.likes + 1)),
{
}

/// Rendering is deterministic: two renderings of the name or of the likes
/// line of one state are the same, field for field and character for
/// character.
pub proof fn lemma_render_deterministic<M>(p: PersonView, e1: Element<M>, e2: Element<M>)
    requires
        (is_name_line(e1, p) && is_name_line(e2, p)) || (is_likes_line(e1, p) && is_likes_line(
            e2,
            p,
        )),
    ensures
        e1.id == e2.id,
        e1.style == e2.style,
        e1.hover_background == e2.hover_background,
        e1.on_click == e2.on_click,
        e1.children@.len() == e2.children@.len(),
        forall|t: Seq<char>| is_text(e1.children@[0], t) <==> is_text(e2.children@[0], t),
{
}

/// Clicks are neither lost nor counted twice: after `k` clicks the count
/// has grown by exactly `k`, and the name is unchanged.
pub proof fn lemma_clicks_add_up(p: PersonView, k: nat)
    ensures
        p.clicked_times(k).likes == p.likes + k,
        p.clicked_times(k).first_name == p.first_name,
        p.clicked_times(k).last_name == p.last_name,
    decreases k,
{
    if k > 0 {
        lemma_clicks_add_up(p, (k - 1) as nat);
    }
}

/// In the view of a person, a click keyed by the like button's identifier
/// reaches `handle_increment`, and a click keyed by any other identifier
/// reaches no handler.
pub proof fn lemma_click_reaches(e: Element<PersonListener>, p: PersonView, id: Seq<char>)
    requires
        is_person_element(e, p),
    ensures
        click_handler(e, id) == (if id == like_button_id() {
            Some(PersonListener::HandleIncrement)
        } else {
            None
        }),
{
    reveal_with_fuel(crate::tree::first_handler, 4);
}

} // verus!
