//! The visual tree that components render into: styled elements holding
//! text leaves and child elements, with an optional identifier and an
//! optional click handler of type `M`.
use vstd::prelude::*;
use crate::style::Style;

verus! {

/// A node of a visual tree.
#[derive(Debug, PartialEq, Eq)]
pub enum Node<M> {
    Text(String),
    Element(Element<M>),
}

/// A styled container. `id` keys the element for hit-testing and hover
/// state; `hover_background` overrides the background under the pointer;
/// `on_click` is the handler that a click on the element invokes.
#[derive(Debug, PartialEq, Eq)]
pub struct Element<M> {
    pub id: Option<String>,
    pub style: Style,
    pub hover_background: Option<u32>,
    pub on_click: Option<M>,
    pub children: Vec<Node<M>>,
}

/// `e` carries the identifier `id`.
pub open spec fn has_id<M>(e: Element<M>, id: Seq<char>) -> bool {
    e.id matches Some(x) && x@ == id
}

/// `n` is the text leaf `text`.
pub open spec fn is_text<M>(n: Node<M>, text: Seq<char>) -> bool {
    n matches Node::Text(t) && t@ == text
}

/// `e` is an element without identifier, hover override or handler whose
/// only child is the text leaf `text`.
pub open spec fn is_text_block<M>(e: Element<M>, style: Style, text: Seq<char>) -> bool {
    &&& e.id is None
    &&& e.style == style
    &&& e.hover_background is None
    &&& e.on_click is None
    &&& e.children@.len() == 1
    &&& is_text(e.children@[0], text)
}

/// The handler of the first element among `nodes[i..]` that carries `id`.
pub open spec fn first_handler<M>(nodes: Seq<Node<M>>, id: Seq<char>, i: int) -> Option<M>
    decreases nodes.len() - i,
{
    if i < 0 || i >= nodes.len() {
        None
    } else {
        match nodes[i] {
            Node::Element(c) => if has_id(c, id) {
                c.on_click
            } else {
                first_handler(nodes, id, i + 1)
            },
            Node::Text(_) => first_handler(nodes, id, i + 1),
        }
    }
}

/// The handler that a click keyed by `id` reaches in `e`: its own if `e`
/// carries `id`, otherwise that of the first direct child that does.
pub open spec fn click_handler<M>(e: Element<M>, id: Seq<char>) -> Option<M> {
    if has_id(e, id) {
        e.on_click
    } else {
        first_handler(e.children@, id, 0)
    }
}

/// Whether the string `a` has the characters of the string `b`.
fn str_eq(a: &str, b: &str) -> (r: bool)
    ensures
        r == (a@ == b@),
{
    let n = a.unicode_len();
    if n != b.unicode_len() {
        return false;
    }
    let mut i: usize = 0;
    while i < n
        invariant
            n == a@.len(),
            n == b@.len(),
            0 <= i <= n,
            forall|k: int| 0 <= k < i ==> a@[k] == b@[k],
        decreases n - i,
    {
        if a.get_char(i) != b.get_char(i) {
            return false;
        }
        i += 1;
    }
    assert(a@ =~= b@);
    true
}

impl<M> Node<M> {
    /// A text leaf.
    pub fn text(s: String) -> (r: Node<M>)
        ensures
            r matches Node::Text(t) && t@ == s@,
    {
        Node::Text(s)
    }
}

impl<M> Element<M> {
    /// An element with the given style and nothing else.
    pub fn new(style: Style) -> (r: Element<M>)
        ensures
            r.id is None,
            r.style == style,
            r.hover_background is None,
            r.on_click is None,
            r.children@.len() == 0,
    {
        Element { id: None, style, hover_background: None, on_click: None, children: Vec::new() }
    }

    /// The element keyed by `id`.
    pub fn id(self, id: String) -> (r: Element<M>)
        ensures
            r.id == Some(id),
            r.style == self.style,
            r.hover_background == self.hover_background,
            r.on_click == self.on_click,
            r.children == self.children,
    {
        Element { id: Some(id), ..self }
    }

    /// The element with `color` as its background under the pointer.
    pub fn hover_background(self, color: u32) -> (r: Element<M>)
        ensures
            r.id == self.id,
            r.style == self.style,
            r.hover_background == Some(color),
            r.on_click == self.on_click,
            r.children == self.children,
    {
        Element { hover_background: Some(color), ..self }
    }

    /// The element with `handler` subscribed to clicks on it, or with no
    /// handler where `handler` is `None`.
    pub fn when_clicked(self, handler: Option<M>) -> (r: Element<M>)
        ensures
            r.id == self.id,
            r.style == self.style,
            r.hover_background == self.hover_background,
            r.on_click == handler,
            r.children == self.children,
    {
        Element { on_click: handler, ..self }
    }

    /// The element with `child` appended to its children.
    pub fn child(self, child: Node<M>) -> (r: Element<M>)
        ensures
            r.id == self.id,
            r.style == self.style,
            r.hover_background == self.hover_background,
            r.on_click == self.on_click,
            r.children@ == self.children@.push(child),
    {
        let mut e = self;
        e.children.push(child);
        e
    }

    /// The handler that a click keyed by `id` reaches: this element's own
    /// if it carries `id`, otherwise that of the first direct child that
    /// carries it.
    pub fn handler_for(&self, id: &str) -> (r: Option<&M>)
        ensures
            r == match click_handler(*self, id@) {
                Some(h) => Some(&h),
                None => None::<&M>,
            },
    {
        if let Some(own) = &self.id {
            if str_eq(own.as_str(), id) {
                return self.on_click.as_ref();
            }
        }
        let mut i: usize = 0;
        while i < self.children.len()
            invariant
                !has_id(*self, id@),
                0 <= i <= self.children@.len(),
                click_handler(*self, id@) == first_handler(self.children@, id@, i as int),
            decreases self.children@.len() - i,
        {
            if let Node::Element(c) = &self.children[i] {
                if let Some(cid) = &c.id {
                    if str_eq(cid.as_str(), id) {
                        return c.on_click.as_ref();
                    }
                }
            }
            i += 1;
        }
        None
    }
}

} // verus!
