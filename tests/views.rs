use button_component::button::Button;
use button_component::context::{ClickEvent, ViewContext};
use button_component::person::{Person, PersonListener};
use button_component::style::{
    Corners, Direction, Style, TextSize, BACKGROUND_COLOR, BORDER_COLOR, BUTTON_BACKGROUND_COLOR,
    BUTTON_FOREGROUND_COLOR, BUTTON_HOVER_COLOR, FOREGROUND_COLOR,
};
use button_component::text::{format_likes, format_name};
use button_component::tree::{Element, Node};

fn only_text<M>(e: &Element<M>) -> String {
    assert_eq!(e.children.len(), 1);
    match &e.children[0] {
        Node::Text(t) => t.clone(),
        Node::Element(_) => panic!("expected a text leaf"),
    }
}

fn mick() -> Person {
    Person::new("Mick".to_string(), "Jagger".to_string())
}

fn click() -> ClickEvent {
    ClickEvent { click_count: 1 }
}

#[test]
fn fresh_person_shows_zero_likes() {
    let p = mick();
    assert_eq!(p.likes(), 0);
    assert_eq!(only_text(&p.render_likes::<()>()), "Likes: 0");
}

#[test]
fn one_click_adds_one_like() {
    let mut p = mick();
    let mut cx = ViewContext::new();
    for _ in 0..41 {
        p.handle_increment(&click(), &mut cx);
    }
    assert_eq!(only_text(&p.render_likes::<()>()), "Likes: 41");
    let mut cx = ViewContext::new();
    assert!(!cx.stale);
    p.handle_increment(&click(), &mut cx);
    assert!(cx.stale);
    assert_eq!(p.likes(), 42);
    assert_eq!(only_text(&p.render_likes::<()>()), "Likes: 42");
}

#[test]
fn rendering_twice_gives_the_same_tree() {
    let p = mick();
    assert_eq!(p.render_name::<()>(), p.render_name::<()>());
    assert_eq!(p.render_likes::<()>(), p.render_likes::<()>());
    assert_eq!(p.render(), p.render());
    assert_eq!(p.likes(), 0);
}

#[test]
fn clicks_add_up() {
    let mut p = mick();
    let mut cx = ViewContext::new();
    for _ in 0..1000 {
        p.handle_increment(&click(), &mut cx);
    }
    assert_eq!(p.likes(), 1000);
    assert_eq!(only_text(&p.render_likes::<()>()), "Likes: 1000");
}

#[test]
fn count_reaches_the_largest_value() {
    let mut p = mick();
    let mut cx = ViewContext::new();
    for _ in 0..u16::MAX {
        p.handle_increment(&click(), &mut cx);
    }
    assert_eq!(p.likes(), u16::MAX);
    assert_eq!(only_text(&p.render_likes::<()>()), "Likes: 65535");
}

#[test]
fn buttons_with_different_ids_do_not_share_handlers() {
    let a: Button<u8> = Button::new("a".to_string(), "Same".to_string()).on_click(1);
    let b: Button<u8> = Button::new("b".to_string(), "Same".to_string()).on_click(2);
    let c: Button<u8> = Button::new("c".to_string(), "Same".to_string());
    let row = Element::new(Style::plain())
        .child(Node::Element(a.render()))
        .child(Node::Element(b.render()))
        .child(Node::Element(c.render()));
    assert_eq!(row.handler_for("a"), Some(&1));
    assert_eq!(row.handler_for("b"), Some(&2));
    assert_eq!(row.handler_for("c"), None);
    assert_eq!(row.handler_for("d"), None);
    match &row.children[0] {
        Node::Element(e) => {
            assert_eq!(e.handler_for("a"), Some(&1));
            assert_eq!(e.handler_for("b"), None);
        }
        Node::Text(_) => panic!("expected an element"),
    }
}

#[test]
fn name_line_reads_first_and_last_name() {
    let p = mick();
    let e = p.render_name::<()>();
    assert_eq!(only_text(&e), "Mick Jagger");
    assert_eq!(e.style, Style::name_line());
    assert_eq!(e.id, None);
}

#[test]
fn later_handler_replaces_earlier_one() {
    let b: Button<u8> = Button::new("x".to_string(), "X".to_string()).on_click(1).on_click(7);
    let e = b.render();
    assert_eq!(e.on_click, Some(7));
    assert_eq!(e.handler_for("x"), Some(&7));
}

#[test]
fn button_renders_styled_label() {
    let e: Element<u8> = Button::new("like-button".to_string(), "Like".to_string()).render();
    assert_eq!(e.id, Some("like-button".to_string()));
    assert_eq!(e.on_click, None);
    assert_eq!(e.hover_background, Some(BUTTON_HOVER_COLOR));
    assert_eq!(e.style.background, Some(BUTTON_BACKGROUND_COLOR));
    assert_eq!(e.style.text_color, Some(BUTTON_FOREGROUND_COLOR));
    assert_eq!(e.style.border_color, Some(BORDER_COLOR));
    assert_eq!(e.style.border_width, 2);
    assert_eq!(e.style.padding, 2);
    assert_eq!(e.style.corners, Corners::RoundedLg);
    assert_eq!(e.style.text_size, TextSize::Xl);
    assert_eq!(only_text(&e), "Like");
}

#[test]
fn person_view_is_a_column_of_three() {
    let p = mick();
    let v = p.render();
    assert_eq!(v.style.direction, Direction::Column);
    assert_eq!(v.style.gap, 2);
    assert_eq!(v.style.background, Some(BACKGROUND_COLOR));
    assert_eq!(v.children.len(), 3);
    assert_eq!(v.children[0], Node::Element(p.render_name()));
    assert_eq!(v.children[1], Node::Element(p.render_likes()));
    match &v.children[2] {
        Node::Element(b) => {
            assert_eq!(only_text(b), "Like");
            assert_eq!(b.on_click, Some(PersonListener::HandleIncrement));
        }
        Node::Text(_) => panic!("expected the button"),
    }
    assert_eq!(v.handler_for("like-button"), Some(&PersonListener::HandleIncrement));
}

#[test]
fn likes_line_style() {
    let e = mick().render_likes::<()>();
    assert_eq!(e.style.text_color, Some(FOREGROUND_COLOR));
    assert_eq!(e.style.background, None);
    assert!(e.style.justify_center && e.style.items_center);
}

#[test]
fn click_on_like_button_increments() {
    let mut p = mick();
    let mut cx = ViewContext::new();
    assert!(p.dispatch_click("like-button", &click(), &mut cx));
    assert_eq!(p.likes(), 1);
    assert!(cx.take_render_request());
    assert!(!cx.take_render_request());
    assert_eq!(only_text(&p.render_likes::<()>()), "Likes: 1");
}

#[test]
fn click_elsewhere_changes_nothing() {
    let mut p = mick();
    let mut cx = ViewContext::new();
    assert!(!p.dispatch_click("like", &click(), &mut cx));
    assert!(!p.dispatch_click("", &click(), &mut cx));
    assert_eq!(p.likes(), 0);
    assert!(!cx.stale);
}

#[test]
fn handle_runs_increment() {
    let mut p = mick();
    let mut cx = ViewContext::new();
    p.handle(PersonListener::HandleIncrement, &click(), &mut cx);
    assert_eq!(p.likes(), 1);
    assert!(cx.stale);
}

#[test]
fn decimal_numerals() {
    assert_eq!(format_likes(0), "Likes: 0");
    assert_eq!(format_likes(7), "Likes: 7");
    assert_eq!(format_likes(10), "Likes: 10");
    assert_eq!(format_likes(909), "Likes: 909");
    assert_eq!(format_likes(65535), "Likes: 65535");
    assert_eq!(format_likes(123), "Likes: 123");
}

#[test]
fn name_with_empty_parts() {
    assert_eq!(format_name("", ""), " ");
    assert_eq!(format_name("Cher", ""), "Cher ");
    assert_eq!(format_name("Émile", "Zola"), "Émile Zola");
}
