//! Box and layout styling of a visual-tree element, as plain values that
//! the host runtime's styling engine resolves.
use vstd::prelude::*;

verus! {

/// Background of the views.
pub const BACKGROUND_COLOR: u32 = 0x1E2027;

/// Text color of the views.
pub const FOREGROUND_COLOR: u32 = 0xE6E6E6;

/// Border color of a button.
pub const BORDER_COLOR: u32 = 0x2D3039;

/// Background of a button.
pub const BUTTON_BACKGROUND_COLOR: u32 = 0x3B82F6;

/// Text color of a button.
pub const BUTTON_FOREGROUND_COLOR: u32 = 0xFFFFFF;

/// Background of a button under the pointer.
pub const BUTTON_HOVER_COLOR: u32 = 0x60A5FA;

/// The main axis of a flex container.
#[derive(Clone, Copy, Debug, PartialEq, Eq, Structural)]
pub enum Direction {
    Row,
    Column,
}

/// The font size step of an element's text.
#[derive(Clone, Copy, Debug, PartialEq, Eq, Structural)]
pub enum TextSize {
    Base,
    Xl,
    Xxl,
}

/// The corner radius step of an element's box.
#[derive(Clone, Copy, Debug, PartialEq, Eq, Structural)]
pub enum Corners {
    Square,
    RoundedLg,
}

/// The style of one element. Spacings (`gap`, `padding`) are steps of the
/// runtime's spacing scale; `border_width` is in pixels; colors are 24-bit
/// RGB values, `None` meaning inherited or unset.
#[derive(Clone, Copy, Debug, PartialEq, Eq, Structural)]
pub struct Style {
    pub flex: bool,
    pub direction: Direction,
    pub justify_center: bool,
    pub items_center: bool,
    pub size_full: bool,
    pub gap: u8,
    pub padding: u8,
    pub border_width: u8,
    pub corners: Corners,
    pub text_size: TextSize,
    pub text_color: Option<u32>,
    pub background: Option<u32>,
    pub border_color: Option<u32>,
}

/// The style of a button: a bordered, padded, rounded flex box in the
/// button colors.
pub open spec fn button_style() -> Style {
    Style {
        flex: true,
        direction: Direction::Row,
        justify_center: false,
        items_center: false,
        size_full: false,
        gap: 0,
        padding: 2,
        border_width: 2,
        corners: Corners::RoundedLg,
        text_size: TextSize::Xl,
        text_color: Some(BUTTON_FOREGROUND_COLOR),
        background: Some(BUTTON_BACKGROUND_COLOR),
        border_color: Some(BORDER_COLOR),
    }
}

/// The style of the name line: large centered text on the view background.
pub open spec fn name_style() -> Style {
    Style {
        flex: true,
        direction: Direction::Row,
        justify_center: true,
        items_center: true,
        size_full: false,
        gap: 0,
        padding: 0,
        border_width: 0,
        corners: Corners::Square,
        text_size: TextSize::Xxl,
        text_color: Some(FOREGROUND_COLOR),
        background: Some(BACKGROUND_COLOR),
        border_color: None,
    }
}

/// The style of the likes line: centered text.
pub open spec fn likes_style() -> Style {
    Style {
        flex: true,
        direction: Direction::Row,
        justify_center: true,
        items_center: true,
        size_full: false,
        gap: 0,
        padding: 0,
        border_width: 0,
        corners: Corners::Square,
        text_size: TextSize::Xl,
        text_color: Some(FOREGROUND_COLOR),
        background: None,
        border_color: None,
    }
}

/// The style of a view's root: a full-size centered column with a gap.
pub open spec fn column_style() -> Style {
    Style {
        flex: true,
        direction: Direction::Column,
        justify_center: true,
        items_center: true,
        size_full: true,
        gap: 2,
        padding: 0,
        border_width: 0,
        corners: Corners::Square,
        text_size: TextSize::Base,
        text_color: None,
        background: Some(BACKGROUND_COLOR),
        border_color: None,
    }
}

impl Style {
    /// A block with no styling of its own: not a flex box, no spacing, no
    /// border, no colors.
    pub fn plain() -> (r: Style)
        ensures
            !r.flex,
            r.direction == Direction::Row,
            !r.justify_center,
            !r.items_center,
            !r.size_full,
            r.gap == 0,
            r.padding == 0,
            r.border_width == 0,
            r.corners == Corners::Square,
            r.text_size == TextSize::Base,
            r.text_color is None,
            r.background is None,
            r.border_color is None,
    {
        Style {
            flex: false,
            direction: Direction::Row,
            justify_center: false,
            items_center: false,
            size_full: false,
            gap: 0,
            padding: 0,
            border_width: 0,
            corners: Corners::Square,
            text_size: TextSize::Base,
            text_color: None,
            background: None,
            border_color: None,
        }
    }

    /// The style of a button.
    pub fn button() -> (r: Style)
        ensures
            r == button_style(),
    {
        Style {
            flex: true,
            padding: 2,
            border_width: 2,
            corners: Corners::RoundedLg,
            text_size: TextSize::Xl,
            text_color: Some(BUTTON_FOREGROUND_COLOR),
            background: Some(BUTTON_BACKGROUND_COLOR),
            border_color: Some(BORDER_COLOR),
            ..Style::plain()
        }
    }

    /// The style of the name line.
    pub fn name_line() -> (r: Style)
        ensures
            r == name_style(),
    {
        Style {
            flex: true,
            justify_center: true,
            items_center: true,
            text_size: TextSize::Xxl,
            text_color: Some(FOREGROUND_COLOR),
            background: Some(BACKGROUND_COLOR),
            ..Style::plain()
        }
    }

    /// The style of the likes line.
    pub fn likes_line() -> (r: Style)
        ensures
            r == likes_style(),
    {
        Style {
            flex: true,
            justify_center: true,
            items_center: true,
            text_size: TextSize::Xl,
            text_color: Some(FOREGROUND_COLOR),
            ..Style::plain()
        }
    }

    /// The style of a view's root column.
    pub fn column() -> (r: Style)
        ensures
            r == column_style(),
    {
        Style {
            flex: true,
            direction: Direction::Column,
            justify_center: true,
            items_center: true,
            size_full: true,
            gap: 2,
            background: Some(BACKGROUND_COLOR),
            ..Style::plain()
        }
    }
}

} // verus!
