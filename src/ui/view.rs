use vstd::prelude::*;
use crate::time::Duration;
use crate::seproxyhal::status::{
    ScreenDisplayStatus, ScreenDisplayStatusTypeId, ScreenDisplayShapeStatus,
    ScreenDisplayTextStatus, ScreenDisplaySystemIconStatus, ScreenDisplayCustomIconStatus,
};

verus! {

/// Width in pixels that the text estimator gives every character.
pub const AVERAGE_CHAR_WIDTH: usize = 7;

/// `x`, or the largest `usize` where `x` does not fit.
pub open spec fn sat(x: int) -> int {
    if x > usize::MAX {
        usize::MAX as int
    } else {
        x
    }
}

/// `a * b`, or the largest `usize` where the product does not fit.
pub fn saturating_mul(a: usize, b: usize) -> (r: usize)
    ensures
        r == sat(a * b),
{
    match a.checked_mul(b) {
        Some(p) => p,
        None => usize::MAX,
    }
}

#[derive(Clone, Copy, Debug, PartialEq, Eq, Structural)]
pub enum FillMode {
    NoFill,
    Fill,
    Outline,
}

impl FillMode {
    pub open spec fn wire_value(self) -> u8 {
        match self {
            FillMode::NoFill => 0,
            FillMode::Fill => 1,
            FillMode::Outline => 2,
        }
    }

    pub fn to_wire_format(&self) -> (r: u8)
        ensures
            r == self.wire_value(),
    {
        match self {
            FillMode::NoFill => 0,
            FillMode::Fill => 1,
            FillMode::Outline => 2,
        }
    }
}

/// A colour as 0xRRGGBB.
#[derive(Clone, Copy, Debug, PartialEq, Eq, Structural)]
pub struct Color(pub u32);

impl Color {
    pub fn to_wire_format(&self) -> (r: u32)
        ensures
            r == self.0,
    {
        self.0
    }

    pub fn white() -> (r: Color)
        ensures
            r.0 == 0xFFFFFF,
    {
        Color(0xFFFFFF)
    }

    pub fn black() -> (r: Color)
        ensures
            r.0 == 0,
    {
        Color(0x000000)
    }
}

#[derive(Clone, Copy, Debug, PartialEq, Eq, Structural)]
pub struct Position {
    pub x: i16,
    pub y: i16,
}

impl Position {
    pub fn new(x: i16, y: i16) -> (r: Position)
        ensures
            r == (Position { x, y }),
    {
        Position { x, y }
    }
}

impl Default for Position {
    fn default() -> (r: Position)
        ensures
            r == (Position { x: 0, y: 0 }),
    {
        Position { x: 0, y: 0 }
    }
}

#[derive(Clone, Copy, Debug, PartialEq, Eq, Structural)]
pub struct Size {
    pub width: u16,
    pub height: u16,
}

impl Size {
    pub fn new(width: u16, height: u16) -> (r: Size)
        ensures
            r == (Size { width, height }),
    {
        Size { width, height }
    }
}

impl Default for Size {
    fn default() -> (r: Size)
        ensures
            r == (Size { width: 0, height: 0 }),
    {
        Size { width: 0, height: 0 }
    }
}

#[derive(Clone, Copy, Debug, PartialEq, Eq, Structural)]
pub struct Frame {
    pub x: i16,
    pub y: i16,
    pub width: u16,
    pub height: u16,
}

impl Frame {
    pub fn new(position: Position, size: Size) -> (r: Frame)
        ensures
            r == (Frame { x: position.x, y: position.y, width: size.width, height: size.height }),
    {
        Frame { x: position.x, y: position.y, width: size.width, height: size.height }
    }
}

impl Default for Frame {
    fn default() -> (r: Frame)
        ensures
            r == (Frame { x: 0, y: 0, width: 0, height: 0 }),
    {
        Frame { x: 0, y: 0, width: 0, height: 0 }
    }
}

#[derive(Clone, Copy, Debug)]
pub struct RectangleView {
    pub frame: Frame,
    pub stroke: u8,
    pub radius: u8,
    pub fill: FillMode,
    pub foreground: Color,
    pub background: Color,
}

impl RectangleView {
    pub open spec fn display_status(&self, user_id: u8) -> ScreenDisplayShapeStatus {
        ScreenDisplayShapeStatus {
            type_id: ScreenDisplayStatusTypeId::Rectangle,
            user_id,
            x: self.frame.x,
            y: self.frame.y,
            width: self.frame.width,
            height: self.frame.height,
            stroke: self.stroke,
            radius: self.radius,
            fill: self.fill.wire_value(),
            foreground_color: self.foreground.0,
            background_color: self.background.0,
        }
    }

    pub fn to_display_status<'a>(&self, user_id: u8) -> (r: ScreenDisplayStatus<'a>)
        ensures
            r == ScreenDisplayStatus::Shape(self.display_status(user_id)),
    {
        ScreenDisplayStatus::Shape(
            ScreenDisplayShapeStatus {
                type_id: ScreenDisplayStatusTypeId::Rectangle,
                user_id,
                x: self.frame.x,
                y: self.frame.y,
                width: self.frame.width,
                height: self.frame.height,
                stroke: self.stroke,
                radius: self.radius,
                fill: self.fill.to_wire_format(),
                foreground_color: self.foreground.to_wire_format(),
                background_color: self.background.to_wire_format(),
            },
        )
    }
}

impl Default for RectangleView {
    fn default() -> (r: RectangleView)
        ensures
            r.frame == (Frame { x: 0, y: 0, width: 0, height: 0 }),
            r.stroke == 0,
            r.radius == 0,
            r.fill == FillMode::NoFill,
            r.foreground.0 == 0,
            r.background.0 == 0xFFFFFF,
    {
        RectangleView {
            frame: Frame::default(),
            stroke: 0,
            radius: 0,
            fill: FillMode::NoFill,
            foreground: Color::black(),
            background: Color::white(),
        }
    }
}

/// The host's built-in glyphs.
#[derive(Clone, Copy, Debug, PartialEq, Eq, Structural)]
pub enum SystemIcon {
    Check,
    Cross,
    Left,
    Right,
    Up,
    Down,
    DashboardBadge,
}

impl SystemIcon {
    pub open spec fn size(self) -> Size {
        match self {
            SystemIcon::Check => Size { width: 8, height: 6 },
            SystemIcon::Cross => Size { width: 7, height: 7 },
            SystemIcon::Left => Size { width: 4, height: 7 },
            SystemIcon::Right => Size { width: 4, height: 7 },
            SystemIcon::Up => Size { width: 7, height: 4 },
            SystemIcon::Down => Size { width: 7, height: 4 },
            SystemIcon::DashboardBadge => Size { width: 14, height: 14 },
        }
    }

    pub open spec fn wire_value(self) -> u8 {
        match self {
            SystemIcon::Check => 6,
            SystemIcon::Cross => 7,
            SystemIcon::Left => 9,
            SystemIcon::Right => 10,
            SystemIcon::Up => 11,
            SystemIcon::Down => 12,
            SystemIcon::DashboardBadge => 15,
        }
    }

    /// The glyph's size in pixels.
    pub fn dimensions(&self) -> (r: Size)
        ensures
            r == self.size(),
    {
        match self {
            SystemIcon::Check => Size::new(8, 6),
            SystemIcon::Cross => Size::new(7, 7),
            SystemIcon::Left => Size::new(4, 7),
            SystemIcon::Right => Size::new(4, 7),
            SystemIcon::Up => Size::new(7, 4),
            SystemIcon::Down => Size::new(7, 4),
            SystemIcon::DashboardBadge => Size::new(14, 14),
        }
    }

    pub fn to_wire_format(&self) -> (r: u8)
        ensures
            r == self.wire_value(),
    {
        match self {
            SystemIcon::Check => 6,
            SystemIcon::Cross => 7,
            SystemIcon::Left => 9,
            SystemIcon::Right => 10,
            SystemIcon::Up => 11,
            SystemIcon::Down => 12,
            SystemIcon::DashboardBadge => 15,
        }
    }
}

/// A bitmap that the application brings: its size, colour depth, palette
/// and packed pixels.
#[derive(Clone, Copy, Debug)]
pub struct CustomIcon<'a> {
    pub width: u16,
    pub height: u16,
    pub bits_per_pixel: u8,
    pub colors: &'a [u32],
    pub bitmap: &'a [u8],
}

impl<'a> CustomIcon<'a> {
    pub fn dimensions(&self) -> (r: Size)
        ensures
            r == (Size { width: self.width, height: self.height }),
    {
        Size::new(self.width, self.height)
    }
}

#[derive(Clone, Copy, Debug)]
pub enum Icon<'a> {
    System(SystemIcon),
    Custom(CustomIcon<'a>),
}

impl<'a> Icon<'a> {
    pub open spec fn size(self) -> Size {
        match self {
            Icon::System(ico) => ico.size(),
            Icon::Custom(ico) => Size { width: ico.width, height: ico.height },
        }
    }

    pub fn dimensions(&self) -> (r: Size)
        ensures
            r == self.size(),
    {
        match self {
            Icon::System(ico) => ico.dimensions(),
            Icon::Custom(ico) => ico.dimensions(),
        }
    }
}

#[derive(Clone, Copy, Debug)]
pub struct IconView<'a> {
    pub position: Position,
    pub icon: Icon<'a>,
}

impl<'a> IconView<'a> {
    pub open spec fn display_status(&self, user_id: u8) -> ScreenDisplayStatus<'a> {
        let size = self.icon.size();
        match self.icon {
            Icon::Custom(icon) => ScreenDisplayStatus::CustomIcon(
                ScreenDisplayCustomIconStatus {
                    user_id,
                    x: self.position.x,
                    y: self.position.y,
                    width: size.width,
                    height: size.height,
                    bits_per_pixel: icon.bits_per_pixel,
                    colors: icon.colors,
                    bitmap: icon.bitmap,
                },
            ),
            Icon::System(icon) => ScreenDisplayStatus::SystemIcon(
                ScreenDisplaySystemIconStatus {
                    user_id,
                    x: self.position.x,
                    y: self.position.y,
                    width: size.width,
                    height: size.height,
                    icon_id: icon.wire_value(),
                },
            ),
        }
    }

    pub fn to_display_status(&self, user_id: u8) -> (r: ScreenDisplayStatus<'a>)
        ensures
            r == self.display_status(user_id),
    {
        let size = self.icon.dimensions();
        match self.icon {
            Icon::Custom(icon) => ScreenDisplayStatus::CustomIcon(
                ScreenDisplayCustomIconStatus {
                    user_id,
                    x: self.position.x,
                    y: self.position.y,
                    width: size.width,
                    height: size.height,
                    bits_per_pixel: icon.bits_per_pixel,
                    colors: icon.colors,
                    bitmap: icon.bitmap,
                },
            ),
            Icon::System(icon) => ScreenDisplayStatus::SystemIcon(
                ScreenDisplaySystemIconStatus {
                    user_id,
                    x: self.position.x,
                    y: self.position.y,
                    width: size.width,
                    height: size.height,
                    icon_id: icon.to_wire_format(),
                },
            ),
        }
    }
}

impl<'a> Default for IconView<'a> {
    fn default() -> (r: IconView<'a>)
        ensures
            r.position == (Position { x: 0, y: 0 }),
            r.icon.size() == (Size { width: 0, height: 0 }),
    {
        IconView {
            position: Position::default(),
            icon: Icon::Custom(
                CustomIcon { width: 0, height: 0, bits_per_pixel: 0, colors: &[], bitmap: &[] },
            ),
        }
    }
}

/// An action that fires once a scrolling text has been read.
pub struct ScrollFinishedEvent<A> {
    pub minimum_time: usize,
    pub additional_time: usize,
    pub action: A,
}

impl<A> ScrollFinishedEvent<A> {
    /// Waits at least 3 s, and 1 s past the end of the scroll.
    pub fn new(action: A) -> (r: ScrollFinishedEvent<A>)
        ensures
            r.minimum_time == 3000,
            r.additional_time == 1000,
            r.action == action,
    {
        ScrollFinishedEvent { minimum_time: 3000, additional_time: 1000, action }
    }
}

/// Whether and how a text wider than its frame scrolls.
#[derive(Clone, Copy, Debug)]
pub enum ScrollMode {
    Disabled,
    Once { delay: Duration, speed: u8 },
    Infinite { delay: Duration, speed: u8 },
}

/// A delay in tenths of a second, capped at the seven bits that carry it.
pub open spec fn decis(delay: nat) -> u8 {
    if delay / 100 > 0x7F {
        0x7F
    } else {
        (delay / 100) as u8
    }
}

impl ScrollMode {
    /// The scroll delay and speed as the host reads them; the delay's top bit
    /// says that the text scrolls only once.
    pub open spec fn wire_value(self) -> (u8, u8) {
        match self {
            ScrollMode::Disabled => (0, 0),
            ScrollMode::Once { delay, speed } => ((decis(delay@) + 0x80) as u8, speed),
            ScrollMode::Infinite { delay, speed } => (decis(delay@), speed),
        }
    }

    pub fn delay_as_decis(delay: Duration) -> (r: u8)
        ensures
            r == decis(delay@),
    {
        let d = delay.as_millis() / 100;
        if d > 0x7F {
            0x7F
        } else {
            d as u8
        }
    }

    pub fn to_wire_format(&self) -> (r: (u8, u8))
        ensures
            r == self.wire_value(),
    {
        match self {
            ScrollMode::Disabled => (0, 0),
            ScrollMode::Once { delay, speed } => {
                let d = ScrollMode::delay_as_decis(*delay);
                assert(d | 0x80u8 == d + 0x80) by (bit_vector)
                    requires
                        d <= 0x7F,
                ;
                (d | 0x80, *speed)
            },
            ScrollMode::Infinite { delay, speed } => (ScrollMode::delay_as_decis(*delay), *speed),
        }
    }
}

#[derive(Clone, Copy, Debug, PartialEq, Eq, Structural)]
pub enum TextHorizontalAlignment {
    Left,
    Center,
    Right,
}

impl TextHorizontalAlignment {
    pub open spec fn wire_value(self) -> u16 {
        match self {
            TextHorizontalAlignment::Left => 0x0000,
            TextHorizontalAlignment::Center => 0x8000,
            TextHorizontalAlignment::Right => 0x4000,
        }
    }

    pub fn to_wire_format(&self) -> (r: u16)
        ensures
            r == self.wire_value(),
    {
        match self {
            TextHorizontalAlignment::Left => 0x0000,
            TextHorizontalAlignment::Center => 0x8000,
            TextHorizontalAlignment::Right => 0x4000,
        }
    }
}

#[derive(Clone, Copy, Debug, PartialEq, Eq, Structural)]
pub enum TextVerticalAlignment {
    Top,
    Middle,
    Bottom,
}

impl TextVerticalAlignment {
    pub open spec fn wire_value(self) -> u16 {
        match self {
            TextVerticalAlignment::Top => 0x0000,
            TextVerticalAlignment::Middle => 0x2000,
            TextVerticalAlignment::Bottom => 0x1000,
        }
    }

    pub fn to_wire_format(&self) -> (r: u16)
        ensures
            r == self.wire_value(),
    {
        match self {
            TextVerticalAlignment::Top => 0x0000,
            TextVerticalAlignment::Middle => 0x2000,
            TextVerticalAlignment::Bottom => 0x1000,
        }
    }
}

#[derive(Clone, Copy, Debug, PartialEq, Eq, Structural)]
pub enum TextFont {
    OpenSansLight16px,
    OpenSansRegular11px,
    OpenSansExtraBold11px,
}

/// Estimated width in pixels of a text of `chars` characters.
pub open spec fn text_width(chars: nat) -> int {
    sat(chars * AVERAGE_CHAR_WIDTH)
}

impl TextFont {
    pub open spec fn wire_value(self) -> u16 {
        match self {
            TextFont::OpenSansLight16px => 9,
            TextFont::OpenSansRegular11px => 10,
            TextFont::OpenSansExtraBold11px => 8,
        }
    }

    pub fn to_wire_format(&self) -> (r: u16)
        ensures
            r == self.wire_value(),
    {
        match self {
            TextFont::OpenSansLight16px => 9,
            TextFont::OpenSansRegular11px => 10,
            TextFont::OpenSansExtraBold11px => 8,
        }
    }

    /// Estimated width of `text`: the same average width for every
    /// character, whatever the font.
    pub fn width_for_text(&self, text: &str) -> (r: usize)
        ensures
            r == text_width(text@.len()),
    {
        saturating_mul(text.unicode_len(), AVERAGE_CHAR_WIDTH)
    }
}

/// How long a text that scrolls once takes to go to its end and back, with
/// the delay at each end: `2 * overflow * 1000 / speed + 2 * delay` ms, where
/// the overflow is how much wider the text is than its frame. Text that fits
/// does not scroll; at speed zero it does not move. Sums that do not fit a
/// `usize` stop at the largest one.
pub open spec fn scroll_time(text_width: int, view_width: int, speed: int, delay: int) -> int {
    if text_width > view_width {
        let travel = if speed == 0 {
            0
        } else {
            sat(sat((text_width - view_width) * 1000) / speed)
        };
        sat(sat(2 * travel) + sat(2 * delay))
    } else {
        0
    }
}

#[derive(Clone, Copy, Debug)]
pub struct LabelLineView<'a> {
    pub frame: Frame,
    pub font: TextFont,
    pub horizontal_alignment: TextHorizontalAlignment,
    pub vertical_alignment: TextVerticalAlignment,
    pub scroll: ScrollMode,
    pub foreground: Color,
    pub background: Color,
    pub fill: FillMode,
    pub text: &'a str,
}

impl<'a> LabelLineView<'a> {
    pub open spec fn display_status(&self, user_id: u8) -> ScreenDisplayTextStatus<'a> {
        ScreenDisplayTextStatus {
            type_id: ScreenDisplayStatusTypeId::LabelLine,
            user_id,
            x: self.frame.x,
            y: self.frame.y,
            width: self.frame.width,
            height: self.frame.height,
            scroll_delay: self.scroll.wire_value().0,
            scroll_speed: self.scroll.wire_value().1,
            fill: self.fill.wire_value(),
            foreground_color: self.foreground.0,
            background_color: self.background.0,
            font_id: self.font.wire_value() | self.horizontal_alignment.wire_value()
                | self.vertical_alignment.wire_value(),
            text: self.text,
        }
    }

    /// For text that scrolls once, how long the scroll takes.
    pub open spec fn scroll_estimate(&self) -> Option<nat> {
        match self.scroll {
            ScrollMode::Once { delay, speed } => Some(
                scroll_time(
                    text_width(self.text@.len()),
                    self.frame.width as int,
                    speed as int,
                    delay@ as int,
                ) as nat,
            ),
            _ => None,
        }
    }

    pub fn to_display_status(&self, user_id: u8) -> (r: ScreenDisplayStatus<'a>)
        ensures
            r == ScreenDisplayStatus::Text(self.display_status(user_id)),
    {
        let (scroll_delay, scroll_speed) = self.scroll.to_wire_format();
        let font_id = self.font.to_wire_format() | self.horizontal_alignment.to_wire_format()
            | self.vertical_alignment.to_wire_format();
        ScreenDisplayStatus::Text(
            ScreenDisplayTextStatus {
                type_id: ScreenDisplayStatusTypeId::LabelLine,
                user_id,
                x: self.frame.x,
                y: self.frame.y,
                width: self.frame.width,
                height: self.frame.height,
                scroll_delay,
                scroll_speed,
                fill: self.fill.to_wire_format(),
                foreground_color: self.foreground.to_wire_format(),
                background_color: self.background.to_wire_format(),
                font_id,
                text: self.text,
            },
        )
    }

    pub fn estimate_scroll_time(&self) -> (r: Option<Duration>)
        ensures
            r matches Some(d) ==> self.scroll_estimate() == Some(d@),
            r is None <==> self.scroll_estimate() is None,
    {
        match self.scroll {
            ScrollMode::Once { delay, speed } => {
                let text_width = self.font.width_for_text(self.text);
                let view_width = self.frame.width as usize;
                let time = if text_width > view_width {
                    let travel = if speed == 0 {
                        0
                    } else {
                        saturating_mul(text_width - view_width, 1000) / (speed as usize)
                    };
                    saturating_mul(2, travel).saturating_add(saturating_mul(2, delay.as_millis()))
                } else {
                    0
                };
                Some(Duration::from_millis(time))
            },
            _ => None,
        }
    }
}

impl<'a> Default for LabelLineView<'a> {
    fn default() -> (r: LabelLineView<'a>)
        ensures
            r.frame == (Frame { x: 0, y: 0, width: 0, height: 0 }),
            r.font == TextFont::OpenSansRegular11px,
            r.horizontal_alignment == TextHorizontalAlignment::Left,
            r.vertical_alignment == TextVerticalAlignment::Top,
            r.scroll is Disabled,
            r.foreground.0 == 0xFFFFFF,
            r.background.0 == 0,
            r.fill == FillMode::NoFill,
            r.text@.len() == 0,
    {
        proof {
            reveal_strlit("");
        }
        LabelLineView {
            frame: Frame::default(),
            font: TextFont::OpenSansRegular11px,
            horizontal_alignment: TextHorizontalAlignment::Left,
            vertical_alignment: TextVerticalAlignment::Top,
            scroll: ScrollMode::Disabled,
            foreground: Color::white(),
            background: Color::black(),
            fill: FillMode::NoFill,
            text: "",
        }
    }
}

/// One element of a screen's display list.
#[derive(Clone, Copy, Debug)]
pub enum ViewDescriptor<'a> {
    Rectangle(RectangleView),
    Icon(IconView<'a>),
    LabelLine(LabelLineView<'a>),
}

impl<'a> ViewDescriptor<'a> {
    pub open spec fn display_status(&self, user_id: u8) -> ScreenDisplayStatus<'a> {
        match self {
            ViewDescriptor::Rectangle(v) => ScreenDisplayStatus::Shape(v.display_status(user_id)),
            ViewDescriptor::Icon(v) => v.display_status(user_id),
            ViewDescriptor::LabelLine(v) => ScreenDisplayStatus::Text(v.display_status(user_id)),
        }
    }

    /// For text that scrolls once, how long the scroll takes.
    pub open spec fn scroll_estimate(&self) -> Option<nat> {
        match self {
            ViewDescriptor::LabelLine(v) => v.scroll_estimate(),
            _ => None,
        }
    }

    pub fn to_display_status(&self, user_id: u8) -> (r: ScreenDisplayStatus<'a>)
        ensures
            r == self.display_status(user_id),
    {
        match self {
            ViewDescriptor::Rectangle(v) => v.to_display_status(user_id),
            ViewDescriptor::Icon(v) => v.to_display_status(user_id),
            ViewDescriptor::LabelLine(v) => v.to_display_status(user_id),
        }
    }
}

} // verus!
