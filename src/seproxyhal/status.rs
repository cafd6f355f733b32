use vstd::prelude::*;
use vstd::string::StringSliceAdditionalSpecFns;
use crate::seproxyhal::packet::{
    Packet, frame, joined, le16, le32, palette, frame_size, frame_to_bytes, le_u16_bytes,
    le_u32_bytes, palette_bytes, lemma_joined_one, lemma_joined_two, lemma_joined_four,
    ENVELOPE_SIZE,
};

verus! {

/// Tag of a plain status, which answers an event and shows nothing.
pub const GENERAL_STATUS_TAG: u8 = 0x60;

/// Tag of a status that puts one element on the screen.
pub const SCREEN_DISPLAY_STATUS_TAG: u8 = 0x65;

/// Size of the geometry header in front of every screen element.
pub const SCREEN_DISPLAY_HEADER_SIZE: usize = 28;

/// A status that only answers the event.
pub struct GeneralStatus {}

impl GeneralStatus {
    pub open spec fn payload(&self) -> Seq<u8> {
        seq![0u8, 0u8]
    }
}

impl Packet for GeneralStatus {
    open spec fn wire(&self) -> Seq<u8> {
        frame(GENERAL_STATUS_TAG, self.payload())
    }

    fn bytes_size(&self) -> (r: u16) {
        let body: [u8; 2] = [0, 0];
        let parts: [&[u8]; 1] = [body.as_slice()];
        proof {
            lemma_joined_one(parts@[0]);
            assert(parts@ =~= seq![parts@[0]]);
            assert(body@ =~= self.payload());
        }
        frame_size(parts.as_slice())
    }

    fn to_bytes(&self, buf: &mut [u8], offset: usize) -> (n: usize) {
        let body: [u8; 2] = [0, 0];
        let parts: [&[u8]; 1] = [body.as_slice()];
        proof {
            lemma_joined_one(parts@[0]);
            assert(parts@ =~= seq![parts@[0]]);
            assert(body@ =~= self.payload());
        }
        frame_to_bytes(buf, offset, GENERAL_STATUS_TAG, parts.as_slice())
    }
}

/// The kind of a screen element, as the host knows it.
#[derive(Clone, Copy, Debug, PartialEq, Eq, Structural)]
pub enum ScreenDisplayStatusTypeId {
    Button,
    Label,
    Rectangle,
    Line,
    Icon,
    Circle,
    LabelLine,
}

impl ScreenDisplayStatusTypeId {
    pub open spec fn code(self) -> u8 {
        match self {
            ScreenDisplayStatusTypeId::Button => 1,
            ScreenDisplayStatusTypeId::Label => 2,
            ScreenDisplayStatusTypeId::Rectangle => 3,
            ScreenDisplayStatusTypeId::Line => 4,
            ScreenDisplayStatusTypeId::Icon => 5,
            ScreenDisplayStatusTypeId::Circle => 6,
            ScreenDisplayStatusTypeId::LabelLine => 7,
        }
    }

    /// The number under which the host knows this kind.
    pub fn to_u8(&self) -> (r: u8)
        ensures
            r == self.code(),
    {
        match self {
            ScreenDisplayStatusTypeId::Button => 1,
            ScreenDisplayStatusTypeId::Label => 2,
            ScreenDisplayStatusTypeId::Rectangle => 3,
            ScreenDisplayStatusTypeId::Line => 4,
            ScreenDisplayStatusTypeId::Icon => 5,
            ScreenDisplayStatusTypeId::Circle => 6,
            ScreenDisplayStatusTypeId::LabelLine => 7,
        }
    }
}

/// The 28-byte geometry header of a screen element.
pub open spec fn header_bytes(
    type_id: u8,
    user_id: u8,
    x: i16,
    y: i16,
    width: u16,
    height: u16,
    stroke: u8,
    radius: u8,
    fill: u8,
    foreground_color: u32,
    background_color: u32,
    font_id: u16,
    icon_id: u8,
) -> Seq<u8> {
    seq![type_id, user_id] + le16(x as u16) + le16(y as u16) + le16(width) + le16(height) + seq![
        stroke,
        radius,
        fill,
        0u8,
        0u8,
        0u8,
    ] + le32(foreground_color) + le32(background_color) + le16(font_id) + seq![icon_id, 0u8]
}

fn make_screen_display_header(
    type_id: ScreenDisplayStatusTypeId,
    user_id: u8,
    x: i16,
    y: i16,
    width: u16,
    height: u16,
    stroke: u8,
    radius: u8,
    fill: u8,
    foreground_color: u32,
    background_color: u32,
    font_id: u16,
    icon_id: u8,
) -> (r: [u8; 28])
    ensures
        r@ == header_bytes(
            type_id.code(),
            user_id,
            x,
            y,
            width,
            height,
            stroke,
            radius,
            fill,
            foreground_color,
            background_color,
            font_id,
            icon_id,
        ),
{
    let xb = le_u16_bytes(x as u16);
    let yb = le_u16_bytes(y as u16);
    let wb = le_u16_bytes(width);
    let hb = le_u16_bytes(height);
    let fg = le_u32_bytes(foreground_color);
    let bg = le_u32_bytes(background_color);
    let fb = le_u16_bytes(font_id);
    let hdr: [u8; 28] = [
        type_id.to_u8(),
        user_id,
        xb[0],
        xb[1],
        yb[0],
        yb[1],
        wb[0],
        wb[1],
        hb[0],
        hb[1],
        stroke,
        radius,
        fill,
        0,
        0,
        0,
        fg[0],
        fg[1],
        fg[2],
        fg[3],
        bg[0],
        bg[1],
        bg[2],
        bg[3],
        fb[0],
        fb[1],
        icon_id,
        0,
    ];
    assert(hdr@ =~= header_bytes(
        type_id.code(),
        user_id,
        x,
        y,
        width,
        height,
        stroke,
        radius,
        fill,
        foreground_color,
        background_color,
        font_id,
        icon_id,
    ));
    hdr
}

/// A filled or outlined shape.
pub struct ScreenDisplayShapeStatus {
    pub type_id: ScreenDisplayStatusTypeId,
    pub user_id: u8,
    pub x: i16,
    pub y: i16,
    pub width: u16,
    pub height: u16,
    pub stroke: u8,
    pub radius: u8,
    pub fill: u8,
    pub foreground_color: u32,
    pub background_color: u32,
}

impl ScreenDisplayShapeStatus {
    pub open spec fn payload(&self) -> Seq<u8> {
        header_bytes(
            self.type_id.code(),
            self.user_id,
            self.x,
            self.y,
            self.width,
            self.height,
            self.stroke,
            self.radius,
            self.fill,
            self.foreground_color,
            self.background_color,
            0,
            0,
        )
    }

    fn header(&self) -> (r: [u8; 28])
        ensures
            r@ == self.payload(),
    {
        make_screen_display_header(
            self.type_id,
            self.user_id,
            self.x,
            self.y,
            self.width,
            self.height,
            self.stroke,
            self.radius,
            self.fill,
            self.foreground_color,
            self.background_color,
            0,
            0,
        )
    }
}

impl Packet for ScreenDisplayShapeStatus {
    open spec fn wire(&self) -> Seq<u8> {
        frame(SCREEN_DISPLAY_STATUS_TAG, self.payload())
    }

    fn bytes_size(&self) -> (r: u16) {
        let hdr = self.header();
        let parts: [&[u8]; 1] = [hdr.as_slice()];
        proof {
            lemma_joined_one(parts@[0]);
            assert(parts@ =~= seq![parts@[0]]);
        }
        frame_size(parts.as_slice())
    }

    fn to_bytes(&self, buf: &mut [u8], offset: usize) -> (n: usize) {
        let hdr = self.header();
        let parts: [&[u8]; 1] = [hdr.as_slice()];
        proof {
            lemma_joined_one(parts@[0]);
            assert(parts@ =~= seq![parts@[0]]);
        }
        frame_to_bytes(buf, offset, SCREEN_DISPLAY_STATUS_TAG, parts.as_slice())
    }
}

/// A line of text, which the host may scroll.
pub struct ScreenDisplayTextStatus<'a> {
    pub type_id: ScreenDisplayStatusTypeId,
    pub user_id: u8,
    pub x: i16,
    pub y: i16,
    pub width: u16,
    pub height: u16,
    pub scroll_delay: u8,
    pub scroll_speed: u8,
    pub fill: u8,
    pub foreground_color: u32,
    pub background_color: u32,
    pub font_id: u16,
    pub text: &'a str,
}

impl<'a> ScreenDisplayTextStatus<'a> {
    pub open spec fn header_spec(&self) -> Seq<u8> {
        header_bytes(
            self.type_id.code(),
            self.user_id,
            self.x,
            self.y,
            self.width,
            self.height,
            self.scroll_delay,
            0,
            self.fill,
            self.foreground_color,
            self.background_color,
            self.font_id,
            self.scroll_speed,
        )
    }

    /// The header, then the text in UTF-8.
    pub open spec fn payload(&self) -> Seq<u8> {
        self.header_spec() + self.text.spec_bytes()
    }

    fn header(&self) -> (r: [u8; 28])
        ensures
            r@ == self.header_spec(),
    {
        make_screen_display_header(
            self.type_id,
            self.user_id,
            self.x,
            self.y,
            self.width,
            self.height,
            self.scroll_delay,
            0,
            self.fill,
            self.foreground_color,
            self.background_color,
            self.font_id,
            self.scroll_speed,
        )
    }
}

impl<'a> Packet for ScreenDisplayTextStatus<'a> {
    open spec fn wire(&self) -> Seq<u8> {
        frame(SCREEN_DISPLAY_STATUS_TAG, self.payload())
    }

    fn bytes_size(&self) -> (r: u16) {
        let hdr = self.header();
        let parts: [&[u8]; 2] = [hdr.as_slice(), self.text.as_bytes()];
        proof {
            lemma_joined_two(parts@[0], parts@[1]);
            assert(parts@ =~= seq![parts@[0], parts@[1]]);
        }
        frame_size(parts.as_slice())
    }

    fn to_bytes(&self, buf: &mut [u8], offset: usize) -> (n: usize) {
        let hdr = self.header();
        let parts: [&[u8]; 2] = [hdr.as_slice(), self.text.as_bytes()];
        proof {
            lemma_joined_two(parts@[0], parts@[1]);
            assert(parts@ =~= seq![parts@[0], parts@[1]]);
        }
        frame_to_bytes(buf, offset, SCREEN_DISPLAY_STATUS_TAG, parts.as_slice())
    }
}

/// One of the host's built-in glyphs.
pub struct ScreenDisplaySystemIconStatus {
    pub user_id: u8,
    pub x: i16,
    pub y: i16,
    pub width: u16,
    pub height: u16,
    pub icon_id: u8,
}

impl ScreenDisplaySystemIconStatus {
    pub open spec fn payload(&self) -> Seq<u8> {
        header_bytes(
            ScreenDisplayStatusTypeId::Icon.code(),
            self.user_id,
            self.x,
            self.y,
            self.width,
            self.height,
            0,
            0,
            0,
            0,
            0,
            0,
            self.icon_id,
        )
    }

    fn header(&self) -> (r: [u8; 28])
        ensures
            r@ == self.payload(),
    {
        make_screen_display_header(
            ScreenDisplayStatusTypeId::Icon,
            self.user_id,
            self.x,
            self.y,
            self.width,
            self.height,
            0,
            0,
            0,
            0,
            0,
            0,
            self.icon_id,
        )
    }
}

impl Packet for ScreenDisplaySystemIconStatus {
    open spec fn wire(&self) -> Seq<u8> {
        frame(SCREEN_DISPLAY_STATUS_TAG, self.payload())
    }

    fn bytes_size(&self) -> (r: u16) {
        let hdr = self.header();
        let parts: [&[u8]; 1] = [hdr.as_slice()];
        proof {
            lemma_joined_one(parts@[0]);
            assert(parts@ =~= seq![parts@[0]]);
        }
        frame_size(parts.as_slice())
    }

    fn to_bytes(&self, buf: &mut [u8], offset: usize) -> (n: usize) {
        let hdr = self.header();
        let parts: [&[u8]; 1] = [hdr.as_slice()];
        proof {
            lemma_joined_one(parts@[0]);
            assert(parts@ =~= seq![parts@[0]]);
        }
        frame_to_bytes(buf, offset, SCREEN_DISPLAY_STATUS_TAG, parts.as_slice())
    }
}

/// A bitmap that the application brings, with its palette.
pub struct ScreenDisplayCustomIconStatus<'a> {
    pub user_id: u8,
    pub x: i16,
    pub y: i16,
    pub width: u16,
    pub height: u16,
    pub bits_per_pixel: u8,
    pub colors: &'a [u32],
    pub bitmap: &'a [u8],
}

impl<'a> ScreenDisplayCustomIconStatus<'a> {
    pub open spec fn header_spec(&self) -> Seq<u8> {
        header_bytes(
            ScreenDisplayStatusTypeId::Icon.code(),
            self.user_id,
            self.x,
            self.y,
            self.width,
            self.height,
            0,
            0,
            0,
            0,
            0,
            0,
            0,
        )
    }

    /// The header, the colour depth, the palette and the bitmap.
    pub open spec fn payload(&self) -> Seq<u8> {
        self.header_spec() + seq![self.bits_per_pixel] + palette(self.colors@) + self.bitmap@
    }

    fn header(&self) -> (r: [u8; 28])
        ensures
            r@ == self.header_spec(),
    {
        make_screen_display_header(
            ScreenDisplayStatusTypeId::Icon,
            self.user_id,
            self.x,
            self.y,
            self.width,
            self.height,
            0,
            0,
            0,
            0,
            0,
            0,
            0,
        )
    }
}

impl<'a> Packet for ScreenDisplayCustomIconStatus<'a> {
    open spec fn wire(&self) -> Seq<u8> {
        frame(SCREEN_DISPLAY_STATUS_TAG, self.payload())
    }

    fn bytes_size(&self) -> (r: u16) {
        let hdr = self.header();
        let depth = [self.bits_per_pixel];
        let colors = palette_bytes(self.colors);
        let parts: [&[u8]; 4] = [hdr.as_slice(), depth.as_slice(), colors.as_slice(), self.bitmap];
        proof {
            lemma_joined_four(parts@[0], parts@[1], parts@[2], parts@[3]);
            assert(parts@ =~= seq![parts@[0], parts@[1], parts@[2], parts@[3]]);
            assert(depth@ =~= seq![self.bits_per_pixel]);
        }
        frame_size(parts.as_slice())
    }

    fn to_bytes(&self, buf: &mut [u8], offset: usize) -> (n: usize) {
        let hdr = self.header();
        let depth = [self.bits_per_pixel];
        let colors = palette_bytes(self.colors);
        let parts: [&[u8]; 4] = [hdr.as_slice(), depth.as_slice(), colors.as_slice(), self.bitmap];
        proof {
            lemma_joined_four(parts@[0], parts@[1], parts@[2], parts@[3]);
            assert(parts@ =~= seq![parts@[0], parts@[1], parts@[2], parts@[3]]);
            assert(depth@ =~= seq![self.bits_per_pixel]);
        }
        frame_to_bytes(buf, offset, SCREEN_DISPLAY_STATUS_TAG, parts.as_slice())
    }
}

/// A status that puts one element on the screen.
pub enum ScreenDisplayStatus<'a> {
    Shape(ScreenDisplayShapeStatus),
    Text(ScreenDisplayTextStatus<'a>),
    SystemIcon(ScreenDisplaySystemIconStatus),
    CustomIcon(ScreenDisplayCustomIconStatus<'a>),
}

impl<'a> Packet for ScreenDisplayStatus<'a> {
    open spec fn wire(&self) -> Seq<u8> {
        match self {
            ScreenDisplayStatus::Shape(s) => s.wire(),
            ScreenDisplayStatus::Text(s) => s.wire(),
            ScreenDisplayStatus::SystemIcon(s) => s.wire(),
            ScreenDisplayStatus::CustomIcon(s) => s.wire(),
        }
    }

    fn bytes_size(&self) -> (r: u16) {
        match self {
            ScreenDisplayStatus::Shape(s) => s.bytes_size(),
            ScreenDisplayStatus::Text(s) => s.bytes_size(),
            ScreenDisplayStatus::SystemIcon(s) => s.bytes_size(),
            ScreenDisplayStatus::CustomIcon(s) => s.bytes_size(),
        }
    }

    fn to_bytes(&self, buf: &mut [u8], offset: usize) -> (n: usize) {
        match self {
            ScreenDisplayStatus::Shape(s) => s.to_bytes(buf, offset),
            ScreenDisplayStatus::Text(s) => s.to_bytes(buf, offset),
            ScreenDisplayStatus::SystemIcon(s) => s.to_bytes(buf, offset),
            ScreenDisplayStatus::CustomIcon(s) => s.to_bytes(buf, offset),
        }
    }
}

/// The one reply to an event.
pub enum Status<'a> {
    General(GeneralStatus),
    ScreenDisplay(ScreenDisplayStatus<'a>),
}

impl<'a> Packet for Status<'a> {
    open spec fn wire(&self) -> Seq<u8> {
        match self {
            Status::General(s) => s.wire(),
            Status::ScreenDisplay(s) => s.wire(),
        }
    }

    fn bytes_size(&self) -> (r: u16) {
        match self {
            Status::General(s) => s.bytes_size(),
            Status::ScreenDisplay(s) => s.bytes_size(),
        }
    }

    fn to_bytes(&self, buf: &mut [u8], offset: usize) -> (n: usize) {
        match self {
            Status::General(s) => s.to_bytes(buf, offset),
            Status::ScreenDisplay(s) => s.to_bytes(buf, offset),
        }
    }
}

} // verus!
