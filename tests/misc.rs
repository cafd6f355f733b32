use bolos::error::SystemError;
use bolos::pic::{translate, Pic};
use bolos::seproxyhal::packet::Packet;
use bolos::seproxyhal::status::Status;
use bolos::state::{BasicAction, Store};
use bolos::syscall::supervisor_result;
use bolos::time::Duration;
use bolos::ui::bolos::{ux_response, Response};
use bolos::ui::menu::{self, menu_layout, ItemSpec};
use bolos::ui::{
    ButtonAction, Color, Controller, Frame, Icon, IconView, LabelLineView, ScrollMode, Size,
    SystemIcon, TextFont, TextHorizontalAlignment, ViewDescriptor, CustomIcon,
};

#[test]
fn durations_convert_between_units() {
    assert_eq!(Duration::from_secs(3).as_millis(), 3000);
    assert_eq!(Duration::from_mins(2).as_secs(), 120);
    assert_eq!(Duration::from_millis(125000).as_mins(), 2);
    assert_eq!(Duration::zero().as_millis(), 0);
    assert_eq!(Duration::from_millis(5).checked_add(Duration::from_millis(7)).unwrap().as_millis(), 12);
    assert!(Duration::from_millis(usize::MAX).checked_add(Duration::from_millis(1)).is_none());
    assert!(Duration::from_millis(5).checked_sub(Duration::from_millis(7)).is_none());
    assert_eq!(Duration::from_millis(7).checked_sub(Duration::from_millis(5)).unwrap().as_millis(), 2);
    assert_eq!(Duration::from_millis(7).checked_mul(3).unwrap().as_millis(), 21);
    assert!(Duration::from_millis(usize::MAX).checked_mul(2).is_none());
    assert_eq!(Duration::from_millis(7).checked_div(2).unwrap().as_millis(), 3);
    assert!(Duration::from_millis(7).checked_div(0).is_none());
}

#[test]
fn system_error_codes() {
    assert_eq!(SystemError::from_u16(1), Some(SystemError::Exception));
    assert_eq!(SystemError::from_u16(4), Some(SystemError::Security));
    assert_eq!(SystemError::from_u16(18), Some(SystemError::System));
    assert_eq!(SystemError::from_u16(0), None);
    assert_eq!(SystemError::from_u16(19), None);
    for code in 1..=18u16 {
        assert_eq!(SystemError::from_u16(code).unwrap().to_u16(), code);
    }
}

#[test]
fn supervisor_outcomes() {
    assert_eq!(supervisor_result(0x900001c6, 0, 0x900001c6, 42), Ok(42));
    assert_eq!(supervisor_result(0x900001c6, 0, 0x1234, 42), Err(SystemError::Security));
    assert_eq!(supervisor_result(0x900001c6, 13, 0x900001c6, 42), Err(SystemError::IoOverflow));
    assert_eq!(supervisor_result(0x900001c6, 99, 0, 0), Err(SystemError::Exception));
}

#[test]
fn ux_responses() {
    assert_eq!(Response::from_u8(0xB0105055), Some(Response::Redraw));
    assert_eq!(Response::from_u8(0), Some(Response::Continue));
    assert_eq!(Response::from_u8(7), None);
    assert_eq!(ux_response(Ok(0xB0105044)), Response::Ignore);
    assert_eq!(ux_response(Ok(0xB0105011)), Response::Success);
    assert_eq!(ux_response(Ok(5)), Response::Error);
    assert_eq!(ux_response(Err(SystemError::Timeout)), Response::Error);
}

#[test]
fn translation_moves_only_the_relocated_region() {
    assert_eq!(translate(0x2000, 0x1000, 0x3000, 0x100), 0x1F00);
    assert_eq!(translate(0x3000, 0x1000, 0x3000, 0x100), 0x3000);
    assert_eq!(translate(0x0FFF, 0x1000, 0x3000, 0x100), 0x0FFF);
    assert_eq!(translate(0x10, 0, 0x3000, 0x20), 0xFFFF_FFF0);
    let s = "text";
    assert_eq!(s.pic(), "text");
    let v = [1u8, 2];
    assert_eq!((&v[..]).pic(), &[1u8, 2][..]);
}

#[test]
fn icon_sizes() {
    assert_eq!(SystemIcon::Check.dimensions(), Size { width: 8, height: 6 });
    assert_eq!(SystemIcon::DashboardBadge.dimensions(), Size { width: 14, height: 14 });
    assert_eq!(Icon::System(SystemIcon::Up).dimensions(), Size { width: 7, height: 4 });
    let c = CustomIcon { width: 14, height: 12, bits_per_pixel: 1, colors: &[], bitmap: &[] };
    assert_eq!(Icon::Custom(c).dimensions(), Size { width: 14, height: 12 });
    assert_eq!(SystemIcon::Down.to_wire_format(), 12);
}

#[test]
fn scroll_estimate_of_long_text() {
    let v = LabelLineView {
        frame: Frame { x: 23, y: 26, width: 82, height: 12 },
        scroll: ScrollMode::Once { delay: Duration::from_secs(1), speed: 26 },
        text: "Government",
        ..Default::default()
    };
    // 10 characters: 70 px, fits in 82 px.
    assert_eq!(v.estimate_scroll_time().unwrap().as_millis(), 0);
    let v = LabelLineView { text: "4ecbde854d829816358041c8b393fa4d51", ..v };
    // 238 px, 156 px too wide: 2 * (156000 / 26) + 2 * 1000.
    assert_eq!(v.estimate_scroll_time().unwrap().as_millis(), 14000);
    let v = LabelLineView { scroll: ScrollMode::Infinite { delay: Duration::zero(), speed: 3 }, ..v };
    assert!(v.estimate_scroll_time().is_none());
    let v = LabelLineView { scroll: ScrollMode::Once { delay: Duration::from_millis(300), speed: 0 }, ..v };
    assert_eq!(v.estimate_scroll_time().unwrap().as_millis(), 600);
    assert_eq!(TextFont::OpenSansLight16px.width_for_text("héllo"), 35);
}

#[test]
fn label_wire_fields() {
    let v = ViewDescriptor::LabelLine(LabelLineView {
        frame: Frame { x: 0, y: 12, width: 128, height: 12 },
        font: TextFont::OpenSansRegular11px,
        horizontal_alignment: TextHorizontalAlignment::Center,
        scroll: ScrollMode::Once { delay: Duration::from_secs(20), speed: 26 },
        text: "Hi",
        ..Default::default()
    });
    let status = Status::ScreenDisplay(v.to_display_status(0));
    let mut buf = [0u8; 64];
    let n = status.to_bytes(&mut buf, 0);
    assert_eq!(n, 33);
    assert_eq!(buf[3], 7);
    assert_eq!(buf[3 + 10], 0x80 | 0x7F);
    assert_eq!(&buf[3 + 24..3 + 28], &[10, 0x80, 26, 0]);
    assert_eq!(&buf[3 + 16..3 + 24], &[0xFF, 0xFF, 0xFF, 0, 0, 0, 0, 0]);
    assert_eq!(ScrollMode::delay_as_decis(Duration::from_millis(1250)), 12);
}

#[test]
fn icon_view_status_uses_icon_size() {
    let v = IconView { position: bolos::ui::Position { x: 3, y: 14 }, icon: Icon::System(SystemIcon::Up) };
    let status = Status::ScreenDisplay(v.to_display_status(0));
    let mut buf = [0u8; 64];
    assert_eq!(status.to_bytes(&mut buf, 0), 31);
    assert_eq!(&buf[3..13], &[5, 0, 3, 0, 14, 0, 7, 0, 4, 0]);
    assert_eq!(buf[3 + 26], 11);
    assert_eq!(Color::white().to_wire_format(), 0xFFFFFF);
}

#[test]
fn menu_layout_centres_icon_and_text() {
    assert_eq!(menu_layout(None, 56, 0), (0, 0, TextHorizontalAlignment::Center));
    // 14 px icon, 7 px gap, 28 px text: 49 px in 100, offset 25.
    assert_eq!(menu_layout(Some(14), 28, 14), (25, 46, TextHorizontalAlignment::Left));
    assert_eq!(menu_layout(Some(14), 140, 0), (0, 21, TextHorizontalAlignment::Left));
    assert_eq!(menu_layout(Some(200), 0, 0), (0, 100, TextHorizontalAlignment::Left));
}

#[derive(Clone, Copy, PartialEq, Eq, Debug)]
enum Item {
    A,
    B,
    C,
}

struct Menu;

impl Store for Menu {
    type Action = BasicAction;
}

impl menu::Delegate<Item> for Menu {
    fn prepare_menu_item(&self, ctrl: &mut menu::Controller<Item, BasicAction>) {
        ctrl.add_item(Item::A, || ItemSpec { line_1: "Alpha", action: Some(BasicAction::Confirm), ..Default::default() });
        ctrl.add_item(Item::B, || ItemSpec { line_1: "Beta", line_2: "second", ..Default::default() });
        ctrl.add_item(Item::C, || ItemSpec { icon: Some(Icon::System(SystemIcon::DashboardBadge)), line_1: "Gamma", ..Default::default() });
    }
}

#[test]
fn menu_boundaries() {
    assert_eq!((menu::previous_item(Item::A, &Menu), menu::next_item(Item::A, &Menu)), (None, Some(Item::B)));
    assert_eq!((menu::previous_item(Item::C, &Menu), menu::next_item(Item::C, &Menu)), (Some(Item::B), None));
    assert_eq!((menu::previous_item(Item::B, &Menu), menu::next_item(Item::B, &Menu)), (Some(Item::A), Some(Item::C)));
}

fn menu_screen(item: Item) -> Vec<ViewDescriptor<'static>> {
    let mut out = Vec::new();
    let mut i = 0;
    loop {
        let mut ctrl: Controller<BasicAction> = Controller::new(i);
        menu::prepare_menu(item, &Menu, &mut ctrl);
        match ctrl_view(&ctrl) {
            Some(v) => out.push(v),
            None => break,
        }
        i += 1;
    }
    out
}

fn ctrl_view(ctrl: &Controller<'static, BasicAction>) -> Option<ViewDescriptor<'static>> {
    ctrl.target_view()
}

#[test]
fn menu_screen_layouts() {
    // First item: background, down arrow, next title, one-line label.
    let a = menu_screen(Item::A);
    assert_eq!(a.len(), 4);
    assert!(matches!(a[1], ViewDescriptor::Icon(IconView { icon: Icon::System(SystemIcon::Down), .. })));
    match a[3] {
        ViewDescriptor::LabelLine(v) => {
            assert_eq!(v.text, "Alpha");
            assert_eq!(v.frame, Frame { x: 14, y: 19, width: 100, height: 12 });
            assert_eq!(v.horizontal_alignment, TextHorizontalAlignment::Center);
        }
        _ => panic!("expected a label"),
    }
    // Middle item with two lines: background, both arrows, two labels.
    let b = menu_screen(Item::B);
    assert_eq!(b.len(), 5);
    // Last item with an icon: background, up arrow, previous title, icon, label.
    let c = menu_screen(Item::C);
    assert_eq!(c.len(), 5);
    match c[3] {
        ViewDescriptor::Icon(v) => assert_eq!(v.position, bolos::ui::Position { x: 36, y: 9 }),
        _ => panic!("expected an icon"),
    }
    match c[4] {
        ViewDescriptor::LabelLine(v) => {
            assert_eq!(v.frame, Frame { x: 57, y: 19, width: 57, height: 12 });
            assert_eq!(v.horizontal_alignment, TextHorizontalAlignment::Left);
        }
        _ => panic!("expected a label"),
    }
}

#[test]
fn menu_buttons_follow_neighbours() {
    let mut ctrl: Controller<BasicAction> = Controller::new(0);
    menu::prepare_menu(Item::A, &Menu, &mut ctrl);
    let map = ctrl.button_actions();
    assert_eq!(map.left, None);
    assert_eq!(map.right, Some(BasicAction::Next));
    assert_eq!(map.both, Some(BasicAction::Confirm));
    let mut ctrl: Controller<BasicAction> = Controller::new(0);
    ctrl.set_button_actions(ButtonAction::ForAll(BasicAction::Next));
    assert_eq!(ctrl.button_actions().both, Some(BasicAction::Next));
}

#[test]
fn tall_icon_is_centred_above_the_top() {
    let c = CustomIcon { width: 10, height: 40, bits_per_pixel: 1, colors: &[], bitmap: &[] };
    let current = ItemSpec { icon: Some(Icon::Custom(c)), line_1: "Tall", action: Some(BasicAction::Confirm), ..Default::default() };
    let mut ctrl: Controller<BasicAction> = Controller::new(1);
    menu::layout_menu(None, Some(current), None, &mut ctrl);
    match ctrl.target_view() {
        Some(ViewDescriptor::Icon(v)) => assert_eq!(v.position.y, -4),
        _ => panic!("expected the icon"),
    }
    assert_eq!(ctrl.button_actions().both, Some(BasicAction::Confirm));
    assert_eq!(ctrl.button_actions().left, None);
}
