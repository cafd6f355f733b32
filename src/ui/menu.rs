use vstd::prelude::*;
use vstd::std_specs::cmp::PartialEqSpec;
use crate::state::{Store, BasicAction};
use crate::ui;
use crate::ui::view::{
    Icon, ViewDescriptor, RectangleView, IconView, LabelLineView, Frame, Position, FillMode,
    SystemIcon, TextFont, TextHorizontalAlignment, TextVerticalAlignment, ScrollMode, Color,
    text_width,
};

verus! {

/// The actions that move through a menu.
///
/// The specification functions name the two actions; an implementation that
/// is verified defines them.
pub trait MenuAction: Sized {
    closed spec fn previous_action() -> Self {
        arbitrary()
    }

    closed spec fn next_action() -> Self {
        arbitrary()
    }

    fn action_for_previous_menu_item() -> (r: Self)
        ensures
            r == Self::previous_action(),
    ;

    fn action_for_next_menu_item() -> (r: Self)
        ensures
            r == Self::next_action(),
    ;
}

impl MenuAction for BasicAction {
    open spec fn previous_action() -> BasicAction {
        BasicAction::Previous
    }

    open spec fn next_action() -> BasicAction {
        BasicAction::Next
    }

    fn action_for_previous_menu_item() -> (r: BasicAction) {
        BasicAction::Previous
    }

    fn action_for_next_menu_item() -> (r: BasicAction) {
        BasicAction::Next
    }
}

/// The application's menus: each declares its items in order, to a controller.
pub trait Delegate<I: PartialEq>: Store {
    /// The menu's items, in order. An implementation that is verified
    /// defines it, and its `prepare_menu_item` is held to it.
    closed spec fn menu_items(&self) -> Seq<I> {
        arbitrary()
    }

    /// How each item looks, in the same order as `menu_items`.
    closed spec fn menu_looks<'b>(&self) -> Seq<ItemSpec<'b, Self::Action>> {
        arbitrary()
    }

    /// Declares the menu's items to `ctrl`, one `add_item` each, in order,
    /// each with its look.
    fn prepare_menu_item(&self, ctrl: &mut Controller<I, Self::Action>)
        requires
            old(ctrl).is_fresh(),
        ensures
            final(ctrl).has_scanned(*old(ctrl), self.menu_items(), self.menu_looks()),
    ;
}

/// How one item of a menu looks: an optional icon and up to two lines.
#[derive(Clone, Copy, Debug)]
pub struct ItemSpec<'a, A> {
    pub icon: Option<Icon<'a>>,
    pub line_1: &'a str,
    pub line_1_font: TextFont,
    pub line_2: &'a str,
    pub line_2_font: TextFont,
    pub action: Option<A>,
}

impl<'a, A> Default for ItemSpec<'a, A> {
    fn default() -> (r: ItemSpec<'a, A>)
        ensures
            r.icon is None,
            r.line_1@.len() == 0,
            r.line_1_font == TextFont::OpenSansExtraBold11px,
            r.line_2@.len() == 0,
            r.line_2_font == TextFont::OpenSansExtraBold11px,
            r.action is None,
    {
        proof {
            reveal_strlit("");
        }
        ItemSpec {
            icon: None,
            line_1: "",
            line_1_font: TextFont::OpenSansExtraBold11px,
            line_2: "",
            line_2_font: TextFont::OpenSansExtraBold11px,
            action: None,
        }
    }
}

/// Where the scan for an item's neighbours stands.
#[derive(Clone, Copy, Debug, PartialEq, Eq, Structural)]
pub enum ControllerState {
    NeedTargetItem,
    NeedNextItem,
    Done,
}

/// The scan over a menu's items, up to the last of `items`: where it stands,
/// the item before the target (the last item seen while looking for it) and
/// the item after it.
pub open spec fn scan<I: PartialEq>(items: Seq<I>, target: I) -> (ControllerState, Option<I>, Option<I>)
    decreases items.len(),
{
    if items.len() == 0 {
        (ControllerState::NeedTargetItem, None, None)
    } else {
        let (state, previous, next) = scan(items.drop_last(), target);
        let item = items.last();
        match state {
            ControllerState::NeedTargetItem => if item.eq_spec(&target) {
                (ControllerState::NeedNextItem, previous, next)
            } else {
                (ControllerState::NeedTargetItem, Some(item), next)
            },
            ControllerState::NeedNextItem => (ControllerState::Done, previous, Some(item)),
            ControllerState::Done => (ControllerState::Done, previous, next),
        }
    }
}

/// The looks of the items that `scan` finds before, at and after the
/// target: the look of each item is the one at its position in `looks`.
pub open spec fn scan_looks<'b, I: PartialEq, A>(
    items: Seq<I>,
    looks: Seq<ItemSpec<'b, A>>,
    target: I,
) -> (Option<ItemSpec<'b, A>>, Option<ItemSpec<'b, A>>, Option<ItemSpec<'b, A>>)
    decreases items.len(),
{
    if items.len() == 0 {
        (None, None, None)
    } else {
        let (previous, current, next) = scan_looks(items.drop_last(), looks, target);
        let look = looks[items.len() - 1];
        match scan(items.drop_last(), target).0 {
            ControllerState::NeedTargetItem => if items.last().eq_spec(&target) {
                (previous, Some(look), next)
            } else {
                (Some(look), current, next)
            },
            ControllerState::NeedNextItem => (previous, current, Some(look)),
            ControllerState::Done => (previous, current, next),
        }
    }
}

/// Finds, while the application declares a menu, the items around a target
/// item and, where asked, how they look.
pub struct Controller<'a, I, A> {
    target_item: I,
    state: ControllerState,
    previous_item: Option<I>,
    next_item: Option<I>,
    resolve_spec: bool,
    previous_spec: Option<ItemSpec<'a, A>>,
    current_spec: Option<ItemSpec<'a, A>>,
    next_spec: Option<ItemSpec<'a, A>>,
}

impl<'a, I: PartialEq, A> Controller<'a, I, A> {
    pub closed spec fn target(&self) -> I {
        self.target_item
    }

    pub closed spec fn resolves_specs(&self) -> bool {
        self.resolve_spec
    }

    /// Where the scan stands, the item before the target and the one after.
    pub closed spec fn found(&self) -> (ControllerState, Option<I>, Option<I>) {
        (self.state, self.previous_item, self.next_item)
    }

    /// The looks found of the previous, current and next items.
    pub closed spec fn specs(&self) -> (
        Option<ItemSpec<'a, A>>,
        Option<ItemSpec<'a, A>>,
        Option<ItemSpec<'a, A>>,
    ) {
        (self.previous_spec, self.current_spec, self.next_spec)
    }

    pub open spec fn is_fresh(&self) -> bool {
        &&& self.found() == (ControllerState::NeedTargetItem, None::<I>, None::<I>)
        &&& self.specs() == (None::<ItemSpec<'a, A>>, None::<ItemSpec<'a, A>>, None::<
            ItemSpec<'a, A>,
        >)
    }

    /// The state after the items `items`, which look as `looks` says, were
    /// declared to the fresh `start`.
    pub open spec fn has_scanned(&self, start: Self, items: Seq<I>, looks: Seq<ItemSpec<'a, A>>) -> bool {
        &&& self.target() == start.target()
        &&& self.resolves_specs() == start.resolves_specs()
        &&& self.found() == scan(items, start.target())
        &&& self.specs() == if self.resolves_specs() {
            scan_looks(items, looks, start.target())
        } else {
            (None, None, None)
        }
    }

    pub fn new(target_item: I, resolve_spec: bool) -> (r: Controller<'a, I, A>)
        ensures
            r.is_fresh(),
            r.target() == target_item,
            r.resolves_specs() == resolve_spec,
    {
        Controller {
            target_item,
            state: ControllerState::NeedTargetItem,
            previous_item: None,
            next_item: None,
            resolve_spec,
            previous_spec: None,
            current_spec: None,
            next_spec: None,
        }
    }

    /// Declares the next item of the menu. Its look is built, by `lazy_spec`,
    /// only where it is asked for and the item is one of the three around
    /// the target.
    pub fn add_item<F>(&mut self, menu_item: I, lazy_spec: F)
        where
            F: FnOnce() -> ItemSpec<'a, A>,
        requires
            I::obeys_eq_spec(),
            old(self).resolves_specs() ==> call_requires(lazy_spec, ()),
        ensures
            final(self).target() == old(self).target(),
            final(self).resolves_specs() == old(self).resolves_specs(),
            ({
                let (state, previous, next) = old(self).found();
                let (ps, cs, ns) = old(self).specs();
                let r = old(self).resolves_specs();
                let (fp, fc, fn_) = final(self).specs();
                match state {
                    ControllerState::NeedTargetItem => if menu_item.eq_spec(&old(self).target()) {
                        &&& final(self).found() == (ControllerState::NeedNextItem, previous, next)
                        &&& fp == ps && fn_ == ns
                        &&& if r {
                            fc matches Some(v) && call_ensures(lazy_spec, (), v)
                        } else {
                            fc == cs
                        }
                    } else {
                        &&& final(self).found() == (
                            ControllerState::NeedTargetItem,
                            Some(menu_item),
                            next,
                        )
                        &&& fc == cs && fn_ == ns
                        &&& if r {
                            fp matches Some(v) && call_ensures(lazy_spec, (), v)
                        } else {
                            fp == ps
                        }
                    },
                    ControllerState::NeedNextItem => {
                        &&& final(self).found() == (ControllerState::Done, previous, Some(menu_item))
                        &&& fp == ps && fc == cs
                        &&& if r {
                            fn_ matches Some(v) && call_ensures(lazy_spec, (), v)
                        } else {
                            fn_ == ns
                        }
                    },
                    ControllerState::Done => {
                        &&& final(self).found() == old(self).found()
                        &&& final(self).specs() == old(self).specs()
                    },
                }
            }),
    {
        match self.state {
            ControllerState::NeedTargetItem => {
                if menu_item != self.target_item {
                    self.previous_item = Some(menu_item);
                    if self.resolve_spec {
                        self.previous_spec = Some(lazy_spec());
                    }
                } else {
                    self.state = ControllerState::NeedNextItem;
                    if self.resolve_spec {
                        self.current_spec = Some(lazy_spec());
                    }
                }
            },
            ControllerState::NeedNextItem => {
                self.state = ControllerState::Done;
                self.next_item = Some(menu_item);
                if self.resolve_spec {
                    self.next_spec = Some(lazy_spec());
                }
            },
            ControllerState::Done => {},
        }
    }
}

/// The item before `menu_item` in the delegate's menu: the last one declared
/// before it, `None` where it comes first.
pub fn previous_item<M, D>(menu_item: M, delegate: &D) -> (r: Option<M>)
    where
        M: Copy + PartialEq,
        D: Delegate<M>,
    ensures
        r == scan(delegate.menu_items(), menu_item).1,
{
    let mut c: Controller<M, D::Action> = Controller::new(menu_item, false);
    delegate.prepare_menu_item(&mut c);
    c.previous_item
}

/// The item after `menu_item` in the delegate's menu; `None` where it comes
/// last or is not in the menu.
pub fn next_item<M, D>(menu_item: M, delegate: &D) -> (r: Option<M>)
    where
        M: Copy + PartialEq,
        D: Delegate<M>,
    ensures
        r == scan(delegate.menu_items(), menu_item).2,
{
    let mut c: Controller<M, D::Action> = Controller::new(menu_item, false);
    delegate.prepare_menu_item(&mut c);
    c.next_item
}

/// Width of the area between the arrows where an item is laid out.
pub const MENU_AREA_WIDTH: usize = 100;

/// Gap between an item's icon and its text.
pub const ICON_TEXT_GAP: usize = 7;

/// Where an item's parts go inside the menu area: the icon's offset, the
/// text's offset and the text's alignment. Without an icon the text is
/// centered. With one, icon and text are left-aligned as one group that is
/// centered as a whole, as far as it fits; the text never starts past the
/// area's right edge.
pub open spec fn menu_layout_spec(icon_width: Option<nat>, line_1_width: nat, line_2_width: nat) -> (
    nat,
    nat,
    TextHorizontalAlignment,
) {
    match icon_width {
        None => (0, 0, TextHorizontalAlignment::Center),
        Some(w) => {
            let iw = w + ICON_TEXT_GAP;
            let text = if line_1_width > line_2_width {
                line_1_width
            } else {
                line_2_width
            };
            let total = iw + text;
            let icon_x = if total < MENU_AREA_WIDTH {
                ((MENU_AREA_WIDTH - total) / 2) as nat
            } else {
                0
            };
            let text_x = if icon_x + iw < MENU_AREA_WIDTH {
                (icon_x + iw) as nat
            } else {
                MENU_AREA_WIDTH as nat
            };
            (icon_x, text_x, TextHorizontalAlignment::Left)
        },
    }
}

/// Lays out an item: see `menu_layout_spec`.
pub fn menu_layout(icon_width: Option<u16>, line_1_width: usize, line_2_width: usize) -> (r: (
    u16,
    u16,
    TextHorizontalAlignment,
))
    ensures
        ({
            let w = match icon_width {
                Some(w) => Some(w as nat),
                None => None,
            };
            let s = menu_layout_spec(w, line_1_width as nat, line_2_width as nat);
            r.0 == s.0 && r.1 == s.1 && r.2 == s.2
        }),
        r.0 <= MENU_AREA_WIDTH,
        r.1 <= MENU_AREA_WIDTH,
{
    match icon_width {
        None => (0, 0, TextHorizontalAlignment::Center),
        Some(w) => {
            let iw = w as usize + ICON_TEXT_GAP;
            let text = if line_1_width > line_2_width {
                line_1_width
            } else {
                line_2_width
            };
            let icon_x: usize = if text < MENU_AREA_WIDTH && iw < MENU_AREA_WIDTH - text {
                (MENU_AREA_WIDTH - iw - text) / 2
            } else {
                0
            };
            let text_x: usize = if iw < MENU_AREA_WIDTH - icon_x {
                icon_x + iw
            } else {
                MENU_AREA_WIDTH
            };
            (icon_x as u16, text_x as u16, TextHorizontalAlignment::Left)
        },
    }
}

/// A title or text line of a menu.
pub open spec fn label_view<'a>(
    x: i16,
    y: i16,
    width: u16,
    font: TextFont,
    alignment: TextHorizontalAlignment,
    text: &'a str,
) -> ViewDescriptor<'a> {
    ViewDescriptor::LabelLine(
        LabelLineView {
            frame: Frame { x, y, width, height: 12 },
            font,
            horizontal_alignment: alignment,
            vertical_alignment: TextVerticalAlignment::Top,
            scroll: ScrollMode::Disabled,
            foreground: Color(0xFFFFFF),
            background: Color(0),
            fill: FillMode::NoFill,
            text,
        },
    )
}

/// An icon of a menu.
pub open spec fn icon_view<'a>(x: i16, y: i16, icon: Icon<'a>) -> ViewDescriptor<'a> {
    ViewDescriptor::Icon(IconView { position: Position { x, y }, icon })
}

/// The filled background of a menu.
pub open spec fn background_view<'a>() -> ViewDescriptor<'a> {
    ViewDescriptor::Rectangle(
        RectangleView {
            frame: Frame { x: 0, y: 0, width: 128, height: 32 },
            stroke: 0,
            radius: 0,
            fill: FillMode::Fill,
            foreground: Color(0),
            background: Color(0xFFFFFF),
        },
    )
}

/// The arrow towards the previous item.
pub open spec fn up_arrow_view<'a>() -> ViewDescriptor<'a> {
    icon_view(3, 14, Icon::System(SystemIcon::Up))
}

/// The arrow towards the next item.
pub open spec fn down_arrow_view<'a>() -> ViewDescriptor<'a> {
    icon_view(118, 14, Icon::System(SystemIcon::Down))
}

/// The previous item's title, above the selected one.
pub open spec fn previous_title_view<'a>(text: &'a str) -> ViewDescriptor<'a> {
    label_view(14, 3, 100, TextFont::OpenSansRegular11px, TextHorizontalAlignment::Center, text)
}

/// The next item's title, below the selected one.
pub open spec fn next_title_view<'a>(text: &'a str) -> ViewDescriptor<'a> {
    label_view(14, 35, 100, TextFont::OpenSansRegular11px, TextHorizontalAlignment::Center, text)
}

/// The line of a one-line item.
pub open spec fn single_line_view<'a>(
    x: i16,
    width: u16,
    font: TextFont,
    alignment: TextHorizontalAlignment,
    text: &'a str,
) -> ViewDescriptor<'a> {
    label_view(x, 19, width, font, alignment, text)
}

/// The first line of a two-line item.
pub open spec fn first_line_view<'a>(
    x: i16,
    width: u16,
    font: TextFont,
    alignment: TextHorizontalAlignment,
    text: &'a str,
) -> ViewDescriptor<'a> {
    label_view(x, 12, width, font, alignment, text)
}

/// The second line of a two-line item.
pub open spec fn second_line_view<'a>(
    x: i16,
    width: u16,
    font: TextFont,
    alignment: TextHorizontalAlignment,
    text: &'a str,
) -> ViewDescriptor<'a> {
    label_view(x, 26, width, font, alignment, text)
}

/// Top of an icon of height `h` centered on the 32-pixel screen; above the
/// screen's top for an icon taller than it. Halves round towards zero.
pub open spec fn icon_top(h: u16) -> i16 {
    if h <= 32 {
        ((32 - h) / 2) as i16
    } else {
        (-((h - 32) / 2)) as i16
    }
}

/// The titles of the neighbours, above and below a one-line item.
pub open spec fn title_views<'a, A>(
    previous: Option<ItemSpec<'a, A>>,
    next: Option<ItemSpec<'a, A>>,
) -> Seq<ViewDescriptor<'a>> {
    (match previous {
        Some(p) => seq![
            previous_title_view(
                if p.line_2@.len() > 0 {
                    p.line_2
                } else {
                    p.line_1
                },
            ),
        ],
        None => Seq::empty(),
    }) + (match next {
        Some(n) => seq![next_title_view(n.line_1)],
        None => Seq::empty(),
    })
}

/// Where an item's parts go: see `menu_layout_spec`.
pub open spec fn item_layout<'a, A>(current: ItemSpec<'a, A>) -> (nat, nat, TextHorizontalAlignment) {
    let icon_width = match current.icon {
        Some(i) => Some(i.size().width as nat),
        None => None,
    };
    menu_layout_spec(
        icon_width,
        text_width(current.line_1@.len()) as nat,
        text_width(current.line_2@.len()) as nat,
    )
}

/// An item's icon, if any, and its one or two text lines.
pub open spec fn body_views<'a, A>(current: ItemSpec<'a, A>) -> Seq<ViewDescriptor<'a>> {
    let layout = item_layout(current);
    let x = (14 + layout.1) as i16;
    let width = (100 - layout.1) as u16;
    let icon = match current.icon {
        Some(i) => seq![icon_view((14 + layout.0) as i16, icon_top(i.size().height), i)],
        None => Seq::empty(),
    };
    let lines = if current.line_2@.len() > 0 {
        seq![
            first_line_view(x, width, current.line_1_font, layout.2, current.line_1),
            second_line_view(x, width, current.line_2_font, layout.2, current.line_2),
        ]
    } else {
        seq![single_line_view(x, width, current.line_1_font, layout.2, current.line_1)]
    };
    icon + lines
}

/// The background and an arrow towards each neighbour that there is.
pub open spec fn arrow_views<'a>(has_previous: bool, has_next: bool) -> Seq<ViewDescriptor<'a>> {
    seq![background_view()] + (if has_previous {
        seq![up_arrow_view()]
    } else {
        Seq::empty()
    }) + (if has_next {
        seq![down_arrow_view()]
    } else {
        Seq::empty()
    })
}

/// The screen of a menu: the background and arrows, then, where the item
/// was found, the neighbours' titles around a one-line item, and the item.
pub open spec fn menu_views<'a, A>(
    previous: Option<ItemSpec<'a, A>>,
    current: Option<ItemSpec<'a, A>>,
    next: Option<ItemSpec<'a, A>>,
) -> Seq<ViewDescriptor<'a>> {
    let arrows = arrow_views(previous is Some, next is Some);
    match current {
        Some(c) => arrows + (if c.line_2@.len() > 0 {
            Seq::empty()
        } else {
            title_views(previous, next)
        }) + body_views(c),
        None => arrows,
    }
}

fn label<'a>(
    x: i16,
    y: i16,
    width: u16,
    font: TextFont,
    alignment: TextHorizontalAlignment,
    text: &'a str,
) -> (r: ViewDescriptor<'a>)
    ensures
        r == label_view(x, y, width, font, alignment, text),
{
    ViewDescriptor::LabelLine(
        LabelLineView {
            frame: Frame { x, y, width, height: 12 },
            font,
            horizontal_alignment: alignment,
            vertical_alignment: TextVerticalAlignment::Top,
            scroll: ScrollMode::Disabled,
            foreground: Color::white(),
            background: Color::black(),
            fill: FillMode::NoFill,
            text,
        },
    )
}

fn icon_at<'a>(x: i16, y: i16, icon: Icon<'a>) -> (r: ViewDescriptor<'a>)
    ensures
        r == icon_view(x, y, icon),
{
    ViewDescriptor::Icon(IconView { position: Position { x, y }, icon })
}

fn add_arrows<'a, A: Copy>(has_previous: bool, has_next: bool, ui_ctrl: &mut ui::Controller<'a, A>)
    requires
        old(ui_ctrl).count() + 3 < usize::MAX,
    ensures
        ui::appended(*old(ui_ctrl), *final(ui_ctrl), arrow_views(has_previous, has_next)),
        final(ui_ctrl).buttons() == old(ui_ctrl).buttons(),
{
    let ghost start = *ui_ctrl;
    let ghost before = *ui_ctrl;
    let element = || -> (v: ViewDescriptor<'a>)
        ensures
            v == background_view(),
        {
            ViewDescriptor::Rectangle(
                RectangleView {
                    frame: Frame { x: 0, y: 0, width: 128, height: 32 },
                    stroke: 0,
                    radius: 0,
                    fill: FillMode::Fill,
                    foreground: Color::black(),
                    background: Color::white(),
                },
            )
        };
    ui_ctrl.add_view(element);
    let ghost mut views = seq![background_view()];
    proof {
        ui::lemma_appended_none(start);
        ui::lemma_appended_push(start, before, *ui_ctrl, Seq::empty(), background_view());
        assert(Seq::<ViewDescriptor<'a>>::empty().push(background_view()) =~= views);
    }
    if has_previous {
        let ghost before = *ui_ctrl;
        let element = || -> (v: ViewDescriptor<'a>)
            ensures
                v == up_arrow_view(),
            { icon_at(3, 14, Icon::System(SystemIcon::Up)) };
        ui_ctrl.add_view(element);
        proof {
            ui::lemma_appended_push(start, before, *ui_ctrl, views, up_arrow_view());
            views = views.push(up_arrow_view());
        }
    }
    if has_next {
        let ghost before = *ui_ctrl;
        let element = || -> (v: ViewDescriptor<'a>)
            ensures
                v == down_arrow_view(),
            { icon_at(118, 14, Icon::System(SystemIcon::Down)) };
        ui_ctrl.add_view(element);
        proof {
            ui::lemma_appended_push(start, before, *ui_ctrl, views, down_arrow_view());
            views = views.push(down_arrow_view());
        }
    }
    proof {
        assert(views =~= arrow_views(has_previous, has_next));
    }
}

fn add_titles<'a, A: Copy>(
    previous: Option<ItemSpec<'a, A>>,
    next: Option<ItemSpec<'a, A>>,
    ui_ctrl: &mut ui::Controller<'a, A>,
)
    requires
        old(ui_ctrl).count() + 2 < usize::MAX,
    ensures
        ui::appended(*old(ui_ctrl), *final(ui_ctrl), title_views(previous, next)),
        final(ui_ctrl).buttons() == old(ui_ctrl).buttons(),
{
    let ghost start = *ui_ctrl;
    let ghost mut views: Seq<ViewDescriptor<'a>> = Seq::empty();
    proof {
        ui::lemma_appended_none(start);
    }
    if let Some(prev_spec) = previous {
        let text = if !prev_spec.line_2.is_empty() {
            prev_spec.line_2
        } else {
            prev_spec.line_1
        };
        let ghost before = *ui_ctrl;
        let element = move || -> (v: ViewDescriptor<'a>)
            ensures
                v == previous_title_view(text),
            {
                label(
                    14,
                    3,
                    100,
                    TextFont::OpenSansRegular11px,
                    TextHorizontalAlignment::Center,
                    text,
                )
            };
        ui_ctrl.add_view(element);
        proof {
            ui::lemma_appended_push(start, before, *ui_ctrl, views, previous_title_view(text));
            views = views.push(previous_title_view(text));
        }
    }
    if let Some(next_spec) = next {
        let text = next_spec.line_1;
        let ghost before = *ui_ctrl;
        let element = move || -> (v: ViewDescriptor<'a>)
            ensures
                v == next_title_view(text),
            {
                label(
                    14,
                    35,
                    100,
                    TextFont::OpenSansRegular11px,
                    TextHorizontalAlignment::Center,
                    text,
                )
            };
        ui_ctrl.add_view(element);
        proof {
            ui::lemma_appended_push(start, before, *ui_ctrl, views, next_title_view(text));
            views = views.push(next_title_view(text));
        }
    }
    proof {
        assert(views =~= title_views(previous, next));
    }
}

fn add_body<'a, A: Copy>(current: ItemSpec<'a, A>, ui_ctrl: &mut ui::Controller<'a, A>)
    requires
        old(ui_ctrl).count() + 3 < usize::MAX,
    ensures
        ui::appended(*old(ui_ctrl), *final(ui_ctrl), body_views(current)),
        final(ui_ctrl).buttons() == old(ui_ctrl).buttons(),
{
    let ghost start = *ui_ctrl;
    let ghost mut views: Seq<ViewDescriptor<'a>> = Seq::empty();
    proof {
        ui::lemma_appended_none(start);
    }
    let icon_width = match current.icon {
        Some(icon) => Some(icon.dimensions().width),
        None => None,
    };
    let line_1_width = current.line_1_font.width_for_text(current.line_1);
    let line_2_width = current.line_2_font.width_for_text(current.line_2);
    let (icon_offset_x, text_offset_x, text_alignment) = menu_layout(
        icon_width,
        line_1_width,
        line_2_width,
    );
    let x = 14 + text_offset_x as i16;
    let width = 100 - text_offset_x;

    if let Some(icon) = current.icon {
        let size = icon.dimensions();
        let y: i16 = if size.height <= 32 {
            ((32 - size.height) / 2) as i16
        } else {
            -(((size.height - 32) / 2) as i16)
        };
        let icon_x = 14 + icon_offset_x as i16;
        let ghost before = *ui_ctrl;
        let element = move || -> (v: ViewDescriptor<'a>)
            ensures
                v == icon_view(icon_x, y, icon),
            { icon_at(icon_x, y, icon) };
        ui_ctrl.add_view(element);
        proof {
            ui::lemma_appended_push(start, before, *ui_ctrl, views, icon_view(icon_x, y, icon));
            views = views.push(icon_view(icon_x, y, icon));
        }
    }
    let line_1 = current.line_1;
    let line_1_font = current.line_1_font;
    if current.line_2.is_empty() {
        let ghost v = single_line_view(x, width, line_1_font, text_alignment, line_1);
        let ghost before = *ui_ctrl;
        let element = move || -> (v: ViewDescriptor<'a>)
            ensures
                v == single_line_view(x, width, line_1_font, text_alignment, line_1),
            { label(x, 19, width, line_1_font, text_alignment, line_1) };
        ui_ctrl.add_view(element);
        proof {
            ui::lemma_appended_push(start, before, *ui_ctrl, views, v);
            views = views.push(v);
        }
    } else {
        let line_2 = current.line_2;
        let line_2_font = current.line_2_font;
        let ghost v1 = first_line_view(x, width, line_1_font, text_alignment, line_1);
        let ghost before = *ui_ctrl;
        let element = move || -> (v: ViewDescriptor<'a>)
            ensures
                v == first_line_view(x, width, line_1_font, text_alignment, line_1),
            { label(x, 12, width, line_1_font, text_alignment, line_1) };
        ui_ctrl.add_view(element);
        proof {
            ui::lemma_appended_push(start, before, *ui_ctrl, views, v1);
            views = views.push(v1);
        }
        let ghost v2 = second_line_view(x, width, line_2_font, text_alignment, line_2);
        let ghost before = *ui_ctrl;
        let element = move || -> (v: ViewDescriptor<'a>)
            ensures
                v == second_line_view(x, width, line_2_font, text_alignment, line_2),
            { label(x, 26, width, line_2_font, text_alignment, line_2) };
        ui_ctrl.add_view(element);
        proof {
            ui::lemma_appended_push(start, before, *ui_ctrl, views, v2);
            views = views.push(v2);
        }
    }
    proof {
        assert(views =~= body_views(current));
    }
}

/// Lays out a menu screen from the looks of the selected item and of its
/// neighbours: see `menu_views`. Where the item was found, left and right
/// go to the neighbours that there are, and both buttons do the item's action.
pub fn layout_menu<'a, A: MenuAction + Copy>(
    previous: Option<ItemSpec<'a, A>>,
    current: Option<ItemSpec<'a, A>>,
    next: Option<ItemSpec<'a, A>>,
    ui_ctrl: &mut ui::Controller<'a, A>,
)
    requires
        old(ui_ctrl).count() + 8 < usize::MAX,
    ensures
        ui::appended(*old(ui_ctrl), *final(ui_ctrl), menu_views(previous, current, next)),
        match current {
            Some(c) => final(ui_ctrl).buttons() == (ui::ButtonActionMap {
                left: if previous is Some {
                    Some(A::previous_action())
                } else {
                    None
                },
                right: if next is Some {
                    Some(A::next_action())
                } else {
                    None
                },
                both: c.action,
            }),
            None => final(ui_ctrl).buttons() == old(ui_ctrl).buttons(),
        },
{
    let ghost start = *ui_ctrl;
    add_arrows(previous.is_some(), next.is_some(), ui_ctrl);
    if let Some(current) = current {
        let left = if previous.is_some() {
            Some(A::action_for_previous_menu_item())
        } else {
            None
        };
        let right = if next.is_some() {
            Some(A::action_for_next_menu_item())
        } else {
            None
        };
        let ghost arrows = *ui_ctrl;
        ui_ctrl.set_button_actions(ui::ButtonAction::Each { left, right, both: current.action });
        let ghost titled_start = *ui_ctrl;
        if current.line_2.is_empty() {
            add_titles(previous, next, ui_ctrl);
        } else {
            proof {
                ui::lemma_appended_none(*ui_ctrl);
            }
        }
        let ghost titled = *ui_ctrl;
        add_body(current, ui_ctrl);
        proof {
            let a = arrow_views::<'a>(previous is Some, next is Some);
            let t = if current.line_2@.len() > 0 {
                Seq::<ViewDescriptor<'a>>::empty()
            } else {
                title_views(previous, next)
            };
            ui::lemma_appended_concat(start, arrows, titled_start, a, Seq::empty());
            assert(a + Seq::<ViewDescriptor<'a>>::empty() =~= a);
            ui::lemma_appended_concat(start, titled_start, titled, a, t);
            ui::lemma_appended_concat(start, titled, *ui_ctrl, a + t, body_views(current));
        }
    }
}

/// Draws the screen of a menu whose selected item is `menu_item`, from the
/// looks that the delegate declares for the item and its neighbours: see
/// `layout_menu`.
pub fn prepare_menu<'a, M, A, D>(menu_item: M, delegate: &D, ui_ctrl: &mut ui::Controller<'a, A>)
    where
        M: Copy + PartialEq,
        A: MenuAction + Copy,
        D: Delegate<M> + Store<Action = A>,
    requires
        old(ui_ctrl).count() + 8 < usize::MAX,
    ensures
        ({
            let (p, c, n) = scan_looks(delegate.menu_items(), delegate.menu_looks(), menu_item);
            &&& ui::appended(*old(ui_ctrl), *final(ui_ctrl), menu_views(p, c, n))
            &&& match c {
                Some(c) => final(ui_ctrl).buttons() == (ui::ButtonActionMap {
                    left: if p is Some {
                        Some(A::previous_action())
                    } else {
                        None
                    },
                    right: if n is Some {
                        Some(A::next_action())
                    } else {
                        None
                    },
                    both: c.action,
                }),
                None => final(ui_ctrl).buttons() == old(ui_ctrl).buttons(),
            }
        }),
{
    let mut ctrl: Controller<'a, M, A> = Controller::new(menu_item, true);
    delegate.prepare_menu_item(&mut ctrl);
    let previous = ctrl.previous_spec;
    let current = ctrl.current_spec;
    let next = ctrl.next_spec;
    layout_menu(previous, current, next, ui_ctrl);
}

/// How far the scan for `items[k]` got after the first `n` items, when no
/// other item equals it.
pub open spec fn scan_of_prefix<I>(items: Seq<I>, k: int, n: int) -> (ControllerState, Option<I>, Option<I>) {
    if n <= k {
        (ControllerState::NeedTargetItem, if n > 0 { Some(items[n - 1]) } else { None }, None)
    } else if n == k + 1 {
        (ControllerState::NeedNextItem, if k > 0 { Some(items[k - 1]) } else { None }, None)
    } else {
        (ControllerState::Done, if k > 0 { Some(items[k - 1]) } else { None }, Some(items[k + 1]))
    }
}

proof fn lemma_scan_prefix<I: PartialEq>(items: Seq<I>, k: int, n: int)
    requires
        0 <= k < items.len(),
        0 <= n <= items.len(),
        forall|i: int| 0 <= i < items.len() ==> (items[i].eq_spec(&items[k]) <==> i == k),
    ensures
        scan(items.take(n), items[k]) == scan_of_prefix(items, k, n),
    decreases n,
{
    if n > 0 {
        lemma_scan_prefix(items, k, n - 1);
        assert(items.take(n).drop_last() =~= items.take(n - 1));
        assert(items.take(n).last() == items[n - 1]);
    }
}

/// In a menu whose items differ from one another, the item before the one
/// at position `k` is the one at `k - 1`, and the item after it the one at
/// `k + 1`: none before the first, none after the last.
pub proof fn lemma_menu_neighbours<I: PartialEq>(items: Seq<I>, k: int)
    requires
        0 <= k < items.len(),
        forall|i: int| 0 <= i < items.len() ==> (items[i].eq_spec(&items[k]) <==> i == k),
    ensures
        scan(items, items[k]).1 == if k > 0 {
            Some(items[k - 1])
        } else {
            None
        },
        scan(items, items[k]).2 == if k + 1 < items.len() {
            Some(items[k + 1])
        } else {
            None
        },
{
    lemma_scan_prefix(items, k, items.len() as int);
    assert(items.take(items.len() as int) =~= items);
}

} // verus!
