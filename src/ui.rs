//! The rendering middleware and the display-list builder.
pub mod view;
pub mod bolos;
pub mod menu;

use vstd::prelude::*;
use core::marker::PhantomData;
use crate::time::Duration;
use crate::state::Store;
use crate::seproxyhal::{Channel, FrameKind};
use crate::seproxyhal::event::Event;
use crate::seproxyhal::packet::Packet;
use crate::seproxyhal::status::Status;
use crate::ui::bolos::Response;
pub use crate::ui::view::{
    FillMode, Color, Position, Size, Frame, RectangleView, SystemIcon, CustomIcon, Icon, IconView,
    ScrollFinishedEvent, ScrollMode, TextHorizontalAlignment, TextVerticalAlignment, TextFont,
    LabelLineView, ViewDescriptor,
};

verus! {

/// The actions that the left button, the right button and both together trigger.
#[derive(Clone, Copy, Debug)]
pub struct ButtonActionMap<A> {
    pub left: Option<A>,
    pub right: Option<A>,
    pub both: Option<A>,
}

impl<A> ButtonActionMap<A> {
    /// A map that triggers nothing.
    pub fn none() -> (r: ButtonActionMap<A>)
        ensures
            r.left is None && r.right is None && r.both is None,
    {
        ButtonActionMap { left: None, right: None, both: None }
    }
}

impl<A> Default for ButtonActionMap<A> {
    fn default() -> (r: ButtonActionMap<A>)
        ensures
            r.left is None && r.right is None && r.both is None,
    {
        ButtonActionMap::none()
    }
}

/// What the buttons do on the screen being drawn.
pub enum ButtonAction<A: Copy> {
    Each { left: Option<A>, right: Option<A>, both: Option<A> },
    ForAll(A),
    Disabled,
}

impl<A: Copy> ButtonAction<A> {
    pub open spec fn map_spec(self) -> ButtonActionMap<A> {
        match self {
            ButtonAction::Each { left, right, both } => ButtonActionMap { left, right, both },
            ButtonAction::ForAll(a) => ButtonActionMap { left: Some(a), right: Some(a), both: Some(a) },
            ButtonAction::Disabled => ButtonActionMap { left: None, right: None, both: None },
        }
    }

    pub fn into_map(self) -> (r: ButtonActionMap<A>)
        ensures
            r == self.map_spec(),
    {
        match self {
            ButtonAction::Each { left, right, both } => ButtonActionMap { left, right, both },
            ButtonAction::ForAll(a) => ButtonActionMap { left: Some(a), right: Some(a), both: Some(a) },
            ButtonAction::Disabled => ButtonActionMap::none(),
        }
    }
}

/// An action that the screen asks to fire by itself after a while.
#[derive(Clone, Copy, Debug)]
pub enum AutoAction<A> {
    Countdown {
        min_wait_time: Option<Duration>,
        max_wait_time: Option<Duration>,
        wait_time: Duration,
        wait_for_scroll: bool,
        action: A,
    },
    Disabled,
}

/// How long a countdown waits: the base time, or the longest scroll where it
/// waits for scrolling text and that is longer, then raised to the minimum
/// and lowered to the maximum where those are given.
pub open spec fn effective_wait(
    wait_time: nat,
    wait_for_scroll: bool,
    scroll_time: nat,
    min_wait_time: Option<nat>,
    max_wait_time: Option<nat>,
) -> nat {
    let t1 = if wait_for_scroll && scroll_time > wait_time {
        scroll_time
    } else {
        wait_time
    };
    let t2 = match min_wait_time {
        Some(m) => if m > t1 {
            m
        } else {
            t1
        },
        None => t1,
    };
    match max_wait_time {
        Some(m) => if m < t2 {
            m
        } else {
            t2
        },
        None => t2,
    }
}

/// A duration that may be absent, in milliseconds.
pub open spec fn opt_view(d: Option<Duration>) -> Option<nat> {
    match d {
        Some(x) => Some(x@),
        None => None,
    }
}

/// The time after which a countdown fires.
pub fn resolve_wait_time(
    wait_time: Duration,
    wait_for_scroll: bool,
    max_scroll_time: Duration,
    min_wait_time: Option<Duration>,
    max_wait_time: Option<Duration>,
) -> (r: Duration)
    ensures
        r@ == effective_wait(
            wait_time@,
            wait_for_scroll,
            max_scroll_time@,
            opt_view(min_wait_time),
            opt_view(max_wait_time),
        ),
{
    let mut time = wait_time;
    if wait_for_scroll && max_scroll_time.as_millis() > time.as_millis() {
        time = max_scroll_time;
    }
    if let Some(m) = min_wait_time {
        if m.as_millis() > time.as_millis() {
            time = m;
        }
    }
    if let Some(m) = max_wait_time {
        if m.as_millis() < time.as_millis() {
            time = m;
        }
    }
    time
}

/// The countdown in progress: the time left and what fires at its end.
#[derive(Clone, Copy, Debug)]
pub struct ScheduledAction<A> {
    pub time_left: Duration,
    pub action: A,
}

impl<A> ScheduledAction<A> {
    pub fn new(time: Duration, action: A) -> (r: ScheduledAction<A>)
        ensures
            r.time_left == time,
            r.action == action,
    {
        ScheduledAction { time_left: time, action }
    }
}

/// What the middleware keeps of an element: the frame that shows it and,
/// for text that scrolls once, how long the scroll takes.
pub open spec fn element_of(v: ViewDescriptor) -> (Seq<u8>, Option<nat>) {
    (Status::ScreenDisplay(v.display_status(0)).wire(), v.scroll_estimate())
}

/// The element at `index` of a display list; `None` past its end.
pub open spec fn realize<E>(list: Seq<E>, index: int) -> Option<E> {
    if 0 <= index < list.len() {
        Some(list[index])
    } else {
        None
    }
}

/// Collects, while the application describes a screen, the one element that
/// is asked for, and the screen's button and countdown settings.
pub struct Controller<'a, A: Copy> {
    target_index: usize,
    current_index: usize,
    target_view: Option<ViewDescriptor<'a>>,
    button_actions: ButtonActionMap<A>,
    auto_action: AutoAction<A>,
}

impl<'a, A: Copy> Controller<'a, A> {
    /// Position of the element asked for.
    pub closed spec fn target(&self) -> nat {
        self.target_index as nat
    }

    /// How many elements were described so far.
    pub closed spec fn count(&self) -> nat {
        self.current_index as nat
    }

    /// The element asked for, once it has been described.
    pub closed spec fn found(&self) -> Option<(Seq<u8>, Option<nat>)> {
        match self.target_view {
            Some(v) => Some(element_of(v)),
            None => None,
        }
    }

    pub closed spec fn buttons(&self) -> ButtonActionMap<A> {
        self.button_actions
    }

    pub closed spec fn countdown(&self) -> AutoAction<A> {
        self.auto_action
    }

    /// Nothing described yet, nothing set.
    pub open spec fn is_fresh(&self) -> bool {
        &&& self.count() == 0
        &&& self.found() is None
        &&& self.buttons().left is None
        &&& self.buttons().right is None
        &&& self.buttons().both is None
        &&& self.countdown() is Disabled
    }

    /// The state after describing a whole screen whose elements are `list`,
    /// from a fresh controller asking for `target`.
    pub open spec fn described(
        &self,
        target: nat,
        list: Seq<(Seq<u8>, Option<nat>)>,
        buttons: ButtonActionMap<A>,
        countdown: AutoAction<A>,
    ) -> bool {
        &&& self.target() == target
        &&& self.count() == list.len()
        &&& self.found() == realize(list, target as int)
        &&& self.buttons() == buttons
        &&& self.countdown() == countdown
    }

    /// A controller that asks for the element at `target_index`.
    pub fn new(target_index: usize) -> (r: Controller<'a, A>)
        ensures
            r.is_fresh(),
            r.target() == target_index,
    {
        Controller {
            target_index,
            current_index: 0,
            target_view: None,
            button_actions: ButtonActionMap::none(),
            auto_action: AutoAction::Disabled,
        }
    }

    /// The element asked for, once it has been described.
    pub fn target_view(&self) -> (r: Option<ViewDescriptor<'a>>)
        ensures
            self.found() == match r {
                Some(v) => Some(element_of(v)),
                None => None,
            },
    {
        self.target_view
    }

    /// What the buttons do on the screen described.
    pub fn button_actions(&self) -> (r: ButtonActionMap<A>)
        ensures
            r == self.buttons(),
    {
        self.button_actions
    }

    /// Describes the next element. Only the element asked for is built:
    /// `lazy_view` runs for it alone.
    pub fn add_view<F>(&mut self, lazy_view: F)
        where
            F: FnOnce() -> ViewDescriptor<'a>,
        requires
            old(self).count() < usize::MAX,
            old(self).count() == old(self).target() ==> call_requires(lazy_view, ()),
        ensures
            final(self).target() == old(self).target(),
            final(self).count() == old(self).count() + 1,
            final(self).buttons() == old(self).buttons(),
            final(self).countdown() == old(self).countdown(),
            old(self).count() != old(self).target() ==> final(self).found() == old(self).found(),
            old(self).count() == old(self).target() ==> exists|v: ViewDescriptor<'a>|
                call_ensures(lazy_view, (), v) && final(self).found() == Some(element_of(v)),
    {
        if self.target_index == self.current_index {
            let v = lazy_view();
            self.target_view = Some(v);
        }
        self.current_index = self.current_index + 1;
    }

    /// What the buttons do on this screen.
    pub fn set_button_actions(&mut self, actions: ButtonAction<A>)
        ensures
            final(self).target() == old(self).target(),
            final(self).count() == old(self).count(),
            final(self).found() == old(self).found(),
            final(self).buttons() == actions.map_spec(),
            final(self).countdown() == old(self).countdown(),
    {
        self.button_actions = actions.into_map();
    }

    /// The action that this screen fires by itself, if any.
    pub fn set_auto_action(&mut self, auto_action: AutoAction<A>)
        ensures
            final(self).target() == old(self).target(),
            final(self).count() == old(self).count(),
            final(self).found() == old(self).found(),
            final(self).buttons() == old(self).buttons(),
            final(self).countdown() == auto_action,
    {
        self.auto_action = auto_action;
    }
}

/// `after` is `before` with `views` described after the elements it had.
pub open spec fn appended<'a, A: Copy>(
    before: Controller<'a, A>,
    after: Controller<'a, A>,
    views: Seq<ViewDescriptor<'a>>,
) -> bool {
    &&& after.target() == before.target()
    &&& after.count() == before.count() + views.len()
    &&& after.countdown() == before.countdown()
    &&& after.found() == if before.count() <= before.target() < after.count() {
        Some(element_of(views[before.target() - before.count()]))
    } else {
        before.found()
    }
}

/// Describing elements one after the other describes them all in turn.
pub proof fn lemma_appended_push<'a, A: Copy>(
    a: Controller<'a, A>,
    b: Controller<'a, A>,
    c: Controller<'a, A>,
    views: Seq<ViewDescriptor<'a>>,
    v: ViewDescriptor<'a>,
)
    requires
        appended(a, b, views),
        appended(b, c, seq![v]),
    ensures
        appended(a, c, views.push(v)),
{
    if a.count() <= a.target() < b.count() {
        assert(views.push(v)[a.target() - a.count()] == views[a.target() - a.count()]);
    }
}

/// Describing two runs of elements one after the other describes both.
pub proof fn lemma_appended_concat<'a, A: Copy>(
    a: Controller<'a, A>,
    b: Controller<'a, A>,
    c: Controller<'a, A>,
    first: Seq<ViewDescriptor<'a>>,
    second: Seq<ViewDescriptor<'a>>,
)
    requires
        appended(a, b, first),
        appended(b, c, second),
    ensures
        appended(a, c, first + second),
{
    if a.count() <= a.target() < b.count() {
        assert((first + second)[a.target() - a.count()] == first[a.target() - a.count()]);
    } else if b.count() <= b.target() < c.count() {
        assert((first + second)[a.target() - a.count()] == second[b.target() - b.count()]);
    }
}

/// Describing no element changes nothing.
pub proof fn lemma_appended_none<'a, A: Copy>(a: Controller<'a, A>)
    ensures
        appended(a, a, Seq::empty()),
{
}

/// The application's side of the middleware: a state with a version, and a
/// pure description of the screen that shows it.
///
/// The specification functions stand for what an implementation shows;
/// an implementation that is verified defines them, and its `ui_version` and
/// `prepare_ui` are held to them.
pub trait Delegate: Store {
    /// Version of the state; it changes with every change of the state.
    closed spec fn version(&self) -> u16 {
        arbitrary()
    }

    /// The screen's elements, top to bottom.
    closed spec fn display_list(&self) -> Seq<(Seq<u8>, Option<nat>)> {
        arbitrary()
    }

    /// What the buttons do on the screen.
    closed spec fn buttons(&self) -> ButtonActionMap<Self::Action> {
        arbitrary()
    }

    /// The action that the screen fires by itself.
    closed spec fn countdown(&self) -> AutoAction<Self::Action> {
        arbitrary()
    }

    fn ui_version(&self) -> (r: u16)
        ensures
            r == self.version(),
    ;

    /// Describes the screen to `ctrl`, element by element.
    fn prepare_ui(&self, ctrl: &mut Controller<Self::Action>)
        requires
            old(ctrl).is_fresh(),
        ensures
            final(ctrl).described(
                old(ctrl).target(),
                self.display_list(),
                self.buttons(),
                self.countdown(),
            ),
    ;
}

} // verus!

verus! {

/// Samples in a row of one held pattern after which the press repeats (about 800 ms).
pub const KEY_REPEAT_THRESHOLD: usize = 8;

/// Samples between two repeats (about 300 ms).
pub const KEY_REPEAT_DELAY: usize = 3;

pub const LEFT_BUTTON: u8 = 1;

pub const RIGHT_BUTTON: u8 = 2;

pub const BOTH_BUTTONS: u8 = 3;

/// Time that one timer tick stands for, in milliseconds.
pub const TICK_MILLIS: usize = 100;

/// The button pattern kept after a sample: a change adds the new buttons to
/// the pattern held so far, and a release clears it.
pub open spec fn next_bits(bits: u8, input: u8) -> u8 {
    if bits == input {
        bits
    } else if input != 0 {
        bits | input
    } else {
        0
    }
}

/// The count of samples of the same pattern after a sample.
pub open spec fn next_timer(bits: u8, timer: nat, input: u8) -> nat {
    if bits == input {
        if timer < usize::MAX {
            timer + 1
        } else {
            timer
        }
    } else {
        0
    }
}

/// The pattern that a sample presses, and whether as a repeat. A release
/// presses the pattern that was held, unless that pattern was one button
/// held long enough to repeat: its repeats stand for the press. A held
/// pattern repeats past the threshold, every few samples.
pub open spec fn pressed(bits: u8, timer: nat, input: u8) -> (u8, bool) {
    if input == 0 {
        if bits == BOTH_BUTTONS || timer <= KEY_REPEAT_THRESHOLD {
            (bits, false)
        } else {
            (0, false)
        }
    } else {
        let t = next_timer(bits, timer, input);
        if t > KEY_REPEAT_THRESHOLD && t % (KEY_REPEAT_DELAY as nat) == 0 {
            (input, true)
        } else {
            (0, false)
        }
    }
}

/// The action that a pressed pattern triggers: one button alone, or both
/// together when not repeating.
pub open spec fn button_action<A>(map: ButtonActionMap<A>, pattern: u8, repeating: bool) -> Option<A> {
    if pattern == LEFT_BUTTON {
        map.left
    } else if pattern == RIGHT_BUTTON {
        map.right
    } else if pattern == BOTH_BUTTONS && !repeating {
        map.both
    } else {
        None
    }
}

/// What the middleware keeps between events.
pub struct MiddlewareModel<A> {
    /// Version of the state that the screen shows, once one was seen.
    pub ui_version: Option<u16>,
    /// Position of the element to show next.
    pub next_view_index: nat,
    /// Position of the element realized last; `usize::MAX` for none.
    pub sent_view_index: nat,
    pub button_actions: ButtonActionMap<A>,
    pub button_bits: u8,
    pub button_timer: nat,
    /// Longest scroll among the text elements shown since the last redraw.
    pub max_scroll_time: nat,
    /// The countdown in progress: time left and action.
    pub auto_action: Option<(nat, A)>,
}

/// The state right after a redraw of the state at `version` began: the
/// screen starts over, with no buttons and no countdown; the held buttons stay.
pub open spec fn reset_model<A>(m: MiddlewareModel<A>, version: u16) -> MiddlewareModel<A> {
    MiddlewareModel {
        ui_version: Some(version),
        next_view_index: 0,
        sent_view_index: usize::MAX as nat,
        button_actions: ButtonActionMap { left: None, right: None, both: None },
        max_scroll_time: 0,
        auto_action: None,
        ..m
    }
}

/// The longer of a running maximum and an element's scroll time.
pub open spec fn max_scroll(current: nat, scroll: Option<nat>) -> nat {
    match scroll {
        Some(t) => if t > current {
            t
        } else {
            current
        },
        None => current,
    }
}

/// The countdown that a finished screen leaves: the one it asks for, if any,
/// with its wait resolved against the longest scroll; else the one running.
pub open spec fn scheduled<A>(
    countdown: AutoAction<A>,
    max_scroll_time: nat,
    running: Option<(nat, A)>,
) -> Option<(nat, A)> {
    match countdown {
        AutoAction::Countdown { min_wait_time, max_wait_time, wait_time, wait_for_scroll, action } =>
            Some(
            (
                effective_wait(
                    wait_time@,
                    wait_for_scroll,
                    max_scroll_time,
                    opt_view(min_wait_time),
                    opt_view(max_wait_time),
                ),
                action,
            ),
        ),
        AutoAction::Disabled => running,
    }
}

/// Decides, event by event, what the screen shows next and which actions
/// the buttons and timers trigger.
pub struct Middleware<A, D> {
    ui_version: Option<u16>,
    next_view_index: usize,
    sent_view_index: usize,
    button_actions: ButtonActionMap<A>,
    button_bits: u8,
    button_timer: usize,
    max_scroll_time: Duration,
    auto_action: Option<ScheduledAction<A>>,
    phantom_delegate: PhantomData<D>,
}

impl<A: Copy, D> View for Middleware<A, D> {
    type V = MiddlewareModel<A>;

    closed spec fn view(&self) -> MiddlewareModel<A> {
        MiddlewareModel {
            ui_version: self.ui_version,
            next_view_index: self.next_view_index as nat,
            sent_view_index: self.sent_view_index as nat,
            button_actions: self.button_actions,
            button_bits: self.button_bits,
            button_timer: self.button_timer as nat,
            max_scroll_time: self.max_scroll_time@,
            auto_action: match self.auto_action {
                Some(s) => Some((s.time_left@, s.action)),
                None => None,
            },
        }
    }
}

impl<A: Copy, D: Delegate<Action = A>> Middleware<A, D> {
    pub fn new() -> (r: Middleware<A, D>)
        ensures
            r@.ui_version is None,
            r@.next_view_index == 0,
            r@.sent_view_index == usize::MAX,
            r@.button_actions == (ButtonActionMap::<A> { left: None, right: None, both: None }),
            r@.button_bits == 0,
            r@.button_timer == 0,
            r@.max_scroll_time == 0,
            r@.auto_action is None,
    {
        Middleware {
            ui_version: None,
            next_view_index: 0,
            sent_view_index: usize::MAX,
            button_actions: ButtonActionMap::none(),
            button_bits: 0,
            button_timer: 0,
            max_scroll_time: Duration::zero(),
            auto_action: None,
            phantom_delegate: PhantomData,
        }
    }

    /// Whether the state changed since the screen was last drawn.
    fn should_redraw(&self, delegate: &D) -> (r: bool)
        ensures
            r == (self@.ui_version != Some(delegate.version())),
    {
        match self.ui_version {
            Some(v) => v != delegate.ui_version(),
            None => true,
        }
    }

    fn reset_for_redraw(&mut self, delegate: &D)
        ensures
            final(self)@ == reset_model(old(self)@, delegate.version()),
    {
        self.ui_version = Some(delegate.ui_version());
        self.next_view_index = 0;
        self.sent_view_index = usize::MAX;
        self.button_actions = ButtonActionMap::none();
        self.max_scroll_time = Duration::zero();
        self.auto_action = None;
    }

    /// Takes in one sample of the buttons' state and returns the action it
    /// triggers, if any.
    pub fn arbitrate(&mut self, button_bits: u8) -> (r: Option<A>)
        ensures
            final(self)@ == (MiddlewareModel {
                button_bits: next_bits(old(self)@.button_bits, button_bits),
                button_timer: next_timer(old(self)@.button_bits, old(self)@.button_timer, button_bits),
                ..old(self)@
            }),
            r == button_action(
                old(self)@.button_actions,
                pressed(old(self)@.button_bits, old(self)@.button_timer, button_bits).0,
                pressed(old(self)@.button_bits, old(self)@.button_timer, button_bits).1,
            ),
    {
        let is_released = button_bits == 0;
        let previous_bits = self.button_bits;
        let previous_timer = self.button_timer;
        if self.button_bits == button_bits {
            if self.button_timer < usize::MAX {
                self.button_timer = self.button_timer + 1;
            }
        } else {
            self.button_timer = 0;
            if button_bits != 0 {
                self.button_bits = self.button_bits | button_bits;
            } else {
                self.button_bits = 0;
            }
        }
        let (pattern, repeating) = if is_released {
            if previous_bits == BOTH_BUTTONS || previous_timer <= KEY_REPEAT_THRESHOLD {
                (previous_bits, false)
            } else {
                (0, false)
            }
        } else if self.button_timer > KEY_REPEAT_THRESHOLD && self.button_timer % KEY_REPEAT_DELAY
            == 0 {
            (button_bits, true)
        } else {
            (0, false)
        };
        if pattern == LEFT_BUTTON {
            self.button_actions.left
        } else if pattern == RIGHT_BUTTON {
            self.button_actions.right
        } else if pattern == BOTH_BUTTONS && !repeating {
            self.button_actions.both
        } else {
            None
        }
    }

    /// Takes in one timer tick and returns the countdown's action when it ends.
    pub fn tick(&mut self) -> (r: Option<A>)
        ensures
            match old(self)@.auto_action {
                Some(s) => if s.0 > TICK_MILLIS {
                    &&& final(self)@ == (MiddlewareModel {
                        auto_action: Some(((s.0 - TICK_MILLIS) as nat, s.1)),
                        ..old(self)@
                    })
                    &&& r is None
                } else {
                    &&& final(self)@ == (MiddlewareModel { auto_action: None, ..old(self)@ })
                    &&& r == Some(s.1)
                },
                None => final(self)@ == old(self)@ && r is None,
            },
    {
        match self.auto_action {
            Some(s) => {
                let passed = Duration::from_millis(TICK_MILLIS);
                if s.time_left.as_millis() > passed.as_millis() {
                    let left = Duration::from_millis(s.time_left.as_millis() - passed.as_millis());
                    self.auto_action = Some(ScheduledAction::new(left, s.action));
                    None
                } else {
                    self.auto_action = None;
                    Some(s.action)
                }
            },
            None => None,
        }
    }
}


/// The state after one event, before the redraw check: an acknowledgment
/// moves to the next element, a button sample goes to the arbiter (its flags
/// without the reserved low bit), a tick to the countdown.
pub open spec fn after_event<A>(m: MiddlewareModel<A>, event: Event) -> MiddlewareModel<A> {
    match event {
        Event::DisplayProcessed(_) => MiddlewareModel {
            next_view_index: if m.next_view_index < usize::MAX {
                m.next_view_index + 1
            } else {
                m.next_view_index
            },
            ..m
        },
        Event::ButtonPush(b) => MiddlewareModel {
            button_bits: next_bits(m.button_bits, b.flags >> 1),
            button_timer: next_timer(m.button_bits, m.button_timer, b.flags >> 1),
            ..m
        },
        Event::Ticker(_) => match m.auto_action {
            Some(s) => if s.0 > TICK_MILLIS {
                MiddlewareModel { auto_action: Some(((s.0 - TICK_MILLIS) as nat, s.1)), ..m }
            } else {
                MiddlewareModel { auto_action: None, ..m }
            },
            None => m,
        },
        Event::StartLoop => m,
    }
}

/// The state once the host's UI answered `ux`: a redraw it asks for starts
/// the screen over.
pub open spec fn after_ux<A>(m: MiddlewareModel<A>, ux: Response, version: u16) -> MiddlewareModel<A> {
    if ux == Response::Redraw {
        reset_model(m, version)
    } else {
        m
    }
}

/// The action that an event triggers: a button sample's, as the arbiter
/// decides it (from the flags without the reserved low bit), or the
/// countdown's when a tick ends it.
pub open spec fn event_action<A>(m: MiddlewareModel<A>, event: Event) -> Option<A> {
    match event {
        Event::ButtonPush(b) => button_action(
            m.button_actions,
            pressed(m.button_bits, m.button_timer, b.flags >> 1).0,
            pressed(m.button_bits, m.button_timer, b.flags >> 1).1,
        ),
        Event::Ticker(_) => match m.auto_action {
            Some(s) => if s.0 > TICK_MILLIS {
                None
            } else {
                Some(s.1)
            },
            None => None,
        },
        _ => None,
    }
}

/// What taking in one event did.
#[derive(Clone, Copy, Debug)]
pub struct EventOutcome<A> {
    /// A redraw began: the host's UI must be woken up.
    pub redraw: bool,
    /// The action handed to the delegate, if any.
    pub action: Option<A>,
}

impl<A: Copy, D: Delegate<Action = A>> Middleware<A, D> {
    /// Takes in the channel's event: moves to the next element on an
    /// acknowledgment, hands the action that a button sample or a tick
    /// triggers to the delegate, then checks the state's version. Returns
    /// whether a redraw began, in which case the host's UI must be woken up,
    /// and the action handed over, if any. Where no action fires, the
    /// delegate is left as it was.
    pub fn process_event(&mut self, ch: &Channel, delegate: &mut D) -> (r: EventOutcome<A>)
        ensures
            r.action == event_action(old(self)@, ch.spec_event()),
            r.action is None ==> *final(delegate) == *old(delegate),
            r.redraw == (after_event(old(self)@, ch.spec_event()).ui_version != Some(
                final(delegate).version(),
            )),
            r.redraw ==> final(self)@ == reset_model(
                after_event(old(self)@, ch.spec_event()),
                final(delegate).version(),
            ),
            !r.redraw ==> final(self)@ == after_event(old(self)@, ch.spec_event()),
    {
        let action = match ch.event() {
            Event::DisplayProcessed(_) => {
                if self.next_view_index < usize::MAX {
                    self.next_view_index = self.next_view_index + 1;
                }
                None
            },
            Event::ButtonPush(b) => self.arbitrate(b.flags >> 1),
            Event::Ticker(_) => self.tick(),
            Event::StartLoop => None,
        };
        if let Some(a) = action {
            delegate.process_action(a);
        }
        let redraw = if self.should_redraw(delegate) {
            self.reset_for_redraw(delegate);
            true
        } else {
            false
        };
        EventOutcome { redraw, action }
    }

    /// Starts a redraw when the state changed since the screen was drawn, and
    /// says whether it did; the host's UI must then be woken up.
    pub fn redraw_if_needed(&mut self, delegate: &D) -> (redraw: bool)
        ensures
            redraw == (old(self)@.ui_version != Some(delegate.version())),
            redraw ==> final(self)@ == reset_model(old(self)@, delegate.version()),
            !redraw ==> final(self)@ == old(self)@,
    {
        if self.should_redraw(delegate) {
            self.reset_for_redraw(delegate);
            true
        } else {
            false
        }
    }

    /// Realizes the next element of the screen, as far as the host's UI
    /// allows (`ux`, its answer when asked just before). An element found is
    /// sent as the channel's status. Past the last element the screen is
    /// complete: its buttons and its countdown take effect, and the channel
    /// stays open.
    pub fn send_next_view(&mut self, ch: &mut Channel, delegate: &D, ux: Response)
        requires
            old(ch).wf(),
            !old(ch).is_answered(),
        ensures
            final(ch).wf(),
            final(ch).spec_event() == old(ch).spec_event(),
            ({
                let m = after_ux(old(self)@, ux, delegate.version());
                let list = delegate.display_list();
                if ux == Response::Ignore || ux == Response::Continue {
                    &&& final(self)@ == old(self)@
                    &&& *final(ch) == *old(ch)
                } else if m.sent_view_index == m.next_view_index {
                    &&& final(self)@ == m
                    &&& *final(ch) == *old(ch)
                } else {
                    match realize(list, m.next_view_index as int) {
                        Some(e) => {
                            &&& final(self)@ == (MiddlewareModel {
                                sent_view_index: m.next_view_index,
                                max_scroll_time: max_scroll(m.max_scroll_time, e.1),
                                ..m
                            })
                            &&& final(ch).is_answered()
                            &&& final(ch).kinds() == old(ch).kinds().push(FrameKind::Status)
                            &&& final(ch).sent() == old(ch).sent().push(e.0)
                        },
                        None => {
                            &&& final(self)@ == (MiddlewareModel {
                                sent_view_index: m.next_view_index,
                                button_actions: delegate.buttons(),
                                auto_action: scheduled(
                                    delegate.countdown(),
                                    m.max_scroll_time,
                                    m.auto_action,
                                ),
                                ..m
                            })
                            &&& *final(ch) == *old(ch)
                        },
                    }
                }
            }),
    {
        match ux {
            Response::Redraw => {
                self.reset_for_redraw(delegate);
            },
            Response::Ignore | Response::Continue => {
                return ;
            },
            _ => {},
        }
        if self.sent_view_index == self.next_view_index {
            return ;
        }
        let mut ctrl: Controller<A> = Controller::new(self.next_view_index);
        delegate.prepare_ui(&mut ctrl);
        self.sent_view_index = self.next_view_index;
        match ctrl.target_view {
            Some(view) => {
                if let ViewDescriptor::LabelLine(v) = view {
                    if let Some(t) = v.estimate_scroll_time() {
                        if t.as_millis() > self.max_scroll_time.as_millis() {
                            self.max_scroll_time = t;
                        }
                    }
                }
                let status = Status::ScreenDisplay(view.to_display_status(0));
                ch.send_status(&status);
            },
            None => {
                self.button_actions = ctrl.button_actions;
                if let AutoAction::Countdown {
                    min_wait_time,
                    max_wait_time,
                    wait_time,
                    wait_for_scroll,
                    action,
                } = ctrl.auto_action {
                    let time = resolve_wait_time(
                        wait_time,
                        wait_for_scroll,
                        self.max_scroll_time,
                        min_wait_time,
                        max_wait_time,
                    );
                    self.auto_action = Some(ScheduledAction::new(time, action));
                }
            },
        }
    }
}


/// The patterns that a run of button samples presses, from the pattern
/// `bits` held for `timer` samples.
pub open spec fn presses(bits: u8, timer: nat, samples: Seq<u8>) -> Seq<(u8, bool)>
    decreases samples.len(),
{
    if samples.len() == 0 {
        Seq::empty()
    } else {
        seq![pressed(bits, timer, samples[0])] + presses(
            next_bits(bits, samples[0]),
            next_timer(bits, timer, samples[0]),
            samples.drop_first(),
        )
    }
}

/// `m` samples of the left button held, then its release.
pub open spec fn hold_left(m: nat) -> Seq<u8> {
    Seq::new(m, |j: int| LEFT_BUTTON) + seq![0u8]
}

/// What a held left button presses at the sample that brings its count to `t`.
pub open spec fn held_press(t: int) -> (u8, bool) {
    if t > KEY_REPEAT_THRESHOLD && t % (KEY_REPEAT_DELAY as int) == 0 {
        (LEFT_BUTTON, true)
    } else {
        (0u8, false)
    }
}

/// What the release of a left button held for `t` samples presses.
pub open spec fn release_press(t: int) -> (u8, bool) {
    if t <= KEY_REPEAT_THRESHOLD {
        (LEFT_BUTTON, false)
    } else {
        (0u8, false)
    }
}

proof fn lemma_hold_left_from(k: nat, m: nat)
    requires
        k + m < usize::MAX,
    ensures
        presses(LEFT_BUTTON, k, hold_left(m)) == Seq::new(m, |j: int| held_press(k + 1 + j)).push(
            release_press((k + m) as int),
        ),
    decreases m,
{
    if m == 0 {
        assert(hold_left(0) =~= seq![0u8]);
        assert(hold_left(0)[0] == 0u8);
        assert(hold_left(0).drop_first() =~= Seq::<u8>::empty());
        assert(presses(0u8, 0, Seq::<u8>::empty()) =~= Seq::<(u8, bool)>::empty());
        assert(pressed(LEFT_BUTTON, k, 0u8) == release_press(k as int));
        assert(presses(LEFT_BUTTON, k, hold_left(m)) =~= seq![release_press(k as int)]);
        assert(Seq::new(m, |j: int| held_press(k + 1 + j)).push(release_press((k + m) as int)) =~= seq![
            release_press(k as int),
        ]);
    } else {
        lemma_hold_left_from(k + 1, (m - 1) as nat);
        assert(hold_left(m).drop_first() =~= hold_left((m - 1) as nat));
        assert(hold_left(m)[0] == LEFT_BUTTON);
        assert(presses(LEFT_BUTTON, k, hold_left(m)) =~= Seq::new(
            m,
            |j: int| held_press(k + 1 + j),
        ).push(release_press((k + m) as int)));
    }
}

/// A tap and a hold of the left button. Pressed from rest and held for `n`
/// samples, then released, it presses nothing at the first sample; while
/// held, it repeats whenever its count passes the threshold at the repeat
/// interval; its release presses it once, unless it repeated. So a hold that
/// stays under the threshold presses the button exactly once, on release,
/// and a longer one repeats while held and presses nothing more on release.
pub proof fn lemma_tap_and_repeat(timer: nat, n: nat)
    requires
        1 <= n < usize::MAX,
    ensures
        presses(0, timer, hold_left(n)).len() == n + 1,
        presses(0, timer, hold_left(n))[0] == (0u8, false),
        forall|i: int| 1 <= i < n ==> presses(0, timer, hold_left(n))[i] == held_press(i),
        presses(0, timer, hold_left(n))[n as int] == release_press(n - 1int),
        n - 1 <= KEY_REPEAT_THRESHOLD ==> forall|i: int|
            0 <= i < n ==> presses(0, timer, hold_left(n))[i].0 == 0,
        n - 1 <= KEY_REPEAT_THRESHOLD ==> presses(0, timer, hold_left(n))[n as int] == (
            LEFT_BUTTON,
            false,
        ),
        n - 1 > KEY_REPEAT_THRESHOLD ==> presses(0, timer, hold_left(n))[n as int].0 == 0,
{
    lemma_hold_left_from(0, (n - 1) as nat);
    assert(hold_left(n).drop_first() =~= hold_left((n - 1) as nat));
    assert(hold_left(n)[0] == LEFT_BUTTON);
    assert(next_bits(0, LEFT_BUTTON) == LEFT_BUTTON) by (bit_vector);
    let p = presses(0, timer, hold_left(n));
    assert(p == seq![(0u8, false)] + presses(LEFT_BUTTON, 0, hold_left((n - 1) as nat)));
}

/// The elements that separate realizations of one screen yield: the element
/// at each position, whatever was realized before and in whatever order.
/// They are found exactly below the list's length, so realizing from
/// position 0 up to the first that yields nothing gives back the whole list.
pub proof fn lemma_replay_determinism<'a, A: Copy>(
    list: Seq<(Seq<u8>, Option<nat>)>,
    buttons: ButtonActionMap<A>,
    countdown: AutoAction<A>,
    passes: Seq<Controller<'a, A>>,
)
    requires
        forall|k: int|
            0 <= k < passes.len() ==> #[trigger] passes[k].described(
                passes[k].target(),
                list,
                buttons,
                countdown,
            ),
    ensures
        forall|k: int, l: int|
            0 <= k < passes.len() && 0 <= l < passes.len() && passes[k].target() == passes[l].target()
                ==> #[trigger] passes[k].found() == #[trigger] passes[l].found(),
        forall|k: int|
            0 <= k < passes.len() ==> (#[trigger] passes[k].found() is Some <==> passes[k].target()
                < list.len()),
        passes.len() == list.len() + 1 && (forall|k: int|
            0 <= k < passes.len() ==> #[trigger] passes[k].target() == k) ==> Seq::new(
            list.len(),
            |k: int| passes[k].found()->Some_0,
        ) == list,
{
    assert forall|k: int| 0 <= k < passes.len() implies #[trigger] passes[k].found() == realize(
        list,
        passes[k].target() as int,
    ) by {
        assert(passes[k].described(passes[k].target(), list, buttons, countdown));
    }
    if passes.len() == list.len() + 1 && (forall|k: int|
        0 <= k < passes.len() ==> #[trigger] passes[k].target() == k) {
        assert forall|k: int| 0 <= k < list.len() implies passes[k].found() == Some(list[k]) by {
            assert(passes[k].target() == k);
        }
        assert(Seq::new(list.len(), |k: int| passes[k].found()->Some_0) =~= list);
    }
}

/// Redraws follow versions. No event by itself changes the version that the
/// middleware last drew, so after an event a redraw begins exactly when the
/// delegate's version differs from it; and a redraw starts over at the first
/// element, with none realized yet, so the next realization is of element 0.
pub proof fn lemma_version_gated_redraw<A>(m: MiddlewareModel<A>, event: Event, version: u16)
    ensures
        after_event(m, event).ui_version == m.ui_version,
        m.ui_version == Some(version) ==> after_event(m, event).next_view_index
            == if event is DisplayProcessed && m.next_view_index < usize::MAX {
            m.next_view_index + 1
        } else {
            m.next_view_index
        },
        m.ui_version == Some(version) ==> after_event(m, event).sent_view_index
            == m.sent_view_index,
        reset_model(after_event(m, event), version).ui_version == Some(version),
        reset_model(after_event(m, event), version).next_view_index == 0,
        reset_model(after_event(m, event), version).sent_view_index != 0,
{
}

} // verus!
