use bolos::seproxyhal::event::{ButtonPushEvent, DisplayProcessedEvent, Event, TickerEvent};
use bolos::seproxyhal::packet::Packet;
use bolos::seproxyhal::status::{GeneralStatus, Status};
use bolos::seproxyhal::{Channel, FrameKind, MessageLoop};
use bolos::state::{BasicAction, Store};
use bolos::time::Duration;
use bolos::ui::bolos::Response;
use bolos::ui::{
    resolve_wait_time, AutoAction, ButtonAction, Color, Controller, Delegate, FillMode, Frame,
    LabelLineView, Middleware, RectangleView, ScrollMode, TextFont, TextHorizontalAlignment,
    TextVerticalAlignment, ViewDescriptor,
};

struct App {
    version: u16,
    texts: Vec<&'static str>,
    actions: Vec<BasicAction>,
    countdown: bool,
}

impl Store for App {
    type Action = BasicAction;

    fn process_action(&mut self, action: BasicAction) {
        self.actions.push(action);
    }
}

fn line(y: i16, text: &'static str, scroll: ScrollMode) -> ViewDescriptor<'static> {
    ViewDescriptor::LabelLine(LabelLineView {
        frame: Frame { x: 0, y, width: 100, height: 12 },
        font: TextFont::OpenSansRegular11px,
        horizontal_alignment: TextHorizontalAlignment::Center,
        vertical_alignment: TextVerticalAlignment::Top,
        scroll,
        foreground: Color::white(),
        background: Color::black(),
        fill: FillMode::NoFill,
        text,
    })
}

impl Delegate for App {
    fn ui_version(&self) -> u16 {
        self.version
    }

    fn prepare_ui(&self, ctrl: &mut Controller<BasicAction>) {
        ctrl.set_button_actions(ButtonAction::Each {
            left: Some(BasicAction::Previous),
            right: Some(BasicAction::Next),
            both: Some(BasicAction::Confirm),
        });
        ctrl.add_view(|| {
            ViewDescriptor::Rectangle(RectangleView {
                frame: Frame { x: 0, y: 0, width: 128, height: 32 },
                fill: FillMode::Fill,
                ..Default::default()
            })
        });
        for (i, t) in self.texts.iter().enumerate() {
            let t: &'static str = t;
            let scroll = ScrollMode::Once { delay: Duration::from_millis(1000), speed: 26 };
            ctrl.add_view(move || line(12 * i as i16, t, scroll));
        }
        if self.countdown {
            ctrl.set_auto_action(AutoAction::Countdown {
                min_wait_time: Some(Duration::from_secs(3)),
                max_wait_time: Some(Duration::from_secs(30)),
                wait_time: Duration::from_secs(1),
                wait_for_scroll: true,
                action: BasicAction::Next,
            });
        }
    }
}

fn app() -> App {
    App { version: 1, texts: vec!["Hello", "Rust"], actions: Vec::new(), countdown: false }
}

fn wire<P: Packet>(p: &P) -> Vec<u8> {
    let mut buf = vec![0u8; 1024];
    let n = p.to_bytes(&mut buf, 0);
    buf.truncate(n);
    buf
}

fn realize(app: &App, index: usize) -> Option<Vec<u8>> {
    let mut a = App { version: app.version, texts: app.texts.clone(), actions: vec![], countdown: app.countdown };
    let mut ui: Middleware<BasicAction, App> = Middleware::new();
    let mut ch = Channel::new(Event::StartLoop);
    ui.process_event(&ch, &mut a);
    for _ in 0..index {
        ch = Channel::new(Event::DisplayProcessed(DisplayProcessedEvent {}));
        ui.process_event(&ch, &mut a);
    }
    ui.send_next_view(&mut ch, &a, Response::Success);
    let frames = ch.close(true);
    frames.first().map(|f| f.chunks.concat())
}

#[test]
fn replay_gives_each_element_whatever_the_order() {
    let a = app();
    let forward: Vec<Option<Vec<u8>>> = (0..4).map(|i| realize(&a, i)).collect();
    let backward: Vec<Option<Vec<u8>>> = (0..4).rev().map(|i| realize(&a, i)).collect();
    let mut reversed = backward.clone();
    reversed.reverse();
    assert_eq!(forward, reversed);
    assert!(forward[0].is_some() && forward[1].is_some() && forward[2].is_some());
    assert_eq!(forward[3], None);
    let expected = Status::ScreenDisplay(line(12, "Rust", ScrollMode::Once { delay: Duration::from_millis(1000), speed: 26 }).to_display_status(0));
    assert_eq!(forward[2].as_ref().unwrap(), &wire(&expected));
}

#[test]
fn full_pass_sends_one_element_per_event() {
    let mut a = app();
    let mut ui: Middleware<BasicAction, App> = Middleware::new();
    let mut ch = Channel::new(Event::StartLoop);
    assert!(ui.process_event(&ch, &mut a).redraw);
    ui.send_next_view(&mut ch, &a, Response::Success);
    assert!(ch.status_sent());
    let frames = ch.close(false);
    assert_eq!(frames.len(), 1);
    assert_eq!(frames[0].kind, FrameKind::Status);
    assert_eq!(frames[0].chunks.concat()[0..3], [0x65, 0, 28]);
    for _ in 0..2 {
        let mut ch = Channel::new(Event::DisplayProcessed(DisplayProcessedEvent {}));
        assert!(!ui.process_event(&ch, &mut a).redraw);
        ui.send_next_view(&mut ch, &a, Response::Success);
        assert!(ch.status_sent());
    }
    let mut ch = Channel::new(Event::DisplayProcessed(DisplayProcessedEvent {}));
    assert!(!ui.process_event(&ch, &mut a).redraw);
    ui.send_next_view(&mut ch, &a, Response::Success);
    assert!(!ch.status_sent());
}

#[test]
fn host_ignore_leaves_channel_open() {
    let mut a = app();
    let mut ui: Middleware<BasicAction, App> = Middleware::new();
    let mut ch = Channel::new(Event::StartLoop);
    let outcome = ui.process_event(&ch, &mut a);
    assert!(outcome.redraw);
    assert_eq!(outcome.action, None);
    assert!(a.actions.is_empty());
    ui.send_next_view(&mut ch, &a, Response::Ignore);
    assert!(!ch.status_sent());
    ui.send_next_view(&mut ch, &a, Response::Continue);
    assert!(!ch.status_sent());
}

#[test]
fn version_gates_redraw() {
    let mut a = app();
    let mut ui: Middleware<BasicAction, App> = Middleware::new();
    let mut ch = Channel::new(Event::StartLoop);
    assert!(ui.process_event(&ch, &mut a).redraw);
    ui.send_next_view(&mut ch, &a, Response::Success);
    let mut ch = Channel::new(Event::DisplayProcessed(DisplayProcessedEvent {}));
    ui.process_event(&ch, &mut a);
    ui.send_next_view(&mut ch, &a, Response::Success);
    assert!(ch.status_sent());

    // The state changes but keeps its version: no new pass starts.
    a.texts = vec!["Other"];
    let mut ch = Channel::new(Event::Ticker(TickerEvent {}));
    assert!(!ui.process_event(&ch, &mut a).redraw);
    ui.send_next_view(&mut ch, &a, Response::Success);
    assert!(!ch.status_sent());
    assert!(!ui.redraw_if_needed(&a));

    // A new version starts over at the first element.
    a.version = 2;
    let mut ch = Channel::new(Event::Ticker(TickerEvent {}));
    assert!(ui.process_event(&ch, &mut a).redraw);
    ui.send_next_view(&mut ch, &a, Response::Success);
    let frames = ch.close(false);
    let first = RectangleView { frame: Frame { x: 0, y: 0, width: 128, height: 32 }, fill: FillMode::Fill, ..Default::default() };
    assert_eq!(frames[0].chunks.concat(), wire(&Status::ScreenDisplay(first.to_display_status(0))));
}

fn push(ui: &mut Middleware<BasicAction, App>, a: &mut App, raw: u8) {
    let ch = Channel::new(Event::ButtonPush(ButtonPushEvent { flags: raw << 1 }));
    ui.process_event(&ch, a);
}

fn drawn() -> (Middleware<BasicAction, App>, App) {
    let mut a = app();
    let mut ui: Middleware<BasicAction, App> = Middleware::new();
    let mut ch = Channel::new(Event::StartLoop);
    ui.process_event(&ch, &mut a);
    ui.send_next_view(&mut ch, &a, Response::Success);
    for _ in 0..3 {
        let mut ch = Channel::new(Event::DisplayProcessed(DisplayProcessedEvent {}));
        ui.process_event(&ch, &mut a);
        ui.send_next_view(&mut ch, &a, Response::Success);
    }
    (ui, a)
}

#[test]
fn tap_fires_once_on_release() {
    let (mut ui, mut a) = drawn();
    for _ in 0..5 {
        push(&mut ui, &mut a, 1);
    }
    assert!(a.actions.is_empty());
    let ch = Channel::new(Event::ButtonPush(ButtonPushEvent { flags: 0 }));
    let outcome = ui.process_event(&ch, &mut a);
    assert_eq!(outcome.action, Some(BasicAction::Previous));
    assert!(!outcome.redraw);
    assert_eq!(a.actions, vec![BasicAction::Previous]);
}

#[test]
fn hold_repeats_and_release_adds_nothing() {
    let (mut ui, mut a) = drawn();
    // Samples 1 to 16: counts 0 to 15; repeats at counts 9, 12 and 15.
    for _ in 0..16 {
        push(&mut ui, &mut a, 1);
    }
    assert_eq!(a.actions, vec![BasicAction::Previous; 3]);
    push(&mut ui, &mut a, 0);
    assert_eq!(a.actions, vec![BasicAction::Previous; 3]);
}

#[test]
fn both_buttons_confirm_on_release() {
    let (mut ui, mut a) = drawn();
    push(&mut ui, &mut a, 1);
    push(&mut ui, &mut a, 3);
    push(&mut ui, &mut a, 2);
    assert!(a.actions.is_empty());
    push(&mut ui, &mut a, 0);
    assert_eq!(a.actions, vec![BasicAction::Confirm]);
    push(&mut ui, &mut a, 2);
    push(&mut ui, &mut a, 0);
    assert_eq!(a.actions, vec![BasicAction::Confirm, BasicAction::Next]);
}

#[test]
fn countdown_clamps_to_minimum() {
    let t = resolve_wait_time(
        Duration::from_millis(1000),
        true,
        Duration::from_millis(500),
        Some(Duration::from_millis(3000)),
        Some(Duration::from_millis(30000)),
    );
    assert_eq!(t.as_millis(), 3000);
    let t = resolve_wait_time(Duration::from_millis(1000), true, Duration::from_millis(45000), Some(Duration::from_millis(3000)), Some(Duration::from_millis(30000)));
    assert_eq!(t.as_millis(), 30000);
    let t = resolve_wait_time(Duration::from_millis(1000), false, Duration::from_millis(4000), None, None);
    assert_eq!(t.as_millis(), 1000);
    let t = resolve_wait_time(Duration::from_millis(1000), true, Duration::from_millis(4000), None, None);
    assert_eq!(t.as_millis(), 4000);
}

#[test]
fn countdown_fires_once_after_its_wait() {
    let mut a = app();
    a.countdown = true;
    a.texts = vec![];
    let mut ui: Middleware<BasicAction, App> = Middleware::new();
    let mut ch = Channel::new(Event::StartLoop);
    ui.process_event(&ch, &mut a);
    ui.send_next_view(&mut ch, &a, Response::Success);
    let mut ch = Channel::new(Event::DisplayProcessed(DisplayProcessedEvent {}));
    ui.process_event(&ch, &mut a);
    ui.send_next_view(&mut ch, &a, Response::Success);
    assert!(!ch.status_sent());
    for _ in 0..29 {
        ui.process_event(&Channel::new(Event::Ticker(TickerEvent {})), &mut a);
    }
    assert!(a.actions.is_empty());
    ui.process_event(&Channel::new(Event::Ticker(TickerEvent {})), &mut a);
    assert_eq!(a.actions, vec![BasicAction::Next]);
    for _ in 0..50 {
        ui.process_event(&Channel::new(Event::Ticker(TickerEvent {})), &mut a);
    }
    assert_eq!(a.actions, vec![BasicAction::Next]);
}

#[test]
fn countdown_waits_for_long_scroll() {
    let mut a = app();
    a.countdown = true;
    a.texts = vec!["4ecbde854d829816358041c8b393fa4d51"];
    let mut ui: Middleware<BasicAction, App> = Middleware::new();
    let mut ch = Channel::new(Event::StartLoop);
    ui.process_event(&ch, &mut a);
    ui.send_next_view(&mut ch, &a, Response::Success);
    for _ in 0..2 {
        let mut ch = Channel::new(Event::DisplayProcessed(DisplayProcessedEvent {}));
        ui.process_event(&ch, &mut a);
        ui.send_next_view(&mut ch, &a, Response::Success);
    }
    // 34 characters: 238 px, 138 px too wide; at speed 26:
    // 2 * (138000 / 26) + 2 * 1000 = 2 * 5307 + 2000 = 12614 ms, so 127 ticks.
    for _ in 0..126 {
        ui.process_event(&Channel::new(Event::Ticker(TickerEvent {})), &mut a);
    }
    assert!(a.actions.is_empty());
    ui.process_event(&Channel::new(Event::Ticker(TickerEvent {})), &mut a);
    assert_eq!(a.actions, vec![BasicAction::Next]);
}

#[test]
fn channel_sends_default_status_when_unanswered() {
    let ch = Channel::new(Event::StartLoop);
    let frames = ch.close(false);
    assert_eq!(frames.len(), 1);
    assert_eq!(frames[0].kind, FrameKind::Status);
    assert_eq!(frames[0].chunks.concat(), vec![0x60, 0, 2, 0, 0]);
}

#[test]
fn channel_sends_exactly_one_status() {
    let mut ch = Channel::new(Event::StartLoop);
    let payload = [9u8];
    ch.send_command(&bolos::seproxyhal::command::Command { tag: 0x50, payload: &payload });
    assert!(!ch.status_sent());
    ch.send_status(&Status::General(GeneralStatus {}));
    let frames = ch.close(false);
    let kinds: Vec<FrameKind> = frames.iter().map(|f| f.kind).collect();
    assert_eq!(kinds, vec![FrameKind::Command, FrameKind::Status]);

    let ch = Channel::new(Event::StartLoop);
    assert!(ch.close(true).is_empty());
}

#[test]
fn message_loop_starts_without_reading() {
    let mut ml = MessageLoop::new();
    assert!(ml.is_first());
    let ch = ml.next(false).unwrap();
    assert_eq!(ch.event(), Event::StartLoop);
    assert!(!ml.is_first());
    assert!(ml.next(false).is_none());
    let mut ml = MessageLoop::new();
    assert!(ml.next(true).is_none());
    let ch = ml.receive(&[0x0E, 0, 0]).unwrap();
    assert!(matches!(ch.event(), Event::Ticker(_)));
    assert!(ml.receive(&[0x01, 0, 0]).is_none());
}
