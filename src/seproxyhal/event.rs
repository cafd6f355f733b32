use vstd::prelude::*;
use crate::seproxyhal::packet::read_be_u16;

verus! {

/// Tag of an event that reports the buttons' state.
pub const BUTTON_PUSH_TAG: u8 = 0x05;

/// Tag of an event that acknowledges the last screen element.
pub const DISPLAY_PROCESSED_TAG: u8 = 0x0D;

/// Tag of a timer tick.
pub const TICKER_TAG: u8 = 0x0E;

#[derive(Clone, Copy, Debug, PartialEq, Eq, Structural)]
enum EventTag {
    ButtonPush,
    DisplayProcessed,
    Ticker,
}

impl EventTag {
    fn from_u8(value: u8) -> (r: Option<EventTag>)
        ensures
            value == BUTTON_PUSH_TAG ==> r == Some(EventTag::ButtonPush),
            value == DISPLAY_PROCESSED_TAG ==> r == Some(EventTag::DisplayProcessed),
            value == TICKER_TAG ==> r == Some(EventTag::Ticker),
            value != BUTTON_PUSH_TAG && value != DISPLAY_PROCESSED_TAG && value != TICKER_TAG
                ==> r is None,
    {
        if value == BUTTON_PUSH_TAG {
            Some(EventTag::ButtonPush)
        } else if value == DISPLAY_PROCESSED_TAG {
            Some(EventTag::DisplayProcessed)
        } else if value == TICKER_TAG {
            Some(EventTag::Ticker)
        } else {
            None
        }
    }
}

/// The buttons' state: one bit per button, above a reserved low bit.
#[derive(Clone, Copy, Debug, PartialEq, Eq, Structural)]
pub struct ButtonPushEvent {
    pub flags: u8,
}

impl ButtonPushEvent {
    fn from_bytes(raw: &[u8]) -> (r: Option<ButtonPushEvent>)
        ensures
            raw@.len() == 1 ==> r == Some(ButtonPushEvent { flags: raw@[0] }),
            raw@.len() != 1 ==> r is None,
    {
        if raw.len() != 1 {
            None
        } else {
            Some(ButtonPushEvent { flags: raw[0] })
        }
    }
}

/// The host has shown the last screen element and is ready for the next.
#[derive(Clone, Copy, Debug, PartialEq, Eq, Structural)]
pub struct DisplayProcessedEvent {}

impl DisplayProcessedEvent {
    fn from_bytes(raw: &[u8]) -> (r: Option<DisplayProcessedEvent>)
        ensures
            raw@.len() == 0 <==> r is Some,
    {
        if raw.len() != 0 {
            None
        } else {
            Some(DisplayProcessedEvent {  })
        }
    }
}

/// A timer tick, about every 100 ms.
#[derive(Clone, Copy, Debug, PartialEq, Eq, Structural)]
pub struct TickerEvent {}

impl TickerEvent {
    fn from_bytes(raw: &[u8]) -> (r: Option<TickerEvent>)
        ensures
            raw@.len() == 0 <==> r is Some,
    {
        if raw.len() != 0 {
            None
        } else {
            Some(TickerEvent {  })
        }
    }
}

/// One event from the host.
#[derive(Clone, Copy, Debug, PartialEq, Eq, Structural)]
pub enum Event {
    /// Stands for the first event, when the host has none to deliver.
    StartLoop,
    ButtonPush(ButtonPushEvent),
    DisplayProcessed(DisplayProcessedEvent),
    Ticker(TickerEvent),
}

/// The event that a frame holds: a tag, a big-endian length and that many
/// bytes of data, which may be followed by bytes that do not count. `None`
/// for a frame that is cut short, has an unknown tag, or data of the wrong
/// size for its tag.
pub open spec fn decode_event(raw: Seq<u8>) -> Option<Event> {
    if raw.len() < 3 {
        None
    } else {
        let len = raw[1] as int * 256 + raw[2] as int;
        if 3 + len > raw.len() {
            None
        } else if raw[0] == BUTTON_PUSH_TAG && len == 1 {
            Some(Event::ButtonPush(ButtonPushEvent { flags: raw[3] }))
        } else if raw[0] == DISPLAY_PROCESSED_TAG && len == 0 {
            Some(Event::DisplayProcessed(DisplayProcessedEvent {  }))
        } else if raw[0] == TICKER_TAG && len == 0 {
            Some(Event::Ticker(TickerEvent {  }))
        } else {
            None
        }
    }
}

impl Event {
    /// Decodes the event in one frame from the host.
    pub fn from_bytes(raw: &[u8]) -> (r: Option<Event>)
        ensures
            r == decode_event(raw@),
    {
        if raw.len() < 3 {
            return None;
        }
        let tag = EventTag::from_u8(raw[0]);
        let data_len = read_be_u16(&raw[1..3]) as usize;
        if data_len > raw.len() - 3 {
            return None;
        }
        let data = &raw[3..3 + data_len];
        match tag {
            Some(EventTag::ButtonPush) => match ButtonPushEvent::from_bytes(data) {
                Some(e) => Some(Event::ButtonPush(e)),
                None => None,
            },
            Some(EventTag::DisplayProcessed) => match DisplayProcessedEvent::from_bytes(data) {
                Some(e) => Some(Event::DisplayProcessed(e)),
                None => None,
            },
            Some(EventTag::Ticker) => match TickerEvent::from_bytes(data) {
                Some(e) => Some(Event::Ticker(e)),
                None => None,
            },
            None => None,
        }
    }
}

} // verus!
