//! The host protocol: typed events in, framed statuses and commands out.
pub mod packet;
pub mod status;
pub mod event;
pub mod command;

use vstd::prelude::*;
use crate::seproxyhal::packet::{Packet, send, chunk_views};
use crate::seproxyhal::event::Event;
use crate::seproxyhal::command::Command;
use crate::seproxyhal::status::{Status, GeneralStatus};

verus! {

/// Whether a frame answers the pending event or only asks something of the host.
#[derive(Clone, Copy, Debug, PartialEq, Eq, Structural)]
pub enum FrameKind {
    Command,
    Status,
}

/// A frame that is due for the host, in the chunks in which it goes out.
pub struct Frame {
    pub kind: FrameKind,
    pub chunks: Vec<Vec<u8>>,
}

impl Frame {
    /// The frame's bytes.
    pub open spec fn bytes(&self) -> Seq<u8> {
        chunk_views(self.chunks@).flatten()
    }
}

/// How many of `kinds` are statuses.
pub open spec fn status_count(kinds: Seq<FrameKind>) -> nat
    decreases kinds.len(),
{
    if kinds.len() == 0 {
        0
    } else {
        status_count(kinds.drop_last()) + if kinds.last() == FrameKind::Status {
            1nat
        } else {
            0nat
        }
    }
}

proof fn lemma_status_count_push(kinds: Seq<FrameKind>, k: FrameKind)
    ensures
        status_count(kinds.push(k)) == status_count(kinds) + if k == FrameKind::Status {
            1nat
        } else {
            0nat
        },
{
    assert(kinds.push(k).drop_last() =~= kinds);
}

/// One event from the host and the frames that answer it.
///
/// The host waits for exactly one status per event. Commands may go before
/// it; once the status is out, nothing more goes on this channel.
pub struct Channel {
    pub event: Event,
    status_sent: bool,
    frames: Vec<Frame>,
}

impl Channel {
    /// The kinds of the frames sent so far, in order.
    pub closed spec fn kinds(&self) -> Seq<FrameKind> {
        self.frames@.map_values(|f: Frame| f.kind)
    }

    /// The bytes of the frames sent so far, in order.
    pub closed spec fn sent(&self) -> Seq<Seq<u8>> {
        self.frames@.map_values(|f: Frame| f.bytes())
    }

    /// The event that the channel answers.
    pub closed spec fn spec_event(&self) -> Event {
        self.event
    }

    pub closed spec fn is_answered(&self) -> bool {
        self.status_sent
    }

    /// A status has gone out exactly when the channel counts one.
    pub closed spec fn wf(&self) -> bool {
        status_count(self.kinds()) == if self.status_sent {
            1nat
        } else {
            0nat
        }
    }

    /// A channel for `event`, with nothing sent yet.
    pub fn new(event: Event) -> (r: Channel)
        ensures
            r.wf(),
            r.spec_event() == event,
            !r.is_answered(),
            r.kinds() == Seq::<FrameKind>::empty(),
            r.sent() == Seq::<Seq<u8>>::empty(),
    {
        let r = Channel { event, status_sent: false, frames: Vec::new() };
        assert(r.kinds() =~= Seq::<FrameKind>::empty());
        assert(r.sent() =~= Seq::<Seq<u8>>::empty());
        r
    }

    /// The event that the channel answers.
    pub fn event(&self) -> (r: Event)
        ensures
            r == self.spec_event(),
    {
        self.event
    }

    /// Whether the event has been answered.
    pub fn status_sent(&self) -> (r: bool)
        ensures
            r == self.is_answered(),
    {
        self.status_sent
    }

    fn push_frame<T: Packet>(&mut self, kind: FrameKind, packet: &T)
        requires
            old(self).wf(),
            !old(self).is_answered(),
        ensures
            final(self).spec_event() == old(self).spec_event(),
            final(self).is_answered() == (kind == FrameKind::Status),
            final(self).wf(),
            final(self).kinds() == old(self).kinds().push(kind),
            final(self).sent() == old(self).sent().push(packet.wire()),
    {
        let chunks = send(packet);
        let ghost before = self.frames@;
        self.frames.push(Frame { kind, chunks });
        if kind == FrameKind::Status {
            self.status_sent = true;
        }
        proof {
            assert(self.kinds() =~= before.map_values(|f: Frame| f.kind).push(kind));
            assert(self.sent() =~= before.map_values(|f: Frame| f.bytes()).push(packet.wire()));
            lemma_status_count_push(before.map_values(|f: Frame| f.kind), kind);
        }
    }

    /// Sends a command; the event stays unanswered.
    pub fn send_command(&mut self, command: &Command)
        requires
            old(self).wf(),
            !old(self).is_answered(),
        ensures
            final(self).wf(),
            final(self).spec_event() == old(self).spec_event(),
            !final(self).is_answered(),
            final(self).kinds() == old(self).kinds().push(FrameKind::Command),
            final(self).sent() == old(self).sent().push(command.wire()),
    {
        self.push_frame(FrameKind::Command, command)
    }

    /// Answers the event with `status`.
    pub fn send_status(&mut self, status: &Status)
        requires
            old(self).wf(),
            !old(self).is_answered(),
        ensures
            final(self).wf(),
            final(self).spec_event() == old(self).spec_event(),
            final(self).is_answered(),
            final(self).kinds() == old(self).kinds().push(FrameKind::Status),
            final(self).sent() == old(self).sent().push(status.wire()),
    {
        self.push_frame(FrameKind::Status, status)
    }

    /// Releases the channel and hands over what must go to the host, in
    /// order. Where neither the application nor the host itself
    /// (`host_status_sent`) answered the event, a general status closes the
    /// list, so that the host always sees exactly one status per event.
    pub fn close(self, host_status_sent: bool) -> (r: Vec<Frame>)
        requires
            self.wf(),
        ensures
            r@.map_values(|f: Frame| f.bytes()) == if !self.is_answered() && !host_status_sent {
                self.sent().push(GeneralStatus {  }.wire())
            } else {
                self.sent()
            },
            r@.map_values(|f: Frame| f.kind) == if !self.is_answered() && !host_status_sent {
                self.kinds().push(FrameKind::Status)
            } else {
                self.kinds()
            },
            status_count(r@.map_values(|f: Frame| f.kind)) + if host_status_sent
                && !self.is_answered() {
                1nat
            } else {
                0nat
            } == 1,
    {
        let mut ch = self;
        if !ch.status_sent && !host_status_sent {
            let general = Status::General(GeneralStatus {  });
            ch.send_status(&general);
        }
        proof {
            assert(ch.frames@.map_values(|f: Frame| f.kind) == ch.kinds());
        }
        ch.frames
    }
}

/// Drives the exchange with the host: one channel per event, for as long as
/// the device runs.
pub struct MessageLoop {
    running: bool,
}

impl MessageLoop {
    pub closed spec fn is_running(&self) -> bool {
        self.running
    }

    pub fn new() -> (r: MessageLoop)
        ensures
            !r.is_running(),
    {
        MessageLoop { running: false }
    }

    /// Whether the next iteration is the first, which asks the host whether
    /// it already has a status for its pending request.
    pub fn is_first(&self) -> (r: bool)
        ensures
            r == !self.is_running(),
    {
        !self.running
    }

    /// Begins an iteration. On the first one, where the host has no status
    /// pending (`host_status_sent` is false), there is no event to wait for:
    /// the application gets a `StartLoop` channel to draw its first screen.
    /// `None` means that the event must be read from the host.
    pub fn next(&mut self, host_status_sent: bool) -> (r: Option<Channel>)
        ensures
            final(self).is_running(),
            !old(self).is_running() && !host_status_sent ==> (r matches Some(ch) && ch.wf()
                && ch.spec_event() == Event::StartLoop && !ch.is_answered() && ch.kinds().len() == 0),
            old(self).is_running() || host_status_sent ==> r is None,
    {
        let first = !self.running;
        self.running = true;
        if first && !host_status_sent {
            Some(Channel::new(Event::StartLoop))
        } else {
            None
        }
    }

    /// The channel for an event read from the host; `None` where the frame
    /// holds no supported event.
    pub fn receive(&self, raw: &[u8]) -> (r: Option<Channel>)
        ensures
            crate::seproxyhal::event::decode_event(raw@) is None ==> r is None,
            crate::seproxyhal::event::decode_event(raw@) matches Some(e) ==> (r matches Some(ch)
                && ch.wf() && ch.spec_event() == e && !ch.is_answered() && ch.kinds().len() == 0),
    {
        match Event::from_bytes(raw) {
            Some(e) => Some(Channel::new(e)),
            None => None,
        }
    }
}

} // verus!
