//! Code dealing with the handling of reports from the device.
//!
//! Reports come from the device on their own schedule. Each becomes an
//! [`Event`] and waits in a [`Queue`] until the consumer asks for it. The
//! queue neither reorders nor merges what it holds, and asking never waits.
use vstd::prelude::*;
use std::collections::VecDeque;
use crate::{Capability, Tablet};

verus! {

/// A sample of the pen, as the native interface reports it.
#[derive(Debug, Clone, Copy, PartialEq, Eq, Hash, Structural)]
pub struct PenData {
    /// Whether the pen is close enough to the surface to be tracked.
    pub rdy: bool,
    /// The state of the tip switch: zero while the pen does not touch.
    pub sw: u8,
    /// The pressure on the tip.
    pub pressure: u16,
    /// The horizontal position on the input grid.
    pub x: u16,
    /// The vertical position on the input grid.
    pub y: u16,
}

/// One report from the device.
#[derive(Debug, Clone, PartialEq, Eq)]
pub enum Event {
    /// A sample of the pen.
    Pen {
        /// The horizontal position on the input grid.
        x: u16,
        /// The vertical position on the input grid.
        y: u16,
        /// The pressure on the tip.
        pressure: u16,
        /// Whether the pen is close enough to the surface to be tracked.
        in_range: bool,
        /// Whether the pen touches the surface.
        touching: bool,
    },
    /// A report of another kind, such as a change in the state of the device
    /// or of a button, with its bytes as they came.
    Other {
        /// The identifier of the report.
        report_id: u32,
        /// The bytes of the report.
        payload: Vec<u8>,
    },
}

impl Event {
    /// The event that a sample of the pen stands for.
    pub open spec fn of_pen(pen: PenData) -> Event {
        Event::Pen {
            x: pen.x,
            y: pen.y,
            pressure: pen.pressure,
            in_range: pen.rdy,
            touching: pen.sw != 0,
        }
    }

    /// Makes the event for a sample of the pen. Position and pressure are
    /// kept as they came.
    pub fn from_pen_data(pen: &PenData) -> (event: Event)
        ensures
            event == Self::of_pen(*pen),
    {
        Event::Pen {
            x: pen.x,
            y: pen.y,
            pressure: pen.pressure,
            in_range: pen.rdy,
            touching: pen.sw != 0,
        }
    }

    /// Makes the event for a report of another kind.
    pub fn from_report(report_id: u32, payload: Vec<u8>) -> (event: Event)
        ensures
            event == (Event::Other { report_id, payload }),
    {
        Event::Other { report_id, payload }
    }

    /// The identifier that a report declares: its first byte. A report
    /// without bytes declares none, and counts as report zero.
    pub open spec fn declared_id(report: Seq<u8>) -> u32 {
        if report.len() > 0 {
            report[0] as u32
        } else {
            0
        }
    }

    /// Makes the event for one report from the device.
    ///
    /// `pen` is the sample that the native interface read from the report,
    /// where the report was one of the pen. Any other report becomes an event
    /// of the kind that the report declares, with its bytes as they came.
    pub fn decode(pen: Option<PenData>, report: Vec<u8>) -> (event: Event)
        ensures
            event == (match pen {
                Some(pen) => Self::of_pen(pen),
                None => Event::Other { report_id: Self::declared_id(report@), payload: report },
            }),
    {
        match pen {
            Some(pen) => Self::from_pen_data(&pen),
            None => {
                let report_id: u32 = if report.len() > 0 {
                    report[0] as u32
                } else {
                    0
                };
                Self::from_report(report_id, report)
            },
        }
    }
}

/// What one look at the device found.
#[derive(Debug, Clone, PartialEq, Eq)]
pub enum Delivery {
    /// A report, as the event it stands for.
    Report(Event),
    /// Nothing: the device has no report at present.
    Idle,
    /// Nothing, and nothing will come: reading failed, or the tablet is gone.
    Closed,
}

/// What the side of the device does after a look at the device.
#[derive(Debug, Clone, Copy, PartialEq, Eq, Hash, Structural)]
pub enum Pace {
    /// Look again at once.
    Again,
    /// Look again after a pause.
    Pause,
    /// Stop looking.
    Stop,
}

/// Why `try_recv` had no event to give.
#[derive(Debug, Clone, Copy, PartialEq, Eq, Hash, Structural)]
pub enum TryRecvError {
    /// No event is waiting, and more may come.
    Empty,
    /// No event is waiting, and none will come: the tablet is gone.
    Disconnected,
}

/// A queue of the events of one tablet.
///
/// The side of the device adds events with [`push`](Queue::push) for as
/// long as the tablet is connected. The consumer takes them, oldest first,
/// with [`try_recv`](Queue::try_recv).
#[derive(Debug)]
pub struct Queue {
    /// The capabilities that the tablet had when the queue was opened.
    capability: Capability,
    /// The events that wait for the consumer, oldest first.
    events: VecDeque<Event>,
    /// Whether the side of the device can still add events.
    connected: bool,
}

impl Queue {
    /// The events that wait for the consumer, oldest first.
    pub closed spec fn pending(&self) -> Seq<Event> {
        self.events@
    }

    /// Whether the side of the device can still add events.
    pub closed spec fn is_connected(&self) -> bool {
        self.connected
    }

    /// The capabilities that the tablet had when the queue was opened.
    pub closed spec fn spec_capability(&self) -> Capability {
        self.capability
    }

    /// What `try_recv` returns when `pending` waits in a queue.
    pub open spec fn received(pending: Seq<Event>, connected: bool) -> Result<
        Event,
        TryRecvError,
    > {
        if pending.len() > 0 {
            Ok(pending[0])
        } else if connected {
            Err(TryRecvError::Empty)
        } else {
            Err(TryRecvError::Disconnected)
        }
    }

    /// What waits in a queue after `try_recv`, where `pending` waited
    /// before.
    pub open spec fn after_recv(pending: Seq<Event>) -> Seq<Event> {
        if pending.len() > 0 {
            pending.drop_first()
        } else {
            pending
        }
    }

    /// What waits in a queue after `push`, where `pending` waited before.
    pub open spec fn after_push(pending: Seq<Event>, connected: bool, event: Event) -> Seq<
        Event,
    > {
        if connected {
            pending.push(event)
        } else {
            pending
        }
    }

    /// Opens a queue for the events of `tablet`. Nothing waits in it yet.
    ///
    /// A tablet has one queue at a time.
    pub fn new(tablet: &Tablet, caps: Capability) -> (queue: Queue)
        ensures
            queue.pending() == Seq::<Event>::empty(),
            queue.is_connected(),
            queue.spec_capability() == caps,
    {
        Queue { capability: caps, events: VecDeque::new(), connected: true }
    }

    /// The capabilities that the tablet had when the queue was opened.
    #[verifier::when_used_as_spec(spec_capability)]
    pub fn capability(&self) -> (caps: Capability)
        ensures
            caps == self.spec_capability(),
    {
        self.capability
    }

    /// Adds an event behind those that wait. This is the side of the device,
    /// and it never waits for the consumer.
    ///
    /// Returns whether the event was taken. Once the tablet is gone none is.
    pub fn push(&mut self, event: Event) -> (taken: bool)
        ensures
            taken == old(self).is_connected(),
            final(self).pending() == Self::after_push(
                old(self).pending(),
                old(self).is_connected(),
                event,
            ),
            final(self).is_connected() == old(self).is_connected(),
            final(self).spec_capability() == old(self).spec_capability(),
    {
        if self.connected {
            self.events.push_back(event);
            true
        } else {
            false
        }
    }

    /// What waits in a queue after `deliver`, where `pending` waited before.
    pub open spec fn after_delivery(pending: Seq<Event>, connected: bool, found: Delivery) -> Seq<
        Event,
    > {
        match found {
            Delivery::Report(event) => Self::after_push(pending, connected, event),
            _ => pending,
        }
    }

    /// What the side of the device does after `deliver`.
    pub open spec fn pace_after(connected: bool, found: Delivery) -> Pace {
        if !connected {
            Pace::Stop
        } else {
            match found {
                Delivery::Report(_) => Pace::Again,
                Delivery::Idle => Pace::Pause,
                Delivery::Closed => Pace::Stop,
            }
        }
    }

    /// Takes in what one look at the device found, and says how the side of
    /// the device goes on.
    ///
    /// A report is pushed and the next look follows at once. Without a report
    /// the next look follows after a pause. Once reading has failed or the
    /// tablet is gone, the queue is disconnected and the looking stops.
    pub fn deliver(&mut self, found: Delivery) -> (pace: Pace)
        ensures
            pace == Self::pace_after(old(self).is_connected(), found),
            final(self).pending() == Self::after_delivery(
                old(self).pending(),
                old(self).is_connected(),
                found,
            ),
            final(self).is_connected() == (old(self).is_connected() && !(found is Closed)),
            final(self).spec_capability() == old(self).spec_capability(),
    {
        if !self.connected {
            return Pace::Stop;
        }
        match found {
            Delivery::Report(event) => {
                self.push(event);
                Pace::Again
            },
            Delivery::Idle => Pace::Pause,
            Delivery::Closed => {
                self.disconnect();
                Pace::Stop
            },
        }
    }

    /// Tells the queue that the tablet is gone. What waits stays for the
    /// consumer; nothing more is added.
    pub fn disconnect(&mut self)
        ensures
            !final(self).is_connected(),
            final(self).pending() == old(self).pending(),
            final(self).spec_capability() == old(self).spec_capability(),
    {
        self.connected = false;
    }

    /// Takes the oldest event that waits, without ever waiting itself.
    ///
    /// Where none waits, the error says whether more may come.
    pub fn try_recv(&mut self) -> (result: Result<Event, TryRecvError>)
        ensures
            result == Self::received(old(self).pending(), old(self).is_connected()),
            final(self).pending() == Self::after_recv(old(self).pending()),
            final(self).is_connected() == old(self).is_connected(),
            final(self).spec_capability() == old(self).spec_capability(),
    {
        match self.events.pop_front() {
            Some(event) => {
                assert(self.events@ =~= old(self).events@.drop_first());
                Ok(event)
            },
            None => {
                if self.connected {
                    Err(TryRecvError::Empty)
                } else {
                    Err(TryRecvError::Disconnected)
                }
            },
        }
    }
}

/// What waits in a queue after each of `events` was pushed in turn, where
/// `pending` waited before.
pub open spec fn after_pushes(pending: Seq<Event>, connected: bool, events: Seq<Event>) -> Seq<
    Event,
>
    decreases events.len(),
{
    if events.len() == 0 {
        pending
    } else {
        after_pushes(
            Queue::after_push(pending, connected, events[0]),
            connected,
            events.drop_first(),
        )
    }
}

/// What waits in a queue after `count` calls of `try_recv`, where `pending`
/// waited before.
pub open spec fn after_recvs(pending: Seq<Event>, count: nat) -> Seq<Event>
    decreases count,
{
    if count == 0 {
        pending
    } else {
        after_recvs(Queue::after_recv(pending), (count - 1) as nat)
    }
}

/// Pushing events one after the other, while the tablet is connected, puts
/// them behind what waits, in the order in which they were pushed.
pub proof fn pushes_append(pending: Seq<Event>, events: Seq<Event>)
    ensures
        after_pushes(pending, true, events) == pending + events,
    decreases events.len(),
{
    if events.len() == 0 {
        assert(pending + events =~= pending);
    } else {
        pushes_append(pending.push(events[0]), events.drop_first());
        assert(pending.push(events[0]) + events.drop_first() =~= pending + events);
    }
}

/// Once the tablet is gone, pushing changes nothing.
pub proof fn pushes_after_disconnect_are_dropped(pending: Seq<Event>, events: Seq<Event>)
    ensures
        after_pushes(pending, false, events) == pending,
    decreases events.len(),
{
    if events.len() > 0 {
        pushes_after_disconnect_are_dropped(pending, events.drop_first());
    }
}

/// Receiving `count` times takes the `count` oldest events away, or all of
/// them where fewer wait.
pub proof fn recvs_skip(pending: Seq<Event>, count: nat)
    ensures
        after_recvs(pending, count) == pending.skip(
            if count <= pending.len() {
                count as int
            } else {
                pending.len() as int
            },
        ),
    decreases count,
{
    if count == 0 {
        assert(pending.skip(0) =~= pending);
    } else if pending.len() == 0 {
        recvs_skip(pending, (count - 1) as nat);
        assert(pending.skip(0) =~= pending);
    } else {
        recvs_skip(pending.drop_first(), (count - 1) as nat);
        let rest = if count - 1 <= pending.len() - 1 {
            count - 1
        } else {
            pending.len() - 1
        };
        assert(pending.drop_first().skip(rest) =~= pending.skip(rest + 1));
    }
}

/// The queue keeps the order of the events: of the events pushed into an
/// empty queue of a connected tablet, the receive after `taken` earlier ones
/// returns the event pushed after `taken` earlier ones. Once all are taken,
/// it returns `Empty` while the tablet is connected and `Disconnected` when
/// it is gone.
pub proof fn queue_keeps_order(events: Seq<Event>, taken: nat, connected: bool)
    ensures
        Queue::received(
            after_recvs(after_pushes(Seq::<Event>::empty(), true, events), taken),
            connected,
        ) == (if taken < events.len() {
            Ok::<Event, TryRecvError>(events[taken as int])
        } else if connected {
            Err::<Event, TryRecvError>(TryRecvError::Empty)
        } else {
            Err::<Event, TryRecvError>(TryRecvError::Disconnected)
        }),
{
    pushes_append(Seq::<Event>::empty(), events);
    assert(Seq::<Event>::empty() + events =~= events);
    recvs_skip(events, taken);
}

/// After the tablet is gone and the queue is empty, every receive reports
/// the disconnection, whatever the side of the device still tries to add.
pub proof fn drained_queue_reports_disconnection(late: Seq<Event>, taken: nat)
    ensures
        Queue::received(
            after_recvs(after_pushes(Seq::<Event>::empty(), false, late), taken),
            false,
        ) == Err::<Event, TryRecvError>(TryRecvError::Disconnected),
{
    pushes_after_disconnect_are_dropped(Seq::<Event>::empty(), late);
    recvs_skip(Seq::<Event>::empty(), taken);
}

} // verus!
