//! Outboxes for events that an output worker cannot deliver at once.
use crate::session::types::WorkerEvent;
use tokio::sync::mpsc;
use vstd::prelude::*;

verus! {

/// The sending end of a bounded channel.
#[verifier::external_type_specification]
#[verifier::external_body]
#[verifier::reject_recursive_types(T)]
pub struct ExSender<T>(mpsc::Sender<T>);

/// How an attempt to deliver an event went.
pub enum Delivery {
    Sent,
    Full(WorkerEvent),
    Closed(WorkerEvent),
}

/// `Sender::try_send` either takes the event or hands the same event back, saying
/// whether the channel is full or closed. Which of these happens depends on the
/// receiving side.
#[verifier::external_body]
fn try_deliver(sender: &mpsc::Sender<WorkerEvent>, event: WorkerEvent) -> (delivery:
    Delivery)
    ensures
        delivery matches Delivery::Full(back) ==> back == event,
        delivery matches Delivery::Closed(back) ==> back == event,
{
    match sender.try_send(event) {
        Ok(()) => Delivery::Sent,
        Err(mpsc::error::TrySendError::Full(event)) => Delivery::Full(event),
        Err(mpsc::error::TrySendError::Closed(event)) => Delivery::Closed(event),
    }
}

/// The channel was offered `event` and `delivery` is how that went.
pub closed spec fn answered(
    sender: &mpsc::Sender<WorkerEvent>,
    event: WorkerEvent,
    delivery: Delivery,
) -> bool {
    call_ensures(try_deliver, (sender, event), delivery)
}

/// Offers an event to the channel. One that is not taken comes back.
pub(crate) fn deliver(sender: &mpsc::Sender<WorkerEvent>, event: WorkerEvent) -> (delivery:
    Delivery)
    ensures
        answered(sender, event, delivery),
        delivery matches Delivery::Full(back) ==> back == event,
        delivery matches Delivery::Closed(back) ==> back == event,
{
    try_deliver(sender, event)
}

/// Bounded outbox for events produced by a persistent output worker.
///
/// The actor channel is deliberately bounded. Output workers must keep pacing and accepting
/// control commands while that channel is full, so pending state is represented by semantic
/// slots instead of a second, hidden queue. Generation-scoped snapshots coalesce to the newest
/// value; an output failure supersedes all media state because the output can no longer recover.
#[derive(Debug)]
pub struct PendingWorkerEvents {
    pub output_failure: Option<WorkerEvent>,
    pub prebuffer: Option<WorkerEvent>,
    pub terminal: Option<WorkerEvent>,
    pub quality: Option<WorkerEvent>,
}

/// Whether an event can come from an output worker.
pub open spec fn from_output(event: WorkerEvent) -> bool {
    event is OutputFailed || event is CurrentPrebufferReady || event is CurrentEnded
        || event is CurrentFailed || event is CurrentNetworkQualityChanged
}

impl PendingWorkerEvents {
    pub open spec fn nothing() -> Self {
        PendingWorkerEvents { output_failure: None, prebuffer: None, terminal: None, quality: None }
    }

    /// Each slot holds only events of its kind, and an output failure stands alone.
    pub open spec fn wf(self) -> bool {
        &&& self.output_failure is Some ==> self.prebuffer is None && self.terminal is None
            && self.quality is None
        &&& self.output_failure matches Some(event) ==> event is OutputFailed
        &&& self.prebuffer matches Some(event) ==> event is CurrentPrebufferReady
        &&& self.terminal matches Some(event) ==> event is CurrentEnded || event is CurrentFailed
        &&& self.quality matches Some(event) ==> event is CurrentNetworkQualityChanged
    }

    /// The events held, in the order in which they leave.
    pub open spec fn backlog(self) -> Seq<WorkerEvent> {
        slot(self.output_failure) + slot(self.prebuffer) + slot(self.terminal) + slot(self.quality)
    }

    /// The outbox with `event` in its slot: the first output failure displaces
    /// everything and shuts out all that follows; else the newest of a kind stays.
    pub open spec fn stored(self, event: WorkerEvent) -> Self {
        if event is OutputFailed {
            PendingWorkerEvents {
                output_failure: if self.output_failure is Some {
                    self.output_failure
                } else {
                    Some(event)
                },
                ..PendingWorkerEvents::nothing()
            }
        } else if self.output_failure is Some {
            self
        } else if event is CurrentPrebufferReady {
            PendingWorkerEvents { prebuffer: Some(event), ..self }
        } else if event is CurrentEnded || event is CurrentFailed {
            PendingWorkerEvents { terminal: Some(event), ..self }
        } else {
            PendingWorkerEvents { quality: Some(event), ..self }
        }
    }

    /// The outbox without its first event.
    pub open spec fn popped(self) -> Self {
        if self.output_failure is Some {
            PendingWorkerEvents { output_failure: None, ..self }
        } else if self.prebuffer is Some {
            PendingWorkerEvents { prebuffer: None, ..self }
        } else if self.terminal is Some {
            PendingWorkerEvents { terminal: None, ..self }
        } else {
            PendingWorkerEvents { quality: None, ..self }
        }
    }

    pub fn store(&mut self, event: WorkerEvent)
        requires
            from_output(event),
        ensures
            *final(self) == old(self).stored(event),
            old(self).wf() ==> final(self).wf(),
    {
        match event {
            WorkerEvent::OutputFailed { .. } => {
                if self.output_failure.is_none() {
                    self.output_failure = Some(event);
                }
                self.prebuffer = None;
                self.terminal = None;
                self.quality = None;
            },
            WorkerEvent::CurrentPrebufferReady { .. } => {
                if self.output_failure.is_none() {
                    self.prebuffer = Some(event);
                }
            },
            WorkerEvent::CurrentEnded { .. } | WorkerEvent::CurrentFailed { .. } => {
                if self.output_failure.is_none() {
                    self.terminal = Some(event);
                }
            },
            _ => {
                if self.output_failure.is_none() {
                    self.quality = Some(event);
                }
            },
        }
    }

    pub fn pop(&mut self) -> (event: Option<WorkerEvent>)
        ensures
            match event {
                Some(event) => {
                    &&& old(self).backlog().len() > 0
                    &&& event == old(self).backlog()[0]
                    &&& *final(self) == old(self).popped()
                    &&& final(self).backlog() == old(self).backlog().subrange(
                        1,
                        old(self).backlog().len() as int,
                    )
                },
                None => *old(self) == PendingWorkerEvents::nothing() && *final(self) == *old(self),
            },
            old(self).wf() ==> final(self).wf() && (event matches Some(event) ==> from_output(
                event,
            )),
    {
        let event = if self.output_failure.is_some() {
            self.output_failure.take()
        } else if self.prebuffer.is_some() {
            self.prebuffer.take()
        } else if self.terminal.is_some() {
            self.terminal.take()
        } else {
            self.quality.take()
        };
        proof {
            if event is Some {
                assert(self.backlog() =~= old(self).backlog().subrange(
                    1,
                    old(self).backlog().len() as int,
                ));
            }
        }
        event
    }

    #[must_use]
    pub fn is_empty(&self) -> (empty: bool)
        ensures
            empty == (*self == PendingWorkerEvents::nothing()),
            empty == (self.backlog().len() == 0),
    {
        self.output_failure.is_none() && self.prebuffer.is_none() && self.terminal.is_none()
            && self.quality.is_none()
    }

    pub fn clear(&mut self)
        ensures
            *final(self) == PendingWorkerEvents::nothing(),
    {
        self.output_failure = None;
        self.prebuffer = None;
        self.terminal = None;
        self.quality = None;
    }

    /// Settles one delivery of a popped event; tells whether to go on flushing.
    pub fn settle(&mut self, delivery: Delivery) -> (go_on: bool)
        requires
            delivery matches Delivery::Full(event) ==> from_output(event),
        ensures
            go_on == (delivery is Sent),
            *final(self) == match delivery {
                Delivery::Sent => *old(self),
                Delivery::Full(event) => old(self).stored(event),
                // A closed channel completes every wait at once, so an event kept
                // here would turn the worker into a busy loop.
                Delivery::Closed(_) => PendingWorkerEvents::nothing(),
            },
            old(self).wf() ==> final(self).wf(),
    {
        match delivery {
            Delivery::Sent => true,
            Delivery::Full(event) => {
                self.store(event);
                false
            },
            Delivery::Closed(_) => {
                self.clear();
                false
            },
        }
    }
}

pub open spec fn slot(event: Option<WorkerEvent>) -> Seq<WorkerEvent> {
    match event {
        Some(event) => seq![event],
        None => Seq::empty(),
    }
}

impl Default for PendingWorkerEvents {
    fn default() -> (pending: Self)
        ensures
            pending == PendingWorkerEvents::nothing(),
    {
        PendingWorkerEvents { output_failure: None, prebuffer: None, terminal: None, quality: None }
    }
}

/// Sends an event, or keeps it if it cannot be sent now.
pub fn emit_worker_event(
    sender: &mpsc::Sender<WorkerEvent>,
    pending: &mut PendingWorkerEvents,
    event: WorkerEvent,
)
    requires
        old(pending).wf(),
        from_output(event),
    ensures
        final(pending).wf(),
        // Once an older event is pending, a new one never takes a channel slot
        // first: the receiver can free capacity at any time.
        *old(pending) != PendingWorkerEvents::nothing() ==> *final(pending) == old(pending).stored(
            event,
        ),
        // Else the channel is offered the event, and keeps it here only if full.
        *old(pending) == PendingWorkerEvents::nothing() ==> exists|delivery: Delivery| #[trigger]
            answered(sender, event, delivery) && *final(pending) == match delivery {
                Delivery::Full(_) => PendingWorkerEvents::nothing().stored(event),
                _ => PendingWorkerEvents::nothing(),
            },
{
    if !pending.is_empty() {
        pending.store(event);
        return ;
    }
    let delivery = deliver(sender, event);
    let _ = pending.settle(delivery);
}

/// An event that was taken out and put back leaves the outbox as it was.
proof fn putting_back_undoes_a_pop(pending: PendingWorkerEvents)
    requires
        pending.wf(),
        pending.backlog().len() > 0,
    ensures
        from_output(pending.backlog()[0]),
        pending.popped().stored(pending.backlog()[0]) == pending,
{
    if pending.output_failure is Some {
        assert(pending.backlog()[0] == pending.output_failure->0);
    } else if pending.prebuffer is Some {
        assert(pending.backlog()[0] == pending.prebuffer->0);
    } else if pending.terminal is Some {
        assert(pending.backlog()[0] == pending.terminal->0);
    } else {
        assert(pending.backlog()[0] == pending.quality->0);
    }
}

/// The channel took the first `sent` of `events`.
pub open spec fn took_first(
    sender: &mpsc::Sender<WorkerEvent>,
    events: Seq<WorkerEvent>,
    sent: int,
) -> bool {
    0 <= sent <= events.len() && forall|i: int|
        0 <= i < sent ==> answered(sender, #[trigger] events[i], Delivery::Sent)
}

/// After it took the first `sent` of `events` the channel was full, so that the
/// next one came back.
pub open spec fn filled_up(
    sender: &mpsc::Sender<WorkerEvent>,
    events: Seq<WorkerEvent>,
    sent: int,
) -> bool {
    took_first(sender, events, sent) && sent < events.len() && answered(
        sender,
        events[sent],
        Delivery::Full(events[sent]),
    )
}

/// After it took the first `sent` of `events` the channel was closed.
pub open spec fn closed_down(
    sender: &mpsc::Sender<WorkerEvent>,
    events: Seq<WorkerEvent>,
    sent: int,
) -> bool {
    took_first(sender, events, sent) && sent < events.len() && answered(
        sender,
        events[sent],
        Delivery::Closed(events[sent]),
    )
}

/// Sends as many pending events as the channel takes, oldest slot first.
pub fn flush_worker_events(
    sender: &mpsc::Sender<WorkerEvent>,
    pending: &mut PendingWorkerEvents,
)
    requires
        old(pending).wf(),
    ensures
        final(pending).wf(),
        ({
            let events = old(pending).backlog();
            ||| took_first(sender, events, events.len() as int) && *final(pending)
                == PendingWorkerEvents::nothing()
            ||| exists|sent: int| #[trigger]
                filled_up(sender, events, sent) && final(pending).backlog() == events.skip(sent)
            ||| exists|sent: int| #[trigger]
                closed_down(sender, events, sent) && *final(pending)
                    == PendingWorkerEvents::nothing()
        }),
{
    let ghost all = pending.backlog();
    let ghost mut sent: int = 0;
    proof {
        assert(all.skip(0) =~= all);
    }
    while !pending.is_empty()
        invariant
            pending.wf(),
            took_first(sender, all, sent),
            all == old(pending).backlog(),
            pending.backlog() == all.skip(sent),
        decreases all.len() - sent,
    {
        let ghost held = *pending;
        match pending.pop() {
            Some(event) => {
                proof {
                    assert(held.backlog()[0] == all[sent]);
                    assert(pending.backlog() =~= all.skip(sent + 1));
                    putting_back_undoes_a_pop(held);
                }
                let delivery = deliver(sender, event);
                let go_on = pending.settle(delivery);
                if !go_on {
                    proof {
                        if delivery is Full {
                            assert(*pending == held);
                            assert(filled_up(sender, all, sent));
                        } else {
                            assert(closed_down(sender, all, sent));
                        }
                    }
                    return ;
                }
                proof {
                    sent = sent + 1;
                }
            },
            None => {
                assert(sent == all.len());
                return ;
            },
        }
    }
    assert(sent == all.len());
}

/// After an output failure nothing else is pending, and nothing is added.
pub proof fn output_failure_supersedes(
    pending: PendingWorkerEvents,
    failure: WorkerEvent,
    later: WorkerEvent,
)
    requires
        pending.wf(),
        failure is OutputFailed,
        from_output(later),
    ensures
        pending.stored(failure).backlog().len() == 1,
        pending.stored(failure).backlog()[0] is OutputFailed,
        pending.stored(failure).stored(later) == pending.stored(failure),
{
}

/// An outbox holds at most one event of each kind.
pub proof fn outboxes_are_bounded(pending: PendingWorkerEvents)
    ensures
        pending.backlog().len() <= 4,
{
}

/// An event that waits is never lost to one of another kind: the newest of each kind
/// stays, and the others stay as they are, unless the output has failed.
pub proof fn the_newest_of_each_kind_waits(pending: PendingWorkerEvents, event: WorkerEvent)
    requires
        pending.wf(),
        pending.output_failure is None,
        from_output(event),
        !(event is OutputFailed),
    ensures
        ({
            let then = pending.stored(event);
            &&& then.output_failure is None
            &&& then.prebuffer == if event is CurrentPrebufferReady {
                Some(event)
            } else {
                pending.prebuffer
            }
            &&& then.terminal == if event is CurrentEnded || event is CurrentFailed {
                Some(event)
            } else {
                pending.terminal
            }
            &&& then.quality == if event is CurrentNetworkQualityChanged {
                Some(event)
            } else {
                pending.quality
            }
            &&& then.backlog().contains(event)
        }),
{
    let then = pending.stored(event);
    let ready = slot(then.prebuffer).len() as int;
    let ended = slot(then.terminal).len() as int;
    if event is CurrentPrebufferReady {
        assert(then.backlog()[0] == event);
    } else if event is CurrentEnded || event is CurrentFailed {
        assert(then.backlog()[ready] == event);
    } else {
        assert(then.backlog()[ready + ended] == event);
    }
}

/// Events leave in the order of what they mean: a failed output first, then that media
/// is ready, then how it ended, and the network quality last.
pub proof fn events_leave_by_meaning(pending: PendingWorkerEvents, i: int, j: int)
    requires
        pending.wf(),
        0 <= i < j < pending.backlog().len(),
    ensures
        !(pending.backlog()[i] is CurrentNetworkQualityChanged),
        !(pending.backlog()[j] is CurrentPrebufferReady),
        pending.backlog()[i] is CurrentEnded || pending.backlog()[i] is CurrentFailed
            ==> pending.backlog()[j] is CurrentNetworkQualityChanged,
{
}

} // verus!
