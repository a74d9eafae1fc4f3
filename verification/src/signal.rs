use vstd::prelude::*;

verus! {

/// The mathematical content of a [`Signal`].
pub ghost enum SignalView {
    Line(Seq<char>),
    Exit,
}

/// The one event type the consumer sees, whatever the producer: a line of
/// trigger text, or the request to stop.
#[derive(Debug, PartialEq, Eq)]
pub enum Signal {
    Line(String),
    Exit,
}

impl View for Signal {
    type V = SignalView;

    open spec fn view(&self) -> SignalView {
        match self {
            Signal::Line(s) => SignalView::Line(s@),
            Signal::Exit => SignalView::Exit,
        }
    }
}

/// The mathematical content of a [`PipeEvent`].
pub ghost enum PipeEventView {
    LineRead(Seq<char>),
    EndOfStream,
    ReadFailed,
}

/// One observation the pipe listener makes on its open pipe: a whole line
/// was read, the stream ended, or a read failed.
#[derive(Debug)]
pub enum PipeEvent {
    LineRead(String),
    EndOfStream,
    ReadFailed,
}

impl View for PipeEvent {
    type V = PipeEventView;

    open spec fn view(&self) -> PipeEventView {
        match self {
            PipeEvent::LineRead(s) => PipeEventView::LineRead(s@),
            PipeEvent::EndOfStream => PipeEventView::EndOfStream,
            PipeEvent::ReadFailed => PipeEventView::ReadFailed,
        }
    }
}

/// The signal the listener emits for one pipe event: each line read becomes
/// a `Line` signal; the end of the stream and a failed read both become
/// `Exit`, after which the listener opens the pipe again.
pub open spec fn spec_signal_for(e: PipeEventView) -> SignalView {
    match e {
        PipeEventView::LineRead(s) => SignalView::Line(s),
        PipeEventView::EndOfStream => SignalView::Exit,
        PipeEventView::ReadFailed => SignalView::Exit,
    }
}

/// Converts one pipe event into the signal the consumer receives.
pub fn signal_for_event(e: PipeEvent) -> (s: Signal)
    ensures
        s@ == spec_signal_for(e@),
{
    match e {
        PipeEvent::LineRead(text) => Signal::Line(text),
        PipeEvent::EndOfStream => Signal::Exit,
        PipeEvent::ReadFailed => Signal::Exit,
    }
}

/// The signal an interrupt produces: always the request to stop.
pub fn interrupt_signal() -> (s: Signal)
    ensures
        s@ == SignalView::Exit,
{
    Signal::Exit
}

/// The signals one run of pipe events produces, in order.
pub open spec fn spec_signals(events: Seq<PipeEventView>) -> Seq<SignalView> {
    events.map_values(|e: PipeEventView| spec_signal_for(e))
}

/// Converts a run of pipe events into the signals the consumer receives, in
/// arrival order.
pub fn signals_for_events(events: Vec<PipeEvent>) -> (out: Vec<Signal>)
    ensures
        out@.len() == events@.len(),
        forall|i: int| 0 <= i < events@.len() ==> out@[i]@ == spec_signal_for(events@[i]@),
{
    let ghost all = events@;
    let mut rest = events;
    let mut out: Vec<Signal> = Vec::new();
    while rest.len() > 0
        invariant
            out@.len() + rest@.len() == all.len(),
            rest@ =~= all.subrange(out@.len() as int, all.len() as int),
            forall|i: int| 0 <= i < out@.len() ==> out@[i]@ == spec_signal_for(all[i]@),
        decreases rest@.len(),
    {
        let e = rest.remove(0);
        let s = signal_for_event(e);
        out.push(s);
        proof {
            assert(rest@ =~= all.subrange(out@.len() as int, all.len() as int));
        }
    }
    out
}

/// Law: signal order mirrors event order. The signals of a run of events
/// correspond one to one, in place: every line read appears as a `Line`
/// signal carrying its text at its own position — three lines emitted in
/// sequence arrive as three `Line` signals in that sequence — and an `Exit`
/// stands exactly where the stream ended or a read failed, never for a line.
pub proof fn lemma_signal_order(events: Seq<PipeEventView>)
    ensures
        spec_signals(events).len() == events.len(),
        forall|i: int|
            0 <= i < events.len() ==> (spec_signals(events)[i] is Exit <==> !(events[i]
                is LineRead)),
        forall|i: int|
            0 <= i < events.len() && events[i] is LineRead ==> spec_signals(events)[i]
                == SignalView::Line(events[i]->0),
{
    assert forall|i: int| 0 <= i < events.len() implies (spec_signals(events)[i] is Exit <==> !(
    events[i] is LineRead)) && (events[i] is LineRead ==> spec_signals(events)[i]
        == SignalView::Line(events[i]->0)) by {
        assert(spec_signals(events)[i] == spec_signal_for(events[i]));
    }
}

/// The channel between the producers and the single consumer: signals leave
/// in the order they entered, whoever sent them.
pub struct SignalQueue {
    pub items: Vec<Signal>,
}

impl View for SignalQueue {
    type V = Seq<SignalView>;

    open spec fn view(&self) -> Seq<SignalView> {
        self.items@.map_values(|s: Signal| s@)
    }
}

impl SignalQueue {
    /// An empty channel.
    pub fn new() -> (q: SignalQueue)
        ensures
            q@ == Seq::<SignalView>::empty(),
    {
        let q = SignalQueue { items: Vec::new() };
        proof {
            assert(q@ =~= Seq::<SignalView>::empty());
        }
        q
    }

    /// Enqueues one signal at the back.
    pub fn send(&mut self, s: Signal)
        ensures
            final(self)@ == old(self)@.push(s@),
    {
        self.items.push(s);
        proof {
            assert(self@ =~= old(self)@.push(s@));
        }
    }

    /// Dequeues the oldest signal, if any: first in, first out.
    pub fn receive(&mut self) -> (r: Option<Signal>)
        ensures
            old(self)@.len() == 0 ==> r is None && final(self)@ == old(self)@,
            old(self)@.len() > 0 ==> (r matches Some(s) && s@ == old(self)@[0] && final(self)@
                == old(self)@.drop_first()),
    {
        if self.items.len() == 0 {
            None
        } else {
            let s = self.items.remove(0);
            proof {
                assert(self@ =~= old(self)@.drop_first());
            }
            Some(s)
        }
    }
}

} // verus!
