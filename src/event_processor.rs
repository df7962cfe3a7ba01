use vstd::prelude::*;
use vstd::multiset::Multiset;

verus! {

/// Lifecycle of an event processor: `Running` to `Draining` to `Stopped`.
#[derive(Debug, Clone, Copy, PartialEq, Eq, Structural)]
pub enum ProcessorState {
    Running,
    Draining,
    Stopped,
}

#[derive(Debug, Clone, Copy, PartialEq, Eq, Structural)]
pub enum ProcessorError {
    /// An event was offered after shutdown began.
    QueueClosed,
    /// The queue was not drained within the grace period.
    ShutdownTimeout,
}

/// What an event processor holds: its state and its queued events.
pub struct ProcessorView<E> {
    pub state: ProcessorState,
    pub queue: Seq<E>,
}

/// A freshly constructed processor.
pub open spec fn fresh_view<E>() -> ProcessorView<E> {
    ProcessorView { state: ProcessorState::Running, queue: Seq::empty() }
}

/// Offering one event: appended while running, refused otherwise.
pub open spec fn enqueue_spec<E>(v: ProcessorView<E>, e: E) -> ProcessorView<E> {
    if v.state == ProcessorState::Running {
        ProcessorView { state: v.state, queue: v.queue.push(e) }
    } else {
        v
    }
}

/// Offering events one after the other.
pub open spec fn enqueue_all<E>(v: ProcessorView<E>, es: Seq<E>) -> ProcessorView<E>
    decreases es.len(),
{
    if es.len() == 0 {
        v
    } else {
        enqueue_spec(enqueue_all(v, es.drop_last()), es.last())
    }
}

/// The events the worker takes in `n` steps, in the order it takes them.
pub open spec fn take_n<E>(q: Seq<E>, n: nat) -> Seq<E>
    decreases n,
{
    if n == 0 || q.len() == 0 {
        Seq::empty()
    } else {
        seq![q[0]].add(take_n(q.drop_first(), (n - 1) as nat))
    }
}

/// Two producers offering their events, interleaved by `schedule`: `true`
/// lets the first go next, `false` the second; when the schedule runs out
/// the rest of the first and then of the second follow.
pub open spec fn interleave<E>(a: Seq<E>, b: Seq<E>, schedule: Seq<bool>) -> Seq<E>
    decreases a.len() + b.len(),
{
    if a.len() == 0 {
        b
    } else if b.len() == 0 {
        a
    } else if schedule.len() > 0 && !schedule[0] {
        seq![b[0]].add(interleave(a, b.drop_first(), schedule.drop_first()))
    } else {
        seq![a[0]].add(interleave(a.drop_first(), b, schedule.drop_first()))
    }
}

/// A single-consumer FIFO queue of inbound events.
///
/// Producers call `enqueue`; the one worker takes events with `next_event`,
/// in arrival order. `shutdown` closes the queue and hands the events still
/// queued to the worker before the processor stops for good.
pub struct EventProcessor<E> {
    state: ProcessorState,
    queue: Vec<E>,
}

impl<E> EventProcessor<E> {
    pub closed spec fn view(&self) -> ProcessorView<E> {
        ProcessorView { state: self.state, queue: self.queue@ }
    }

    /// A stopped processor holds nothing.
    pub open spec fn wf(&self) -> bool {
        self.view().state == ProcessorState::Stopped ==> self.view().queue.len() == 0
    }

    pub fn new() -> (p: EventProcessor<E>)
        ensures
            p.wf(),
            p.view() == fresh_view::<E>(),
    {
        EventProcessor { state: ProcessorState::Running, queue: Vec::new() }
    }

    pub fn state(&self) -> (s: ProcessorState)
        ensures
            s == self.view().state,
    {
        self.state
    }

    pub fn len(&self) -> (n: usize)
        ensures
            n == self.view().queue.len(),
    {
        self.queue.len()
    }

    /// Appends `event` to the tail of the queue while the processor runs.
    pub fn enqueue(&mut self, event: E) -> (r: Result<(), ProcessorError>)
        requires
            old(self).wf(),
        ensures
            final(self).wf(),
            final(self).view() == enqueue_spec(old(self).view(), event),
            r == (if old(self).view().state == ProcessorState::Running {
                Ok::<(), ProcessorError>(())
            } else {
                Err(ProcessorError::QueueClosed)
            }),
    {
        if self.state == ProcessorState::Running {
            self.queue.push(event);
            Ok(())
        } else {
            Err(ProcessorError::QueueClosed)
        }
    }

    /// Hands the oldest queued event to the worker.
    pub fn next_event(&mut self) -> (r: Option<E>)
        requires
            old(self).wf(),
        ensures
            final(self).wf(),
            final(self).view().state == old(self).view().state,
            old(self).view().queue.len() == 0 ==> r is None && final(self).view() == old(self).view(),
            old(self).view().queue.len() > 0 ==> r == Some(old(self).view().queue[0])
                && final(self).view().queue == old(self).view().queue.drop_first(),
    {
        if self.queue.len() == 0 {
            None
        } else {
            Some(self.queue.remove(0))
        }
    }

    /// Stops accepting events. The queued events stay for the worker.
    pub fn begin_shutdown(&mut self)
        requires
            old(self).wf(),
        ensures
            final(self).wf(),
            final(self).view().queue == old(self).view().queue,
            final(self).view().state == (if old(self).view().state == ProcessorState::Running {
                ProcessorState::Draining
            } else {
                old(self).view().state
            }),
    {
        if self.state == ProcessorState::Running {
            self.state = ProcessorState::Draining;
        }
    }

    /// Closes the queue and drains it: the queued events are appended to
    /// `drained` in arrival order, at most `grace` of them. When the queue is
    /// empty within that bound the processor is stopped; otherwise it stays
    /// draining and `ShutdownTimeout` is returned.
    pub fn shutdown(&mut self, grace: usize, drained: &mut Vec<E>) -> (r: Result<(), ProcessorError>)
        requires
            old(self).wf(),
        ensures
            final(self).wf(),
            old(self).view().queue.len() <= grace ==> r is Ok && final(self).view() == (
            ProcessorView { state: ProcessorState::Stopped, queue: Seq::<E>::empty() })
                && final(drained)@ == old(drained)@ + old(self).view().queue,
            old(self).view().queue.len() > grace ==> r == Err::<(), ProcessorError>(
                ProcessorError::ShutdownTimeout,
            ) && final(self).view() == (ProcessorView {
                state: ProcessorState::Draining,
                queue: old(self).view().queue.skip(grace as int),
            }) && final(drained)@ == old(drained)@ + old(self).view().queue.take(grace as int),
    {
        self.begin_shutdown();
        let ghost q0 = self.queue@;
        let ghost d0 = drained@;
        let mut taken: usize = 0;
        while taken < grace && self.queue.len() > 0
            invariant
                self.state != ProcessorState::Running,
                self.state == old(self).view().state || self.state == ProcessorState::Draining,
                q0 == old(self).view().queue,
                d0 == old(drained)@,
                taken <= grace,
                taken <= q0.len(),
                self.queue@ == q0.skip(taken as int),
                drained@ == d0 + q0.take(taken as int),
                self.state == ProcessorState::Stopped ==> self.queue@.len() == 0,
            decreases q0.len() - taken,
        {
            let e = self.queue.remove(0);
            drained.push(e);
            assert(q0.take(taken as int + 1) == q0.take(taken as int).push(q0[taken as int]));
            taken = taken + 1;
            assert(self.queue@ =~= q0.skip(taken as int));
        }
        if self.queue.len() == 0 {
            self.state = ProcessorState::Stopped;
            assert(taken == q0.len());
            assert(q0.take(q0.len() as int) == q0);
            assert(self.queue@ =~= Seq::<E>::empty());
            Ok(())
        } else {
            Err(ProcessorError::ShutdownTimeout)
        }
    }
}

/// While running, offering events appends them all, in order.
pub proof fn lemma_enqueue_all_appends<E>(v: ProcessorView<E>, es: Seq<E>)
    requires
        v.state == ProcessorState::Running,
    ensures
        enqueue_all(v, es) == (ProcessorView { state: ProcessorState::Running, queue: v.queue + es }),
    decreases es.len(),
{
    if es.len() > 0 {
        lemma_enqueue_all_appends(v, es.drop_last());
        assert(v.queue + es == (v.queue + es.drop_last()).push(es.last()));
    }
}

/// Taking as many events as are queued yields the whole queue.
pub proof fn lemma_take_all<E>(q: Seq<E>)
    ensures
        take_n(q, q.len()) == q,
    decreases q.len(),
{
    if q.len() > 0 {
        lemma_take_all(q.drop_first());
        assert(seq![q[0]].add(q.drop_first()) == q);
    }
}

/// Once shutdown has begun, every offered event is refused and the processor
/// is left as it was.
pub proof fn lemma_closed_queue_refuses_all<E>(v: ProcessorView<E>, es: Seq<E>)
    requires
        v.state != ProcessorState::Running,
    ensures
        enqueue_all(v, es) == v,
    decreases es.len(),
{
    if es.len() > 0 {
        lemma_closed_queue_refuses_all(v, es.drop_last());
    }
}

/// Events offered to a fresh processor reach the worker in the order in
/// which they were offered.
pub proof fn lemma_fifo_order<E>(es: Seq<E>)
    ensures
        take_n(enqueue_all(fresh_view::<E>(), es).queue, es.len()) == es,
{
    lemma_enqueue_all_appends(fresh_view::<E>(), es);
    assert(Seq::<E>::empty() + es == es);
    lemma_take_all(es);
}

/// Interleaving two producers keeps every event of both.
pub proof fn lemma_interleave_len<E>(a: Seq<E>, b: Seq<E>, schedule: Seq<bool>)
    ensures
        interleave(a, b, schedule).len() == a.len() + b.len(),
        interleave(a, b, schedule).to_multiset() == a.to_multiset().add(b.to_multiset()),
    decreases a.len() + b.len(),
{
    broadcast use vstd::seq_lib::group_to_multiset_ensures;
    if a.len() == 0 {
        assert(a.to_multiset() =~= Multiset::empty());
        assert(b.to_multiset() =~= Multiset::<E>::empty().add(b.to_multiset()));
    } else if b.len() == 0 {
        assert(b.to_multiset() =~= Multiset::empty());
        assert(a.to_multiset() =~= a.to_multiset().add(Multiset::<E>::empty()));
    } else if schedule.len() > 0 && !schedule[0] {
        lemma_interleave_len(a, b.drop_first(), schedule.drop_first());
        vstd::seq_lib::lemma_seq_union_to_multiset_commutative(seq![b[0]], interleave(a, b.drop_first(), schedule.drop_first()));
        assert(b == seq![b[0]].add(b.drop_first()));
        vstd::seq_lib::lemma_multiset_commutative(seq![b[0]], b.drop_first());
        vstd::seq_lib::lemma_multiset_commutative(seq![b[0]], interleave(a, b.drop_first(), schedule.drop_first()));
        assert(interleave(a, b, schedule).to_multiset() =~= a.to_multiset().add(b.to_multiset()));
    } else {
        lemma_interleave_len(a.drop_first(), b, schedule.drop_first());
        assert(a == seq![a[0]].add(a.drop_first()));
        vstd::seq_lib::lemma_multiset_commutative(seq![a[0]], a.drop_first());
        vstd::seq_lib::lemma_multiset_commutative(seq![a[0]], interleave(a.drop_first(), b, schedule.drop_first()));
        assert(interleave(a, b, schedule).to_multiset() =~= a.to_multiset().add(b.to_multiset()));
    }
}

/// Two producers offering events to a running processor, in any
/// interleaving, lose none: the worker, draining the queue, sees every event
/// that was queued before and every event of both producers.
pub proof fn lemma_concurrent_producers_lose_nothing<E>(
    v: ProcessorView<E>,
    a: Seq<E>,
    b: Seq<E>,
    schedule: Seq<bool>,
)
    requires
        v.state == ProcessorState::Running,
    ensures
        ({
            let q = enqueue_all(v, interleave(a, b, schedule)).queue;
            &&& take_n(q, q.len()).len() == v.queue.len() + a.len() + b.len()
            &&& take_n(q, q.len()).to_multiset() == v.queue.to_multiset().add(
                a.to_multiset(),
            ).add(b.to_multiset())
        }),
{
    let m = interleave(a, b, schedule);
    lemma_enqueue_all_appends(v, m);
    lemma_interleave_len(a, b, schedule);
    lemma_take_all(v.queue + m);
    vstd::seq_lib::lemma_multiset_commutative(v.queue, m);
    assert(v.queue.to_multiset().add(a.to_multiset().add(b.to_multiset())) =~= v.queue.to_multiset().add(a.to_multiset()).add(b.to_multiset()));
}

} // verus!
