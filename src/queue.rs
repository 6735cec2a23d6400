use vstd::prelude::*;

use crate::report::{empty_slots, Report, WhyNoDeriveDeserializeManSadFaceHere};

verus! {

#[verifier::external_type_specification]
#[verifier::external_body]
#[verifier::reject_recursive_types(T)]
pub struct ExSpscQueue<T, const N: usize>(heapless::spsc::Queue<T, N>);

#[verifier::external_type_specification]
#[verifier::external_body]
#[verifier::reject_recursive_types(T)]
pub struct ExCircularBuffer<const N: usize, T>(circular_buffer::CircularBuffer<N, T>);

/// The reports in a bounded FIFO, oldest first.
pub uninterp spec fn fifo_reports(q: heapless::spsc::Queue<Report, 32>) -> Seq<Report>;

/// The reports in an overwriting ring, oldest first.
pub uninterp spec fn ring_reports(b: circular_buffer::CircularBuffer<20, Report>) -> Seq<Report>;

/// How many reports the bounded FIFO holds at most: a `Queue<_, 32>` keeps one
/// of its 32 cells free.
pub const FIFO_CAPACITY: usize = 31;

/// How many reports the overwriting ring holds at most.
pub const RING_CAPACITY: usize = 20;

/// Relies on heapless::spsc::Queue::new: the queue starts empty.
#[verifier::external_body]
fn fifo_new() -> (q: heapless::spsc::Queue<Report, 32>)
    ensures
        fifo_reports(q) == Seq::<Report>::empty(),
{
    heapless::spsc::Queue::new()
}

/// Relies on heapless::spsc::Queue::enqueue: with fewer than 31 reports held
/// the report goes to the back (`true`); otherwise the queue is left alone and
/// the report handed back.
#[verifier::external_body]
fn fifo_enqueue(q: &mut heapless::spsc::Queue<Report, 32>, r: Report) -> (ok: bool)
    ensures
        ok == (fifo_reports(*old(q)).len() < 31),
        ok ==> fifo_reports(*final(q)) == fifo_reports(*old(q)).push(r),
        !ok ==> fifo_reports(*final(q)) == fifo_reports(*old(q)),
{
    q.enqueue(r).is_ok()
}

/// Relies on heapless::spsc::Queue::dequeue: removes and returns the oldest
/// report, or `None` when the queue is empty.
#[verifier::external_body]
fn fifo_dequeue(q: &mut heapless::spsc::Queue<Report, 32>) -> (r: Option<Report>)
    ensures
        fifo_reports(*old(q)).len() == 0 ==> r is None && fifo_reports(*final(q)) == fifo_reports(
            *old(q),
        ),
        fifo_reports(*old(q)).len() > 0 ==> r == Some(fifo_reports(*old(q))[0]) && fifo_reports(
            *final(q),
        ) == fifo_reports(*old(q)).drop_first(),
{
    q.dequeue()
}

/// Relies on heapless::spsc::Queue::peek: the oldest report, left in place,
/// or `None` when the queue is empty.
#[verifier::external_body]
fn fifo_peek(q: &heapless::spsc::Queue<Report, 32>) -> (r: Option<Report>)
    ensures
        fifo_reports(*q).len() == 0 ==> r is None,
        fifo_reports(*q).len() > 0 ==> r == Some(fifo_reports(*q)[0]),
{
    q.peek().copied()
}

/// Relies on heapless::spsc::Queue::len: the number of reports held.
#[verifier::external_body]
fn fifo_len(q: &heapless::spsc::Queue<Report, 32>) -> (n: usize)
    ensures
        n == fifo_reports(*q).len(),
{
    q.len()
}

/// Relies on circular_buffer::CircularBuffer::new: the ring starts empty.
#[verifier::external_body]
fn ring_new() -> (b: circular_buffer::CircularBuffer<20, Report>)
    ensures
        ring_reports(b) == Seq::<Report>::empty(),
{
    circular_buffer::CircularBuffer::new()
}

/// Relies on circular_buffer::CircularBuffer::push_back: the report goes to
/// the back; when 20 are held already the oldest is dropped to make room.
#[verifier::external_body]
fn ring_push_back(b: &mut circular_buffer::CircularBuffer<20, Report>, r: Report)
    ensures
        ring_reports(*old(b)).len() < 20 ==> ring_reports(*final(b)) == ring_reports(*old(b)).push(
            r,
        ),
        ring_reports(*old(b)).len() >= 20 ==> ring_reports(*final(b)) == ring_reports(
            *old(b),
        ).drop_first().push(r),
{
    b.push_back(r)
}

/// Relies on circular_buffer::CircularBuffer::pop_front: removes and returns
/// the oldest report, or `None` when the ring is empty.
#[verifier::external_body]
fn ring_pop_front(b: &mut circular_buffer::CircularBuffer<20, Report>) -> (r: Option<Report>)
    ensures
        ring_reports(*old(b)).len() == 0 ==> r is None && ring_reports(*final(b)) == ring_reports(
            *old(b),
        ),
        ring_reports(*old(b)).len() > 0 ==> r == Some(ring_reports(*old(b))[0]) && ring_reports(
            *final(b),
        ) == ring_reports(*old(b)).drop_first(),
{
    b.pop_front()
}

/// Relies on circular_buffer::CircularBuffer::len: the number of reports held.
#[verifier::external_body]
fn ring_len(b: &circular_buffer::CircularBuffer<20, Report>) -> (n: usize)
    ensures
        n == ring_reports(*b).len(),
{
    b.len()
}

/// What a delivery tick sends: the report, and whether a backlog of unsent
/// reports is being worked through (what the diagnostic light shows).
#[derive(Clone, Copy, Debug, PartialEq, Eq)]
pub struct Delivery {
    pub report: Report,
    pub backlog: bool,
}

/// Whether `r` is the neutral report: no modifier and no key.
pub open spec fn is_idle(r: Report) -> bool {
    r.modifier == 0 && r.keys@ == empty_slots()
}

/// One drain-with-repeat tick took the queue from `before` to `after` and
/// sent `d`.
pub open spec fn drained_with_repeat(before: Seq<Report>, d: Delivery, after: Seq<Report>) -> bool {
    if before.len() > 1 {
        d.report == before[0] && d.backlog && after == before.drop_first()
    } else if before.len() == 1 {
        d.report == before[0] && !d.backlog && after == before
    } else {
        is_idle(d.report) && !d.backlog && after == before
    }
}

/// One strict-FIFO tick took the ring from `before` to `after` and sent `d`.
pub open spec fn drained_in_order(before: Seq<Report>, d: Delivery, after: Seq<Report>) -> bool {
    if before.len() > 0 {
        d.report == before[0] && d.backlog && after == before.drop_first()
    } else {
        is_idle(d.report) && !d.backlog && after == before
    }
}

/// The bounded FIFO of the framed-serial path, drained with repeat: a full
/// queue refuses new reports, and the last report is sent again and again
/// until a newer one arrives.
pub struct ReportQueue {
    inner: heapless::spsc::Queue<Report, 32>,
}

impl ReportQueue {
    /// The reports waiting, oldest first.
    pub closed spec fn contents(self) -> Seq<Report> {
        fifo_reports(self.inner)
    }

    /// Well-formed: the queue holds at most its capacity.
    pub open spec fn wf(self) -> bool {
        self.contents().len() <= FIFO_CAPACITY
    }

    /// An empty queue.
    pub fn new() -> (q: Self)
        ensures
            q.contents() == Seq::<Report>::empty(),
            q.wf(),
    {
        ReportQueue { inner: fifo_new() }
    }

    /// The number of reports waiting.
    pub fn len(&self) -> (n: usize)
        ensures
            n == self.contents().len(),
    {
        fifo_len(&self.inner)
    }

    /// Adds a report at the back; a full queue refuses it (`false`) and is
    /// left as it was.
    pub fn enqueue(&mut self, r: Report) -> (ok: bool)
        ensures
            ok == (old(self).contents().len() < FIFO_CAPACITY),
            ok ==> final(self).contents() == old(self).contents().push(r),
            !ok ==> final(self).contents() == old(self).contents(),
            old(self).wf() ==> final(self).wf(),
    {
        fifo_enqueue(&mut self.inner, r)
    }

    /// Removes and returns the oldest report.
    pub fn dequeue(&mut self) -> (r: Option<Report>)
        ensures
            old(self).contents().len() == 0 ==> r is None && final(self).contents() == old(self).contents(),
            old(self).contents().len() > 0 ==> r == Some(old(self).contents()[0]) && final(self).contents() == old(self).contents().drop_first(),
            old(self).wf() ==> final(self).wf(),
    {
        fifo_dequeue(&mut self.inner)
    }

    /// The oldest report, left in place.
    pub fn peek(&self) -> (r: Option<Report>)
        ensures
            self.contents().len() == 0 ==> r is None,
            self.contents().len() > 0 ==> r == Some(self.contents()[0]),
    {
        fifo_peek(&self.inner)
    }

    /// The report for one delivery tick. With more than one report waiting
    /// the oldest is removed and sent; with exactly one it is sent and kept,
    /// so it repeats until a newer one arrives; with none the neutral report
    /// is sent.
    pub fn next_delivery(&mut self) -> (d: Delivery)
        ensures
            drained_with_repeat(old(self).contents(), d, final(self).contents()),
            old(self).wf() ==> final(self).wf(),
    {
        if self.len() > 1 {
            match self.dequeue() {
                Some(r) => Delivery { report: r, backlog: true },
                None => Delivery { report: WhyNoDeriveDeserializeManSadFaceHere::idle(), backlog: true },
            }
        } else {
            match self.peek() {
                Some(r) => Delivery { report: r, backlog: false },
                None => Delivery { report: WhyNoDeriveDeserializeManSadFaceHere::idle(), backlog: false },
            }
        }
    }
}

/// The overwriting ring of the terminal path, drained strictly in order: a
/// full ring drops its oldest report to take a new one, and a tick with
/// nothing waiting sends the neutral report.
pub struct OverwriteQueue {
    inner: circular_buffer::CircularBuffer<20, Report>,
}

impl OverwriteQueue {
    /// The reports waiting, oldest first.
    pub closed spec fn contents(self) -> Seq<Report> {
        ring_reports(self.inner)
    }

    /// Well-formed: the ring holds at most its capacity.
    pub open spec fn wf(self) -> bool {
        self.contents().len() <= RING_CAPACITY
    }

    /// An empty ring.
    pub fn new() -> (q: Self)
        ensures
            q.contents() == Seq::<Report>::empty(),
            q.wf(),
    {
        OverwriteQueue { inner: ring_new() }
    }

    /// The number of reports waiting.
    pub fn len(&self) -> (n: usize)
        ensures
            n == self.contents().len(),
    {
        ring_len(&self.inner)
    }

    /// Adds a report at the back, dropping the oldest when the ring is full.
    pub fn push(&mut self, r: Report)
        ensures
            old(self).contents().len() < RING_CAPACITY ==> final(self).contents() == old(self).contents().push(r),
            old(self).contents().len() >= RING_CAPACITY ==> final(self).contents() == old(self).contents().drop_first().push(r),
            old(self).wf() ==> final(self).wf(),
    {
        ring_push_back(&mut self.inner, r)
    }

    /// Removes and returns the oldest report.
    pub fn pop(&mut self) -> (r: Option<Report>)
        ensures
            old(self).contents().len() == 0 ==> r is None && final(self).contents() == old(self).contents(),
            old(self).contents().len() > 0 ==> r == Some(old(self).contents()[0]) && final(self).contents() == old(self).contents().drop_first(),
            old(self).wf() ==> final(self).wf(),
    {
        ring_pop_front(&mut self.inner)
    }

    /// The report for one delivery tick: the oldest report, removed, or the
    /// neutral report when nothing waits. `backlog` says whether a report was
    /// taken from the ring.
    pub fn next_delivery(&mut self) -> (d: Delivery)
        ensures
            drained_in_order(old(self).contents(), d, final(self).contents()),
            old(self).wf() ==> final(self).wf(),
    {
        match self.pop() {
            Some(r) => Delivery { report: r, backlog: true },
            None => Delivery { report: WhyNoDeriveDeserializeManSadFaceHere::idle(), backlog: false },
        }
    }
}

} // verus!
