use crate::row::MeshcodeRow;
use vstd::prelude::*;

verus! {

/// What a non-blocking send did.
#[derive(Debug, Clone, Copy, PartialEq, Eq, Structural)]
pub enum SendOutcome {
    /// The row was enqueued.
    Sent,
    /// The queue is at capacity: the sender must block and try again; the
    /// row stays with the sender, never dropped.
    Full(MeshcodeRow),
    /// The channel is closed: sending is a logic error, and the row is
    /// handed back.
    Closed(MeshcodeRow),
}

/// What a non-blocking receive did.
#[derive(Debug, Clone, Copy, PartialEq, Eq, Structural)]
pub enum RecvOutcome {
    /// The oldest queued row, in production order.
    Received(MeshcodeRow),
    /// Nothing queued yet, but the producer may still send: the receiver
    /// must block and try again.
    Empty,
    /// Drained and closed: end of stream, the worker's success path.
    Disconnected,
}

/// The abstract state of the channel: its queued rows in FIFO order, its
/// fixed capacity, and whether the producer side is gone.
pub struct ChanState {
    pub rows: Seq<MeshcodeRow>,
    pub capacity: nat,
    pub closed: bool,
}

impl ChanState {
    /// The queue never outgrows the fixed capacity: bounded memory.
    pub open spec fn wf(self) -> bool {
        &&& self.capacity >= 1
        &&& self.rows.len() <= self.capacity
    }

    /// The state after a send, and its outcome.
    pub open spec fn try_send(self, row: MeshcodeRow) -> (ChanState, SendOutcome) {
        if self.closed {
            (self, SendOutcome::Closed(row))
        } else if self.rows.len() >= self.capacity {
            (self, SendOutcome::Full(row))
        } else {
            (ChanState { rows: self.rows.push(row), ..self }, SendOutcome::Sent)
        }
    }

    /// The state after a receive, and its outcome.
    pub open spec fn try_recv(self) -> (ChanState, RecvOutcome) {
        if self.rows.len() > 0 {
            (
                ChanState { rows: self.rows.drop_first(), ..self },
                RecvOutcome::Received(self.rows[0]),
            )
        } else if self.closed {
            (self, RecvOutcome::Disconnected)
        } else {
            (self, RecvOutcome::Empty)
        }
    }
}

/// The bounded FIFO channel between the generator and the inserter pool:
/// the only backpressure mechanism of the pipeline. Rows leave in the order
/// they entered; a full queue refuses rows rather than dropping them, and a
/// closed, drained queue reports end of stream.
#[derive(Debug, PartialEq, Eq)]
pub struct BoundedChannel {
    rows: Vec<MeshcodeRow>,
    capacity: usize,
    closed: bool,
}

impl View for BoundedChannel {
    type V = ChanState;

    closed spec fn view(&self) -> ChanState {
        ChanState { rows: self.rows@, capacity: self.capacity as nat, closed: self.closed }
    }
}

impl BoundedChannel {
    pub fn new(capacity: usize) -> (c: BoundedChannel)
        requires
            capacity >= 1,
        ensures
            c@.wf(),
            c@.rows.len() == 0,
            c@.capacity == capacity,
            !c@.closed,
    {
        BoundedChannel { rows: Vec::new(), capacity, closed: false }
    }

    pub fn try_send(&mut self, row: MeshcodeRow) -> (r: SendOutcome)
        requires
            old(self)@.wf(),
        ensures
            final(self)@.wf(),
            (final(self)@, r) == old(self)@.try_send(row),
    {
        if self.closed {
            SendOutcome::Closed(row)
        } else if self.rows.len() >= self.capacity {
            SendOutcome::Full(row)
        } else {
            self.rows.push(row);
            SendOutcome::Sent
        }
    }

    pub fn try_recv(&mut self) -> (r: RecvOutcome)
        requires
            old(self)@.wf(),
        ensures
            final(self)@.wf(),
            (final(self)@, r) == old(self)@.try_recv(),
    {
        if self.rows.len() > 0 {
            let row = self.rows.remove(0);
            proof {
                assert(self.rows@ =~= old(self).rows@.drop_first());
            }
            RecvOutcome::Received(row)
        } else if self.closed {
            RecvOutcome::Disconnected
        } else {
            RecvOutcome::Empty
        }
    }

    /// The generator dropped its sender: end of stream once drained.
    pub fn close(&mut self)
        ensures
            final(self)@ == (ChanState { closed: true, ..old(self)@ }),
    {
        self.closed = true;
    }
}

/// The queue a sequence of accepted sends builds: each row appended in
/// production order.
pub open spec fn send_all(c: ChanState, rows: Seq<MeshcodeRow>) -> ChanState
    decreases rows.len(),
{
    if rows.len() == 0 {
        c
    } else {
        send_all(c, rows.drop_last()).try_send(rows.last()).0
    }
}

/// While the queue has room, every send is accepted and no row is
/// reordered or lost: sending `rows` into a channel with room for them
/// yields exactly the old queue followed by `rows`.
pub proof fn lemma_sends_accepted(c: ChanState, rows: Seq<MeshcodeRow>)
    requires
        c.wf(),
        !c.closed,
        c.rows.len() + rows.len() <= c.capacity,
    ensures
        send_all(c, rows).rows == c.rows + rows,
        send_all(c, rows).capacity == c.capacity,
        !send_all(c, rows).closed,
        forall|k: int|
            0 <= k < rows.len() ==> (#[trigger] send_all(c, rows.take(k)).try_send(rows[k]).1)
                is Sent,
    decreases rows.len(),
{
    if rows.len() == 0 {
        assert(send_all(c, rows).rows =~= c.rows + rows);
    } else {
        lemma_sends_accepted(c, rows.drop_last());
        assert(send_all(c, rows.drop_last()).rows =~= c.rows + rows.drop_last());
        assert(send_all(c, rows).rows =~= c.rows + rows);
        assert forall|k: int|
            0 <= k < rows.len() implies (#[trigger] send_all(c, rows.take(k)).try_send(
            rows[k],
        ).1) is Sent by {
            if k < rows.len() - 1 {
                assert(rows.take(k) =~= rows.drop_last().take(k));
                assert(rows[k] == rows.drop_last()[k]);
            } else {
                assert(rows.take(k) =~= rows.drop_last());
            }
        }
    }
}

/// Backpressure correctness. With the queue full, the next send is refused:
/// the channel is unchanged and the sender keeps the row, so the producer
/// blocks rather than losing data. Once a consumer takes one row (the
/// oldest), the refused send completes, and everything ever produced is
/// accounted for: the one delivered row followed by the new queue is
/// exactly the full queue followed by the late row.
pub proof fn lemma_backpressure(c: ChanState, row: MeshcodeRow)
    requires
        c.wf(),
        !c.closed,
        c.rows.len() == c.capacity,
    ensures
        c.try_send(row) == (c, SendOutcome::Full(row)),
        ({
            let (after_recv, got) = c.try_recv();
            let (after_send, outcome) = after_recv.try_send(row);
            &&& got == RecvOutcome::Received(c.rows[0])
            &&& outcome == SendOutcome::Sent
            &&& seq![c.rows[0]] + after_send.rows == c.rows + seq![row]
        }),
{
    let (after_recv, _got) = c.try_recv();
    let (after_send, _outcome) = after_recv.try_send(row);
    assert(seq![c.rows[0]] + after_send.rows =~= c.rows + seq![row]);
}

/// Producing one row more than the capacity: with consumers paused, an
/// empty channel of capacity `C` accepts the first `C` rows, and the
/// `(C+1)`-th send blocks with the channel unchanged and the row kept by
/// the producer. Once one row is consumed, the blocked send completes, and
/// the delivered row together with the queue is exactly all `C+1` rows in
/// production order: the total emitted still equals the expected count.
pub proof fn lemma_capacity_plus_one(c: ChanState, rows: Seq<MeshcodeRow>, extra: MeshcodeRow)
    requires
        c.wf(),
        !c.closed,
        c.rows.len() == 0,
        rows.len() == c.capacity,
    ensures
        forall|k: int|
            0 <= k < rows.len() ==> (#[trigger] send_all(c, rows.take(k)).try_send(rows[k]).1)
                is Sent,
        send_all(c, rows).try_send(extra) == (send_all(c, rows), SendOutcome::Full(extra)),
        ({
            let full = send_all(c, rows);
            let (after_recv, got) = full.try_recv();
            let (after_send, outcome) = after_recv.try_send(extra);
            &&& got == RecvOutcome::Received(rows[0])
            &&& outcome == SendOutcome::Sent
            &&& seq![rows[0]] + after_send.rows == rows + seq![extra]
        }),
{
    lemma_sends_accepted(c, rows);
    let full = send_all(c, rows);
    assert(full.rows =~= rows);
    lemma_backpressure(full, extra);
}

} // verus!
