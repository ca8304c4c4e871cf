use vstd::prelude::*;

verus! {

/// The tickets `0 .. n`, in order.
pub open spec fn tickets(n: nat) -> Seq<u64> {
    Seq::new(n, |i: int| i as u64)
}

/// What the rate limiter reported when the worker asked it for the next unit of work.
#[derive(Clone, Copy, Debug, PartialEq, Eq, Structural)]
pub enum GateOutcome {
    Admitted,
    Failed,
}

/// What the worker does next.
#[derive(Clone, Copy, Debug, PartialEq, Eq, Structural)]
pub enum Turn {
    /// Nothing is waiting.
    Idle,
    /// Hand the request with this ticket to the transport.
    Dispatch(u64),
    /// Answer the caller of this ticket with an error; the queue goes on.
    Fail(u64),
}

/// Why a submission was refused.
#[derive(Clone, Copy, Debug, PartialEq, Eq, Structural)]
pub enum SubmitError {
    /// The queue already holds as many waiting requests as it was made for.
    Busy,
    /// Every ticket number has been handed out.
    Exhausted,
}

/// The decisions of the request broker's single worker. Every submission gets the
/// next ticket; requests leave the queue in submission order, one per limiter outcome,
/// so that one failure touches exactly one caller.
pub struct AdmissionQueue {
    waiting: Vec<u64>,
    next_ticket: u64,
    capacity: usize,
    handled: Ghost<Seq<u64>>,
}

impl AdmissionQueue {
    pub closed spec fn wf(&self) -> bool {
        self.handled@ + self.waiting@ == tickets(self.next_ticket as nat)
    }

    /// The number of requests submitted so far.
    pub closed spec fn submitted(&self) -> nat {
        self.next_ticket as nat
    }

    /// The most requests that may wait at once.
    pub closed spec fn capacity(&self) -> nat {
        self.capacity as nat
    }

    /// The tickets waiting for the rate limiter, oldest first.
    pub closed spec fn waiting(&self) -> Seq<u64> {
        self.waiting@
    }

    /// The tickets that have left the queue (dispatched or failed), in the order they left.
    pub closed spec fn handled(&self) -> Seq<u64> {
        self.handled@
    }

    /// An empty queue that holds at most `capacity` waiting requests.
    pub fn new(capacity: usize) -> (q: Self)
        ensures
            q.wf(),
            q.capacity() == capacity,
            q.submitted() == 0,
            q.waiting() == Seq::<u64>::empty(),
            q.handled() == Seq::<u64>::empty(),
    {
        let q = AdmissionQueue { waiting: Vec::new(), next_ticket: 0, capacity, handled: Ghost(Seq::empty()) };
        assert(q.handled@ + q.waiting@ =~= tickets(0));
        q
    }

    /// The number of requests submitted so far.
    pub fn submitted_count(&self) -> (n: u64)
        ensures
            n == self.submitted(),
    {
        self.next_ticket
    }

    /// The number of requests waiting for the rate limiter.
    pub fn waiting_count(&self) -> (n: usize)
        ensures
            n == self.waiting().len(),
    {
        self.waiting.len()
    }

    /// Enqueues a request behind every earlier one and returns its ticket; refuses
    /// it, changing nothing, where the queue is full or the tickets are spent.
    pub fn submit(&mut self) -> (r: Result<u64, SubmitError>)
        requires
            old(self).wf(),
        ensures
            final(self).wf(),
            final(self).capacity() == old(self).capacity(),
            final(self).handled() == old(self).handled(),
            old(self).waiting().len() >= old(self).capacity() ==> r == Err::<u64, SubmitError>(
                SubmitError::Busy,
            ),
            old(self).waiting().len() < old(self).capacity() && old(self).submitted() == u64::MAX
                ==> r == Err::<u64, SubmitError>(SubmitError::Exhausted),
            old(self).waiting().len() < old(self).capacity() && old(self).submitted() < u64::MAX
                ==> r == Ok::<u64, SubmitError>(old(self).submitted() as u64),
            r is Err ==> final(self).submitted() == old(self).submitted() && final(self).waiting()
                == old(self).waiting(),
            r is Ok ==> final(self).submitted() == old(self).submitted() + 1 && final(self).waiting()
                == old(self).waiting().push(r->Ok_0),
    {
        if self.waiting.len() >= self.capacity {
            return Err(SubmitError::Busy);
        }
        if self.next_ticket == u64::MAX {
            return Err(SubmitError::Exhausted);
        }
        let ticket = self.next_ticket;
        let ghost before = self.handled@ + self.waiting@;
        self.waiting.push(ticket);
        self.next_ticket = self.next_ticket + 1;
        assert(tickets(self.next_ticket as nat) =~= tickets(ticket as nat).push(ticket));
        assert(self.handled@ + self.waiting@ =~= before.push(ticket));
        Ok(ticket)
    }

    /// The worker's decision once the rate limiter has answered: the oldest waiting request
    /// is dispatched if the limiter admitted it, and failed if the limiter failed.
    pub fn next_turn(&mut self, gate: GateOutcome) -> (turn: Turn)
        requires
            old(self).wf(),
        ensures
            final(self).wf(),
            final(self).submitted() == old(self).submitted(),
            final(self).capacity() == old(self).capacity(),
            old(self).waiting().len() == 0 ==> turn == Turn::Idle && final(self).waiting() == old(
                self,
            ).waiting() && final(self).handled() == old(self).handled(),
            old(self).waiting().len() > 0 ==> {
                let t = old(self).waiting()[0];
                &&& gate == GateOutcome::Admitted ==> turn == Turn::Dispatch(t)
                &&& gate == GateOutcome::Failed ==> turn == Turn::Fail(t)
                &&& final(self).waiting() == old(self).waiting().drop_first()
                &&& final(self).handled() == old(self).handled().push(t)
            },
    {
        if self.waiting.len() == 0 {
            return Turn::Idle;
        }
        let t = self.waiting.remove(0);
        self.handled = Ghost(self.handled@.push(t));
        assert(self.handled@ + self.waiting@ =~= old(self).handled@ + old(self).waiting@);
        match gate {
            GateOutcome::Admitted => Turn::Dispatch(t),
            GateOutcome::Failed => Turn::Fail(t),
        }
    }
}

/// Requests reach the transport in submission order: the i-th request to leave the
/// queue is the i-th one submitted, and the waiting ones are the latest submitted,
/// oldest first.
pub proof fn lemma_admission_in_submission_order(q: &AdmissionQueue)
    requires
        q.wf(),
    ensures
        q.handled().len() + q.waiting().len() == q.submitted(),
        forall|i: int| 0 <= i < q.handled().len() ==> #[trigger] q.handled()[i] == i,
        forall|j: int|
            0 <= j < q.waiting().len() ==> #[trigger] q.waiting()[j] == q.handled().len() + j,
{
    assert(q.handled() + q.waiting() == tickets(q.submitted()));
    let all = q.handled() + q.waiting();
    assert forall|i: int| 0 <= i < q.handled().len() implies #[trigger] q.handled()[i] == i by {
        assert(all[i] == q.handled()[i]);
        assert(all[i] == tickets(q.submitted())[i]);
    }
    assert forall|j: int| 0 <= j < q.waiting().len() implies #[trigger] q.waiting()[j] == q.handled().len() + j by {
        assert(all[q.handled().len() + j] == q.waiting()[j]);
        assert(all[q.handled().len() + j] == tickets(q.submitted())[q.handled().len() + j]);
    }
}

} // verus!
