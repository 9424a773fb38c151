//! Request/reply arbiter for a single physical bus.
//!
//! Many logical clients see what looks like direct, exclusive bus access:
//! each call places a request — target address plus an ordered list of
//! operations — into a mailbox and suspends until a single consumer loop
//! has dequeued it, run the one physical transaction, and delivered the
//! reply through the request's own ticket.  Only one transaction is ever in
//! flight; transactions from different clients are never interleaved on
//! the wire.
//!
//! A request owns copies of its operation buffers, so the consumer never
//! references memory of the caller's suspended frame and a caller dropped
//! mid-flight can corrupt nothing.
//!
//! The mailbox discipline is modelled as a transition system over
//! `ArbiterState`: `submit` is the producing half of a client call,
//! `serve_one` is one turn of the consumer loop with the bus's outcome for
//! the dequeued transaction, and the serialization law at the bottom is
//! proved over whole runs.

use vstd::prelude::*;

verus! {

/// One bus operation: read a number of bytes, or write the given bytes.
#[derive(Clone, Debug, PartialEq, Eq)]
pub enum Operation {
    Read(usize),
    Write(Vec<u8>),
}

/// Which phase of a transaction went unacknowledged.
#[derive(Clone, Copy, Debug, PartialEq, Eq, Structural)]
pub enum NoAcknowledgeSource {
    Address,
    Data,
    Unknown,
}

/// Why a physical transaction failed.
#[derive(Clone, Copy, Debug, PartialEq, Eq, Structural)]
pub enum BusErrorKind {
    Bus,
    ArbitrationLoss,
    NoAcknowledge(NoAcknowledgeSource),
    Overrun,
    Other,
}

/// What a transaction call resolves to, delivered exactly once per request.
pub type Response = Result<(), BusErrorKind>;

/// A pending transaction: target address, the ordered operations, and the
/// ticket its reply will carry.
#[derive(Clone, Debug, PartialEq, Eq)]
pub struct Request {
    pub address: u8,
    pub operations: Vec<Operation>,
    pub ticket: u64,
}

/// The consumer's answer to one request.
#[derive(Clone, Copy, Debug, PartialEq, Eq)]
pub struct Reply {
    pub ticket: u64,
    pub result: Response,
}

/// A request as mathematics: the operation list as a sequence.
pub ghost struct ReqView {
    pub address: u8,
    pub operations: Seq<Operation>,
    pub ticket: u64,
}

impl Request {
    pub open spec fn view_spec(self) -> ReqView {
        ReqView { address: self.address, operations: self.operations@, ticket: self.ticket }
    }
}

/// Protocol state of the arbiter: the mailbox of pending requests in
/// arrival order, the next free ticket, and the log of physical
/// transactions already performed, in the order they ran.
pub ghost struct ArbiterState {
    pub queue: Seq<ReqView>,
    pub next_ticket: u64,
    pub performed: Seq<ReqView>,
}

/// A fresh arbiter: nothing pending, nothing performed.
pub open spec fn arbiter_init() -> ArbiterState {
    ArbiterState { queue: Seq::empty(), next_ticket: 0, performed: Seq::empty() }
}

/// The producing half of a client call: the request joins the back of the
/// mailbox under a fresh ticket.
pub open spec fn arbiter_submit(s: ArbiterState, address: u8, operations: Seq<Operation>) -> (
    ArbiterState,
    u64,
) {
    (
        ArbiterState {
            queue: s.queue.push(
                ReqView { address, operations, ticket: s.next_ticket },
            ),
            next_ticket: (s.next_ticket + 1) as u64,
            performed: s.performed,
        },
        s.next_ticket,
    )
}

/// One turn of the consumer loop: the oldest pending request leaves the
/// mailbox, its physical transaction runs with outcome `outcome`, and the
/// reply carries that request's own ticket.  An empty mailbox performs
/// nothing.
pub open spec fn arbiter_serve(s: ArbiterState, outcome: Response) -> (
    ArbiterState,
    Option<Reply>,
) {
    if s.queue.len() == 0 {
        (s, None)
    } else {
        (
            ArbiterState {
                queue: s.queue.drop_first(),
                next_ticket: s.next_ticket,
                performed: s.performed.push(s.queue.first()),
            },
            Some(Reply { ticket: s.queue.first().ticket, result: outcome }),
        )
    }
}

/// A whole batch of client calls arriving in order.
pub open spec fn arbiter_submit_all(s: ArbiterState, reqs: Seq<(u8, Seq<Operation>)>) -> ArbiterState
    decreases reqs.len(),
{
    if reqs.len() == 0 {
        s
    } else {
        arbiter_submit_all(arbiter_submit(s, reqs.first().0, reqs.first().1).0, reqs.drop_first())
    }
}

/// The consumer loop running once per outcome, collecting the replies it
/// delivers.
pub open spec fn arbiter_serve_all(s: ArbiterState, outcomes: Seq<Response>) -> (
    ArbiterState,
    Seq<Reply>,
)
    decreases outcomes.len(),
{
    if outcomes.len() == 0 {
        (s, Seq::empty())
    } else {
        let (s1, reply) = arbiter_serve(s, outcomes.first());
        let (s2, rest) = arbiter_serve_all(s1, outcomes.drop_first());
        (
            s2,
            match reply {
                Some(r) => seq![r] + rest,
                None => rest,
            },
        )
    }
}

proof fn lemma_submit_all(s: ArbiterState, reqs: Seq<(u8, Seq<Operation>)>)
    requires
        s.next_ticket + reqs.len() <= u64::MAX,
    ensures
        ({
            let s2 = arbiter_submit_all(s, reqs);
            &&& s2.queue.len() == s.queue.len() + reqs.len()
            &&& forall|i: int| 0 <= i < s.queue.len() ==> s2.queue[i] == s.queue[i]
            &&& forall|i: int|
                0 <= i < reqs.len() ==> s2.queue[s.queue.len() + i] == (ReqView {
                    address: reqs[i].0,
                    operations: reqs[i].1,
                    ticket: (s.next_ticket + i) as u64,
                })
            &&& s2.next_ticket == s.next_ticket + reqs.len()
            &&& s2.performed == s.performed
        }),
    decreases reqs.len(),
{
    if reqs.len() > 0 {
        let (s1, t) = arbiter_submit(s, reqs.first().0, reqs.first().1);
        lemma_submit_all(s1, reqs.drop_first());
        let s2 = arbiter_submit_all(s, reqs);
        assert forall|i: int| 0 <= i < reqs.len() implies s2.queue[s.queue.len() + i] == (ReqView {
            address: reqs[i].0,
            operations: reqs[i].1,
            ticket: (s.next_ticket + i) as u64,
        }) by {
            if i > 0 {
                assert(reqs.drop_first()[i - 1] == reqs[i]);
            }
        }
    }
}

proof fn lemma_serve_all(s: ArbiterState, outcomes: Seq<Response>)
    requires
        outcomes.len() <= s.queue.len(),
    ensures
        ({
            let (s2, replies) = arbiter_serve_all(s, outcomes);
            &&& s2.queue == s.queue.skip(outcomes.len() as int)
            &&& s2.next_ticket == s.next_ticket
            &&& s2.performed == s.performed + s.queue.take(outcomes.len() as int)
            &&& replies.len() == outcomes.len()
            &&& forall|i: int|
                0 <= i < outcomes.len() ==> replies[i] == (Reply {
                    ticket: s.queue[i].ticket,
                    result: outcomes[i],
                })
        }),
    decreases outcomes.len(),
{
    let (s2, replies) = arbiter_serve_all(s, outcomes);
    if outcomes.len() == 0 {
        assert(s2.queue =~= s.queue.skip(0));
        assert(s2.performed =~= s.performed + s.queue.take(0));
    } else {
        let (s1, reply) = arbiter_serve(s, outcomes.first());
        lemma_serve_all(s1, outcomes.drop_first());
        let (s2r, rest) = arbiter_serve_all(s1, outcomes.drop_first());
        assert(s2.queue =~= s.queue.skip(outcomes.len() as int));
        assert(s2.performed =~= s.performed + s.queue.take(outcomes.len() as int));
        assert forall|i: int| 0 <= i < outcomes.len() implies replies[i] == (Reply {
            ticket: s.queue[i].ticket,
            result: outcomes[i],
        }) by {
            if i > 0 {
                assert(rest[i - 1] == (Reply {
                    ticket: s1.queue[i - 1].ticket,
                    result: outcomes.drop_first()[i - 1],
                }));
                assert(s1.queue[i - 1] == s.queue[i]);
                assert(outcomes.drop_first()[i - 1] == outcomes[i]);
            }
        }
    }
}

/// Serialization: any number of client calls arriving at a quiet arbiter
/// and consumed by its single loop yield exactly one physical transaction
/// per call — run whole, one after another, in arrival order — and each
/// caller's reply carries its own ticket and its own transaction's outcome.
pub proof fn lemma_arbiter_serialization(
    s: ArbiterState,
    reqs: Seq<(u8, Seq<Operation>)>,
    outcomes: Seq<Response>,
)
    requires
        s.queue.len() == 0,
        outcomes.len() == reqs.len(),
        s.next_ticket + reqs.len() <= u64::MAX,
    ensures
        ({
            let submitted = arbiter_submit_all(s, reqs);
            let (served, replies) = arbiter_serve_all(submitted, outcomes);
            &&& served.queue.len() == 0
            &&& served.performed.len() == s.performed.len() + reqs.len()
            &&& forall|i: int|
                0 <= i < reqs.len() ==> served.performed[s.performed.len() + i] == (ReqView {
                    address: reqs[i].0,
                    operations: reqs[i].1,
                    ticket: (s.next_ticket + i) as u64,
                })
            &&& replies.len() == reqs.len()
            &&& forall|i: int|
                0 <= i < reqs.len() ==> replies[i] == (Reply {
                    ticket: (s.next_ticket + i) as u64,
                    result: outcomes[i],
                })
        }),
{
    lemma_submit_all(s, reqs);
    let submitted = arbiter_submit_all(s, reqs);
    lemma_serve_all(submitted, outcomes);
    let (served, replies) = arbiter_serve_all(submitted, outcomes);
    assert(served.performed.len() == s.performed.len() + reqs.len());
    assert forall|i: int| 0 <= i < reqs.len() implies served.performed[s.performed.len() + i] == (
    ReqView {
        address: reqs[i].0,
        operations: reqs[i].1,
        ticket: (s.next_ticket + i) as u64,
    }) by {
        assert(served.performed[s.performed.len() + i] == submitted.queue.take(reqs.len() as int)[i]);
        assert(submitted.queue.take(reqs.len() as int)[i] == submitted.queue[i]);
        assert(submitted.queue[s.queue.len() + i] == (ReqView {
            address: reqs[i].0,
            operations: reqs[i].1,
            ticket: (s.next_ticket + i) as u64,
        }));
    }
    assert forall|i: int| 0 <= i < reqs.len() implies replies[i] == (Reply {
        ticket: (s.next_ticket + i) as u64,
        result: outcomes[i],
    }) by {
        assert(replies[i] == (Reply { ticket: submitted.queue[i].ticket, result: outcomes[i] }));
        assert(submitted.queue[s.queue.len() + i] == (ReqView {
            address: reqs[i].0,
            operations: reqs[i].1,
            ticket: (s.next_ticket + i) as u64,
        }));
    }
}

/// The single logical owner of one physical bus.
///
/// The field `i2c` is the underlying bus driver the consumer loop drives;
/// the mailbox and the ticket counter decide which transaction runs next
/// and which caller gets which reply.  The physical outcome of each
/// transaction is the bus's to decide and reaches `serve_one` as an
/// argument; the log of performed transactions is kept as ghost history.
pub struct I2cActor<I2C> {
    pub i2c: I2C,
    queue: Vec<Request>,
    next_ticket: u64,
    performed: Ghost<Seq<ReqView>>,
}

impl<I2C> I2cActor<I2C> {
    /// The underlying bus driver.
    pub closed spec fn spec_i2c(self) -> I2C {
        self.i2c
    }

    /// The protocol state this arbiter is in.
    pub closed spec fn spec_state(self) -> ArbiterState {
        ArbiterState {
            queue: self.queue@.map_values(|r: Request| r.view_spec()),
            next_ticket: self.next_ticket,
            performed: self.performed@,
        }
    }

    pub fn new(i2c: I2C) -> (r: Self)
        ensures
            r.spec_state() == arbiter_init(),
            r.spec_i2c() == i2c,
    {
        let r = I2cActor { i2c, queue: Vec::new(), next_ticket: 0, performed: Ghost(Seq::empty()) };
        proof {
            assert(r.spec_state().queue =~= Seq::<ReqView>::empty());
        }
        r
    }

    /// The producing half of a client's transaction call: enqueues the
    /// request and returns the ticket its reply will carry.  The caller
    /// then suspends until that reply arrives.
    pub fn submit(&mut self, address: u8, operations: Vec<Operation>) -> (ticket: u64)
        requires
            old(self).spec_state().next_ticket < u64::MAX,
        ensures
            ({
                let (s2, t) = arbiter_submit(old(self).spec_state(), address, operations@);
                &&& final(self).spec_state() == s2
                &&& ticket == t
            }),
            final(self).spec_i2c() == old(self).spec_i2c(),
    {
        let ticket = self.next_ticket;
        self.next_ticket = ticket + 1;
        let ghost pre_queue = self.queue@;
        self.queue.push(Request { address, operations, ticket });
        proof {
            assert(self.queue@.map_values(|r: Request| r.view_spec()) =~= pre_queue.map_values(
                |r: Request| r.view_spec(),
            ).push(self.queue@.last().view_spec()));
        }
        ticket
    }

    /// One turn of the consumer loop: dequeues the oldest request — whose
    /// physical transaction the caller has run against the bus with
    /// outcome `outcome` — and returns the reply owed to its submitter,
    /// or `None` if nothing was pending and no transaction ran.
    pub fn serve_one(&mut self, outcome: Response) -> (reply: Option<Reply>)
        ensures
            ({
                let (s2, r) = arbiter_serve(old(self).spec_state(), outcome);
                &&& final(self).spec_state() == s2
                &&& reply == r
            }),
            final(self).spec_i2c() == old(self).spec_i2c(),
    {
        if self.queue.len() == 0 {
            None
        } else {
            let ghost pre_queue = self.queue@;
            let req = self.queue.remove(0);
            proof {
                self.performed = Ghost(self.performed@.push(req.view_spec()));
                assert(self.queue@.map_values(|r: Request| r.view_spec()) =~= pre_queue.map_values(
                    |r: Request| r.view_spec(),
                ).drop_first());
            }
            Some(Reply { ticket: req.ticket, result: outcome })
        }
    }

    /// How many requests are waiting.
    pub fn pending(&self) -> (r: usize)
        ensures
            r == self.spec_state().queue.len(),
    {
        self.queue.len()
    }
}

} // verus!
