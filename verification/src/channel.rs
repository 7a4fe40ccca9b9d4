//! The channel between callers and the one worker that drives the server,
//! as a sequential model of the protocol.
//!
//! Callers enqueue commands through front-end methods; the worker takes them
//! off in arrival order, one at a time, and hands back at most one reply per
//! command. The channel keeps a ghost record of what was issued, what was
//! handed to the server and which replies went out, and its invariant ties
//! the three together.
//!
//! This type runs on one thread: its queue is its own, and the laws below
//! are proved of that queue. Between threads the commands travel through
//! the `transport` module, whose queue is an outside crate's; that that
//! queue keeps the order of arrival is the outside crate's word, and is not
//! proved here.

use vstd::prelude::*;
use crate::message::{answers, expects_reply, reply_kind, Envelope, Message, ReplyKind, Response};

verus! {

/// What the worker remembers of the command that the server is working on.
struct InFlight {
    caller: u64,
    ticket: u64,
    kind: ReplyKind,
    reply: bool,
}

/// What the worker does next.
#[derive(Debug, PartialEq, Eq)]
pub enum Next<K> {
    /// Hand this command to the server, then report its result with
    /// [`MpscComputeChannel::complete`].
    Serve(Envelope<K>),
    /// The server has not finished the previous command.
    Busy,
    /// Nothing is queued, but a caller may still send.
    Wait,
    /// Nothing is queued and no caller is left: the worker stops.
    Exit,
}

/// What becomes of a server result.
#[derive(Debug, PartialEq, Eq)]
pub enum Outcome<R> {
    /// Send `response` through the reply conduit named by `ticket`.
    Deliver { caller: u64, ticket: u64, response: Response<R> },
    /// The command declared no reply: nothing is sent.
    Done,
    /// No command was in flight, or the result has the wrong shape for it.
    Rejected(Response<R>),
}

/// The state that all front-end handles of one channel share.
pub struct MpscComputeChannel<K> {
    queue: Vec<Envelope<K>>,
    live: u64,
    callers: u64,
    sent: u64,
    busy: Option<InFlight>,
    issued: Ghost<Seq<Envelope<K>>>,
    served: Ghost<Seq<Envelope<K>>>,
    delivered: Ghost<Seq<u64>>,
}

/// The tickets of the commands in `commands` that declare a reply, in order.
pub open spec fn reply_tickets<K>(commands: Seq<Envelope<K>>) -> Seq<u64>
    decreases commands.len(),
{
    if commands.len() == 0 {
        Seq::empty()
    } else {
        let before = reply_tickets(commands.drop_last());
        if expects_reply(commands.last().message) {
            before.push(commands.last().ticket)
        } else {
            before
        }
    }
}

/// The commands in `commands` that `caller` issued, in order.
pub open spec fn issued_by<K>(commands: Seq<Envelope<K>>, caller: u64) -> Seq<Envelope<K>> {
    commands.filter(|e: Envelope<K>| e.caller == caller)
}

/// Where every command's ticket is its position, the reply tickets are the
/// positions of the commands that declare a reply, each once.
proof fn lemma_reply_tickets<K>(commands: Seq<Envelope<K>>)
    requires
        forall|i: int| 0 <= i < commands.len() ==> (#[trigger] commands[i]).ticket == i,
    ensures
        forall|t: u64| #[trigger]
            reply_tickets(commands).contains(t) <==> (t < commands.len() && expects_reply(
                commands[t as int].message,
            )),
        reply_tickets(commands).no_duplicates(),
    decreases commands.len(),
{
    if commands.len() > 0 {
        let init = commands.drop_last();
        let last = commands.last();
        lemma_reply_tickets(init);
        let before = reply_tickets(init);
        assert(forall|i: int| 0 <= i < init.len() ==> init[i] == commands[i]);
        if expects_reply(last.message) {
            let after = before.push(last.ticket);
            assert(reply_tickets(commands) == after);
            assert(!before.contains(last.ticket));
            assert forall|t: u64| #[trigger]
                after.contains(t) <==> (t < commands.len() && expects_reply(
                    commands[t as int].message,
                )) by {
                if after.contains(t) {
                    let i = choose|i: int| 0 <= i < after.len() && after[i] == t;
                    if i < before.len() {
                        assert(before[i] == t);
                        assert(before.contains(t));
                    }
                }
                if t < commands.len() && expects_reply(commands[t as int].message) {
                    if t == last.ticket {
                        assert(after[before.len() as int] == t);
                    } else {
                        assert(before.contains(t));
                        let i = choose|i: int| 0 <= i < before.len() && before[i] == t;
                        assert(after[i] == t);
                    }
                }
            }
            assert forall|i: int, j: int|
                0 <= i < after.len() && 0 <= j < after.len() && i != j implies after[i]
                != after[j] by {
                if i < before.len() {
                    assert(before.contains(before[i]));
                }
                if j < before.len() {
                    assert(before.contains(before[j]));
                }
            }
        } else {
            assert(reply_tickets(commands) == before);
        }
    }
}

impl<K> MpscComputeChannel<K> {
    /// Every command that a caller has enqueued so far, in arrival order.
    pub closed spec fn issued(&self) -> Seq<Envelope<K>> {
        self.issued@
    }

    /// Every command that has been handed to the server so far, in order.
    pub closed spec fn served(&self) -> Seq<Envelope<K>> {
        self.served@
    }

    /// The commands that wait in the queue, the next one first.
    pub closed spec fn pending(&self) -> Seq<Envelope<K>> {
        self.queue@
    }

    /// The tickets of the replies that went out so far, in order.
    pub closed spec fn delivered(&self) -> Seq<u64> {
        self.delivered@
    }

    /// How many front-end handles are alive.
    pub closed spec fn handles(&self) -> nat {
        self.live as nat
    }

    /// How many front-end handles were ever made.
    pub closed spec fn callers(&self) -> nat {
        self.callers as nat
    }

    /// The command that the server is working on, if any.
    pub closed spec fn in_flight(&self) -> Option<Envelope<K>> {
        if self.busy is Some && self.served@.len() > 0 {
            Some(self.served@.last())
        } else {
            None
        }
    }

    /// The commands that the server has finished.
    pub open spec fn completed(&self) -> Seq<Envelope<K>> {
        if self.in_flight() is Some {
            self.served().drop_last()
        } else {
            self.served()
        }
    }

    /// The channel's invariant: what was issued is what was served followed
    /// by what is pending; tickets count the commands from zero; every
    /// command names a handle that was made; the replies that went out are
    /// those of the finished commands that declare one.
    pub closed spec fn wf(&self) -> bool {
        &&& self.issued@ =~= self.served@ + self.queue@
        &&& self.sent as nat == self.issued@.len()
        &&& forall|i: int| 0 <= i < self.issued@.len() ==> (#[trigger] self.issued@[i]).ticket == i
        &&& forall|i: int|
            0 <= i < self.issued@.len() ==> (#[trigger] self.issued@[i]).caller < self.callers
        &&& self.live <= self.callers
        &&& self.delivered@ == reply_tickets(self.completed())
        &&& match self.busy {
            Some(b) => {
                &&& self.served@.len() > 0
                &&& b.caller == self.served@.last().caller
                &&& b.ticket == self.served@.last().ticket
                &&& b.kind == reply_kind(self.served@.last().message)
                &&& b.reply == expects_reply(self.served@.last().message)
            },
            None => true,
        }
    }

    /// Whether `caller` can enqueue: it is one of the handles that were
    /// made, a handle is alive, and tickets are left.
    pub open spec fn accepts(&self, caller: u64) -> bool {
        self.handles() > 0 && caller < self.callers() && self.issued().len() < u64::MAX
    }

    /// Handles aside, nothing differs from `before`.
    pub open spec fn same_traffic(&self, before: Self) -> bool {
        &&& self.issued() == before.issued()
        &&& self.served() == before.served()
        &&& self.pending() == before.pending()
        &&& self.delivered() == before.delivered()
        &&& self.in_flight() == before.in_flight()
    }

    /// One command of `caller` was appended behind all that `before` held,
    /// with the next ticket; nothing else differs.
    pub open spec fn enqueued(&self, before: Self, caller: u64) -> bool {
        &&& self.issued().len() == before.issued().len() + 1
        &&& self.issued().drop_last() == before.issued()
        &&& self.issued().last().caller == caller
        &&& self.issued().last().ticket == before.issued().len()
        &&& self.pending() == before.pending().push(self.issued().last())
        &&& self.served() == before.served()
        &&& self.delivered() == before.delivered()
        &&& self.in_flight() == before.in_flight()
        &&& self.handles() == before.handles()
        &&& self.callers() == before.callers()
    }

    /// A channel with one front-end handle, caller 0, and nothing queued.
    pub fn new() -> (channel: Self)
        ensures
            channel.wf(),
            channel.issued() == Seq::<Envelope<K>>::empty(),
            channel.served() == Seq::<Envelope<K>>::empty(),
            channel.pending() == Seq::<Envelope<K>>::empty(),
            channel.delivered() == Seq::<u64>::empty(),
            channel.in_flight() is None,
            channel.handles() == 1,
            channel.callers() == 1,
    {
        MpscComputeChannel {
            queue: Vec::new(),
            live: 1,
            callers: 1,
            sent: 0,
            busy: None,
            issued: Ghost(Seq::empty()),
            served: Ghost(Seq::empty()),
            delivered: Ghost(Seq::empty()),
        }
    }

    /// Whether `caller` can enqueue now.
    pub fn is_open(&self, caller: u64) -> (open: bool)
        requires
            self.wf(),
        ensures
            open == self.accepts(caller),
    {
        self.live > 0 && caller < self.callers && self.sent < u64::MAX
    }

    /// Whether one more handle can be made: a handle is alive to make it
    /// from, and caller numbers are left.
    pub fn can_clone(&self) -> (possible: bool)
        requires
            self.wf(),
        ensures
            possible == (self.handles() > 0 && self.callers() < u64::MAX),
    {
        self.live > 0 && self.callers < u64::MAX
    }

    /// Whether the server is free: no command is in flight.
    pub fn is_idle(&self) -> (idle: bool)
        requires
            self.wf(),
        ensures
            idle == (self.in_flight() is None),
    {
        self.busy.is_none()
    }

    /// Number of commands that wait in the queue.
    pub fn queued(&self) -> (count: usize)
        ensures
            count == self.pending().len(),
    {
        self.queue.len()
    }

    /// Makes one more front-end handle on the same queue and returns its
    /// caller number. Commands are untouched.
    pub fn clone_handle(&mut self) -> (caller: u64)
        requires
            old(self).wf(),
            old(self).handles() > 0,
            old(self).callers() < u64::MAX,
        ensures
            final(self).wf(),
            final(self).same_traffic(*old(self)),
            caller == old(self).callers(),
            final(self).callers() == old(self).callers() + 1,
            final(self).handles() == old(self).handles() + 1,
    {
        let caller: u64 = self.callers;
        self.callers = self.callers + 1;
        self.live = self.live + 1;
        caller
    }

    /// Gives one front-end handle up. What is queued stays queued.
    pub fn drop_handle(&mut self)
        requires
            old(self).wf(),
        ensures
            final(self).wf(),
            final(self).same_traffic(*old(self)),
            final(self).callers() == old(self).callers(),
            final(self).handles() == if old(self).handles() > 0 {
                old(self).handles() - 1
            } else {
                0
            },
    {
        if self.live > 0 {
            self.live = self.live - 1;
        }
    }

    /// Appends `message` to the queue for `caller` and returns its ticket.
    /// Every front-end method goes through here.
    pub fn send(&mut self, caller: u64, message: Message<K>) -> (ticket: u64)
        requires
            old(self).wf(),
            old(self).accepts(caller),
        ensures
            final(self).wf(),
            final(self).enqueued(*old(self), caller),
            final(self).issued().last().message == message,
            ticket == old(self).issued().len(),
    {
        let ticket: u64 = self.sent;
        let envelope = Envelope { caller, ticket, message };
        let ghost entry = envelope;
        self.queue.push(envelope);
        self.sent = self.sent + 1;
        proof {
            self.issued@ = self.issued@.push(entry);
            assert(self.issued@ =~= self.served@ + self.queue@);
            assert(self.issued@.drop_last() =~= old(self).issued@);
        }
        ticket
    }

    /// The worker's turn. Takes the oldest command off the queue, unless the
    /// server is still busy; with nothing queued, says whether to wait or,
    /// once no handle is left, to stop.
    pub fn recv(&mut self) -> (next: Next<K>)
        requires
            old(self).wf(),
        ensures
            final(self).wf(),
            final(self).issued() == old(self).issued(),
            final(self).delivered() == old(self).delivered(),
            final(self).handles() == old(self).handles(),
            final(self).callers() == old(self).callers(),
            match next {
                Next::Serve(envelope) => {
                    &&& old(self).in_flight() is None
                    &&& old(self).pending().len() > 0
                    &&& envelope == old(self).pending().first()
                    &&& final(self).pending() == old(self).pending().drop_first()
                    &&& final(self).served() == old(self).served().push(envelope)
                    &&& final(self).in_flight() == Some(envelope)
                },
                Next::Busy => old(self).in_flight() is Some && final(self).same_traffic(
                    *old(self),
                ),
                Next::Wait => {
                    &&& old(self).in_flight() is None
                    &&& old(self).pending().len() == 0
                    &&& old(self).handles() > 0
                    &&& final(self).same_traffic(*old(self))
                },
                Next::Exit => {
                    &&& old(self).in_flight() is None
                    &&& old(self).pending().len() == 0
                    &&& old(self).handles() == 0
                    &&& final(self).same_traffic(*old(self))
                },
            },
    {
        if self.busy.is_some() {
            return Next::Busy;
        }
        if self.queue.len() == 0 {
            if self.live > 0 {
                return Next::Wait;
            }
            return Next::Exit;
        }
        let envelope = self.queue.remove(0);
        self.busy = Some(
            InFlight {
                caller: envelope.caller,
                ticket: envelope.ticket,
                kind: envelope.message.reply_kind(),
                reply: envelope.message.expects_reply(),
            },
        );
        proof {
            self.served@ = self.served@.push(envelope);
            assert(self.queue@ =~= old(self).queue@.drop_first());
            assert(self.issued@ =~= self.served@ + self.queue@);
            assert(self.served@.drop_last() =~= old(self).served@);
        }
        Next::Serve(envelope)
    }

    /// The server has finished the command in flight with `response`. Says
    /// where the result goes: to the command's reply conduit if it declared
    /// one, nowhere if it did not. The response passes through unchanged.
    pub fn complete<R>(&mut self, response: Response<R>) -> (outcome: Outcome<R>)
        requires
            old(self).wf(),
        ensures
            final(self).wf(),
            final(self).issued() == old(self).issued(),
            final(self).served() == old(self).served(),
            final(self).pending() == old(self).pending(),
            final(self).handles() == old(self).handles(),
            final(self).callers() == old(self).callers(),
            match old(self).in_flight() {
                Some(command) if answers(command.message, response) => {
                    &&& final(self).in_flight() is None
                    &&& if expects_reply(command.message) {
                        &&& outcome == (Outcome::Deliver {
                            caller: command.caller,
                            ticket: command.ticket,
                            response,
                        })
                        &&& final(self).delivered() == old(self).delivered().push(command.ticket)
                    } else {
                        &&& outcome == Outcome::<R>::Done
                        &&& final(self).delivered() == old(self).delivered()
                    }
                },
                _ => {
                    &&& outcome == Outcome::Rejected(response)
                    &&& final(self).same_traffic(*old(self))
                },
            },
    {
        let (caller, ticket, reply): (u64, u64, bool) = match &self.busy {
            Some(b) => {
                if b.kind != response.kind() {
                    return Outcome::Rejected(response);
                }
                (b.caller, b.ticket, b.reply)
            },
            None => {
                return Outcome::Rejected(response);
            },
        };
        self.busy = None;
        if reply {
            proof {
                self.delivered@ = self.delivered@.push(ticket);
            }
            Outcome::Deliver { caller, ticket, response }
        } else {
            Outcome::Done
        }
    }
}

impl<K> MpscComputeChannel<K> {
    /// One total order: what was issued is what the server was handed,
    /// followed by what is still queued. No command is lost, none occurs
    /// twice, the ticket of each is its place in the order, and each was
    /// issued through a handle that was made. The command in flight, if
    /// any, is the last that the server was handed.
    pub proof fn lemma_total_order(&self)
        requires
            self.wf(),
        ensures
            self.issued() == self.served() + self.pending(),
            forall|i: int|
                0 <= i < self.issued().len() ==> (#[trigger] self.issued()[i]).ticket == i,
            forall|i: int|
                0 <= i < self.served().len() ==> #[trigger] self.served()[i] == self.issued()[i],
            forall|i: int|
                0 <= i < self.issued().len() ==> (#[trigger] self.issued()[i]).caller
                    < self.callers(),
            self.handles() <= self.callers(),
            self.in_flight() is Some ==> self.served().len() > 0 && self.in_flight() == Some(
                self.served().last(),
            ),
            self.completed().is_prefix_of(self.served()),
    {
    }

    /// The server sees the commands of each caller in the order in which
    /// that caller issued them: those handed to the server so far are the
    /// first of the caller's commands, those queued are the rest.
    pub proof fn lemma_fifo_per_caller(&self, caller: u64)
        requires
            self.wf(),
        ensures
            issued_by(self.issued(), caller) == issued_by(self.served(), caller) + issued_by(
                self.pending(),
                caller,
            ),
            issued_by(self.served(), caller).is_prefix_of(issued_by(self.issued(), caller)),
            self.pending().len() == 0 ==> issued_by(self.served(), caller) == issued_by(
                self.issued(),
                caller,
            ),
    {
        let pred = |e: Envelope<K>| e.caller == caller;
        Seq::filter_distributes_over_add(self.served@, self.queue@, pred);
        let head = issued_by(self.served(), caller);
        let tail = issued_by(self.pending(), caller);
        assert(head.is_prefix_of(head + tail));
        if self.pending().len() == 0 {
            assert(self.served@ + self.queue@ =~= self.served@);
        }
    }

    /// Each finished command that declares a reply got exactly one, and no
    /// other command got any: the tickets delivered hold no ticket twice,
    /// and a ticket is among them exactly if its command is finished and
    /// declares a reply.
    pub proof fn lemma_single_delivery(&self)
        requires
            self.wf(),
        ensures
            self.delivered() == reply_tickets(self.completed()),
            self.delivered().no_duplicates(),
            forall|t: u64| #[trigger]
                self.delivered().contains(t) <==> (t < self.completed().len() && expects_reply(
                    self.issued()[t as int].message,
                )),
    {
        let done = self.completed();
        assert(forall|i: int| 0 <= i < done.len() ==> #[trigger] done[i] == self.issued@[i]);
        lemma_reply_tickets(done);
    }

    /// A reply is not produced before every command issued ahead of its own
    /// has been handed to the server: once the reply to the command with
    /// ticket `later` is out, the command with ticket `earlier` has been
    /// served, and finished.
    pub proof fn lemma_reply_follows_dispatch(&self, earlier: u64, later: u64)
        requires
            self.wf(),
            earlier <= later,
            self.delivered().contains(later),
        ensures
            later < self.served().len(),
            self.served()[earlier as int] == self.issued()[earlier as int],
            self.served()[earlier as int].ticket == earlier,
            earlier < later ==> earlier < self.completed().len(),
    {
        self.lemma_single_delivery();
        self.lemma_total_order();
    }

    /// When the worker stops (nothing queued, nothing in flight), every
    /// command ever issued has been handed to the server, and every reply
    /// that was declared has been delivered.
    pub proof fn lemma_drained(&self)
        requires
            self.wf(),
            self.pending().len() == 0,
            self.in_flight() is None,
        ensures
            self.served() == self.issued(),
            self.delivered() == reply_tickets(self.issued()),
    {
        assert(self.served@ + self.queue@ =~= self.served@);
    }
}


} // verus!
