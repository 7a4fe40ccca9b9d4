//! The worker's side: the server it drives, and one turn of its loop.

use vstd::prelude::*;
use crate::channel::{reply_tickets, MpscComputeChannel, Next, Outcome};
use crate::message::{answers, expects_reply, Envelope, Message, Response};
use crate::server::{Binding, BindingWithMeta, Bindings, CubeCount, ExecutionMode, Handle,
    MemoryUsage, ProfileDuration};

verus! {

/// An operation of the server with the payload it was called with, the
/// buffers and shapes as sequences.
pub enum Operation<K> {
    Read(Seq<Binding>),
    ReadTensor(Seq<BindingWithMeta>),
    GetResource(Binding),
    Create(Seq<u8>),
    CreateTensor(Seq<u8>, Seq<usize>, usize),
    Empty(usize),
    EmptyTensor(Seq<usize>, usize),
    Execute(K, CubeCount, Bindings, ExecutionMode),
    Flush,
    Sync,
    MemoryUsage,
    MemoryCleanup,
    StartProfile,
    EndProfile,
}

/// One call that a server has performed: the operation, and what it gave
/// back (`Done` where it gives nothing back).
pub struct Performed<K, R> {
    pub operation: Operation<K>,
    pub result: Response<R>,
}

/// The calls made on a server, oldest first.
pub type Record<K, R> = Seq<Performed<K, R>>;

/// The call of `operation` that gave `result`.
pub open spec fn call<K, R>(operation: Operation<K>, result: Response<R>) -> Performed<K, R> {
    Performed { operation, result }
}

/// The operation that a command names, with the command's payload.
pub open spec fn operation_of<K>(message: Message<K>) -> Operation<K> {
    match message {
        Message::Read(bindings) => Operation::Read(bindings@),
        Message::ReadTensor(bindings) => Operation::ReadTensor(bindings@),
        Message::GetResource(binding) => Operation::GetResource(binding),
        Message::Create(data) => Operation::Create(data@),
        Message::CreateTensor(data, shape, elem_size) => Operation::CreateTensor(
            data@,
            shape@,
            elem_size,
        ),
        Message::Empty(size) => Operation::Empty(size),
        Message::EmptyTensor(shape, elem_size) => Operation::EmptyTensor(shape@, elem_size),
        Message::ExecuteKernel(launch, bindings) => Operation::Execute(
            launch.0,
            launch.1,
            bindings,
            launch.2,
        ),
        Message::Flush => Operation::Flush,
        Message::Sync => Operation::Sync,
        Message::MemoryUsage => Operation::MemoryUsage,
        Message::MemoryCleanup => Operation::MemoryCleanup,
        Message::StartProfile => Operation::StartProfile,
        Message::StopMeasure => Operation::EndProfile,
    }
}

/// Whether `after` is `before` with one call added for each of `commands`,
/// in their order: the operation that the command names, with its payload.
pub open spec fn performed_in_order<K, R>(
    after: Record<K, R>,
    before: Record<K, R>,
    commands: Seq<Envelope<K>>,
) -> bool {
    &&& after.len() == before.len() + commands.len()
    &&& after.take(before.len() as int) =~= before
    &&& forall|k: int|
        0 <= k < commands.len() ==> operation_of((#[trigger] commands[k]).message) == after[
            before.len() + k].operation
}

/// Whether the last calls in `record` are those of `commands`, one call
/// for each command, in the commands' order: the operation that the
/// command names, with its payload.
pub open spec fn follows<K, R>(record: Record<K, R>, commands: Seq<Envelope<K>>) -> bool {
    &&& record.len() >= commands.len()
    &&& forall|k: int|
        0 <= k < commands.len() ==> operation_of((#[trigger] commands[k]).message) == record[
            record.len() - commands.len() + k].operation
}

/// Whether `reply` holds what the server gave back for its own command:
/// the result of the call that stands in `record` for the command with the
/// reply's ticket, where the call for ticket `first_ticket` stands at
/// `first_call`.
pub open spec fn holds_result_of_call<K, R>(
    reply: Reply<R>,
    record: Record<K, R>,
    first_call: int,
    first_ticket: int,
) -> bool {
    &&& first_ticket <= reply.ticket
    &&& first_call + (reply.ticket - first_ticket) < record.len()
    &&& reply.response == record[first_call + (reply.ticket - first_ticket)].result
}

/// The backend that performs the commands. The worker is its only user:
/// nothing else ever holds it. What its operations return is the server's
/// own business; the channel passes it on as it is.
///
/// A server has a record of the calls made on it: each operation adds
/// itself to the end, with its payload and its result, and changes nothing
/// else of it. The record exists in proofs only. This is asked of every
/// implementation and shown of none here; an implementation in ordinary
/// code gives `performed` a body that is never run.
pub trait ComputeServer {
    /// What a launch runs.
    type Kernel;

    /// What a binding resolves to in the backend.
    type Resource;

    /// Every call made on this server so far, oldest first.
    spec fn performed(&self) -> Record<Self::Kernel, Self::Resource>;

    fn read(&mut self, bindings: Vec<Binding>) -> (data: Vec<Vec<u8>>)
        ensures
            final(self).performed() == old(self).performed().push(
                call(Operation::Read(bindings@), Response::Data(data)),
            ),
    ;

    fn read_tensor(&mut self, bindings: Vec<BindingWithMeta>) -> (data: Vec<Vec<u8>>)
        ensures
            final(self).performed() == old(self).performed().push(
                call(Operation::ReadTensor(bindings@), Response::Data(data)),
            ),
    ;

    fn get_resource(&mut self, binding: Binding) -> (resource: Self::Resource)
        ensures
            final(self).performed() == old(self).performed().push(
                call(Operation::GetResource(binding), Response::Resource(resource)),
            ),
    ;

    fn create(&mut self, data: &[u8]) -> (handle: Handle)
        ensures
            final(self).performed() == old(self).performed().push(
                call(Operation::Create(data@), Response::Handle(handle)),
            ),
    ;

    fn create_tensor(&mut self, data: &[u8], shape: &[usize], elem_size: usize) -> (made: (
        Handle,
        Vec<usize>,
    ))
        ensures
            final(self).performed() == old(self).performed().push(
                call(
                    Operation::CreateTensor(data@, shape@, elem_size),
                    Response::Tensor(made.0, made.1),
                ),
            ),
    ;

    fn empty(&mut self, size: usize) -> (handle: Handle)
        ensures
            final(self).performed() == old(self).performed().push(
                call(Operation::Empty(size), Response::Handle(handle)),
            ),
    ;

    fn empty_tensor(&mut self, shape: &[usize], elem_size: usize) -> (made: (Handle, Vec<usize>))
        ensures
            final(self).performed() == old(self).performed().push(
                call(Operation::EmptyTensor(shape@, elem_size), Response::Tensor(made.0, made.1)),
            ),
    ;

    fn execute(
        &mut self,
        kernel: Self::Kernel,
        count: CubeCount,
        bindings: Bindings,
        kind: ExecutionMode,
    )
        ensures
            final(self).performed() == old(self).performed().push(
                call(Operation::Execute(kernel, count, bindings, kind), Response::Done),
            ),
    ;

    fn flush(&mut self)
        ensures
            final(self).performed() == old(self).performed().push(
                call(Operation::Flush, Response::Done),
            ),
    ;

    fn sync(&mut self)
        ensures
            final(self).performed() == old(self).performed().push(
                call(Operation::Sync, Response::Done),
            ),
    ;

    fn memory_usage(&mut self) -> (usage: MemoryUsage)
        ensures
            final(self).performed() == old(self).performed().push(
                call(Operation::MemoryUsage, Response::Usage(usage)),
            ),
    ;

    fn memory_cleanup(&mut self)
        ensures
            final(self).performed() == old(self).performed().push(
                call(Operation::MemoryCleanup, Response::Done),
            ),
    ;

    fn start_profile(&mut self)
        ensures
            final(self).performed() == old(self).performed().push(
                call(Operation::StartProfile, Response::Done),
            ),
    ;

    fn end_profile(&mut self) -> (duration: ProfileDuration)
        ensures
            final(self).performed() == old(self).performed().push(
                call(Operation::EndProfile, Response::Profile(duration)),
            ),
    ;
}

/// What one turn of the worker came to.
#[derive(Debug, PartialEq, Eq)]
pub enum Step<R> {
    /// A command was performed; `response` goes to the conduit `ticket`.
    Delivered { caller: u64, ticket: u64, response: Response<R> },
    /// A command that declares no reply was performed.
    Performed,
    /// The server has not finished a command handed out by `recv`.
    Busy,
    /// Nothing is queued, but a caller may still send.
    Wait,
    /// Nothing is queued and no caller is left.
    Exit,
}

/// A result on its way back: the conduit it goes to, and who waits there.
#[derive(Debug, PartialEq, Eq)]
pub struct Reply<R> {
    pub caller: u64,
    pub ticket: u64,
    pub response: Response<R>,
}

/// Performs one command on the server: one call, of the operation that
/// the command names, with the command's payload. The response holds what
/// that call gave back, in the shape that the command declares.
pub fn dispatch<S: ComputeServer>(server: &mut S, message: Message<S::Kernel>) -> (response:
    Response<S::Resource>)
    ensures
        final(server).performed() == old(server).performed().push(
            call(operation_of(message), response),
        ),
        answers(message, response),
{
    match message {
        Message::Read(bindings) => Response::Data(server.read(bindings)),
        Message::ReadTensor(bindings) => Response::Data(server.read_tensor(bindings)),
        Message::GetResource(binding) => Response::Resource(server.get_resource(binding)),
        Message::Create(data) => Response::Handle(server.create(data.as_slice())),
        Message::CreateTensor(data, shape, elem_size) => {
            let (handle, strides) = server.create_tensor(
                data.as_slice(),
                shape.as_slice(),
                elem_size,
            );
            Response::Tensor(handle, strides)
        },
        Message::Empty(size) => Response::Handle(server.empty(size)),
        Message::EmptyTensor(shape, elem_size) => {
            let (handle, strides) = server.empty_tensor(shape.as_slice(), elem_size);
            Response::Tensor(handle, strides)
        },
        Message::ExecuteKernel(kernel, bindings) => {
            server.execute(kernel.0, kernel.1, bindings, kernel.2);
            Response::Done
        },
        Message::Sync => {
            server.sync();
            Response::Done
        },
        Message::Flush => {
            server.flush();
            Response::Done
        },
        Message::MemoryUsage => Response::Usage(server.memory_usage()),
        Message::MemoryCleanup => {
            server.memory_cleanup();
            Response::Done
        },
        Message::StartProfile => {
            server.start_profile();
            Response::Done
        },
        Message::StopMeasure => Response::Profile(server.end_profile()),
    }
}

impl<K> MpscComputeChannel<K> {
    /// The oldest queued command was taken off, performed, and answered if
    /// it declares a reply.
    pub open spec fn turned(&self, before: Self, command: Envelope<K>) -> bool {
        &&& before.in_flight() is None
        &&& before.pending().len() > 0
        &&& command == before.pending().first()
        &&& self.pending() == before.pending().drop_first()
        &&& self.served() == before.served().push(command)
        &&& self.in_flight() is None
        &&& self.delivered() == if expects_reply(command.message) {
            before.delivered().push(command.ticket)
        } else {
            before.delivered()
        }
    }

    /// One turn of the worker's loop: takes the oldest command, performs it
    /// on the server before anything else is taken, and says where the
    /// result goes. With nothing queued it says whether to wait or, once no
    /// handle is left, to stop.
    pub fn serve<S: ComputeServer<Kernel = K>>(&mut self, server: &mut S) -> (step: Step<
        S::Resource,
    >)
        requires
            old(self).wf(),
        ensures
            final(self).wf(),
            final(self).issued() == old(self).issued(),
            final(self).handles() == old(self).handles(),
            final(self).callers() == old(self).callers(),
            follows(old(server).performed(), old(self).completed()) ==> follows(
                final(server).performed(),
                final(self).completed(),
            ),
            match step {
                Step::Delivered { caller, ticket, response } => {
                    &&& old(self).pending().len() > 0
                    &&& final(self).turned(*old(self), old(self).pending().first())
                    &&& expects_reply(old(self).pending().first().message)
                    &&& answers(old(self).pending().first().message, response)
                    &&& caller == old(self).pending().first().caller
                    &&& ticket == old(self).pending().first().ticket
                    &&& final(server).performed() == old(server).performed().push(
                        call(operation_of(old(self).pending().first().message), response),
                    )
                },
                Step::Performed => {
                    &&& old(self).pending().len() > 0
                    &&& final(self).turned(*old(self), old(self).pending().first())
                    &&& !expects_reply(old(self).pending().first().message)
                    &&& final(server).performed() == old(server).performed().push(
                        call(
                            operation_of(old(self).pending().first().message),
                            Response::<S::Resource>::Done,
                        ),
                    )
                },
                Step::Busy => {
                    &&& old(self).in_flight() is Some
                    &&& final(self).same_traffic(*old(self))
                    &&& final(server).performed() == old(server).performed()
                },
                Step::Wait => {
                    &&& old(self).in_flight() is None
                    &&& old(self).pending().len() == 0
                    &&& old(self).handles() > 0
                    &&& final(self).same_traffic(*old(self))
                    &&& final(server).performed() == old(server).performed()
                },
                Step::Exit => {
                    &&& old(self).in_flight() is None
                    &&& old(self).pending().len() == 0
                    &&& old(self).handles() == 0
                    &&& final(self).same_traffic(*old(self))
                    &&& final(server).performed() == old(server).performed()
                },
            },
    {
        match self.recv() {
            Next::Serve(envelope) => {
                let response = dispatch(server, envelope.message);
                proof {
                    let before = old(server).performed();
                    let after = server.performed();
                    let done = old(self).completed();
                    assert(done == old(self).served());
                    if follows(before, done) {
                        assert forall|k: int| 0 <= k < done.len() + 1 implies operation_of(
                            (#[trigger] done.push(envelope)[k]).message,
                        ) == after[after.len() - (done.len() + 1) + k].operation by {
                            if k < done.len() {
                                assert(done.push(envelope)[k] == done[k]);
                                assert(after[before.len() - done.len() + k] == before[before.len()
                                    - done.len() + k]);
                            }
                        }
                        assert(follows(after, done.push(envelope)));
                    }
                }
                match self.complete(response) {
                    Outcome::Deliver { caller, ticket, response } => Step::Delivered {
                        caller,
                        ticket,
                        response,
                    },
                    Outcome::Done => Step::Performed,
                    Outcome::Rejected(_) => vstd::pervasive::unreached(),
                }
            },
            Next::Busy => Step::Busy,
            Next::Wait => Step::Wait,
            Next::Exit => Step::Exit,
        }
    }

    /// The server's calls follow the order of issue. Where `record` follows
    /// the finished commands, the call made for the command with ticket
    /// `ticket` stands that many places behind the call for the first
    /// command, and is the operation that the command names, with the
    /// payload that its caller gave. So the calls for the commands of one
    /// caller stand in that caller's order, and the call for a command
    /// stands before the calls for all commands issued after it.
    pub proof fn lemma_calls_follow_issue<R>(&self, record: Record<K, R>, ticket: u64)
        requires
            self.wf(),
            follows(record, self.completed()),
            ticket < self.completed().len(),
        ensures
            ticket < self.issued().len(),
            self.issued()[ticket as int].ticket == ticket,
            record[record.len() - self.completed().len() + ticket].operation == operation_of(
                self.issued()[ticket as int].message,
            ),
    {
        self.lemma_total_order();
        let k = ticket as int;
        assert(self.completed()[k] == self.served()[k]);
        assert(self.served()[k] == self.issued()[k]);
    }

    /// Whether `reply` answers one of the commands issued: it names the
    /// command's ticket and caller, the command declares a reply, and the
    /// response has the shape that the command produces.
    pub open spec fn answered_by<R>(&self, reply: Reply<R>) -> bool {
        &&& reply.ticket < self.issued().len()
        &&& reply.caller == self.issued()[reply.ticket as int].caller
        &&& expects_reply(self.issued()[reply.ticket as int].message)
        &&& answers(self.issued()[reply.ticket as int].message, reply.response)
    }

    /// The worker's loop while anything is queued: performs every queued
    /// command, oldest first, and returns the replies in the order in which
    /// they fell due. Afterwards nothing is queued and nothing is in flight.
    pub fn drain<S: ComputeServer<Kernel = K>>(&mut self, server: &mut S) -> (replies: Vec<
        Reply<S::Resource>,
    >)
        requires
            old(self).wf(),
            old(self).in_flight() is None,
        ensures
            final(self).wf(),
            final(self).issued() == old(self).issued(),
            final(self).handles() == old(self).handles(),
            final(self).callers() == old(self).callers(),
            final(self).pending().len() == 0,
            final(self).in_flight() is None,
            final(self).served() == old(self).served() + old(self).pending(),
            final(self).delivered() == old(self).delivered() + reply_tickets(old(self).pending()),
            replies@.len() == reply_tickets(old(self).pending()).len(),
            forall|j: int|
                0 <= j < replies@.len() ==> (#[trigger] replies@[j]).ticket == reply_tickets(
                    old(self).pending(),
                )[j],
            forall|j: int|
                0 <= j < replies@.len() ==> old(self).answered_by(#[trigger] replies@[j]),
            performed_in_order(
                final(server).performed(),
                old(server).performed(),
                old(self).pending(),
            ),
            follows(old(server).performed(), old(self).completed()) ==> follows(
                final(server).performed(),
                final(self).completed(),
            ),
            forall|j: int|
                0 <= j < replies@.len() ==> holds_result_of_call(
                    #[trigger] replies@[j],
                    final(server).performed(),
                    old(server).performed().len() as int,
                    old(self).served().len() as int,
                ),
    {
        let ghost queue = self.pending();
        let ghost mut done: int = 0;
        let mut replies: Vec<Reply<S::Resource>> = Vec::new();
        proof {
            assert(queue.take(0) =~= Seq::<Envelope<K>>::empty());
            assert(queue.skip(0) =~= queue);
            assert(self.served() + queue.take(0) =~= self.served());
            assert(self.delivered() + reply_tickets(queue.take(0)) =~= self.delivered());
        }
        while self.queued() > 0
            invariant
                self.wf(),
                self.in_flight() is None,
                self.issued() == old(self).issued(),
                self.handles() == old(self).handles(),
                self.callers() == old(self).callers(),
                queue == old(self).pending(),
                0 <= done <= queue.len(),
                self.pending() == queue.skip(done),
                self.served() == old(self).served() + queue.take(done),
                self.delivered() == old(self).delivered() + reply_tickets(queue.take(done)),
                replies@.len() == reply_tickets(queue.take(done)).len(),
                forall|j: int|
                    0 <= j < replies@.len() ==> (#[trigger] replies@[j]).ticket == reply_tickets(
                        queue.take(done),
                    )[j],
                forall|j: int|
                    0 <= j < replies@.len() ==> old(self).answered_by(#[trigger] replies@[j]),
                performed_in_order(server.performed(), old(server).performed(), queue.take(done)),
                follows(old(server).performed(), old(self).completed()) ==> follows(
                    server.performed(),
                    self.completed(),
                ),
                forall|j: int|
                    0 <= j < replies@.len() ==> holds_result_of_call(
                        #[trigger] replies@[j],
                        server.performed(),
                        old(server).performed().len() as int,
                        old(self).served().len() as int,
                    ),
            decreases self.pending().len(),
        {
            let ghost before = *self;
            let ghost head = self.pending().first();
            let ghost record = server.performed();
            let step = self.serve(server);
            proof {
                before.lemma_total_order();
                assert(head.ticket == old(self).served().len() + done);
                assert(server.performed().len() == record.len() + 1);
                assert(server.performed().take(old(server).performed().len() as int)
                    =~= record.take(old(server).performed().len() as int));
                assert forall|k: int| 0 <= k < done + 1 implies operation_of(
                    (#[trigger] queue.take(done + 1)[k]).message,
                ) == server.performed()[old(server).performed().len() + k].operation by {
                    if k < done {
                        assert(queue.take(done + 1)[k] == queue.take(done)[k]);
                        assert(server.performed()[old(server).performed().len() + k]
                            == record[old(server).performed().len() + k]);
                    }
                }
                assert forall|j: int| 0 <= j < replies@.len() implies holds_result_of_call(
                    #[trigger] replies@[j],
                    server.performed(),
                    old(server).performed().len() as int,
                    old(self).served().len() as int,
                ) by {
                    let base = old(self).served().len();
                    let at = old(server).performed().len() + (replies@[j].ticket - base);
                    assert(server.performed()[at] == record[at]);
                }
                assert(head == before.issued()[before.served().len() as int]);
                assert(head == queue[done]);
                assert(queue.take(done + 1) =~= queue.take(done).push(head));
                assert(queue.take(done + 1).drop_last() =~= queue.take(done));
                assert(queue.skip(done).drop_first() =~= queue.skip(done + 1));
                assert(before.served().push(head) =~= old(self).served() + queue.take(done + 1));
                if expects_reply(head.message) {
                    assert(before.delivered().push(head.ticket) =~= old(self).delivered()
                        + reply_tickets(queue.take(done + 1)));
                }
                done = done + 1;
            }
            match step {
                Step::Delivered { caller, ticket, response } => {
                    replies.push(Reply { caller, ticket, response });
                },
                _ => {},
            }
        }
        proof {
            assert(queue.take(done) =~= queue);
        }
        replies
    }
}

} // verus!
