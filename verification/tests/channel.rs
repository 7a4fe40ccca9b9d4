use compute_channel::channel::{MpscComputeChannel, Next, Outcome};
use compute_channel::message::{handle_response, Envelope, Message, ReplyKind, Response};
use compute_channel::server::{
    Binding, BindingWithMeta, Bindings, CubeCount, ExecutionMode, Handle, MemoryUsage,
    ProfileDuration,
};
use compute_channel::worker::{dispatch, ComputeServer, Record, Reply, Step};

/// A server that keeps its allocations in memory and writes down every
/// operation it is asked for.
struct MemoryServer {
    buffers: Vec<Option<Vec<u8>>>,
    log: Vec<String>,
    window: Option<u64>,
    launches: u64,
}

impl MemoryServer {
    fn new() -> Self {
        MemoryServer { buffers: Vec::new(), log: Vec::new(), window: None, launches: 0 }
    }

    fn store(&mut self, bytes: Vec<u8>) -> Handle {
        self.buffers.push(Some(bytes));
        Handle { id: (self.buffers.len() - 1) as u64 }
    }

    fn strides(shape: &[usize]) -> Vec<usize> {
        let mut strides = vec![1; shape.len()];
        for i in (0..shape.len().saturating_sub(1)).rev() {
            strides[i] = strides[i + 1] * shape[i + 1];
        }
        strides
    }

    fn bytes(&self, binding: &Binding) -> Vec<u8> {
        self.buffers[binding.id as usize].clone().unwrap_or_default()
    }
}

impl ComputeServer for MemoryServer {
    type Kernel = u32;
    type Resource = usize;

    fn performed(&self) -> Record<u32, usize> {
        unreachable!("the record of calls exists in proofs only")
    }

    fn read(&mut self, bindings: Vec<Binding>) -> Vec<Vec<u8>> {
        self.log.push(format!("read {}", bindings.len()));
        bindings.iter().map(|b| self.bytes(b)).collect()
    }

    fn read_tensor(&mut self, bindings: Vec<BindingWithMeta>) -> Vec<Vec<u8>> {
        self.log.push(format!("read_tensor {}", bindings.len()));
        bindings.iter().map(|b| self.bytes(&b.binding)).collect()
    }

    fn get_resource(&mut self, binding: Binding) -> usize {
        self.log.push(format!("get_resource {}", binding.id));
        binding.id as usize
    }

    fn create(&mut self, data: &[u8]) -> Handle {
        self.log.push(format!("create {}", data.len()));
        self.store(data.to_vec())
    }

    fn create_tensor(
        &mut self,
        data: &[u8],
        shape: &[usize],
        elem_size: usize,
    ) -> (Handle, Vec<usize>) {
        self.log.push(format!("create_tensor {} {}", data.len(), elem_size));
        (self.store(data.to_vec()), Self::strides(shape))
    }

    fn empty(&mut self, size: usize) -> Handle {
        self.log.push(format!("empty {}", size));
        self.store(vec![0; size])
    }

    fn empty_tensor(&mut self, shape: &[usize], elem_size: usize) -> (Handle, Vec<usize>) {
        self.log.push(format!("empty_tensor {}", elem_size));
        let size: usize = shape.iter().product::<usize>() * elem_size;
        (self.store(vec![0; size]), Self::strides(shape))
    }

    fn execute(
        &mut self,
        kernel: u32,
        _count: CubeCount,
        bindings: Bindings,
        _kind: ExecutionMode,
    ) {
        self.log.push(format!("execute {}", kernel));
        self.launches += 1;
        for binding in bindings.buffers.iter() {
            if let Some(Some(bytes)) = self.buffers.get_mut(binding.id as usize) {
                for byte in bytes.iter_mut() {
                    *byte = byte.wrapping_add(kernel as u8);
                }
            }
        }
    }

    fn flush(&mut self) {
        self.log.push(String::from("flush"));
    }

    fn sync(&mut self) {
        self.log.push(String::from("sync"));
    }

    fn memory_usage(&mut self) -> MemoryUsage {
        self.log.push(String::from("memory_usage"));
        let live: Vec<&Vec<u8>> = self.buffers.iter().flatten().collect();
        let bytes: u64 = live.iter().map(|b| b.len() as u64).sum();
        MemoryUsage {
            number_allocs: live.len() as u64,
            bytes_in_use: bytes,
            bytes_padding: 0,
            bytes_reserved: bytes,
        }
    }

    fn memory_cleanup(&mut self) {
        self.log.push(String::from("memory_cleanup"));
        for slot in self.buffers.iter_mut() {
            if matches!(slot, Some(bytes) if bytes.iter().all(|b| *b == 0)) {
                *slot = None;
            }
        }
    }

    fn start_profile(&mut self) {
        self.log.push(String::from("start_profile"));
        self.window = Some(self.launches);
    }

    fn end_profile(&mut self) -> ProfileDuration {
        self.log.push(String::from("end_profile"));
        let start = self.window.take().unwrap_or(self.launches);
        ProfileDuration { nanos: (self.launches - start) * 1000 }
    }
}

/// Runs the worker until it has nothing to do, and returns the replies in
/// the order in which they went out, each with its ticket.
fn run_worker(
    channel: &mut MpscComputeChannel<u32>,
    server: &mut MemoryServer,
) -> (Vec<(u64, Response<usize>)>, Step<usize>) {
    let mut replies = Vec::new();
    loop {
        match channel.serve(server) {
            Step::Delivered { ticket, response, .. } => replies.push((ticket, response)),
            Step::Performed => {}
            last => return (replies, last),
        }
    }
}

fn reply_for(replies: &[(u64, Response<usize>)], ticket: u64) -> Vec<&Response<usize>> {
    replies.iter().filter(|(t, _)| *t == ticket).map(|(_, r)| r).collect()
}

#[test]
fn create_then_read_returns_the_bytes() {
    let mut channel = MpscComputeChannel::<u32>::new();
    let mut server = MemoryServer::new();
    let created = channel.create(0, &[1, 2, 3, 4]);
    let (replies, _) = run_worker(&mut channel, &mut server);
    let handle = match reply_for(&replies, created)[..] {
        [Response::Handle(handle)] => *handle,
        _ => panic!("create must be answered with one handle"),
    };
    let read = channel.read(0, vec![handle.binding()]);
    let (replies, _) = run_worker(&mut channel, &mut server);
    assert_eq!(reply_for(&replies, read), vec![&Response::Data(vec![vec![1, 2, 3, 4]])]);
}

#[test]
fn empty_then_usage_then_cleanup() {
    let mut channel = MpscComputeChannel::<u32>::new();
    let mut server = MemoryServer::new();
    let _handle = channel.empty(0, 16);
    let first = channel.memory_usage(0);
    channel.memory_cleanup(0);
    let second = channel.memory_usage(0);
    let (replies, _) = run_worker(&mut channel, &mut server);
    let before = match reply_for(&replies, first)[..] {
        [Response::Usage(usage)] => *usage,
        _ => panic!("memory_usage must be answered with one usage"),
    };
    let after = match reply_for(&replies, second)[..] {
        [Response::Usage(usage)] => *usage,
        _ => panic!("memory_usage must be answered with one usage"),
    };
    assert!(before.bytes_in_use >= 16);
    assert!(after.bytes_in_use <= before.bytes_in_use);
    assert_eq!(replies.len(), 3);
}

#[test]
fn profile_covers_the_launches_between_start_and_end() {
    let mut channel = MpscComputeChannel::<u32>::new();
    let mut server = MemoryServer::new();
    channel.start_profile(0);
    for kernel in 0..3u32 {
        channel.execute(
            0,
            kernel,
            CubeCount::Static(1, 1, 1),
            Bindings { buffers: vec![] },
            ExecutionMode::Checked,
        );
    }
    let end = channel.end_profile(0);
    assert_eq!(end, 4);
    let (replies, _) = run_worker(&mut channel, &mut server);
    assert_eq!(replies, vec![(4, Response::Profile(ProfileDuration { nanos: 3000 }))]);
    assert_eq!(
        server.log,
        vec!["start_profile", "execute 0", "execute 1", "execute 2", "end_profile"]
    );
}

#[test]
fn server_sees_one_callers_commands_in_issue_order() {
    let mut channel = MpscComputeChannel::<u32>::new();
    let mut server = MemoryServer::new();
    channel.create(0, &[9]);
    channel.flush(0);
    channel.empty(0, 2);
    channel.sync(0);
    channel.memory_cleanup(0);
    channel.get_resource(0, Binding { id: 0 });
    assert_eq!(channel.queued(), 6);
    run_worker(&mut channel, &mut server);
    assert_eq!(
        server.log,
        vec!["create 1", "flush", "empty 2", "sync", "memory_cleanup", "get_resource 0"]
    );
    assert_eq!(channel.queued(), 0);
}

#[test]
fn tickets_count_commands_from_zero() {
    let mut channel = MpscComputeChannel::<u32>::new();
    assert_eq!(channel.sync(0), 0);
    channel.flush(0);
    assert_eq!(channel.sync(0), 2);
    assert_eq!(channel.send(0, Message::MemoryUsage), 3);
}

#[test]
fn every_declared_reply_is_delivered_once_and_no_other() {
    let mut channel = MpscComputeChannel::<u32>::new();
    let mut server = MemoryServer::new();
    let a = channel.create(0, &[1]);
    channel.flush(0);
    let b = channel.sync(0);
    channel.start_profile(0);
    channel.memory_cleanup(0);
    let c = channel.end_profile(0);
    let (replies, _) = run_worker(&mut channel, &mut server);
    let tickets: Vec<u64> = replies.iter().map(|(t, _)| *t).collect();
    assert_eq!(tickets, vec![a, b, c]);
    assert_eq!(reply_for(&replies, b), vec![&Response::Done]);
    assert_eq!(server.log.len(), 6);
}

#[test]
fn sync_is_answered_after_the_launch_before_it_was_dispatched() {
    let mut channel = MpscComputeChannel::<u32>::new();
    let mut server = MemoryServer::new();
    channel.execute(
        0,
        7,
        CubeCount::Dynamic(Binding { id: 0 }),
        Bindings { buffers: vec![] },
        ExecutionMode::Unchecked,
    );
    let sync = channel.sync(0);
    assert_eq!(channel.serve(&mut server), Step::Performed);
    assert_eq!(server.log, vec!["execute 7"]);
    assert_eq!(
        channel.serve(&mut server),
        Step::Delivered { caller: 0, ticket: sync, response: Response::Done }
    );
    assert_eq!(server.log, vec!["execute 7", "sync"]);
}

#[test]
fn launch_changes_what_a_later_read_returns() {
    let mut channel = MpscComputeChannel::<u32>::new();
    let mut server = MemoryServer::new();
    channel.create(0, &[1, 2]);
    channel.execute(
        0,
        10,
        CubeCount::Static(1, 1, 1),
        Bindings { buffers: vec![Binding { id: 0 }] },
        ExecutionMode::Checked,
    );
    let read = channel.read(0, vec![Binding { id: 0 }]);
    let (replies, _) = run_worker(&mut channel, &mut server);
    assert_eq!(reply_for(&replies, read), vec![&Response::Data(vec![vec![11, 12]])]);
}

#[test]
fn clones_share_one_order_and_lose_nothing() {
    let mut channel = MpscComputeChannel::<u32>::new();
    let mut server = MemoryServer::new();
    let clone = channel.clone_handle();
    assert_eq!(clone, 1);
    channel.empty(0, 1);
    channel.empty(clone, 2);
    channel.empty(0, 3);
    channel.empty(clone, 4);
    let mut callers = Vec::new();
    loop {
        match channel.serve(&mut server) {
            Step::Delivered { caller, ticket, .. } => callers.push((caller, ticket)),
            _ => break,
        }
    }
    assert_eq!(callers, vec![(0, 0), (1, 1), (0, 2), (1, 3)]);
    assert_eq!(server.log, vec!["empty 1", "empty 2", "empty 3", "empty 4"]);
}

#[test]
fn worker_drains_the_queue_before_it_stops() {
    let mut channel = MpscComputeChannel::<u32>::new();
    let mut server = MemoryServer::new();
    let clone = channel.clone_handle();
    channel.flush(0);
    channel.memory_cleanup(clone);
    channel.start_profile(0);
    channel.drop_handle();
    channel.drop_handle();
    assert!(!channel.is_open(0));
    assert!(!channel.is_open(clone));
    let (replies, last) = run_worker(&mut channel, &mut server);
    assert_eq!(last, Step::Exit);
    assert!(replies.is_empty());
    assert_eq!(server.log, vec!["flush", "memory_cleanup", "start_profile"]);
}

#[test]
fn worker_waits_while_a_handle_is_alive() {
    let mut channel = MpscComputeChannel::<u32>::new();
    let mut server = MemoryServer::new();
    let clone = channel.clone_handle();
    assert_eq!(clone, 1);
    channel.drop_handle();
    assert!(channel.is_open(0));
    assert!(channel.is_open(clone));
    assert!(!channel.is_open(2));
    assert_eq!(channel.serve(&mut server), Step::Wait);
    assert_eq!(channel.recv(), Next::Wait);
    channel.drop_handle();
    assert_eq!(channel.recv(), Next::Exit);
    channel.drop_handle();
    assert_eq!(channel.recv(), Next::Exit);
}

#[test]
fn worker_takes_nothing_while_the_server_is_busy() {
    let mut channel = MpscComputeChannel::<u32>::new();
    let mut server = MemoryServer::new();
    let first = channel.empty(0, 8);
    channel.flush(0);
    assert_eq!(
        channel.recv(),
        Next::Serve(Envelope { caller: 0, ticket: first, message: Message::Empty(8) })
    );
    assert_eq!(channel.recv(), Next::Busy);
    assert_eq!(channel.serve(&mut server), Step::Busy);
    assert_eq!(channel.queued(), 1);
    assert!(server.log.is_empty());
    assert_eq!(
        channel.complete(Response::<usize>::Handle(Handle { id: 5 })),
        Outcome::Deliver { caller: 0, ticket: first, response: Response::Handle(Handle { id: 5 }) }
    );
    assert_eq!(
        channel.recv(),
        Next::Serve(Envelope { caller: 0, ticket: 1, message: Message::Flush })
    );
    assert_eq!(channel.complete(Response::<usize>::Done), Outcome::Done);
}

#[test]
fn result_of_the_wrong_shape_is_rejected() {
    let mut channel = MpscComputeChannel::<u32>::new();
    assert_eq!(
        channel.complete(Response::<usize>::Done),
        Outcome::Rejected(Response::Done)
    );
    channel.sync(0);
    channel.recv();
    assert_eq!(
        channel.complete(Response::<usize>::Handle(Handle { id: 1 })),
        Outcome::Rejected(Response::Handle(Handle { id: 1 }))
    );
    assert_eq!(
        channel.complete(Response::<usize>::Done),
        Outcome::Deliver { caller: 0, ticket: 0, response: Response::Done }
    );
}

#[test]
fn front_end_builds_the_command_of_each_operation() {
    let mut channel = MpscComputeChannel::<u32>::new();
    let meta = BindingWithMeta {
        binding: Binding { id: 2 },
        shape: vec![2, 3],
        strides: vec![3, 1],
        elem_size: 4,
    };
    channel.read(0, vec![Binding { id: 1 }]);
    channel.read_tensor(0, vec![meta.clone()]);
    channel.get_resource(0, Binding { id: 3 });
    channel.create(0, &[7, 8]);
    channel.create_tensor(0, &[1, 2, 3, 4], &[2, 2], 1);
    channel.empty(0, 5);
    channel.empty_tensor(0, &[4, 4], 2);
    channel.execute(
        0,
        42,
        CubeCount::Static(1, 2, 3),
        Bindings { buffers: vec![Binding { id: 1 }] },
        ExecutionMode::Unchecked,
    );
    channel.flush(0);
    channel.sync(0);
    channel.memory_usage(0);
    channel.memory_cleanup(0);
    channel.start_profile(0);
    channel.end_profile(0);
    let expected: Vec<Message<u32>> = vec![
        Message::Read(vec![Binding { id: 1 }]),
        Message::ReadTensor(vec![meta]),
        Message::GetResource(Binding { id: 3 }),
        Message::Create(vec![7, 8]),
        Message::CreateTensor(vec![1, 2, 3, 4], vec![2, 2], 1),
        Message::Empty(5),
        Message::EmptyTensor(vec![4, 4], 2),
        Message::ExecuteKernel(
            (42, CubeCount::Static(1, 2, 3), ExecutionMode::Unchecked),
            Bindings { buffers: vec![Binding { id: 1 }] },
        ),
        Message::Flush,
        Message::Sync,
        Message::MemoryUsage,
        Message::MemoryCleanup,
        Message::StartProfile,
        Message::StopMeasure,
    ];
    for (ticket, message) in expected.into_iter().enumerate() {
        match channel.recv() {
            Next::Serve(envelope) => {
                assert_eq!(envelope.ticket, ticket as u64);
                assert_eq!(envelope.caller, 0);
                let kind = envelope.message.reply_kind();
                assert_eq!(envelope.message, message);
                let response = match kind {
                    ReplyKind::Data => Response::<usize>::Data(vec![]),
                    ReplyKind::Resource => Response::Resource(0),
                    ReplyKind::Handle => Response::Handle(Handle { id: 0 }),
                    ReplyKind::Tensor => Response::Tensor(Handle { id: 0 }, vec![]),
                    ReplyKind::Usage => Response::Usage(MemoryUsage {
                        number_allocs: 0,
                        bytes_in_use: 0,
                        bytes_padding: 0,
                        bytes_reserved: 0,
                    }),
                    ReplyKind::Profile => Response::Profile(ProfileDuration { nanos: 0 }),
                    ReplyKind::Done => Response::Done,
                };
                assert!(!matches!(channel.complete(response), Outcome::Rejected(_)));
            }
            other => panic!("a command was queued, the worker got {:?}", other),
        }
    }
}

#[test]
fn only_four_commands_are_fire_and_forget() {
    let silent: Vec<Message<u32>> = vec![
        Message::ExecuteKernel(
            (1, CubeCount::Static(1, 1, 1), ExecutionMode::Checked),
            Bindings { buffers: vec![] },
        ),
        Message::Flush,
        Message::MemoryCleanup,
        Message::StartProfile,
    ];
    for message in silent.iter() {
        assert!(!message.expects_reply());
        assert_eq!(message.reply_kind(), ReplyKind::Done);
    }
    let answered: Vec<(Message<u32>, ReplyKind)> = vec![
        (Message::Read(vec![]), ReplyKind::Data),
        (Message::ReadTensor(vec![]), ReplyKind::Data),
        (Message::GetResource(Binding { id: 0 }), ReplyKind::Resource),
        (Message::Create(vec![]), ReplyKind::Handle),
        (Message::CreateTensor(vec![], vec![], 1), ReplyKind::Tensor),
        (Message::Empty(0), ReplyKind::Handle),
        (Message::EmptyTensor(vec![], 1), ReplyKind::Tensor),
        (Message::Sync, ReplyKind::Done),
        (Message::MemoryUsage, ReplyKind::Usage),
        (Message::StopMeasure, ReplyKind::Profile),
    ];
    for (message, kind) in answered.iter() {
        assert!(message.expects_reply());
        assert_eq!(message.reply_kind(), *kind);
    }
}

#[test]
fn dispatch_hands_the_payload_to_the_named_operation() {
    let mut server = MemoryServer::new();
    assert_eq!(
        dispatch(&mut server, Message::CreateTensor(vec![1, 2, 3, 4, 5, 6], vec![2, 3], 1)),
        Response::Tensor(Handle { id: 0 }, vec![3, 1])
    );
    assert_eq!(
        dispatch(&mut server, Message::EmptyTensor(vec![2, 2], 4)),
        Response::Tensor(Handle { id: 1 }, vec![2, 1])
    );
    assert_eq!(dispatch(&mut server, Message::GetResource(Binding { id: 1 })), Response::Resource(1));
    let meta = BindingWithMeta {
        binding: Binding { id: 0 },
        shape: vec![2, 3],
        strides: vec![3, 1],
        elem_size: 1,
    };
    assert_eq!(
        dispatch(&mut server, Message::ReadTensor(vec![meta])),
        Response::Data(vec![vec![1, 2, 3, 4, 5, 6]])
    );
    assert_eq!(
        dispatch(&mut server, Message::MemoryUsage),
        Response::Usage(MemoryUsage {
            number_allocs: 2,
            bytes_in_use: 22,
            bytes_padding: 0,
            bytes_reserved: 22,
        })
    );
    assert_eq!(Response::<usize>::Done.kind(), ReplyKind::Done);
    assert_eq!(
        server.log,
        vec!["create_tensor 6 1", "empty_tensor 4", "get_resource 1", "read_tensor 1", "memory_usage"]
    );
}

#[test]
fn handle_response_unwraps_what_the_conduit_gave() {
    let reply: Result<Handle, String> = Ok(Handle { id: 11 });
    assert_eq!(handle_response(reply), Handle { id: 11 });
    let data: Result<Vec<Vec<u8>>, ()> = Ok(vec![vec![1], vec![]]);
    assert_eq!(handle_response(data), vec![vec![1], vec![]]);
}

#[test]
fn response_gives_its_payload_only_in_its_own_shape() {
    assert_eq!(Response::<usize>::Data(vec![vec![1]]).into_data(), Some(vec![vec![1]]));
    assert_eq!(Response::<usize>::Done.into_data(), None);
    assert_eq!(Response::<usize>::Resource(4).into_resource(), Some(4));
    assert_eq!(Response::<usize>::Handle(Handle { id: 4 }).into_resource(), None);
    assert_eq!(Response::<usize>::Handle(Handle { id: 4 }).into_handle(), Some(Handle { id: 4 }));
    assert_eq!(Response::<usize>::Tensor(Handle { id: 4 }, vec![1]).into_handle(), None);
    assert_eq!(
        Response::<usize>::Tensor(Handle { id: 4 }, vec![2, 1]).into_tensor(),
        Some((Handle { id: 4 }, vec![2, 1]))
    );
    assert_eq!(Response::<usize>::Data(vec![]).into_tensor(), None);
    let usage =
        MemoryUsage { number_allocs: 1, bytes_in_use: 2, bytes_padding: 3, bytes_reserved: 4 };
    assert_eq!(Response::<usize>::Usage(usage).into_usage(), Some(usage));
    assert_eq!(Response::<usize>::Done.into_usage(), None);
    assert_eq!(
        Response::<usize>::Profile(ProfileDuration { nanos: 9 }).into_profile(),
        Some(ProfileDuration { nanos: 9 })
    );
    assert_eq!(Response::<usize>::Usage(usage).into_profile(), None);
}

#[test]
fn handle_names_the_memory_its_binding_refers_to() {
    assert_eq!(Handle { id: 12 }.binding(), Binding { id: 12 });
}

#[test]
fn builders_copy_the_bytes_and_the_shape() {
    assert_eq!(Message::<u32>::create(&[1, 2, 3]), Message::Create(vec![1, 2, 3]));
    assert_eq!(Message::<u32>::create(&[]), Message::Create(vec![]));
    assert_eq!(
        Message::<u32>::create_tensor(&[1, 2, 3, 4], &[2, 2], 1),
        Message::CreateTensor(vec![1, 2, 3, 4], vec![2, 2], 1)
    );
    assert_eq!(Message::<u32>::empty_tensor(&[3, 5], 2), Message::EmptyTensor(vec![3, 5], 2));
}

#[test]
fn drain_performs_all_that_is_queued_oldest_first() {
    let mut channel = MpscComputeChannel::<u32>::new();
    let mut server = MemoryServer::new();
    let created = channel.create(0, &[5, 6]);
    channel.flush(0);
    let read = channel.read(0, vec![Binding { id: 0 }]);
    channel.drop_handle();
    let replies = channel.drain(&mut server);
    assert_eq!(
        replies,
        vec![
            Reply { caller: 0, ticket: created, response: Response::Handle(Handle { id: 0 }) },
            Reply { caller: 0, ticket: read, response: Response::Data(vec![vec![5, 6]]) },
        ]
    );
    assert_eq!(server.log, vec!["create 2", "flush", "read 1"]);
    assert_eq!(channel.queued(), 0);
    assert_eq!(channel.serve(&mut server), Step::Exit);
    assert!(channel.drain(&mut server).is_empty());
}

#[test]
fn channel_says_when_a_handle_can_be_cloned_and_when_the_server_is_free() {
    let mut channel = MpscComputeChannel::<u32>::new();
    assert!(channel.can_clone());
    assert!(channel.is_idle());
    channel.flush(0);
    assert!(channel.is_idle());
    assert!(matches!(channel.recv(), Next::Serve(_)));
    assert!(!channel.is_idle());
    assert_eq!(channel.complete(Response::<usize>::Done), Outcome::Done);
    assert!(channel.is_idle());
    channel.drop_handle();
    assert!(!channel.can_clone());
}
