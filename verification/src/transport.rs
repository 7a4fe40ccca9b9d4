//! The queue between threads. Commands travel to the worker as packets, a
//! command with the sending end of its reply conduit; both the queue and
//! the conduits are unbounded channels, so putting a value in never waits.
//! Waiting for a value to come out is left to the caller of this library.

use vstd::prelude::*;
use crate::message::{answers, expects_reply, Message, Response};
use crate::worker::{dispatch, operation_of, ComputeServer};

verus! {

/// `async_channel::Sender`, the end of a channel that values are put into.
/// Nothing inside it is visible here.
#[verifier::external_type_specification]
#[verifier::external_body]
#[verifier::reject_recursive_types(T)]
pub struct ExSender<T>(async_channel::Sender<T>);

/// `async_channel::Receiver`, the end of a channel that values come out of.
/// Nothing inside it is visible here.
#[verifier::external_type_specification]
#[verifier::external_body]
#[verifier::reject_recursive_types(T)]
pub struct ExReceiver<T>(async_channel::Receiver<T>);

/// A command on its way to the worker, with the sending end of its reply
/// conduit if it declares a reply.
#[verifier::reject_recursive_types(R)]
pub struct Packet<K, R> {
    pub message: Message<K>,
    pub callback: Option<async_channel::Sender<Response<R>>>,
}

/// What became of a result at the worker.
#[derive(Debug, PartialEq, Eq)]
pub enum Delivery<R> {
    /// The result was put into the command's reply conduit.
    Sent,
    /// The command declared no reply: nothing was sent.
    Silent,
    /// The caller has given up its end of the conduit; here is the result.
    Lost(Response<R>),
}

/// `async_channel::unbounded`: the two ends of a new channel without a
/// bound. Nothing is claimed of them.
#[verifier::external_body]
fn open<T>() -> (ends: (async_channel::Sender<T>, async_channel::Receiver<T>)) {
    async_channel::unbounded()
}

/// `async_channel::Sender::try_send`: puts `value` into the channel without
/// waiting. Claimed: where the channel refuses the value, because it is
/// closed or full, the value that comes back is the one that was given.
/// Whether it is refused depends on the other end.
#[verifier::external_body]
fn post<T>(sender: &async_channel::Sender<T>, value: T) -> (sent: Result<(), T>)
    ensures
        sent matches Err(back) ==> back == value,
{
    match sender.try_send(value) {
        Ok(()) => Ok(()),
        Err(refused) => Err(refused.into_inner()),
    }
}

/// The two ends of a new command queue: the first for the front-end
/// handles, the second for the worker.
pub fn open_queue<K, R>() -> (ends: (
    async_channel::Sender<Packet<K, R>>,
    async_channel::Receiver<Packet<K, R>>,
))
{
    open()
}

/// Pairs `message` with a fresh reply conduit exactly if it declares a
/// reply, and returns the receiving end beside the packet.
pub fn pack<K, R>(message: Message<K>) -> (made: (
    Packet<K, R>,
    Option<async_channel::Receiver<Response<R>>>,
))
    ensures
        made.0.message == message,
        made.0.callback is Some <==> expects_reply(message),
        made.1 is Some <==> expects_reply(message),
{
    if message.expects_reply() {
        let (callback, reply) = open();
        (Packet { message, callback: Some(callback) }, Some(reply))
    } else {
        (Packet { message, callback: None }, None)
    }
}

/// What a caller has once the queue took or refused its packet: the end on
/// which the reply will come, or its command back.
pub fn submitted<K, R>(
    posted: Result<(), Packet<K, R>>,
    reply: Option<async_channel::Receiver<Response<R>>>,
) -> (sent: Result<Option<async_channel::Receiver<Response<R>>>, Message<K>>)
    ensures
        sent == (match posted {
            Ok(_) => Ok::<Option<async_channel::Receiver<Response<R>>>, Message<K>>(reply),
            Err(refused) => Err(refused.message),
        }),
{
    match posted {
        Ok(()) => Ok(reply),
        Err(refused) => Err(refused.message),
    }
}

/// What became of a result once the conduit took or refused it.
pub fn answered<R>(posted: Result<(), Response<R>>) -> (delivery: Delivery<R>)
    ensures
        delivery == (match posted {
            Ok(_) => Delivery::Sent,
            Err(back) => Delivery::Lost(back),
        }),
{
    match posted {
        Ok(()) => Delivery::Sent,
        Err(back) => Delivery::Lost(back),
    }
}

/// Enqueues `message` for the worker. On success the caller holds the end
/// on which the reply will come, if the command declares one. Where the
/// worker is gone the command comes back.
pub fn submit<K, R>(queue: &async_channel::Sender<Packet<K, R>>, message: Message<K>) -> (sent:
    Result<Option<async_channel::Receiver<Response<R>>>, Message<K>>)
    ensures
        match sent {
            Ok(reply) => reply is Some <==> expects_reply(message),
            Err(back) => back == message,
        },
{
    let (packet, reply) = pack(message);
    submitted(post(queue, packet), reply)
}

/// Hands `response` to the conduit, if there is one.
pub fn answer<R>(
    callback: Option<async_channel::Sender<Response<R>>>,
    response: Response<R>,
) -> (delivery: Delivery<R>)
    ensures
        match delivery {
            Delivery::Sent => callback is Some,
            Delivery::Silent => callback is None,
            Delivery::Lost(back) => callback is Some && back == response,
        },
{
    match callback {
        None => Delivery::Silent,
        Some(conduit) => answered(post(&conduit, response)),
    }
}

/// The worker's work on one packet: performs the command on the server,
/// one call of the operation that the command names with the command's
/// payload, then hands what the call gave back to the packet's conduit, if
/// it has one. Where the conduit refuses it, the result comes back.
pub fn perform<S: ComputeServer>(
    server: &mut S,
    packet: Packet<S::Kernel, S::Resource>,
) -> (delivery: Delivery<S::Resource>)
    ensures
        final(server).performed().len() == old(server).performed().len() + 1,
        final(server).performed().drop_last() == old(server).performed(),
        final(server).performed().last().operation == operation_of(packet.message),
        answers(packet.message, final(server).performed().last().result),
        match delivery {
            Delivery::Sent => packet.callback is Some,
            Delivery::Silent => packet.callback is None,
            Delivery::Lost(back) => {
                &&& packet.callback is Some
                &&& back == final(server).performed().last().result
            },
        },
{
    let Packet { message, callback } = packet;
    let response = dispatch(server, message);
    proof {
        assert(server.performed().drop_last() =~= old(server).performed());
    }
    answer(callback, response)
}

} // verus!
