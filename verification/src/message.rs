//! The closed set of commands, the replies that answer them, and the rule
//! that says which command declares which reply.

use vstd::prelude::*;
use vstd::slice::slice_to_vec;
use crate::server::{Binding, BindingWithMeta, Bindings, CubeCount, ExecutionMode, Handle,
    MemoryUsage, ProfileDuration};

verus! {

/// One unit of work for the server. `K` is the server's kernel type.
#[derive(Debug, PartialEq, Eq)]
pub enum Message<K> {
    Read(Vec<Binding>),
    ReadTensor(Vec<BindingWithMeta>),
    GetResource(Binding),
    Create(Vec<u8>),
    CreateTensor(Vec<u8>, Vec<usize>, usize),
    Empty(usize),
    EmptyTensor(Vec<usize>, usize),
    ExecuteKernel((K, CubeCount, ExecutionMode), Bindings),
    Flush,
    Sync,
    MemoryUsage,
    MemoryCleanup,
    StartProfile,
    StopMeasure,
}

/// What the server hands back for a command. `R` is the server's resource type.
#[derive(Debug, PartialEq, Eq)]
pub enum Response<R> {
    Data(Vec<Vec<u8>>),
    Resource(R),
    Handle(Handle),
    Tensor(Handle, Vec<usize>),
    Usage(MemoryUsage),
    Profile(ProfileDuration),
    Done,
}

/// The shape of a server result, payload left out.
#[derive(Debug, Clone, Copy, PartialEq, Eq, Structural)]
pub enum ReplyKind {
    Data,
    Resource,
    Handle,
    Tensor,
    Usage,
    Profile,
    Done,
}

/// A command on its way through the queue: who issued it, and its ticket,
/// which is also the name of its reply conduit.
#[derive(Debug, PartialEq, Eq)]
pub struct Envelope<K> {
    pub caller: u64,
    pub ticket: u64,
    pub message: Message<K>,
}

/// Whether a command carries a reply conduit. Launches, flushes, cleanups
/// and the start of a profile are fire-and-forget.
pub open spec fn expects_reply<K>(message: Message<K>) -> bool {
    match message {
        Message::ExecuteKernel(_, _) | Message::Flush | Message::MemoryCleanup
        | Message::StartProfile => false,
        _ => true,
    }
}

/// The shape of the server result that a command produces.
pub open spec fn reply_kind<K>(message: Message<K>) -> ReplyKind {
    match message {
        Message::Read(_) | Message::ReadTensor(_) => ReplyKind::Data,
        Message::GetResource(_) => ReplyKind::Resource,
        Message::Create(_) | Message::Empty(_) => ReplyKind::Handle,
        Message::CreateTensor(_, _, _) | Message::EmptyTensor(_, _) => ReplyKind::Tensor,
        Message::MemoryUsage => ReplyKind::Usage,
        Message::StopMeasure => ReplyKind::Profile,
        Message::ExecuteKernel(_, _) | Message::Flush | Message::Sync | Message::MemoryCleanup
        | Message::StartProfile => ReplyKind::Done,
    }
}

/// The shape of a response.
pub open spec fn response_kind<R>(response: Response<R>) -> ReplyKind {
    match response {
        Response::Data(_) => ReplyKind::Data,
        Response::Resource(_) => ReplyKind::Resource,
        Response::Handle(_) => ReplyKind::Handle,
        Response::Tensor(_, _) => ReplyKind::Tensor,
        Response::Usage(_) => ReplyKind::Usage,
        Response::Profile(_) => ReplyKind::Profile,
        Response::Done => ReplyKind::Done,
    }
}

/// Whether `response` has the shape that `message` produces.
pub open spec fn answers<K, R>(message: Message<K>, response: Response<R>) -> bool {
    reply_kind(message) == response_kind(response)
}

impl<K> Message<K> {
    /// The command that asks for an allocation holding a copy of `data`.
    pub fn create(data: &[u8]) -> (message: Self)
        ensures
            message matches Message::Create(bytes) && bytes@ == data@,
    {
        Message::Create(slice_to_vec(data))
    }

    /// The command that asks for a tensor allocation of the given shape
    /// holding a copy of `data`.
    pub fn create_tensor(data: &[u8], shape: &[usize], elem_size: usize) -> (message: Self)
        ensures
            message matches Message::CreateTensor(bytes, dims, width) && bytes@ == data@ && dims@
                == shape@ && width == elem_size,
    {
        Message::CreateTensor(slice_to_vec(data), slice_to_vec(shape), elem_size)
    }

    /// The command that asks for a tensor allocation of the given shape.
    pub fn empty_tensor(shape: &[usize], elem_size: usize) -> (message: Self)
        ensures
            message matches Message::EmptyTensor(dims, width) && dims@ == shape@ && width
                == elem_size,
    {
        Message::EmptyTensor(slice_to_vec(shape), elem_size)
    }

    /// Whether this command carries a reply conduit.
    pub fn expects_reply(&self) -> (declared: bool)
        ensures
            declared == expects_reply(*self),
    {
        match self {
            Message::ExecuteKernel(_, _) => false,
            Message::Flush => false,
            Message::MemoryCleanup => false,
            Message::StartProfile => false,
            _ => true,
        }
    }

    /// The shape of the server result that this command produces.
    pub fn reply_kind(&self) -> (kind: ReplyKind)
        ensures
            kind == reply_kind(*self),
    {
        match self {
            Message::Read(_) => ReplyKind::Data,
            Message::ReadTensor(_) => ReplyKind::Data,
            Message::GetResource(_) => ReplyKind::Resource,
            Message::Create(_) => ReplyKind::Handle,
            Message::Empty(_) => ReplyKind::Handle,
            Message::CreateTensor(_, _, _) => ReplyKind::Tensor,
            Message::EmptyTensor(_, _) => ReplyKind::Tensor,
            Message::MemoryUsage => ReplyKind::Usage,
            Message::StopMeasure => ReplyKind::Profile,
            _ => ReplyKind::Done,
        }
    }
}

impl<R> Response<R> {
    /// The shape of this response.
    pub fn kind(&self) -> (kind: ReplyKind)
        ensures
            kind == response_kind(*self),
    {
        match self {
            Response::Data(_) => ReplyKind::Data,
            Response::Resource(_) => ReplyKind::Resource,
            Response::Handle(_) => ReplyKind::Handle,
            Response::Tensor(_, _) => ReplyKind::Tensor,
            Response::Usage(_) => ReplyKind::Usage,
            Response::Profile(_) => ReplyKind::Profile,
            Response::Done => ReplyKind::Done,
        }
    }

    /// The byte buffers of a read; `None` for any other response.
    pub fn into_data(self) -> (data: Option<Vec<Vec<u8>>>)
        ensures
            data == (match self {
                Response::Data(buffers) => Some(buffers),
                _ => None,
            }),
    {
        match self {
            Response::Data(buffers) => Some(buffers),
            _ => None,
        }
    }

    /// The backend resource of a lookup; `None` for any other response.
    pub fn into_resource(self) -> (resource: Option<R>)
        ensures
            resource == (match self {
                Response::Resource(found) => Some(found),
                _ => None,
            }),
    {
        match self {
            Response::Resource(found) => Some(found),
            _ => None,
        }
    }

    /// The handle of a new allocation; `None` for any other response.
    pub fn into_handle(self) -> (handle: Option<Handle>)
        ensures
            handle == (match self {
                Response::Handle(made) => Some(made),
                _ => None,
            }),
    {
        match self {
            Response::Handle(made) => Some(made),
            _ => None,
        }
    }

    /// The handle and strides of a new tensor; `None` for any other response.
    pub fn into_tensor(self) -> (tensor: Option<(Handle, Vec<usize>)>)
        ensures
            tensor == (match self {
                Response::Tensor(made, strides) => Some((made, strides)),
                _ => None,
            }),
    {
        match self {
            Response::Tensor(made, strides) => Some((made, strides)),
            _ => None,
        }
    }

    /// The allocator statistics; `None` for any other response.
    pub fn into_usage(self) -> (usage: Option<MemoryUsage>)
        ensures
            usage == (match self {
                Response::Usage(found) => Some(found),
                _ => None,
            }),
    {
        match self {
            Response::Usage(found) => Some(found),
            _ => None,
        }
    }

    /// The length of the profiling window; `None` for any other response.
    pub fn into_profile(self) -> (duration: Option<ProfileDuration>)
        ensures
            duration == (match self {
                Response::Profile(found) => Some(found),
                _ => None,
            }),
    {
        match self {
            Response::Profile(found) => Some(found),
            _ => None,
        }
    }
}

/// Unwraps what came out of a reply conduit. A conduit that closed without
/// a value means the worker is gone: callers rule that out before the call.
pub fn handle_response<T, E>(response: Result<T, E>) -> (value: T)
    requires
        response is Ok,
    ensures
        response == Ok::<T, E>(value),
{
    match response {
        Ok(val) => val,
        Err(_) => vstd::pervasive::unreached(),
    }
}

} // verus!
