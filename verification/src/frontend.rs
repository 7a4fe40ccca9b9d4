//! The front-end: one method per server operation. Each builds its command
//! and enqueues it; those that declare a reply return the ticket on which
//! the reply will come.

use vstd::prelude::*;
use crate::channel::MpscComputeChannel;
use crate::message::Message;
use crate::server::{Binding, BindingWithMeta, Bindings, CubeCount, ExecutionMode};

verus! {

impl<K> MpscComputeChannel<K> {
    /// The command that was enqueued last.
    pub open spec fn newest(&self) -> Message<K> {
        self.issued().last().message
    }

    /// Asks for the bytes behind `bindings`.
    pub fn read(&mut self, caller: u64, bindings: Vec<Binding>) -> (ticket: u64)
        requires
            old(self).wf(),
            old(self).accepts(caller),
        ensures
            final(self).wf(),
            final(self).enqueued(*old(self), caller),
            final(self).newest() == Message::<K>::Read(bindings),
            ticket == old(self).issued().len(),
    {
        self.send(caller, Message::Read(bindings))
    }

    /// Asks for the bytes of the tensors behind `bindings`.
    pub fn read_tensor(&mut self, caller: u64, bindings: Vec<BindingWithMeta>) -> (ticket: u64)
        requires
            old(self).wf(),
            old(self).accepts(caller),
        ensures
            final(self).wf(),
            final(self).enqueued(*old(self), caller),
            final(self).newest() == Message::<K>::ReadTensor(bindings),
            ticket == old(self).issued().len(),
    {
        self.send(caller, Message::ReadTensor(bindings))
    }

    /// Asks for the backend resource behind `binding`.
    pub fn get_resource(&mut self, caller: u64, binding: Binding) -> (ticket: u64)
        requires
            old(self).wf(),
            old(self).accepts(caller),
        ensures
            final(self).wf(),
            final(self).enqueued(*old(self), caller),
            final(self).newest() == Message::<K>::GetResource(binding),
            ticket == old(self).issued().len(),
    {
        self.send(caller, Message::GetResource(binding))
    }

    /// Asks for an allocation that holds a copy of `data`.
    pub fn create(&mut self, caller: u64, data: &[u8]) -> (ticket: u64)
        requires
            old(self).wf(),
            old(self).accepts(caller),
        ensures
            final(self).wf(),
            final(self).enqueued(*old(self), caller),
            final(self).newest() matches Message::Create(bytes) && bytes@ == data@,
            ticket == old(self).issued().len(),
    {
        self.send(caller, Message::create(data))
    }

    /// Asks for a tensor allocation of the given shape that holds a copy of
    /// `data`.
    pub fn create_tensor(
        &mut self,
        caller: u64,
        data: &[u8],
        shape: &[usize],
        elem_size: usize,
    ) -> (ticket: u64)
        requires
            old(self).wf(),
            old(self).accepts(caller),
        ensures
            final(self).wf(),
            final(self).enqueued(*old(self), caller),
            final(self).newest() matches Message::CreateTensor(bytes, dims, width) && bytes@
                == data@ && dims@ == shape@ && width == elem_size,
            ticket == old(self).issued().len(),
    {
        self.send(caller, Message::create_tensor(data, shape, elem_size))
    }

    /// Asks for an allocation of `size` bytes.
    pub fn empty(&mut self, caller: u64, size: usize) -> (ticket: u64)
        requires
            old(self).wf(),
            old(self).accepts(caller),
        ensures
            final(self).wf(),
            final(self).enqueued(*old(self), caller),
            final(self).newest() == Message::<K>::Empty(size),
            ticket == old(self).issued().len(),
    {
        self.send(caller, Message::Empty(size))
    }

    /// Asks for a tensor allocation of the given shape.
    pub fn empty_tensor(&mut self, caller: u64, shape: &[usize], elem_size: usize) -> (ticket: u64)
        requires
            old(self).wf(),
            old(self).accepts(caller),
        ensures
            final(self).wf(),
            final(self).enqueued(*old(self), caller),
            final(self).newest() matches Message::EmptyTensor(dims, width) && dims@ == shape@
                && width == elem_size,
            ticket == old(self).issued().len(),
    {
        self.send(caller, Message::empty_tensor(shape, elem_size))
    }

    /// Enqueues a kernel launch and returns at once: no reply will come.
    /// The memory behind `bindings` has to stay valid, and untouched through
    /// any other path, until the device has used it; the channel orders the
    /// launch among the other commands and does no more.
    pub fn execute(
        &mut self,
        caller: u64,
        kernel: K,
        count: CubeCount,
        bindings: Bindings,
        kind: ExecutionMode,
    )
        requires
            old(self).wf(),
            old(self).accepts(caller),
        ensures
            final(self).wf(),
            final(self).enqueued(*old(self), caller),
            final(self).newest() == Message::ExecuteKernel((kernel, count, kind), bindings),
    {
        let _ = self.send(caller, Message::ExecuteKernel((kernel, count, kind), bindings));
    }

    /// Asks the server to submit buffered work. No reply will come.
    pub fn flush(&mut self, caller: u64)
        requires
            old(self).wf(),
            old(self).accepts(caller),
        ensures
            final(self).wf(),
            final(self).enqueued(*old(self), caller),
            final(self).newest() == Message::<K>::Flush,
    {
        let _ = self.send(caller, Message::Flush);
    }

    /// Asks for a device barrier. The reply comes once the server has
    /// passed it, and so after every command issued before this one.
    pub fn sync(&mut self, caller: u64) -> (ticket: u64)
        requires
            old(self).wf(),
            old(self).accepts(caller),
        ensures
            final(self).wf(),
            final(self).enqueued(*old(self), caller),
            final(self).newest() == Message::<K>::Sync,
            ticket == old(self).issued().len(),
    {
        self.send(caller, Message::Sync)
    }

    /// Asks for the allocator's statistics.
    pub fn memory_usage(&mut self, caller: u64) -> (ticket: u64)
        requires
            old(self).wf(),
            old(self).accepts(caller),
        ensures
            final(self).wf(),
            final(self).enqueued(*old(self), caller),
            final(self).newest() == Message::<K>::MemoryUsage,
            ticket == old(self).issued().len(),
    {
        self.send(caller, Message::MemoryUsage)
    }

    /// Asks the server to give unused memory back. No reply will come.
    pub fn memory_cleanup(&mut self, caller: u64)
        requires
            old(self).wf(),
            old(self).accepts(caller),
        ensures
            final(self).wf(),
            final(self).enqueued(*old(self), caller),
            final(self).newest() == Message::<K>::MemoryCleanup,
    {
        let _ = self.send(caller, Message::MemoryCleanup);
    }

    /// Opens a profiling window. No reply will come.
    pub fn start_profile(&mut self, caller: u64)
        requires
            old(self).wf(),
            old(self).accepts(caller),
        ensures
            final(self).wf(),
            final(self).enqueued(*old(self), caller),
            final(self).newest() == Message::<K>::StartProfile,
    {
        let _ = self.send(caller, Message::StartProfile);
    }

    /// Closes the profiling window and asks for its length.
    pub fn end_profile(&mut self, caller: u64) -> (ticket: u64)
        requires
            old(self).wf(),
            old(self).accepts(caller),
        ensures
            final(self).wf(),
            final(self).enqueued(*old(self), caller),
            final(self).newest() == Message::<K>::StopMeasure,
            ticket == old(self).issued().len(),
    {
        self.send(caller, Message::StopMeasure)
    }
}

} // verus!
