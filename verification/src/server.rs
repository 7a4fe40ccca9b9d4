//! Resource identifiers and result values that commands carry. The channel
//! never looks inside them: it only moves them between callers and worker.

use vstd::prelude::*;

verus! {

/// Caller-held name of a server-side allocation.
#[derive(Debug, Clone, Copy, PartialEq, Eq, Structural, Hash)]
pub struct Handle {
    pub id: u64,
}

/// Reference to the memory of a [`Handle`], as a kernel argument or a read target.
#[derive(Debug, Clone, Copy, PartialEq, Eq, Structural, Hash)]
pub struct Binding {
    pub id: u64,
}

impl Handle {
    /// The binding that refers to this handle's memory.
    pub fn binding(self) -> (binding: Binding)
        ensures
            binding.id == self.id,
    {
        Binding { id: self.id }
    }
}

/// A binding with the shape and strides of the tensor it holds.
#[derive(Debug, Clone, PartialEq, Eq)]
pub struct BindingWithMeta {
    pub binding: Binding,
    pub shape: Vec<usize>,
    pub strides: Vec<usize>,
    pub elem_size: usize,
}

/// Launch-grid dimensions of one kernel dispatch.
#[derive(Debug, Clone, Copy, PartialEq, Eq, Structural)]
pub enum CubeCount {
    Static(u32, u32, u32),
    Dynamic(Binding),
}

/// The bindings of one kernel launch, in argument order.
#[derive(Debug, Clone, PartialEq, Eq)]
pub struct Bindings {
    pub buffers: Vec<Binding>,
}

/// Whether a kernel is dispatched with or without bounds checks.
#[derive(Debug, Clone, Copy, PartialEq, Eq, Structural)]
pub enum ExecutionMode {
    Checked,
    Unchecked,
}

/// Allocator statistics, as the server reports them.
#[derive(Debug, Clone, Copy, PartialEq, Eq, Structural)]
pub struct MemoryUsage {
    pub number_allocs: u64,
    pub bytes_in_use: u64,
    pub bytes_padding: u64,
    pub bytes_reserved: u64,
}

/// Length of a profiling window, as the server measured it.
#[derive(Debug, Clone, Copy, PartialEq, Eq, Structural)]
pub struct ProfileDuration {
    pub nanos: u64,
}

} // verus!
