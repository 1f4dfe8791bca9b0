//! What a kernel launch needs to be enqueued on a command queue.
use vstd::prelude::*;

verus! {

/// A kernel launch waiting for a queue: the kernel and the global and,
/// optionally, local work sizes of each of its `N` dimensions.
pub struct KernelEnqueueSupplier<K, const N: usize> {
    kernel: K,
    global_work_dims: [usize; N],
    local_work_dims: Option<[usize; N]>,
}

impl<K, const N: usize> KernelEnqueueSupplier<K, N> {
    /// The kernel to launch.
    pub closed spec fn spec_kernel(&self) -> K {
        self.kernel
    }

    /// The global work size of each dimension.
    pub closed spec fn spec_global(&self) -> [usize; N] {
        self.global_work_dims
    }

    /// The local work size of each dimension, if one was given.
    pub closed spec fn spec_local(&self) -> Option<[usize; N]> {
        self.local_work_dims
    }

    /// A launch of `kernel` over the given work sizes.
    pub fn new(kernel: K, global_work_dims: [usize; N], local_work_dims: Option<[usize; N]>) -> (s: Self)
        ensures
            s.spec_kernel() == kernel,
            s.spec_global() == global_work_dims,
            s.spec_local() == local_work_dims,
    {
        KernelEnqueueSupplier { kernel, global_work_dims, local_work_dims }
    }

    /// Takes the launch apart: the kernel, the global work sizes and the local
    /// work sizes, as they were given.
    pub fn into_parts(self) -> (p: (K, [usize; N], Option<[usize; N]>))
        ensures
            p.0 == self.spec_kernel(),
            p.1 == self.spec_global(),
            p.2 == self.spec_local(),
    {
        (self.kernel, self.global_work_dims, self.local_work_dims)
    }
}

} // verus!
