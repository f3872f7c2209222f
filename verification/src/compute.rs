//! The compute client: the dispatch layer's view of the execution
//! substrate. It allocates output buffers and executes kernels against
//! ordered buffer handles.
//!
//! This is a sequential reference substrate: device memory is modelled as
//! buffers of 32-bit slots holding exact integral scalars, and executing a
//! kernel applies its element-wise map immediately. Operations sharing a
//! buffer therefore observe program order, as the substrate contract asks.

use vstd::prelude::*;
use crate::autotune::JitAutotuneKey;
use crate::element::{bool_canonical, cast_scalar, spec_bool_canonical, spec_cast_scalar};
use crate::kernel::{KernelIdentity, StaticKernel, StaticKernelSource};
use crate::runtime::Device;
use crate::workgroup::WorkGroup;

verus! {

/// A shared reference to one allocated device buffer.
#[derive(Clone, Copy, PartialEq, Eq, Structural, Debug, Hash)]
pub struct Handle {
    pub id: usize,
}

/// The scalar a kernel writes for the input scalar `v`: the numeric cast
/// converts it into the output element type, the boolean cast first
/// canonicalizes it to zero or one.
pub open spec fn spec_kernel_map(kind: StaticKernelSource, v: int) -> int {
    match kind {
        StaticKernelSource::Cast { input_elem, output_elem } => spec_cast_scalar(v, output_elem),
        StaticKernelSource::BoolCast { output_elem } => spec_cast_scalar(
            spec_bool_canonical(v),
            output_elem,
        ),
    }
}

/// Applies a kernel's element-wise map to one scalar.
fn kernel_map(kernel: &StaticKernel, v: i64) -> (r: i64)
    ensures
        r as int == spec_kernel_map(kernel.kind, v as int),
{
    match kernel.kind {
        StaticKernelSource::Cast { input_elem: _, output_elem } => cast_scalar(v, output_elem),
        StaticKernelSource::BoolCast { output_elem } => cast_scalar(bool_canonical(v), output_elem),
    }
}

/// A compute client bound to one device, holding the buffers allocated on
/// it. Buffers are 32-bit slots; a buffer of `n` slots occupies `4 * n`
/// bytes of device memory.
pub struct ComputeClient {
    device: Device,
    buffers: Vec<Vec<i64>>,
    autotune: Vec<(JitAutotuneKey, KernelIdentity)>,
    executions: Ghost<Seq<(KernelIdentity, WorkGroup, Handle, Handle)>>,
}

/// The kernel variant the cache selects for a key: the most recently
/// registered entry under that key, if any.
pub open spec fn spec_autotune_result(
    cache: Seq<(JitAutotuneKey, KernelIdentity)>,
    key: JitAutotuneKey,
) -> Option<KernelIdentity>
    decreases cache.len(),
{
    if cache.len() == 0 {
        None
    } else if cache.last().0 == key {
        Some(cache.last().1)
    } else {
        spec_autotune_result(cache.drop_last(), key)
    }
}

impl ComputeClient {
    /// The device the client operates on.
    pub closed spec fn spec_device(self) -> Device {
        self.device
    }

    /// The contents of every allocated buffer, in allocation order.
    pub closed spec fn spec_buffers(self) -> Seq<Seq<i64>> {
        self.buffers@.map(|i: int, b: Vec<i64>| b@)
    }

    /// The autotune cache: benchmarked kernel variants in registration
    /// order.
    pub closed spec fn spec_autotune(self) -> Seq<(JitAutotuneKey, KernelIdentity)> {
        self.autotune@
    }

    /// Everything executed on the client so far, in program order: the
    /// kernel's identity, its dispatch grid, and the input and output
    /// handles it was scheduled against.
    pub closed spec fn spec_executions(self) -> Seq<(KernelIdentity, WorkGroup, Handle, Handle)> {
        self.executions@
    }

    /// The size in bytes of the allocated buffer behind `id`.
    pub open spec fn spec_buffer_byte_size(self, id: int) -> int {
        self.spec_buffers()[id].len() * 4int
    }

    /// A fresh client on the given device, with no buffers allocated.
    pub fn new(device: Device) -> (c: Self)
        ensures
            c.spec_device() == device,
            c.spec_buffers() =~= Seq::<Seq<i64>>::empty(),
            c.spec_autotune() =~= Seq::<(JitAutotuneKey, KernelIdentity)>::empty(),
            c.spec_executions() =~= Seq::<(KernelIdentity, WorkGroup, Handle, Handle)>::empty(),
    {
        ComputeClient {
            device,
            buffers: Vec::new(),
            autotune: Vec::new(),
            executions: Ghost(Seq::empty()),
        }
    }

    /// The number of buffers allocated so far.
    pub fn num_buffers(&self) -> (n: usize)
        ensures
            n == self.spec_buffers().len(),
    {
        self.buffers.len()
    }

    /// Allocates a zero-initialized device buffer of `byte_size` bytes and
    /// returns its handle. Existing buffers are untouched.
    pub fn empty(&mut self, byte_size: usize) -> (h: Handle)
        requires
            byte_size as int % 4 == 0,
        ensures
            final(self).spec_device() == old(self).spec_device(),
            final(self).spec_autotune() == old(self).spec_autotune(),
            final(self).spec_executions() == old(self).spec_executions(),
            h.id == old(self).spec_buffers().len(),
            final(self).spec_buffers() =~= old(self).spec_buffers().push(
                Seq::new((byte_size / 4) as nat, |i: int| 0i64),
            ),
    {
        let n = byte_size / 4;
        let mut words: Vec<i64> = Vec::new();
        while words.len() < n
            invariant
                words@.len() <= n,
                forall|j: int| 0 <= j < words@.len() ==> words@[j] == 0i64,
            decreases n - words@.len(),
    {
            words.push(0);
        }
        proof {
            assert(words@ =~= Seq::new(n as nat, |i: int| 0i64));
        }
        let h = Handle { id: self.buffers.len() };
        self.buffers.push(words);
        h
    }

    /// Allocates a device buffer holding the given scalars and returns its
    /// handle. Existing buffers are untouched.
    pub fn create(&mut self, data: Vec<i64>) -> (h: Handle)
        ensures
            final(self).spec_device() == old(self).spec_device(),
            final(self).spec_autotune() == old(self).spec_autotune(),
            final(self).spec_executions() == old(self).spec_executions(),
            h.id == old(self).spec_buffers().len(),
            final(self).spec_buffers() =~= old(self).spec_buffers().push(data@),
    {
        let h = Handle { id: self.buffers.len() };
        self.buffers.push(data);
        h
    }

    /// Reads a buffer's scalars back.
    pub fn read(&self, h: Handle) -> (r: Vec<i64>)
        requires
            h.id < self.spec_buffers().len(),
        ensures
            r@ == self.spec_buffers()[h.id as int],
    {
        let src = &self.buffers[h.id];
        let ghost sv = src@;
        let mut out: Vec<i64> = Vec::new();
        let mut i: usize = 0;
        while i < src.len()
            invariant
                i <= sv.len(),
                sv == src@,
                out@ =~= sv.take(i as int),
            decreases sv.len() - i,
        {
            out.push(src[i]);
            i = i + 1;
        }
        proof {
            assert(sv.take(i as int) =~= sv);
        }
        out
    }

    /// Schedules a kernel against an ordered pair of handles: the input
    /// buffer first, the output buffer second, matching the template's
    /// declared bindings. Every output slot covered by the input receives
    /// the kernel's map of the input slot; slots beyond the input, and
    /// every other buffer, are untouched.
    ///
    /// The substrate refuses an under-covering dispatch: the kernel's grid,
    /// at the per-workgroup element capacity given by the settings' first
    /// workgroup dimension, must reach every output slot — the coverage
    /// guarantee that makes out-of-bounds writes unreachable. The execution
    /// is appended to the client's execution record.
    pub fn execute(&mut self, kernel: &StaticKernel, handles: &Vec<Handle>)
        requires
            handles@.len() == 2,
            handles@[0].id < old(self).spec_buffers().len(),
            handles@[1].id < old(self).spec_buffers().len(),
            kernel.grid.x >= 1,
            kernel.grid.y >= 1,
            kernel.grid.z >= 1,
            kernel.grid.covers(
                kernel.settings.workgroup_x as int,
                old(self).spec_buffers()[handles@[1].id as int].len() as int,
            ),
        ensures
            final(self).spec_device() == old(self).spec_device(),
            final(self).spec_autotune() == old(self).spec_autotune(),
            final(self).spec_executions() == old(self).spec_executions().push(
                (kernel.spec_id(), kernel.grid, handles@[0], handles@[1]),
            ),
            final(self).spec_buffers().len() == old(self).spec_buffers().len(),
            forall|j: int|
                0 <= j < old(self).spec_buffers().len() && j != handles@[1].id
                    ==> final(self).spec_buffers()[j] == old(self).spec_buffers()[j],
            final(self).spec_buffers()[handles@[1].id as int].len() == old(
                self,
            ).spec_buffers()[handles@[1].id as int].len(),
            forall|i: int|
                0 <= i < old(self).spec_buffers()[handles@[1].id as int].len() && i < old(
                    self,
                ).spec_buffers()[handles@[0].id as int].len()
                    ==> final(self).spec_buffers()[handles@[1].id as int][i] as int
                    == spec_kernel_map(
                    kernel.kind,
                    old(self).spec_buffers()[handles@[0].id as int][i] as int,
                ),
            forall|i: int|
                old(self).spec_buffers()[handles@[0].id as int].len() <= i < old(
                    self,
                ).spec_buffers()[handles@[1].id as int].len()
                    ==> final(self).spec_buffers()[handles@[1].id as int][i] == old(
                    self,
                ).spec_buffers()[handles@[1].id as int][i],
    {
        let in_id = handles[0].id;
        let out_id = handles[1].id;
        let src = self.read(handles[0]);
        let dst = self.read(handles[1]);
        let n = if src.len() < dst.len() {
            src.len()
        } else {
            dst.len()
        };
        let mut out_words: Vec<i64> = Vec::new();
        let mut i: usize = 0;
        while i < n
            invariant
                i <= n,
                n <= src@.len(),
                n <= dst@.len(),
                out_words@.len() == i,
                forall|j: int|
                    0 <= j < i ==> out_words@[j] as int == spec_kernel_map(
                        kernel.kind,
                        src@[j] as int,
                    ),
            decreases n - i,
        {
            out_words.push(kernel_map(kernel, src[i]));
            i = i + 1;
        }
        while i < dst.len()
            invariant
                n <= i,
                i <= dst@.len(),
                n <= src@.len(),
                out_words@.len() == i,
                forall|j: int|
                    0 <= j < n ==> out_words@[j] as int == spec_kernel_map(
                        kernel.kind,
                        src@[j] as int,
                    ),
                forall|j: int| n <= j < i ==> out_words@[j] == dst@[j],
            decreases dst@.len() - i,
        {
            out_words.push(dst[i]);
            i = i + 1;
        }
        let ghost ow = out_words@;
        self.buffers[out_id] = out_words;
        self.executions = Ghost(
            self.executions@.push((kernel.spec_id(), kernel.grid, handles@[0], handles@[1])),
        );
        proof {
            assert(self.spec_buffers() =~= old(self).spec_buffers().update(out_id as int, ow));
        }
    }

    /// Consults the autotune cache: the kernel variant most recently
    /// registered as best for the key on this client, if any.
    pub fn autotune_result(&self, key: JitAutotuneKey) -> (r: Option<KernelIdentity>)
        ensures
            r == spec_autotune_result(self.spec_autotune(), key),
    {
        let ghost cache = self.spec_autotune();
        let mut i: usize = self.autotune.len();
        proof {
            assert(cache.take(i as int) =~= cache);
        }
        while i > 0
            invariant
                i <= cache.len(),
                cache == self.autotune@,
                spec_autotune_result(cache, key) == spec_autotune_result(
                    cache.take(i as int),
                    key,
                ),
            decreases i,
        {
            proof {
                assert(cache.take(i as int).last() == cache[i as int - 1]);
                assert(cache.take(i as int).drop_last() =~= cache.take(i as int - 1));
            }
            if self.autotune[i - 1].0 == key {
                return Some(self.autotune[i - 1].1);
            }
            i = i - 1;
        }
        None
    }

    /// Registers the kernel variant selected as best for a key. A later
    /// registration under the same key supersedes an earlier one.
    pub fn register_autotune(&mut self, key: JitAutotuneKey, kernel_id: KernelIdentity)
        ensures
            final(self).spec_device() == old(self).spec_device(),
            final(self).spec_buffers() == old(self).spec_buffers(),
            final(self).spec_executions() == old(self).spec_executions(),
            final(self).spec_autotune() =~= old(self).spec_autotune().push((key, kernel_id)),
            spec_autotune_result(final(self).spec_autotune(), key) == Some(kernel_id),
    {
        self.autotune.push((key, kernel_id));
        proof {
            assert(self.spec_autotune().last() == (key, kernel_id));
        }
    }
}

} // verus!
