//! Element-wise type casts, expressed purely in terms of the dispatch
//! primitives: template specialization, geometry calculation, buffer
//! allocation and kernel execution.

use vstd::prelude::*;
use crate::compute::{spec_kernel_map, ComputeClient, Handle};
use crate::element::{spec_bool_canonical, spec_cast_scalar, ElementType};
use crate::kernel::{KernelIdentity, KernelSettings, StaticKernel, StaticKernelSource};
use crate::tensor::JitTensor;
use crate::workgroup::{elemwise_workgroup, spec_elemwise_dispatch_grid, WORKGROUP_DEFAULT};

verus! {

/// Casting an integral value that a single-precision float represents
/// exactly loses nothing: for every value from zero up to one hundred the
/// cast into the floating element type returns the value itself.
pub proof fn lemma_cast_small_int_to_float_exact(v: int)
    requires
        0 <= v < 100,
    ensures
        spec_cast_scalar(v, ElementType::F32) == v,
{
}

/// Two cast requests execute kernels with equal identities exactly when
/// they agree on the template variant and the element types bound into it —
/// both run under the default settings and workgroup shape, and the
/// tensor's shape, size and data values play no part in the identity.
pub proof fn lemma_cast_request_identity(k1: StaticKernelSource, k2: StaticKernelSource)
    ensures
        ((KernelIdentity { source: k1, settings: KernelSettings::spec_default() })
            == (KernelIdentity { source: k2, settings: KernelSettings::spec_default() })) <==> k1
            == k2,
{
}

/// Exactly one kernel execution was scheduled by a cast from `pre` to
/// `post`: the record grew by one entry whose identity is the given variant
/// under the default settings, whose grid is a well-formed minimal
/// element-wise dispatch over the tensor's element count, and whose ordered
/// handles are the input buffer first and the output buffer second.
pub open spec fn spec_cast_dispatch(
    pre: ComputeClient,
    post: ComputeClient,
    kind: StaticKernelSource,
    input: Handle,
    output: Handle,
    num_elems: int,
) -> bool {
    &&& post.spec_executions().len() == pre.spec_executions().len() + 1
    &&& post.spec_executions().take(pre.spec_executions().len() as int) == pre.spec_executions()
    &&& post.spec_executions().last().0 == (KernelIdentity {
        source: kind,
        settings: KernelSettings::spec_default(),
    })
    &&& spec_elemwise_dispatch_grid(post.spec_executions().last().1, num_elems)
    &&& post.spec_executions().last().2 == input
    &&& post.spec_executions().last().3 == output
}

/// Cast a tensor to the given element type.
///
/// When the tensor already has that element type, the result is a new view
/// sharing the same underlying handle, shape and device, and the client is
/// untouched: no allocation happens. Callers may rely on this; it is an
/// invariant, not an optimization.
///
/// Otherwise a fresh output buffer of exactly one output element per input
/// element is allocated, the cast kernel specialized for the two element
/// types is dispatched over it, and the result is a tensor of the original
/// shape wrapping the new buffer, whose every element is the input element
/// converted into the output type; exactly one kernel is executed, the cast
/// kernel for the two element types under the default settings, over a
/// covering, minimal dispatch grid. The bound on the element count is the
/// machine limit on the byte size of one allocation.
pub fn cast(client: &mut ComputeClient, tensor: JitTensor, output_elem: ElementType) -> (out:
    JitTensor)
    requires
        tensor.valid(*old(client)),
        tensor.shape.spec_num_elements() * output_elem.spec_byte_size() <= usize::MAX,
    ensures
        out.shape == tensor.shape,
        out.elem == output_elem,
        out.device == tensor.device,
        out.valid(*final(client)),
        final(client).spec_device() == old(client).spec_device(),
        final(client).spec_autotune() == old(client).spec_autotune(),
        tensor.elem == output_elem ==> out.handle == tensor.handle && *final(client) == *old(
            client,
        ),
        tensor.elem != output_elem ==> {
            &&& out.handle.id == old(client).spec_buffers().len()
            &&& final(client).spec_buffers().len() == old(client).spec_buffers().len() + 1
            &&& (forall|j: int|
                0 <= j < old(client).spec_buffers().len() ==> final(client).spec_buffers()[j]
                    == old(client).spec_buffers()[j])
            &&& final(client).spec_buffer_byte_size(out.handle.id as int)
                == tensor.shape.spec_num_elements() * output_elem.spec_byte_size()
            &&& (forall|i: int|
                0 <= i < tensor.shape.spec_num_elements() ==> final(client).spec_buffers()[out.handle.id as int][i] as int
                    == spec_cast_scalar(
                    old(client).spec_buffers()[tensor.handle.id as int][i] as int,
                    output_elem,
                ))
            &&& spec_cast_dispatch(
                *old(client),
                *final(client),
                StaticKernelSource::Cast { input_elem: tensor.elem, output_elem },
                tensor.handle,
                out.handle,
                tensor.shape.spec_num_elements(),
            )
        },
{
    if tensor.elem == output_elem {
        return JitTensor::new(tensor.handle, tensor.shape, tensor.elem, tensor.device);
    }
    let num_elems = tensor.shape.num_elements();
    proof {
        assert(num_elems as int <= (u32::MAX as int) * (u32::MAX as int) * (
        WORKGROUP_DEFAULT as int)) by (nonlinear_arith)
            requires
                num_elems as int * 4 <= usize::MAX as int,
                usize::MAX as int <= 0xffff_ffff_ffff_ffff,
        ;
    }
    let kernel = StaticKernel::new(
        StaticKernelSource::Cast { input_elem: tensor.elem, output_elem },
        KernelSettings::default(),
        elemwise_workgroup(num_elems, WORKGROUP_DEFAULT),
    );
    let out_handle = client.empty(num_elems * output_elem.byte_size());
    let handles = vec![tensor.handle, out_handle];
    client.execute(&kernel, &handles);
    proof {
        let pre = old(client).spec_executions();
        assert(client.spec_executions().take(pre.len() as int) =~= pre);
    }
    JitTensor::new(out_handle, tensor.shape, output_elem, tensor.device)
}

/// Cast a boolean tensor to the given element type.
///
/// Boolean tensors are stored as 32-bit words in which any non-zero word
/// means true; depending on how the tensor was produced, a true entry may
/// hold any non-zero bit pattern. A naive numeric cast of such a word would
/// not yield a canonical one, so this cast dispatches the boolean template
/// instead, which writes exactly one for every non-zero input word and
/// exactly zero for every zero word, whatever the original pattern. Exactly
/// one kernel is executed, the boolean cast kernel for the output type under
/// the default settings, over a covering, minimal dispatch grid.
pub fn bool_cast(client: &mut ComputeClient, tensor: JitTensor, output_elem: ElementType) -> (out:
    JitTensor)
    requires
        tensor.valid(*old(client)),
        tensor.elem == ElementType::U32,
        tensor.shape.spec_num_elements() * output_elem.spec_byte_size() <= usize::MAX,
    ensures
        out.shape == tensor.shape,
        out.elem == output_elem,
        out.device == tensor.device,
        out.valid(*final(client)),
        final(client).spec_device() == old(client).spec_device(),
        final(client).spec_autotune() == old(client).spec_autotune(),
        out.handle.id == old(client).spec_buffers().len(),
        final(client).spec_buffers().len() == old(client).spec_buffers().len() + 1,
        forall|j: int|
            0 <= j < old(client).spec_buffers().len() ==> final(client).spec_buffers()[j] == old(
                client,
            ).spec_buffers()[j],
        final(client).spec_buffer_byte_size(out.handle.id as int)
            == tensor.shape.spec_num_elements() * output_elem.spec_byte_size(),
        forall|i: int|
            0 <= i < tensor.shape.spec_num_elements() ==> final(client).spec_buffers()[out.handle.id as int][i] as int
                == spec_bool_canonical(
                old(client).spec_buffers()[tensor.handle.id as int][i] as int,
            ),
        spec_cast_dispatch(
            *old(client),
            *final(client),
            StaticKernelSource::BoolCast { output_elem },
            tensor.handle,
            out.handle,
            tensor.shape.spec_num_elements(),
        ),
{
    let num_elems = tensor.shape.num_elements();
    proof {
        assert(num_elems as int <= (u32::MAX as int) * (u32::MAX as int) * (
        WORKGROUP_DEFAULT as int)) by (nonlinear_arith)
            requires
                num_elems as int * 4 <= usize::MAX as int,
                usize::MAX as int <= 0xffff_ffff_ffff_ffff,
        ;
    }
    let kernel = StaticKernel::new(
        StaticKernelSource::BoolCast { output_elem },
        KernelSettings::default(),
        elemwise_workgroup(num_elems, WORKGROUP_DEFAULT),
    );
    let out_handle = client.empty(num_elems * output_elem.byte_size());
    let handles = vec![tensor.handle, out_handle];
    client.execute(&kernel, &handles);
    proof {
        assert forall|v: int| spec_kernel_map(kernel.kind, v) == spec_bool_canonical(v) by {
            assert(spec_cast_scalar(spec_bool_canonical(v), output_elem) == spec_bool_canonical(
                v,
            ));
        }
        let pre = old(client).spec_executions();
        assert(client.spec_executions().take(pre.len() as int) =~= pre);
    }
    JitTensor::new(out_handle, tensor.shape, output_elem, tensor.device)
}

} // verus!
