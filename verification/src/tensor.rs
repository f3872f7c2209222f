//! Tensors as the dispatch layer sees them: a shape and a handle to device
//! memory, tagged with the element type the buffer stores.

use vstd::prelude::*;
use crate::compute::{ComputeClient, Handle};
use crate::element::ElementType;
use crate::runtime::Device;

verus! {

/// The product of a sequence of dimension sizes: the number of elements a
/// tensor of that shape holds. An empty dimension list is a scalar.
pub open spec fn spec_dims_product(dims: Seq<usize>) -> int
    decreases dims.len(),
{
    if dims.len() == 0 {
        1
    } else {
        dims[0] * spec_dims_product(dims.skip(1))
    }
}

/// The product of positive dimensions is positive.
pub proof fn lemma_dims_product_positive(dims: Seq<usize>)
    requires
        forall|i: int| 0 <= i < dims.len() ==> dims[i] > 0,
    ensures
        spec_dims_product(dims) >= 1,
    decreases dims.len(),
{
    if dims.len() == 0 {
    } else {
        lemma_dims_product_positive(dims.skip(1));
        assert(spec_dims_product(dims) == dims[0] * spec_dims_product(dims.skip(1)));
        assert(dims[0] * spec_dims_product(dims.skip(1)) >= 1) by (nonlinear_arith)
            requires
                dims[0] >= 1,
                spec_dims_product(dims.skip(1)) >= 1,
        ;
    }
}

/// An ordered sequence of positive dimension sizes.
pub struct Shape {
    pub dims: Vec<usize>,
}

impl Shape {
    /// Every dimension is positive.
    pub open spec fn wf(self) -> bool {
        forall|i: int| 0 <= i < self.dims@.len() ==> self.dims@[i] > 0
    }

    /// The number of elements a tensor of this shape holds.
    pub open spec fn spec_num_elements(self) -> int {
        spec_dims_product(self.dims@)
    }

    pub fn new(dims: Vec<usize>) -> (s: Shape)
        ensures
            s.dims@ == dims@,
    {
        Shape { dims }
    }

    /// Computes the number of elements. The bound on the product is the
    /// machine limit on how many elements a buffer can address.
    pub fn num_elements(&self) -> (n: usize)
        requires
            self.wf(),
            self.spec_num_elements() <= usize::MAX,
        ensures
            n == self.spec_num_elements(),
    {
        let ghost all = self.dims@;
        let mut acc: usize = 1;
        let mut i: usize = 0;
        proof {
            assert(all.skip(0) =~= all);
        }
        while i < self.dims.len()
            invariant
                i <= all.len(),
                all == self.dims@,
                self.wf(),
                spec_dims_product(all) <= usize::MAX,
                acc >= 1,
                acc * spec_dims_product(all.skip(i as int)) == spec_dims_product(all),
            decreases all.len() - i,
        {
            let d = self.dims[i];
            proof {
                assert(all.skip(i as int).skip(1) =~= all.skip(i as int + 1));
                assert(spec_dims_product(all.skip(i as int)) == d * spec_dims_product(
                    all.skip(i as int + 1),
                ));
                lemma_dims_product_positive(all.skip(i as int + 1));
                assert((acc as int) * (d as int) * spec_dims_product(all.skip(i as int + 1))
                    == spec_dims_product(all)) by (nonlinear_arith)
                    requires
                        (acc as int) * spec_dims_product(all.skip(i as int)) == spec_dims_product(
                            all,
                        ),
                        spec_dims_product(all.skip(i as int)) == (d as int) * spec_dims_product(
                            all.skip(i as int + 1),
                        ),
                ;
                assert((acc as int) * (d as int) <= spec_dims_product(all)) by (nonlinear_arith)
                    requires
                        (acc as int) * (d as int) * spec_dims_product(all.skip(i as int + 1))
                            == spec_dims_product(all),
                        spec_dims_product(all.skip(i as int + 1)) >= 1,
                        acc >= 1,
                        d >= 1,
                ;
                assert((acc as int) * (d as int) >= 1) by (nonlinear_arith)
                    requires
                        acc >= 1,
                        d >= 1,
                ;
            }
            acc = acc * d;
            i = i + 1;
        }
        proof {
            assert(all.skip(i as int) =~= Seq::<usize>::empty());
        }
        acc
    }
}

/// A tensor handled by the dispatch layer: a reference to device memory, a
/// shape, an element type and the device the memory lives on. The handle is
/// shared: several tensors may reference the same underlying buffer.
pub struct JitTensor {
    pub handle: Handle,
    pub shape: Shape,
    pub elem: ElementType,
    pub device: Device,
}

impl JitTensor {
    /// The tensor is backed by a live buffer of the client that holds
    /// exactly one 32-bit slot per element.
    pub open spec fn valid(self, client: ComputeClient) -> bool {
        &&& self.shape.wf()
        &&& self.handle.id < client.spec_buffers().len()
        &&& client.spec_buffers()[self.handle.id as int].len() == self.shape.spec_num_elements()
    }

    pub fn new(handle: Handle, shape: Shape, elem: ElementType, device: Device) -> (t: JitTensor)
        ensures
            t == (JitTensor { handle, shape, elem, device }),
    {
        JitTensor { handle, shape, elem, device }
    }
}

} // verus!
