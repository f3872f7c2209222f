//! The composition root of the backend: a runtime binds a compiler, a
//! compute server, a communication channel and a device together, and pairs
//! itself with a full-precision sibling that shares every component but the
//! compiler, so tensor handles move between the two without copies.

use vstd::prelude::*;
use crate::autotune::JitAutotuneKey;
use crate::compute::{ComputeClient, Handle};
use crate::kernel::KernelIdentity;
use crate::workgroup::WorkGroup;

verus! {

/// A device the compute substrate schedules kernels on. Devices have
/// well-defined equality and hashing, since they key client caching.
#[derive(Clone, Copy, PartialEq, Eq, Structural, Debug, Hash)]
pub struct Device {
    pub index: u32,
}

impl Default for Device {
    fn default() -> (r: Self)
        ensures
            r == (Device { index: 0 }),
    {
        Device { index: 0 }
    }
}

/// The compiler a runtime lowers kernel source through: the working
/// representation it compiles numeric intermediates to.
#[derive(Clone, Copy, PartialEq, Eq, Structural, Debug, Hash)]
pub enum Compiler {
    /// The reduced-precision shader compiler.
    Wgsl,
    /// The full-precision shader compiler.
    WgslFullPrecision,
}

/// The full-precision counterpart of a compiler. A full-precision compiler
/// is its own counterpart.
pub open spec fn spec_full_precision_of(c: Compiler) -> Compiler {
    match c {
        Compiler::Wgsl => Compiler::WgslFullPrecision,
        Compiler::WgslFullPrecision => Compiler::WgslFullPrecision,
    }
}

/// Identifies the compute server implementation a runtime schedules on.
#[derive(Clone, Copy, PartialEq, Eq, Structural, Debug, Hash)]
pub struct ServerId {
    pub index: u32,
}

/// Identifies the channel a runtime talks to its compute server through.
#[derive(Clone, Copy, PartialEq, Eq, Structural, Debug, Hash)]
pub struct ChannelId {
    pub index: u32,
}

/// A runtime: the binding of compiler, compute server, channel and device
/// the dispatch layer runs against.
#[derive(Clone, Copy, PartialEq, Eq, Structural, Debug, Hash)]
pub struct Runtime {
    pub compiler: Compiler,
    pub server: ServerId,
    pub channel: ChannelId,
    pub device: Device,
}

impl Runtime {
    pub fn new(compiler: Compiler, server: ServerId, channel: ChannelId, device: Device) -> (r:
        Runtime)
        ensures
            r == (Runtime { compiler, server, channel, device }),
    {
        Runtime { compiler, server, channel, device }
    }

    /// The sibling runtime that compiles at full precision. It shares the
    /// server, the channel and the device with its parent — only the
    /// compiler differs — so the two runtimes operate on the same queue and
    /// their tensor handles are interchangeable without copying.
    pub fn full_precision_runtime(&self) -> (r: Runtime)
        ensures
            r.compiler == spec_full_precision_of(self.compiler),
            r.server == self.server,
            r.channel == self.channel,
            r.device == self.device,
    {
        Runtime {
            compiler: match self.compiler {
                Compiler::Wgsl => Compiler::WgslFullPrecision,
                Compiler::WgslFullPrecision => Compiler::WgslFullPrecision,
            },
            server: self.server,
            channel: self.channel,
            device: self.device,
        }
    }

    /// Retrieves a compute client operating on the runtime's device, with
    /// no buffers allocated, nothing autotuned and nothing executed yet.
    pub fn client(&self) -> (c: ComputeClient)
        ensures
            c.spec_device() == self.device,
            c.spec_buffers() =~= Seq::<Seq<i64>>::empty(),
            c.spec_autotune() =~= Seq::<(JitAutotuneKey, KernelIdentity)>::empty(),
            c.spec_executions() =~= Seq::<(KernelIdentity, WorkGroup, Handle, Handle)>::empty(),
    {
        ComputeClient::new(self.device)
    }

    /// The runtime's name.
    pub fn name(&self) -> (r: &'static str)
        ensures
            self.compiler == Compiler::Wgsl ==> r@ == "wgpu"@,
            self.compiler == Compiler::WgslFullPrecision ==> r@ == "wgpu-full"@,
    {
        match self.compiler {
            Compiler::Wgsl => "wgpu",
            Compiler::WgslFullPrecision => "wgpu-full",
        }
    }
}

} // verus!
