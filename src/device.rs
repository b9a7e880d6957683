//! Device markers and the runtime device descriptor they stand for.
use vstd::prelude::*;

verus! {

/// A runtime device, as handed to the tensor library: the CPU, or the CUDA
/// device with the given index.
#[derive(PartialEq, Eq, Structural, Clone, Copy, Debug)]
pub enum DeviceKind {
    Cpu,
    Cuda(usize),
}

/// A zero-sized marker type that names one device.
pub trait Device {
    /// The device that the marker names.
    spec fn device_spec() -> DeviceKind;

    /// Returns the device that the marker names: always the same value.
    fn tch_device() -> (r: DeviceKind)
        ensures
            r == Self::device_spec(),
    ;
}

/// Device indicator for tensors on the CPU.
#[derive(Debug, Default, Clone, Copy)]
pub struct CpuDevice;

impl Device for CpuDevice {
    open spec fn device_spec() -> DeviceKind {
        DeviceKind::Cpu
    }

    fn tch_device() -> (r: DeviceKind) {
        DeviceKind::Cpu
    }
}

/// Device indicator for tensors on the CUDA device with index `N`.
#[derive(Debug, Default, Clone, Copy)]
pub struct CudaDevice<const N: usize>;

impl<const N: usize> Device for CudaDevice<N> {
    open spec fn device_spec() -> DeviceKind {
        DeviceKind::Cuda(N)
    }

    fn tch_device() -> (r: DeviceKind) {
        DeviceKind::Cuda(N)
    }
}

/// Two CUDA markers with different indices name different devices.
pub proof fn lemma_cuda_markers_distinct<const A: usize, const B: usize>()
    requires
        A != B,
    ensures
        CudaDevice::<A>::device_spec() != CudaDevice::<B>::device_spec(),
{
}

/// The CPU marker and every CUDA marker name different devices.
pub proof fn lemma_cpu_is_not_cuda<const N: usize>()
    ensures
        CpuDevice::device_spec() != CudaDevice::<N>::device_spec(),
{
}

} // verus!
