//! Tensors tagged at compile time with the device that holds their data.
//!
//! A marker type (`CpuDevice`, `CudaDevice<N>`) names one device. A
//! `DeviceTensor<D>` carries its marker as a type parameter, so that
//! combining tensors that live on different devices does not type-check;
//! the only way to change the tag is an explicit transfer.
pub mod device;
pub mod tensor;

pub use device::{CpuDevice, CudaDevice, Device, DeviceKind};
pub use tensor::DeviceTensor;
