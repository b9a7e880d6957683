//! The device-tagged tensor.
//!
//! A `DeviceTensor<D>` describes one tensor of floating-point elements: its
//! shape, and the device that holds its data. The device is fixed by the
//! marker `D`, and every operation keeps the two in agreement.
use vstd::prelude::*;

use crate::device::{Device, DeviceKind};

verus! {

/// Every extent of a shape is non-negative.
pub open spec fn valid_shape(shape: Seq<i64>) -> bool {
    forall|i: int| 0 <= i < shape.len() ==> #[trigger] shape[i] >= 0
}

/// A tensor whose data lives on the device named by the marker `D`.
#[derive(Debug)]
pub struct DeviceTensor<D: Device> {
    shape: Vec<i64>,
    device: DeviceKind,
    _device_marker: std::marker::PhantomData<D>,
}

impl<D: Device> View for DeviceTensor<D> {
    type V = Seq<i64>;

    /// The shape of the tensor.
    closed spec fn view(&self) -> Seq<i64> {
        self.shape@
    }
}

impl<D: Device> DeviceTensor<D> {
    /// The tensor's device agrees with its marker, and its shape is valid.
    #[verifier::type_invariant]
    closed spec fn inv(self) -> bool {
        &&& self.device == D::device_spec()
        &&& valid_shape(self.shape@)
    }

    /// The runtime device that holds the tensor's data.
    pub closed spec fn spec_device(&self) -> DeviceKind {
        self.device
    }

    /// Copies `size` into a vector of the same extents.
    fn copy_shape(size: &[i64]) -> (r: Vec<i64>)
        ensures
            r@ == size@,
    {
        let mut r: Vec<i64> = Vec::with_capacity(size.len());
        let mut i: usize = 0;
        while i < size.len()
            invariant
                i <= size@.len(),
                r@ == size@.subrange(0, i as int),
            decreases size@.len() - i,
        {
            r.push(size[i]);
            i = i + 1;
            assert(r@ =~= size@.subrange(0, i as int));
        }
        assert(r@ =~= size@);
        r
    }

    /// A new tensor of shape `size`, with elements drawn from the standard
    /// normal distribution, on the device that `D` names.
    pub fn randn(size: &[i64]) -> (r: DeviceTensor<D>)
        requires
            valid_shape(size@),
        ensures
            r@ == size@,
            r.spec_device() == D::device_spec(),
    {
        DeviceTensor { shape: Self::copy_shape(size), device: D::tch_device(), _device_marker: std::marker::PhantomData }
    }

    /// Moves the tensor to the device that `D2` names and tags it with `D2`.
    /// The shape is kept; onto the same device this is a copy.
    pub fn to_device<D2: Device>(self) -> (r: DeviceTensor<D2>)
        ensures
            r@ == self@,
            r.spec_device() == D2::device_spec(),
    {
        proof {
            use_type_invariant(&self);
        }
        DeviceTensor { shape: self.shape, device: D2::tch_device(), _device_marker: std::marker::PhantomData }
    }

    /// The elementwise sum of two tensors on the same device, computed on
    /// that device. Both operands carry the marker `D`, so a sum across
    /// devices does not type-check.
    pub fn add(&self, other: &DeviceTensor<D>) -> (r: DeviceTensor<D>)
        requires
            self@ == other@,
        ensures
            r@ == self@,
            r.spec_device() == D::device_spec(),
    {
        proof {
            use_type_invariant(self);
        }
        DeviceTensor { shape: self.shape.clone(), device: self.device, _device_marker: std::marker::PhantomData }
    }

    /// The shape of the tensor.
    pub fn shape(&self) -> (r: Vec<i64>)
        ensures
            r@ == self@,
            valid_shape(r@),
    {
        proof {
            use_type_invariant(self);
        }
        self.shape.clone()
    }

    /// The runtime device that holds the tensor's data: the one `D` names.
    pub fn device(&self) -> (r: DeviceKind)
        ensures
            r == self.spec_device(),
            r == D::device_spec(),
    {
        proof {
            use_type_invariant(self);
        }
        self.device
    }
}

} // verus!
