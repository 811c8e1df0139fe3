//! What the host stack's object tree keeps beside each exported path: the attribute behind it.
use std::sync::Arc;
use vstd::prelude::*;

verus! {

/// Relies on std's `Arc::clone`: the new pointer shares the same value.
#[verifier::external_body]
fn share<T>(a: &Arc<T>) -> (r: Arc<T>)
    ensures
        r == *a,
{
    Arc::clone(a)
}

/// The attribute that an object path of the tree stands for.
#[derive(Debug)]
pub enum GattDataType<C, D> {
    Characteristic(Arc<C>),
    Descriptor(Arc<D>),
    Empty,
}

impl<C, D> Clone for GattDataType<C, D> {
    fn clone(&self) -> (r: Self)
        ensures
            r == *self,
    {
        match self {
            GattDataType::Characteristic(c) => GattDataType::Characteristic(share(c)),
            GattDataType::Descriptor(d) => GattDataType::Descriptor(share(d)),
            GattDataType::Empty => GattDataType::Empty,
        }
    }
}

impl<C, D> GattDataType<C, D> {
    /// The characteristic behind the path; the path must stand for one.
    pub fn get_characteristic(&self) -> (r: Arc<C>)
        requires
            self is Characteristic,
        ensures
            r == self->Characteristic_0,
    {
        match self {
            GattDataType::Characteristic(characteristic) => share(characteristic),
            _ => unreached(),
        }
    }

    /// The descriptor behind the path; the path must stand for one.
    pub fn get_descriptor(&self) -> (r: Arc<D>)
        requires
            self is Descriptor,
        ensures
            r == self->Descriptor_0,
    {
        match self {
            GattDataType::Descriptor(descriptor) => share(descriptor),
            _ => unreached(),
        }
    }
}

/// The data-type marker that ties the object tree's paths to `GattDataType`.
#[derive(Copy, Clone, Default, Debug)]
pub struct TData;

} // verus!
