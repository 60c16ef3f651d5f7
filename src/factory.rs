use vstd::prelude::*;

use std::marker::PhantomData;

verus! {

/// A named resource that can travel erased: serializable and debuggable.
pub trait Resource: crate::traits::Debug {

}

/// A named resource seen without its value type.
pub trait ErasedResource {

}

/// A named resource whose values have type `T`.
pub struct ResourceImpl<T> {
    name: &'static str,
    _phantom: PhantomData<T>,
}

impl<T> ResourceImpl<T> {
    /// The resource's name.
    pub closed spec fn name(&self) -> &'static str {
        self.name
    }

    /// A resource named `name`.
    pub fn new(name: &'static str) -> (r: Self)
        ensures
            r.name() == name,
    {
        ResourceImpl { name, _phantom: PhantomData }
    }

    /// The resource's name.
    pub fn resource_name(&self) -> (r: &'static str)
        ensures
            r == self.name(),
    {
        self.name
    }
}

impl<T: crate::traits::Debug> ErasedResource for ResourceImpl<T> {

}

} // verus!
