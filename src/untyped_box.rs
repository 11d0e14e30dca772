//! A container that holds a value of any concrete type behind one handle.

use std::any::Any;
use vstd::prelude::*;

verus! {

/// The boxed trait object behind an [`UntypedBox`]; Verus does not model
/// `dyn Any`, so the box is opaque to it.
#[verifier::external_body]
struct Erased(Box<dyn Any + Send + Sync>);

/// Relies on the unsizing of `Box<T>` into `Box<dyn Any + Send + Sync>`.
#[verifier::external_body]
fn erase<T: Send + Sync + 'static>(value: T) -> Erased {
    let b: Box<T> = Box::new(value);
    Erased(b)
}

/// Relies on `<dyn Any>::downcast_ref`: `Some` exactly when the value is a `T`.
#[verifier::external_body]
fn downcast_ref<T: 'static>(e: &Erased) -> Option<&T> {
    e.0.downcast_ref::<T>()
}

/// Relies on `<dyn Any>::downcast_mut`: `Some` exactly when the value is a `T`.
#[verifier::external_body]
fn downcast_mut<T: 'static>(e: &mut Erased) -> Option<&mut T> {
    e.0.downcast_mut::<T>()
}

/// Relies on `Box::<dyn Any + Send + Sync>::downcast`, which hands the box
/// back untouched when the value is not a `T`.
#[verifier::external_body]
fn downcast<T: 'static>(e: Erased) -> (r: Result<Box<T>, Erased>)
    ensures
        r matches Err(back) ==> back == e,
{
    match e.0.downcast::<T>() {
        Ok(b) => Ok(b),
        Err(back) => Err(Erased(back)),
    }
}

/// A type-erased value; its type is recovered by a checked cast.
pub struct UntypedBox {
    inner: Erased,
}

impl UntypedBox {
    /// Wraps `value`.
    pub fn new<T: Send + Sync + 'static>(value: T) -> (r: Self) {
        UntypedBox { inner: erase(value) }
    }

    /// The value, if it was created from a `T`.
    pub fn get_ref<T: 'static>(&self) -> Option<&T> {
        downcast_ref::<T>(&self.inner)
    }

    /// Mutable access to the value, if it was created from a `T`.
    pub fn get_mut<T: 'static>(&mut self) -> Option<&mut T> {
        downcast_mut::<T>(&mut self.inner)
    }

    /// Unwraps the value if it was created from a `T`; otherwise hands the
    /// box back unchanged.
    pub fn consume<T: 'static>(self) -> (r: Result<Box<T>, UntypedBox>)
        ensures
            r matches Err(back) ==> back == self,
    {
        match downcast::<T>(self.inner) {
            Ok(b) => Ok(b),
            Err(inner) => Err(UntypedBox { inner }),
        }
    }
}

} // verus!
