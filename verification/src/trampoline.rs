//! The four fixed trampoline shapes.
//!
//! Every plugin-defined operation reaches the native object through one of
//! four host-callable shapes: construct, destruct, per-sample tick, and
//! method call. Each body is exactly the slot discipline around the
//! operation itself: construct allocates and stores; destruct takes and
//! lets the object be destroyed; tick and method calls take, run the
//! operation, hand the result to the host, and release the object back.
//! The operation is passed in as a closure, so one verified function per
//! shape serves every class; what the closure computes is the plugin's own
//! business and is reflected here only through its contract.

use vstd::prelude::*;

use crate::args::ArgCursor;
use crate::args::ArgValue;
use crate::slot::Instance;
use crate::slot::spec_after_take;
use crate::slot::spec_store;
use crate::slot::spec_taken;
use crate::version::CK_TRUE;

verus! {

/// A host audio sample, carried by its bit pattern.
#[derive(Clone, Copy, Debug, PartialEq, Eq, Structural)]
pub struct CkSample {
    pub bits: u32,
}

/// The construct shape: make the native object and store it in the
/// instance's data slot. The slot must be empty — the host calls this
/// exactly once per instance, before any other callback.
pub fn ctor_trampoline<T, F: FnOnce() -> T>(instance: &mut Instance<T>, offset: usize, make: F)
    requires
        offset < old(instance)@.len(),
        old(instance)@[offset as int] is None,
        call_requires(make, ()),
    ensures
        exists|obj: T|
            #[trigger] call_ensures(make, (), obj) && final(instance)@ == spec_store(
                old(instance)@,
                offset as int,
                obj,
            ),
{
    let obj = make();
    instance.set_object_data(offset, obj);
}

/// The destruct shape: take the native object out and let it be destroyed.
/// The slot is empty afterwards and must not be read again.
pub fn dtor_trampoline<T>(instance: &mut Instance<T>, offset: usize)
    requires
        offset < old(instance)@.len(),
        old(instance)@[offset as int] is Some,
    ensures
        final(instance)@ == spec_after_take(old(instance)@, offset as int),
{
    let _obj = instance.get_object_data(offset);
}

/// The tick shape: take the native object, run the per-sample function on
/// the input sample, release the updated object back, and report the output
/// sample with the host's success code.
pub fn tick_trampoline<T, F: FnOnce(T, CkSample) -> (T, CkSample)>(
    instance: &mut Instance<T>,
    offset: usize,
    input: CkSample,
    tick: F,
) -> (r: (CkSample, u64))
    requires
        offset < old(instance)@.len(),
        old(instance)@[offset as int] is Some,
        call_requires(tick, (spec_taken(old(instance)@, offset as int), input)),
    ensures
        r.1 == CK_TRUE,
        exists|res: (T, CkSample)|
            #[trigger] call_ensures(tick, (spec_taken(old(instance)@, offset as int), input), res)
                && final(instance)@ == spec_store(
                spec_after_take(old(instance)@, offset as int),
                offset as int,
                res.0,
            ) && r.0 == res.1,
{
    let obj = instance.get_object_data(offset);
    let (obj2, out) = tick(obj, input);
    instance.release_back(obj2, offset);
    (out, CK_TRUE)
}

/// The method-call shape: take the native object, run the method on the
/// call's argument cursor, write the result into the host-provided return
/// location, and release the updated object back.
pub fn mfun_trampoline<T, F: FnOnce(T, ArgCursor) -> (T, ArgValue)>(
    instance: &mut Instance<T>,
    offset: usize,
    args: ArgCursor,
    return_slot: &mut ArgValue,
    mfun: F,
)
    requires
        offset < old(instance)@.len(),
        old(instance)@[offset as int] is Some,
        call_requires(mfun, (spec_taken(old(instance)@, offset as int), args)),
    ensures
        exists|res: (T, ArgValue)|
            #[trigger] call_ensures(mfun, (spec_taken(old(instance)@, offset as int), args), res)
                && final(instance)@ == spec_store(
                spec_after_take(old(instance)@, offset as int),
                offset as int,
                res.0,
            ) && *final(return_slot) == res.1,
{
    let obj = instance.get_object_data(offset);
    let (obj2, ret) = mfun(obj, args);
    *return_slot = ret;
    instance.release_back(obj2, offset);
}

} // verus!
