//! Invoking the guest's exported entry points.
//!
//! The host drives the guest through two exports: `main`, called once with a
//! fixed empty argument pair before the loop starts, and `doom_loop_step`,
//! called once per loop iteration. Return values of both are ignored.

use vstd::prelude::*;
use crate::errors::HostError;

verus! {

/// The names under which an instance exposes function exports.
pub uninterp spec fn fn_exports(instance: wasmer::Instance) -> Set<Seq<char>>;

/// Relies on wasmer::Exports::get_function: it succeeds exactly when the
/// instance has an export of that name and it is a function; a missing or
/// non-function export is reported, here as a `Link` failure.
#[verifier::external_body]
pub(crate) fn get_export_function<'a>(instance: &'a wasmer::Instance, name: &str) -> (r: Result<
    &'a wasmer::Function,
    HostError,
>)
    ensures
        r is Ok <==> fn_exports(*instance).contains(name@),
        r matches Err(e) ==> e == HostError::Link,
{
    match instance.exports.get_function(name) {
        Ok(f) => Ok(f),
        Err(_e) => Err(HostError::Link),
    }
}

/// Relies on wasmer::Function::call: it invokes the guest function with the
/// given 32-bit integer arguments and blocks until the call ends; the
/// guest's return values are dropped. A guest fault comes back as the
/// runtime error. A function handed in with a store it does not belong to
/// would make the engine abort, so that pairing is tested first, via
/// wasmer::Function::is_from_store, and returned as an error instead.
#[verifier::external_body]
pub(crate) fn call_function(
    f: &wasmer::Function,
    store: &mut wasmer::Store,
    args: &Vec<i32>,
) -> (r: Result<(), wasmer::RuntimeError>) {
    if !f.is_from_store(store) {
        return Err(wasmer::RuntimeError::new("function does not belong to this store"));
    }
    let params: Vec<wasmer::Value> = args.iter().map(|a| wasmer::Value::I32(*a)).collect();
    f.call(store, &params).map(|_ignored| ())
}

/// Invoke the guest's `main` export once, with the fixed empty
/// argument-count/argument-vector pair `(0, 0)`. It fails with `Link`
/// exactly when the instance has no `main` function export — then no guest
/// code runs; a fault in the invoked guest code is a `GuestTrap`. Either is
/// fatal: the loop must not start after it.
pub fn invoke_main(instance: &wasmer::Instance, store: &mut wasmer::Store) -> (r: Result<
    (),
    HostError,
>)
    ensures
        (r matches Err(e) && e == HostError::Link) <==> !fn_exports(*instance).contains("main"@),
        r matches Err(e) ==> (e == HostError::Link || e == HostError::GuestTrap),
{
    let f = match get_export_function(instance, "main") {
        Ok(f) => f,
        Err(e) => {
            return Err(e);
        },
    };
    let args = vec![0i32, 0i32];
    match call_function(f, store, &args) {
        Ok(()) => Ok(()),
        Err(_e) => Err(HostError::GuestTrap),
    }
}

/// Invoke the guest's `doom_loop_step` export with no arguments: one
/// simulation step. It fails with `Link` exactly when the instance has no
/// `doom_loop_step` function export — then no guest code runs; a fault in
/// the invoked guest code is a `GuestTrap`, fatal by default for the loop.
pub fn invoke_step(instance: &wasmer::Instance, store: &mut wasmer::Store) -> (r: Result<
    (),
    HostError,
>)
    ensures
        (r matches Err(e) && e == HostError::Link) <==> !fn_exports(*instance).contains(
            "doom_loop_step"@,
        ),
        r matches Err(e) ==> (e == HostError::Link || e == HostError::GuestTrap),
{
    let f = match get_export_function(instance, "doom_loop_step") {
        Ok(f) => f,
        Err(e) => {
            return Err(e);
        },
    };
    let args: Vec<i32> = Vec::new();
    match call_function(f, store, &args) {
        Ok(()) => Ok(()),
        Err(_e) => Err(HostError::GuestTrap),
    }
}

} // verus!
