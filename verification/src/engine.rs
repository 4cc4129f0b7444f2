//! Declarations of the embedding engine's types.
//!
//! The engine compiles the guest binary, owns the store every entity lives
//! in, and performs raw linear-memory access. Its values are opaque here;
//! everything the host logic relies on about them is stated on the trusted
//! items in the modules that call into the engine.

use vstd::prelude::*;

verus! {

#[verifier::external_type_specification]
#[verifier::external_body]
pub struct ExStore(wasmer::Store);

#[verifier::external_type_specification]
#[verifier::external_body]
pub struct ExModule(wasmer::Module);

#[verifier::external_type_specification]
#[verifier::external_body]
pub struct ExMemory(wasmer::Memory);

#[verifier::external_type_specification]
#[verifier::external_body]
pub struct ExMemoryView<'a>(wasmer::MemoryView<'a>);

#[verifier::external_type_specification]
#[verifier::external_body]
pub struct ExImports(wasmer::Imports);

#[verifier::external_type_specification]
#[verifier::external_body]
pub struct ExFunction(wasmer::Function);

#[verifier::external_type_specification]
#[verifier::external_body]
pub struct ExInstance(wasmer::Instance);

#[verifier::external_type_specification]
#[verifier::external_body]
pub struct ExCompileError(wasmer::CompileError);

#[verifier::external_type_specification]
#[verifier::external_body]
pub struct ExMemoryError(wasmer::MemoryError);

#[verifier::external_type_specification]
#[verifier::external_body]
pub struct ExRuntimeError(wasmer::RuntimeError);

#[verifier::external_type_specification]
#[verifier::external_body]
pub struct ExMemoryAccessError(wasmer::MemoryAccessError);

} // verus!
