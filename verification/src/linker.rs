//! Loading and linking the guest module.
//!
//! The guest binary is compiled, the shared linear memory is allocated, and
//! every import the module declares is resolved against the table of host
//! bindings before instantiation. A module that asks for an import the table
//! does not hold is refused with a `Link` error and no instance is produced.

use vstd::prelude::*;
use crate::errors::HostError;
use crate::invoke::fn_exports;

verus! {

/// Page count of the shared linear memory the host allocates for the guest:
/// the minimum the guest binary declares on its imported memory.
pub const SHARED_MEMORY_PAGES: u32 = 102;

/// Size of one linear-memory page in bytes: 64 KiB.
pub const PAGE_SIZE_BYTES: u64 = 65536;

/// A (namespace, name) pair under which the guest looks an import up, at the
/// specification level.
pub ghost struct ImportId {
    pub namespace: Seq<char>,
    pub name: Seq<char>,
}

/// A (namespace, name) pair under which the guest looks an import up.
#[derive(Clone, Debug)]
pub struct ImportKey {
    pub namespace: String,
    pub name: String,
}

impl View for ImportKey {
    type V = ImportId;

    open spec fn view(&self) -> ImportId {
        ImportId { namespace: self.namespace@, name: self.name@ }
    }
}

impl DeepView for ImportKey {
    type V = ImportId;

    open spec fn deep_view(&self) -> ImportId {
        self@
    }
}

/// Whether the engine of `store` accepts `bytes` as a guest module.
/// Acceptance depends on the engine's enabled feature set, so the store is
/// part of the question.
pub uninterp spec fn wasm_valid(store: wasmer::Store, bytes: Seq<u8>) -> bool;

/// The imports a guest module given by `bytes` declares, in declaration
/// order. Parsing the import section does not depend on the engine.
pub uninterp spec fn wasm_imports(bytes: Seq<u8>) -> Seq<ImportId>;

/// The names of the function exports a guest module given by `bytes`
/// declares. Parsing the export section does not depend on the engine.
pub uninterp spec fn wasm_fn_exports(bytes: Seq<u8>) -> Set<Seq<char>>;

/// The imports a compiled module declares, in declaration order.
pub uninterp spec fn module_import_ids(m: wasmer::Module) -> Seq<ImportId>;

/// The names of a compiled module's function exports.
pub uninterp spec fn module_fn_exports(m: wasmer::Module) -> Set<Seq<char>>;

/// The (namespace, name) pairs under which the import table holds an extern.
pub uninterp spec fn imports_entries(imports: wasmer::Imports) -> Set<ImportId>;

/// The minimum page count a linear memory was created with.
pub uninterp spec fn mem_min_pages(m: wasmer::Memory) -> nat;

/// Whether every import the module declares resolves against the table in
/// this store: present under its (namespace, name) pair, of a compatible
/// type and signature, and belonging to this store.
pub uninterp spec fn link_ok(
    store: wasmer::Store,
    module: wasmer::Module,
    imports: wasmer::Imports,
) -> bool;

/// Relies on wasmer::Module::new: it validates and compiles the bytes,
/// succeeding exactly on what this store's engine, with its enabled feature
/// set, accepts; an accepted module's import and export lists are
/// determined by the bytes alone.
#[verifier::external_body]
pub(crate) fn compile_module(store: &wasmer::Store, bytes: &[u8]) -> (r: Result<
    wasmer::Module,
    wasmer::CompileError,
>)
    ensures
        r is Ok <==> wasm_valid(*store, bytes@),
        r matches Ok(m) ==> module_import_ids(m) == wasm_imports(bytes@),
        r matches Ok(m) ==> module_fn_exports(m) == wasm_fn_exports(bytes@),
{
    wasmer::Module::new(store, bytes)
}

/// Relies on wasmer::Module::imports: it yields one descriptor for each
/// import the module declares, in declaration order, with its namespace and
/// name.
#[verifier::external_body]
pub(crate) fn module_imports(m: &wasmer::Module) -> (r: Vec<ImportKey>)
    ensures
        r.deep_view() == module_import_ids(*m),
{
    m.imports().map(
        |imp| ImportKey { namespace: imp.module().to_string(), name: imp.name().to_string() },
    ).collect()
}

/// Relies on wasmer::Imports::new: the table starts empty.
#[verifier::external_body]
pub(crate) fn imports_new() -> (r: wasmer::Imports)
    ensures
        imports_entries(r) == Set::<ImportId>::empty(),
{
    wasmer::Imports::new()
}

/// Relies on wasmer::Imports::define: it registers the memory under the
/// (namespace, name) pair, replacing any previous entry.
#[verifier::external_body]
pub(crate) fn define_memory(
    imports: &mut wasmer::Imports,
    ns: &str,
    name: &str,
    memory: &wasmer::Memory,
)
    ensures
        imports_entries(*final(imports)) == imports_entries(*old(imports)).insert(
            (ImportId { namespace: ns@, name: name@ }),
        ),
{
    imports.define(ns, name, memory.clone());
}

/// Relies on wasmer::Imports::define: it registers the function under the
/// (namespace, name) pair, replacing any previous entry.
#[verifier::external_body]
pub(crate) fn define_function(
    imports: &mut wasmer::Imports,
    ns: &str,
    name: &str,
    f: wasmer::Function,
)
    ensures
        imports_entries(*final(imports)) == imports_entries(*old(imports)).insert(
            (ImportId { namespace: ns@, name: name@ }),
        ),
{
    imports.define(ns, name, f);
}

/// Relies on wasmer::Imports::exists: true exactly when the table holds an
/// extern under the (namespace, name) pair.
#[verifier::external_body]
pub(crate) fn imports_contain(imports: &wasmer::Imports, ns: &str, name: &str) -> (r: bool)
    ensures
        r == imports_entries(*imports).contains((ImportId { namespace: ns@, name: name@ })),
{
    imports.exists(ns, name)
}

/// Relies on wasmer::Memory::new: it allocates a fresh linear memory in the
/// store whose type carries exactly the requested minimum page count, or
/// reports why it cannot.
#[verifier::external_body]
pub(crate) fn memory_new(store: &mut wasmer::Store, min_pages: u32) -> (r: Result<
    wasmer::Memory,
    wasmer::MemoryError,
>)
    ensures
        r matches Ok(m) ==> mem_min_pages(m) == min_pages as nat,
{
    wasmer::Memory::new(store, wasmer::MemoryType::new(min_pages, None, false))
}

/// Relies on wasmer::Instance::new: it resolves every import the module
/// declares against the table before any guest code runs. An import that is
/// missing, of an incompatible type or signature, or from another store
/// always fails the link; only a trap in the guest's start section is a
/// `GuestTrap`. On success the instance exposes exactly the module's
/// function exports.
#[verifier::external_body]
pub(crate) fn instantiate(
    store: &mut wasmer::Store,
    module: &wasmer::Module,
    imports: &wasmer::Imports,
) -> (r: Result<wasmer::Instance, HostError>)
    ensures
        r is Ok ==> link_ok(*old(store), *module, *imports),
        !link_ok(*old(store), *module, *imports) ==> (r matches Err(e) && e == HostError::Link),
        r matches Err(e) ==> (e == HostError::Link || e == HostError::GuestTrap),
        r matches Ok(inst) ==> fn_exports(inst) == module_fn_exports(*module),
{
    match wasmer::Instance::new(store, module, imports) {
        Ok(instance) => Ok(instance),
        Err(wasmer::InstantiationError::Start(_e)) => Err(HostError::GuestTrap),
        Err(_e) => Err(HostError::Link),
    }
}

/// The imports the guest module declares and the host must satisfy: the
/// shared linear memory and the five host functions.
pub open spec fn required_import_ids() -> Set<ImportId> {
    set![
        ImportId { namespace: "env"@, name: "memory"@ },
        ImportId { namespace: "js"@, name: "js_console_log"@ },
        ImportId { namespace: "js"@, name: "js_stdout"@ },
        ImportId { namespace: "js"@, name: "js_stderr"@ },
        ImportId { namespace: "js"@, name: "js_milliseconds_since_start"@ },
        ImportId { namespace: "js"@, name: "js_draw_screen"@ },
    ]
}

/// The success direction of import resolution: a guest that declares only
/// required imports resolves completely against a table that holds exactly
/// the required set, so linking it can fail only past name resolution — on a
/// mismatched signature or in the guest's own start code.
pub proof fn lemma_required_imports_resolve(entries: Set<ImportId>, declared: Seq<ImportId>)
    requires
        entries == required_import_ids(),
        forall|i: int|
            0 <= i < declared.len() ==> required_import_ids().contains(#[trigger] declared[i]),
    ensures
        forall|i: int| 0 <= i < declared.len() ==> entries.contains(#[trigger] declared[i]),
{
}

/// The five host functions the guest expects, already wrapped as engine
/// callables. Immutable after construction.
pub struct HostBindings {
    pub console_log: wasmer::Function,
    pub stdout_write: wasmer::Function,
    pub stderr_write: wasmer::Function,
    pub elapsed_milliseconds: wasmer::Function,
    pub present_frame: wasmer::Function,
}

/// Allocate the shared linear memory: a success carries the fixed minimum
/// page count the guest declares on its imported memory. A failure to
/// allocate is a link-phase failure.
pub fn allocate_shared_memory(store: &mut wasmer::Store) -> (r: Result<wasmer::Memory, HostError>)
    ensures
        r matches Ok(m) ==> mem_min_pages(m) == SHARED_MEMORY_PAGES as nat,
        r matches Err(e) ==> e == HostError::Link,
{
    match memory_new(store, SHARED_MEMORY_PAGES) {
        Ok(m) => Ok(m),
        Err(_e) => Err(HostError::Link),
    }
}

/// Build the import table the guest is linked against: the shared memory
/// under `env.memory` and the five host functions under their `js` names —
/// exactly the required import set, nothing else.
pub fn build_import_table(memory: &wasmer::Memory, host: HostBindings) -> (r: wasmer::Imports)
    ensures
        imports_entries(r) == required_import_ids(),
{
    let mut table = imports_new();
    define_memory(&mut table, "env", "memory", memory);
    define_function(&mut table, "js", "js_console_log", host.console_log);
    define_function(&mut table, "js", "js_stdout", host.stdout_write);
    define_function(&mut table, "js", "js_stderr", host.stderr_write);
    define_function(&mut table, "js", "js_milliseconds_since_start", host.elapsed_milliseconds);
    define_function(&mut table, "js", "js_draw_screen", host.present_frame);
    proof {
        assert(imports_entries(table) =~= required_import_ids());
    }
    table
}

/// Resolve every declared import against the table: succeeds exactly when
/// each (namespace, name) pair is present; the first absent one is a `Link`
/// failure.
pub fn check_imports(declared: &Vec<ImportKey>, imports: &wasmer::Imports) -> (r: Result<
    (),
    HostError,
>)
    ensures
        r is Ok <==> (forall|i: int|
            0 <= i < declared@.len() ==> imports_entries(*imports).contains(declared@[i]@)),
        r matches Err(e) ==> e == HostError::Link,
{
    let mut i: usize = 0;
    while i < declared.len()
        invariant
            i <= declared@.len(),
            forall|j: int| 0 <= j < i ==> imports_entries(*imports).contains(declared@[j]@),
        decreases declared@.len() - i,
    {
        let key = &declared[i];
        if !imports_contain(imports, key.namespace.as_str(), key.name.as_str()) {
            return Err(HostError::Link);
        }
        i = i + 1;
    }
    Ok(())
}

/// Compile the guest binary and link it against the import table.
///
/// Fails with `Compile` exactly when this store's engine rejects the bytes.
/// When the binary is accepted but declares an import the table does not
/// hold, it fails with `Link` and produces no instance. On success every
/// declared import was resolved against the table, and the instance exposes
/// exactly the function exports the binary declares — so the entry points a
/// well-formed guest exports are invocable on it. A mismatched signature or
/// a trap in the start section is reported as the engine finds it.
pub fn load_and_link(
    store: &mut wasmer::Store,
    binary: &[u8],
    imports: &wasmer::Imports,
) -> (r: Result<wasmer::Instance, HostError>)
    ensures
        (r matches Err(e) && e == HostError::Compile) <==> !wasm_valid(*old(store), binary@),
        r is Ok ==> (forall|i: int|
            0 <= i < wasm_imports(binary@).len() ==> imports_entries(*imports).contains(
                wasm_imports(binary@)[i],
            )),
        (wasm_valid(*old(store), binary@) && (exists|i: int|
            0 <= i < wasm_imports(binary@).len() && !imports_entries(*imports).contains(
                wasm_imports(binary@)[i],
            ))) ==> (r matches Err(e) && e == HostError::Link),
        r matches Ok(inst) ==> fn_exports(inst) == wasm_fn_exports(binary@),
        r matches Err(e) ==> (e == HostError::Compile || e == HostError::Link || e
            == HostError::GuestTrap),
{
    let module = match compile_module(store, binary) {
        Ok(m) => m,
        Err(_e) => {
            return Err(HostError::Compile);
        },
    };
    let declared = module_imports(&module);
    match check_imports(&declared, imports) {
        Ok(()) => {},
        Err(e) => {
            return Err(e);
        },
    }
    instantiate(store, &module, imports)
}

} // verus!
