use vstd::prelude::*;

use std::sync::Arc;

use crate::abi::HostFunction;
use crate::binder::ImportDecl;
use crate::binder::ImportKind;
use crate::binder::all_imports_ok;
use crate::binder::arrange_imports;
use crate::binder::bindings_of;
use crate::binder::decl_ok;
use crate::binder::import_error_for;
use crate::binder::function_import_count;
use crate::binder::lemma_bindings_cover_function_imports;
use crate::driver::Starter;
use crate::driver::select_starters;
use crate::driver::spec_starters;
use crate::errors::ProviderError;
use crate::errors::is_configuration_error;

verus! {

#[verifier::external_type_specification]
#[verifier::external_body]
pub struct ExEngine(wasmtime::Engine);

#[verifier::external_type_specification]
#[verifier::external_body]
pub struct ExModule(wasmtime::Module);

#[verifier::external_type_specification]
#[verifier::external_body]
pub struct ExModuleState(wapc::ModuleState);

/// Whether the engine, under its default configuration, accepts the
/// given bytes as a compilable module.
pub uninterp spec fn module_accepted(bytes: Seq<u8>) -> bool;

/// The bytes a compiled artifact was produced from. Compilation is
/// deterministic for a fixed engine configuration, so an artifact's
/// source pins everything the library reads of it.
pub uninterp spec fn module_source(m: wasmtime::Module) -> Seq<u8>;

/// The import declarations — namespace, name, kind — of the module
/// compiled from the given bytes, in the engine's enumeration order.
pub uninterp spec fn imports_of_source(bytes: Seq<u8>) -> Seq<ImportDecl>;

/// The export names of the module compiled from the given bytes, in the
/// engine's enumeration order.
pub uninterp spec fn exports_of_source(bytes: Seq<u8>) -> Seq<Vec<u8>>;

/// Relies on wasmtime::Engine::default and wasmtime::Module::new: builds
/// an engine with the default configuration and compiles the bytes under
/// it, succeeding exactly on buffers that configuration accepts as a
/// module; the artifact handed back is the compilation of exactly these
/// bytes. On failure it hands back the engine's message.
#[verifier::external_body]
fn compile_with_default_engine(buf: &[u8]) -> (r: Result<(wasmtime::Engine, wasmtime::Module), String>)
    ensures
        r is Ok <==> module_accepted(buf@),
        r is Ok ==> module_source(r->Ok_0.1) == buf@,
{
    let engine = wasmtime::Engine::default();
    match wasmtime::Module::new(&engine, buf) {
        Ok(module) => Ok((engine, module)),
        Err(e) => Err(format!("{e}")),
    }
}

/// Relies on wasmtime::Module::clone: a cheap handle clone denoting the
/// same compiled artifact.
pub assume_specification[ <wasmtime::Module as Clone>::clone ](m: &wasmtime::Module) -> (r:
    wasmtime::Module)
    ensures
        r == *m,
;

/// Relies on wasmtime::Engine::clone: a cheap handle clone denoting the
/// same engine.
pub assume_specification[ <wasmtime::Engine as Clone>::clone ](e: &wasmtime::Engine) -> (r:
    wasmtime::Engine)
    ensures
        r == *e,
;

/// Relies on wasmtime::Module::imports: reports the module's declared
/// imports — namespace, name and kind — in the engine's own enumeration
/// order; what a module declares is fixed by the bytes it was compiled
/// from.
#[verifier::external_body]
fn module_import_decls(module: &wasmtime::Module) -> (r: Vec<ImportDecl>)
    ensures
        r@ == imports_of_source(module_source(*module)),
{
    module
        .imports()
        .map(|imp| ImportDecl {
            namespace: imp.module().as_bytes().to_vec(),
            name: imp.name().as_bytes().to_vec(),
            kind: match imp.ty() {
                wasmtime::ExternType::Func(_) => ImportKind::Function,
                wasmtime::ExternType::Global(_) => ImportKind::Other,
                wasmtime::ExternType::Table(_) => ImportKind::Other,
                wasmtime::ExternType::Memory(_) => ImportKind::Other,
                wasmtime::ExternType::Tag(_) => ImportKind::Other,
            },
        })
        .collect()
}

/// Relies on wasmtime::Module::exports: reports the module's export
/// names in the engine's own enumeration order; what a module exports is
/// fixed by the bytes it was compiled from.
#[verifier::external_body]
fn module_export_names(module: &wasmtime::Module) -> (r: Vec<Vec<u8>>)
    ensures
        r@ == exports_of_source(module_source(*module)),
{
    module.exports().map(|e| e.name().as_bytes().to_vec()).collect()
}

/// A waPC engine provider that encapsulates the Wasmtime WebAssembly
/// runtime.
///
/// It holds the engine, the compiled module backing the next
/// instantiation, and — once bound — the host handle. The handle, once
/// set, is never cleared or replaced; only the module may change, through
/// `replace`.
#[derive(Clone)]
pub struct WasmtimeEngineProvider {
    engine: wasmtime::Engine,
    module: wasmtime::Module,
    host: Option<Arc<wapc::ModuleState>>,
}

/// Everything the engine needs from this provider to instantiate and
/// bootstrap one fresh instance: the declared imports in engine order,
/// the export names, the host bindings resolved positionally for those
/// imports, and the initializer schedule.
pub struct InstantiationPlan {
    pub imports: Vec<ImportDecl>,
    pub exports: Vec<Vec<u8>>,
    pub bindings: Vec<HostFunction>,
    pub starters: Vec<Starter>,
}

/// A plan is sound when its bindings are exactly the resolution of its
/// imports, in order, and its initializer schedule is exactly what its
/// exports call for.
pub open spec fn plan_consistent(p: InstantiationPlan) -> bool {
    &&& all_imports_ok(p.imports@)
    &&& p.bindings@ == bindings_of(p.imports@)
    &&& p.starters@ == spec_starters(p.exports@)
}

impl WasmtimeEngineProvider {
    /// The host handle, once bound.
    pub closed spec fn spec_host(&self) -> Option<Arc<wapc::ModuleState>> {
        self.host
    }

    /// The compiled module backing the next instantiation.
    pub closed spec fn spec_module(&self) -> wasmtime::Module {
        self.module
    }

    /// The engine the current module is bound to.
    pub closed spec fn spec_engine(&self) -> wasmtime::Engine {
        self.engine
    }

    /// The bytes the current module was compiled from.
    pub open spec fn spec_source(&self) -> Seq<u8> {
        module_source(self.spec_module())
    }

    /// Initialized means the host handle has been bound.
    pub open spec fn spec_initialized(&self) -> bool {
        self.spec_host() is Some
    }

    /// Compile a provider from raw module bytes. Succeeds exactly when
    /// the engine accepts the bytes; on success the held artifact is the
    /// compilation of exactly these bytes, and the provider starts
    /// uninitialized.
    pub fn new(buf: &[u8]) -> (r: Result<WasmtimeEngineProvider, ProviderError>)
        ensures
            r is Ok <==> module_accepted(buf@),
            r is Ok ==> !r->Ok_0.spec_initialized() && r->Ok_0.spec_source() == buf@,
            r is Err ==> r->Err_0 is ModuleCompilation,
    {
        match compile_with_default_engine(buf) {
            Ok((engine, module)) => Ok(WasmtimeEngineProvider { engine, module, host: None }),
            Err(msg) => Err(ProviderError::ModuleCompilation(msg)),
        }
    }

    /// Bind the host handle. Always succeeds; the module is untouched.
    pub fn init(&mut self, host: Arc<wapc::ModuleState>) -> (r: Result<(), ProviderError>)
        ensures
            r is Ok,
            final(self).spec_host() == Some(host),
            final(self).spec_module() == old(self).spec_module(),
            final(self).spec_engine() == old(self).spec_engine(),
            final(self).spec_source() == old(self).spec_source(),
    {
        self.host = Some(host);
        Ok(())
    }

    /// Whether the host handle has been bound.
    pub fn initialized(&self) -> (r: bool)
        ensures
            r == self.spec_initialized(),
    {
        self.host.is_some()
    }

    /// Hot swap: compile the new buffer and let it back every future
    /// instantiation — on success the stored artifact is the compilation
    /// of exactly the new bytes. The host binding is preserved untouched
    /// either way, and a rejected buffer leaves the current module in
    /// place. The precondition policy for swapping before initialization
    /// is that it is a contract violation, ruled out statically here.
    pub fn replace(&mut self, buf: &[u8]) -> (r: Result<(), ProviderError>)
        requires
            old(self).spec_initialized(),
        ensures
            r is Ok <==> module_accepted(buf@),
            final(self).spec_host() == old(self).spec_host(),
            final(self).spec_initialized(),
            r is Ok ==> final(self).spec_source() == buf@,
            r is Err ==> r->Err_0 is ModuleCompilation && final(self).spec_module() == old(
                self,
            ).spec_module() && final(self).spec_source() == old(self).spec_source(),
    {
        match compile_with_default_engine(buf) {
            Ok((engine, module)) => {
                self.engine = engine;
                self.module = module;
                Ok(())
            },
            Err(msg) => Err(ProviderError::ModuleCompilation(msg)),
        }
    }

    /// Enumerate the current module's imports and exports and resolve
    /// them into an instantiation plan. Succeeds exactly when every
    /// function import of the stored module is satisfiable; the plan then
    /// covers that module's imports and exports, and a failure is the
    /// configuration error owed for the first unsatisfiable import.
    pub fn instantiation_plan(&self) -> (r: Result<InstantiationPlan, ProviderError>)
        ensures
            r is Ok <==> all_imports_ok(imports_of_source(self.spec_source())),
            r is Ok ==> plan_consistent(r->Ok_0),
            r is Ok ==> r->Ok_0.imports@ == imports_of_source(self.spec_source()),
            r is Ok ==> r->Ok_0.exports@ == exports_of_source(self.spec_source()),
            r is Ok ==> r->Ok_0.bindings@.len() == function_import_count(r->Ok_0.imports@),
            r is Err ==> is_configuration_error(r->Err_0),
            r is Err ==> ({
                let decls = imports_of_source(self.spec_source());
                exists|i: int|
                    0 <= i < decls.len() && !decl_ok(decls[i]) && (forall|j: int|
                        0 <= j < i ==> decl_ok(decls[j])) && import_error_for(decls[i], r->Err_0)
            }),
    {
        let imports = module_import_decls(&self.module);
        let exports = module_export_names(&self.module);
        match arrange_imports(&imports) {
            Ok(bindings) => {
                proof {
                    lemma_bindings_cover_function_imports(imports@);
                }
                let starters = select_starters(&exports);
                Ok(InstantiationPlan { imports, exports, bindings, starters })
            },
            Err(e) => {
                proof {
                    let decls = imports_of_source(self.spec_source());
                    assert(decls == imports@);
                    let i = choose|i: int|
                        0 <= i < imports@.len() && !decl_ok(imports@[i]) && (forall|j: int|
                            0 <= j < i ==> decl_ok(imports@[j])) && import_error_for(
                            imports@[i],
                            e,
                        );
                    assert(0 <= i < decls.len() && !decl_ok(decls[i]) && (forall|j: int|
                        0 <= j < i ==> decl_ok(decls[j])) && import_error_for(decls[i], e));
                }
                Err(e)
            },
        }
    }

    /// The compiled module, for the engine glue that instantiates it.
    pub fn module(&self) -> (r: &wasmtime::Module)
        ensures
            *r == self.spec_module(),
    {
        &self.module
    }

    /// The engine the module is bound to.
    pub fn engine(&self) -> (r: &wasmtime::Engine)
        ensures
            *r == self.spec_engine(),
    {
        &self.engine
    }

    /// The bound host handle, if any.
    pub fn host(&self) -> (r: Option<&Arc<wapc::ModuleState>>)
        ensures
            r is Some <==> self.spec_initialized(),
            r is Some ==> Some(*r->0) == self.spec_host(),
    {
        self.host.as_ref()
    }
}

} // verus!
