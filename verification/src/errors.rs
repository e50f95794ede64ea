use vstd::prelude::*;

verus! {

/// The typed failures this library surfaces to its caller.
///
/// - `ModuleCompilation`: the engine rejected a byte buffer handed to
///   construction or to a hot swap; carries the engine's message.
/// - `UnrecognizedImportNamespace`: the guest declared a function import
///   under a namespace other than the recognized host namespace; carries
///   that namespace's bytes.
/// - `UnknownHostImport`: the guest declared a host-namespace function
///   import whose name matches no bridging function; carries that name.
/// - `MissingEntryPoint`: the guest lacks the single required entry-point
///   export, so no call can be driven into it.
#[derive(Debug)]
pub enum ProviderError {
    ModuleCompilation(String),
    UnrecognizedImportNamespace(Vec<u8>),
    UnknownHostImport(Vec<u8>),
    MissingEntryPoint,
}

/// True when the error is one of the two fatal configuration errors the
/// import binder can report.
pub open spec fn is_configuration_error(e: ProviderError) -> bool {
    e is UnrecognizedImportNamespace || e is UnknownHostImport
}

} // verus!
