use vstd::prelude::*;

use crate::abi::HostFunction;
use crate::abi::bytes_eq;
use crate::abi::host_function_for_name;
use crate::abi::host_namespace;
use crate::abi::host_namespace_bytes;
use crate::abi::role_of_name;
use crate::errors::ProviderError;
use crate::errors::is_configuration_error;

verus! {

// The engine hands the binder the module's declared imports in its own
// enumeration order, and the instantiation API consumes host bindings
// positionally. The binder therefore maps over the declarations in the
// order given, resolving each function import by name against the fixed
// bridging function set; it never assumes or imposes an order of its own.

/// What kind of item a single module import declares.
#[derive(Clone, Copy, Debug, PartialEq, Eq, Structural)]
pub enum ImportKind {
    /// A function import, which the binder must resolve.
    Function,
    /// Any non-function import (global, memory, table); skipped.
    Other,
}

/// One declared module import: its namespace, its name, and its kind.
#[derive(Debug)]
pub struct ImportDecl {
    pub namespace: Vec<u8>,
    pub name: Vec<u8>,
    pub kind: ImportKind,
}

/// A declaration the host can satisfy: either it is not a function
/// import, or it names a known bridging function under the recognized
/// host namespace.
pub open spec fn decl_ok(d: ImportDecl) -> bool {
    d.kind is Function ==> {
        &&& d.namespace@ == host_namespace()
        &&& role_of_name(d.name@) is Some
    }
}

/// Every declared import can be satisfied.
pub open spec fn all_imports_ok(decls: Seq<ImportDecl>) -> bool {
    forall|i: int| 0 <= i < decls.len() ==> decl_ok(decls[i])
}

/// The host bindings for a declaration list, positionally: one binding
/// per resolvable function import, in declaration order; non-function
/// imports contribute nothing.
pub open spec fn bindings_of(decls: Seq<ImportDecl>) -> Seq<HostFunction>
    decreases decls.len(),
{
    if decls.len() == 0 {
        Seq::empty()
    } else {
        let d = decls.last();
        bindings_of(decls.drop_last()) + (if d.kind is Function && role_of_name(d.name@) is Some {
            seq![role_of_name(d.name@)->0]
        } else {
            Seq::empty()
        })
    }
}

/// How many function imports a declaration list holds.
pub open spec fn function_import_count(decls: Seq<ImportDecl>) -> nat
    decreases decls.len(),
{
    if decls.len() == 0 {
        0
    } else {
        function_import_count(decls.drop_last()) + (if decls.last().kind is Function {
            1nat
        } else {
            0nat
        })
    }
}

/// The configuration error owed for an unsatisfiable declaration: a
/// foreign namespace is reported as such, carrying that namespace; a
/// host-namespace import with an unknown name is reported carrying that
/// name.
pub open spec fn import_error_for(d: ImportDecl, e: ProviderError) -> bool {
    if d.namespace@ != host_namespace() {
        e matches ProviderError::UnrecognizedImportNamespace(ns) && ns@ == d.namespace@
    } else {
        e matches ProviderError::UnknownHostImport(n) && n@ == d.name@
    }
}

/// When every function import is satisfiable, the binding list is exactly
/// one binding per function import.
pub proof fn lemma_bindings_cover_function_imports(decls: Seq<ImportDecl>)
    requires
        all_imports_ok(decls),
    ensures
        bindings_of(decls).len() == function_import_count(decls),
    decreases decls.len(),
{
    if decls.len() > 0 {
        assert forall|i: int| 0 <= i < decls.drop_last().len() implies decl_ok(
            decls.drop_last()[i],
        ) by {
            assert(decls.drop_last()[i] == decls[i]);
        }
        lemma_bindings_cover_function_imports(decls.drop_last());
        assert(decl_ok(decls.last()));
    }
}

/// A function import under a foreign namespace makes the whole list
/// unsatisfiable, whatever else it declares.
pub proof fn lemma_foreign_namespace_rejected(decls: Seq<ImportDecl>, i: int)
    requires
        0 <= i < decls.len(),
        decls[i].kind is Function,
        decls[i].namespace@ != host_namespace(),
    ensures
        !all_imports_ok(decls),
{
    assert(!decl_ok(decls[i]));
}

/// Resolve a module's declared imports, in the order the engine reported
/// them, to the ordered list of host bindings used for instantiation.
///
/// Succeeds exactly when every function import names a known bridging
/// function under the recognized host namespace; the first import that
/// does not is reported as a configuration error.
pub fn arrange_imports(decls: &Vec<ImportDecl>) -> (r: Result<Vec<HostFunction>, ProviderError>)
    ensures
        r is Ok <==> all_imports_ok(decls@),
        r is Ok ==> r->Ok_0@ == bindings_of(decls@),
        r is Err ==> is_configuration_error(r->Err_0),
        r is Err ==> exists|i: int|
            0 <= i < decls@.len() && !decl_ok(decls@[i]) && (forall|j: int|
                0 <= j < i ==> decl_ok(decls@[j])) && import_error_for(decls@[i], r->Err_0),
{
    let mut out: Vec<HostFunction> = Vec::new();
    let ns = host_namespace_bytes();
    let mut i: usize = 0;
    while i < decls.len()
        invariant
            0 <= i <= decls@.len(),
            ns@ == host_namespace(),
            forall|j: int| 0 <= j < i ==> decl_ok(decls@[j]),
            out@ == bindings_of(decls@.take(i as int)),
        decreases decls@.len() - i,
    {
        let d = &decls[i];
        match d.kind {
            ImportKind::Function => {
                if !bytes_eq(&d.namespace, &ns) {
                    let bad = d.namespace.clone();
                    proof {
                        assert(!decl_ok(decls@[i as int]));
                    }
                    return Err(ProviderError::UnrecognizedImportNamespace(bad));
                }
                match host_function_for_name(&d.name) {
                    Some(role) => {
                        out.push(role);
                    },
                    None => {
                        let bad = d.name.clone();
                        proof {
                            assert(!decl_ok(decls@[i as int]));
                        }
                        return Err(ProviderError::UnknownHostImport(bad));
                    },
                }
            },
            ImportKind::Other => {},
        }
        proof {
            assert(decls@.take(i as int + 1).drop_last() =~= decls@.take(i as int));
            assert(decls@.take(i as int + 1).last() == decls@[i as int]);
        }
        i = i + 1;
    }
    proof {
        assert(decls@.take(decls@.len() as int) =~= decls@);
    }
    Ok(out)
}

} // verus!
