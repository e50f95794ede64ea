use vstd::prelude::*;

use crate::abi::bytes_eq;
use crate::abi::guest_call_bytes;
use crate::abi::guest_call_name;
use crate::abi::tinygo_start_bytes;
use crate::abi::tinygo_start_name;
use crate::abi::wapc_init_bytes;
use crate::abi::wapc_init_name;
use crate::errors::ProviderError;

verus! {

// A fresh instance is created for every call. Right after instantiation
// the recognized initializer exports that the module offers are invoked,
// in a fixed order; only then may the entry point be located and driven.
// The decisions below say which initializers run, whether the entry point
// exists, and what result a finished or trapped invocation settles to.

/// A recognized initializer export. The variants are listed in the fixed
/// order in which present initializers must be invoked.
#[derive(Clone, Copy, Debug, PartialEq, Eq, Structural)]
pub enum Starter {
    /// The `_start` export.
    TinygoStart,
    /// The `wapc_init` export.
    WapcInit,
}

/// Whether an export-name list holds the given name.
pub open spec fn contains_name(exports: Seq<Vec<u8>>, name: Seq<u8>) -> bool {
    exists|i: int| 0 <= i < exports.len() && exports[i]@ == name
}

/// The initializers to invoke for a module with the given exports: each
/// recognized initializer the module offers, in the fixed order.
pub open spec fn spec_starters(exports: Seq<Vec<u8>>) -> Seq<Starter> {
    (if contains_name(exports, tinygo_start_name()) {
        seq![Starter::TinygoStart]
    } else {
        Seq::empty()
    }) + (if contains_name(exports, wapc_init_name()) {
        seq![Starter::WapcInit]
    } else {
        Seq::empty()
    })
}

/// Whether the module exports the given name.
pub fn exports_contain(exports: &Vec<Vec<u8>>, name: &Vec<u8>) -> (r: bool)
    ensures
        r == contains_name(exports@, name@),
{
    let mut i: usize = 0;
    while i < exports.len()
        invariant
            0 <= i <= exports@.len(),
            forall|j: int| 0 <= j < i ==> exports@[j]@ != name@,
        decreases exports@.len() - i,
    {
        if bytes_eq(&exports[i], name) {
            return true;
        }
        i = i + 1;
    }
    false
}

/// The bootstrap schedule: which initializer exports to invoke, in the
/// fixed order. A module offering none is valid; the schedule is then
/// empty.
pub fn select_starters(exports: &Vec<Vec<u8>>) -> (r: Vec<Starter>)
    ensures
        r@ == spec_starters(exports@),
{
    let mut out: Vec<Starter> = Vec::new();
    if exports_contain(exports, &tinygo_start_bytes()) {
        out.push(Starter::TinygoStart);
    }
    if exports_contain(exports, &wapc_init_bytes()) {
        out.push(Starter::WapcInit);
    }
    proof {
        assert(out@ =~= spec_starters(exports@));
    }
    out
}

/// No initializer is ever scheduled twice for one instantiation, and
/// `_start` always precedes `wapc_init`.
pub proof fn lemma_starters_once_and_ordered(exports: Seq<Vec<u8>>)
    ensures
        forall|i: int, j: int|
            0 <= i < j < spec_starters(exports).len() ==> spec_starters(exports)[i]
                == Starter::TinygoStart && spec_starters(exports)[j] == Starter::WapcInit,
{
}

/// Locate the guest's single required entry-point export by its fixed
/// name; a module lacking it is malformed and owed `MissingEntryPoint`,
/// never a sentinel result.
pub fn locate_entry_point(exports: &Vec<Vec<u8>>) -> (r: Result<(), ProviderError>)
    ensures
        r is Ok <==> contains_name(exports@, guest_call_name()),
        r is Err ==> r->Err_0 is MissingEntryPoint,
{
    if exports_contain(exports, &guest_call_bytes()) {
        Ok(())
    } else {
        Err(ProviderError::MissingEntryPoint)
    }
}

/// How one engine-level invocation of the entry point ended: with a
/// result value, or with an engine trap or equivalent guest fault.
#[derive(Clone, Copy, Debug, PartialEq, Eq, Structural)]
pub enum InvocationOutcome {
    Completed(i32),
    Faulted,
}

/// Settle an invocation outcome into the result handed to the caller: a
/// completed call yields its own result, and a faulted guest yields the
/// sentinel `0` instead of an error — one guest's crash must not look
/// like a host-level fault.
pub fn settle_invocation(outcome: InvocationOutcome) -> (r: i32)
    ensures
        outcome matches InvocationOutcome::Completed(v) ==> r == v,
        outcome is Faulted ==> r == 0,
{
    match outcome {
        InvocationOutcome::Completed(v) => v,
        InvocationOutcome::Faulted => 0,
    }
}

} // verus!
