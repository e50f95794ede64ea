use vstd::prelude::*;

verus! {

// The waPC guest ABI is a fixed set of names: one import namespace, nine
// host functions the guest may import under it, one required entry-point
// export, and two optional initializer exports. All names are handled here
// as byte strings so that contracts can speak of them as `Seq<u8>`.

/// The single recognized import namespace, `wapc`.
pub open spec fn host_namespace() -> Seq<u8> {
    seq![0x77, 0x61, 0x70, 0x63]
}

/// `__console_log`: guest-side logging forwarded to the host sink.
pub open spec fn console_log_name() -> Seq<u8> {
    seq![0x5f, 0x5f, 0x63, 0x6f, 0x6e, 0x73, 0x6f, 0x6c, 0x65, 0x5f, 0x6c, 0x6f, 0x67]
}

/// `__host_call`: dispatch of a guest-requested host operation.
pub open spec fn host_call_name() -> Seq<u8> {
    seq![0x5f, 0x5f, 0x68, 0x6f, 0x73, 0x74, 0x5f, 0x63, 0x61, 0x6c, 0x6c]
}

/// `__guest_request`: guest pulls the operation that triggered it.
pub open spec fn guest_request_name() -> Seq<u8> {
    seq![0x5f, 0x5f, 0x67, 0x75, 0x65, 0x73, 0x74, 0x5f, 0x72, 0x65, 0x71, 0x75, 0x65, 0x73, 0x74]
}

/// `__host_response`: guest reads the host-call response bytes.
pub open spec fn host_response_name() -> Seq<u8> {
    seq![0x5f, 0x5f, 0x68, 0x6f, 0x73, 0x74, 0x5f, 0x72, 0x65, 0x73, 0x70, 0x6f, 0x6e, 0x73, 0x65]
}

/// `__host_response_len`: guest reads the host-call response length.
pub open spec fn host_response_len_name() -> Seq<u8> {
    seq![0x5f, 0x5f, 0x68, 0x6f, 0x73, 0x74, 0x5f, 0x72, 0x65, 0x73, 0x70, 0x6f, 0x6e, 0x73, 0x65,
        0x5f, 0x6c, 0x65, 0x6e]
}

/// `__guest_response`: guest pushes its computed response.
pub open spec fn guest_response_name() -> Seq<u8> {
    seq![0x5f, 0x5f, 0x67, 0x75, 0x65, 0x73, 0x74, 0x5f, 0x72, 0x65, 0x73, 0x70, 0x6f, 0x6e, 0x73,
        0x65]
}

/// `__guest_error`: guest pushes its error report.
pub open spec fn guest_error_name() -> Seq<u8> {
    seq![0x5f, 0x5f, 0x67, 0x75, 0x65, 0x73, 0x74, 0x5f, 0x65, 0x72, 0x72, 0x6f, 0x72]
}

/// `__host_error`: guest reads the host-call error bytes.
pub open spec fn host_error_name() -> Seq<u8> {
    seq![0x5f, 0x5f, 0x68, 0x6f, 0x73, 0x74, 0x5f, 0x65, 0x72, 0x72, 0x6f, 0x72]
}

/// `__host_error_len`: guest reads the host-call error length.
pub open spec fn host_error_len_name() -> Seq<u8> {
    seq![0x5f, 0x5f, 0x68, 0x6f, 0x73, 0x74, 0x5f, 0x65, 0x72, 0x72, 0x6f, 0x72, 0x5f, 0x6c, 0x65,
        0x6e]
}

/// `__guest_call`: the single required entry-point export.
pub open spec fn guest_call_name() -> Seq<u8> {
    seq![0x5f, 0x5f, 0x67, 0x75, 0x65, 0x73, 0x74, 0x5f, 0x63, 0x61, 0x6c, 0x6c]
}

/// `_start`: first recognized initializer export.
pub open spec fn tinygo_start_name() -> Seq<u8> {
    seq![0x5f, 0x73, 0x74, 0x61, 0x72, 0x74]
}

/// `wapc_init`: second recognized initializer export.
pub open spec fn wapc_init_name() -> Seq<u8> {
    seq![0x77, 0x61, 0x70, 0x63, 0x5f, 0x69, 0x6e, 0x69, 0x74]
}

/// One of the nine bridging functions the host offers a guest, identified
/// by its role.
#[derive(Clone, Copy, Debug, PartialEq, Eq, Structural)]
pub enum HostFunction {
    ConsoleLog,
    HostCall,
    GuestRequest,
    HostResponse,
    HostResponseLen,
    GuestResponse,
    GuestError,
    HostError,
    HostErrorLen,
}

/// The role, if any, that a host-namespace import name resolves to.
pub open spec fn role_of_name(name: Seq<u8>) -> Option<HostFunction> {
    if name == console_log_name() {
        Some(HostFunction::ConsoleLog)
    } else if name == host_call_name() {
        Some(HostFunction::HostCall)
    } else if name == guest_request_name() {
        Some(HostFunction::GuestRequest)
    } else if name == host_response_name() {
        Some(HostFunction::HostResponse)
    } else if name == host_response_len_name() {
        Some(HostFunction::HostResponseLen)
    } else if name == guest_response_name() {
        Some(HostFunction::GuestResponse)
    } else if name == guest_error_name() {
        Some(HostFunction::GuestError)
    } else if name == host_error_name() {
        Some(HostFunction::HostError)
    } else if name == host_error_len_name() {
        Some(HostFunction::HostErrorLen)
    } else {
        None
    }
}

/// Byte-string equality, the comparison every name lookup rests on.
pub fn bytes_eq(a: &Vec<u8>, b: &Vec<u8>) -> (r: bool)
    ensures
        r <==> a@ == b@,
{
    if a.len() != b.len() {
        return false;
    }
    let mut i: usize = 0;
    while i < a.len()
        invariant
            0 <= i <= a.len(),
            a.len() == b.len(),
            forall|j: int| 0 <= j < i ==> a@[j] == b@[j],
        decreases a.len() - i,
    {
        if a[i] != b[i] {
            return false;
        }
        i = i + 1;
    }
    proof {
        assert(a@ =~= b@);
    }
    true
}

pub fn host_namespace_bytes() -> (r: Vec<u8>)
    ensures
        r@ == host_namespace(),
{
    let v: Vec<u8> = vec![0x77, 0x61, 0x70, 0x63];
    proof {
        assert(v@ =~= host_namespace());
    }
    v
}

pub fn console_log_bytes() -> (r: Vec<u8>)
    ensures
        r@ == console_log_name(),
{
    let v: Vec<u8> = vec![0x5f, 0x5f, 0x63, 0x6f, 0x6e, 0x73, 0x6f, 0x6c, 0x65, 0x5f, 0x6c, 0x6f,
        0x67];
    proof {
        assert(v@ =~= console_log_name());
    }
    v
}

pub fn host_call_bytes() -> (r: Vec<u8>)
    ensures
        r@ == host_call_name(),
{
    let v: Vec<u8> = vec![0x5f, 0x5f, 0x68, 0x6f, 0x73, 0x74, 0x5f, 0x63, 0x61, 0x6c, 0x6c];
    proof {
        assert(v@ =~= host_call_name());
    }
    v
}

pub fn guest_request_bytes() -> (r: Vec<u8>)
    ensures
        r@ == guest_request_name(),
{
    let v: Vec<u8> = vec![0x5f, 0x5f, 0x67, 0x75, 0x65, 0x73, 0x74, 0x5f, 0x72, 0x65, 0x71, 0x75,
        0x65, 0x73, 0x74];
    proof {
        assert(v@ =~= guest_request_name());
    }
    v
}

pub fn host_response_bytes() -> (r: Vec<u8>)
    ensures
        r@ == host_response_name(),
{
    let v: Vec<u8> = vec![0x5f, 0x5f, 0x68, 0x6f, 0x73, 0x74, 0x5f, 0x72, 0x65, 0x73, 0x70, 0x6f,
        0x6e, 0x73, 0x65];
    proof {
        assert(v@ =~= host_response_name());
    }
    v
}

pub fn host_response_len_bytes() -> (r: Vec<u8>)
    ensures
        r@ == host_response_len_name(),
{
    let v: Vec<u8> = vec![0x5f, 0x5f, 0x68, 0x6f, 0x73, 0x74, 0x5f, 0x72, 0x65, 0x73, 0x70, 0x6f,
        0x6e, 0x73, 0x65, 0x5f, 0x6c, 0x65, 0x6e];
    proof {
        assert(v@ =~= host_response_len_name());
    }
    v
}

pub fn guest_response_bytes() -> (r: Vec<u8>)
    ensures
        r@ == guest_response_name(),
{
    let v: Vec<u8> = vec![0x5f, 0x5f, 0x67, 0x75, 0x65, 0x73, 0x74, 0x5f, 0x72, 0x65, 0x73, 0x70,
        0x6f, 0x6e, 0x73, 0x65];
    proof {
        assert(v@ =~= guest_response_name());
    }
    v
}

pub fn guest_error_bytes() -> (r: Vec<u8>)
    ensures
        r@ == guest_error_name(),
{
    let v: Vec<u8> = vec![0x5f, 0x5f, 0x67, 0x75, 0x65, 0x73, 0x74, 0x5f, 0x65, 0x72, 0x72, 0x6f,
        0x72];
    proof {
        assert(v@ =~= guest_error_name());
    }
    v
}

pub fn host_error_bytes() -> (r: Vec<u8>)
    ensures
        r@ == host_error_name(),
{
    let v: Vec<u8> = vec![0x5f, 0x5f, 0x68, 0x6f, 0x73, 0x74, 0x5f, 0x65, 0x72, 0x72, 0x6f, 0x72];
    proof {
        assert(v@ =~= host_error_name());
    }
    v
}

pub fn host_error_len_bytes() -> (r: Vec<u8>)
    ensures
        r@ == host_error_len_name(),
{
    let v: Vec<u8> = vec![0x5f, 0x5f, 0x68, 0x6f, 0x73, 0x74, 0x5f, 0x65, 0x72, 0x72, 0x6f, 0x72,
        0x5f, 0x6c, 0x65, 0x6e];
    proof {
        assert(v@ =~= host_error_len_name());
    }
    v
}

pub fn guest_call_bytes() -> (r: Vec<u8>)
    ensures
        r@ == guest_call_name(),
{
    let v: Vec<u8> = vec![0x5f, 0x5f, 0x67, 0x75, 0x65, 0x73, 0x74, 0x5f, 0x63, 0x61, 0x6c, 0x6c];
    proof {
        assert(v@ =~= guest_call_name());
    }
    v
}

pub fn tinygo_start_bytes() -> (r: Vec<u8>)
    ensures
        r@ == tinygo_start_name(),
{
    let v: Vec<u8> = vec![0x5f, 0x73, 0x74, 0x61, 0x72, 0x74];
    proof {
        assert(v@ =~= tinygo_start_name());
    }
    v
}

pub fn wapc_init_bytes() -> (r: Vec<u8>)
    ensures
        r@ == wapc_init_name(),
{
    let v: Vec<u8> = vec![0x77, 0x61, 0x70, 0x63, 0x5f, 0x69, 0x6e, 0x69, 0x74];
    proof {
        assert(v@ =~= wapc_init_name());
    }
    v
}

/// Name-to-role resolution against the fixed bridging function set.
pub fn host_function_for_name(name: &Vec<u8>) -> (r: Option<HostFunction>)
    ensures
        r == role_of_name(name@),
{
    if bytes_eq(name, &console_log_bytes()) {
        Some(HostFunction::ConsoleLog)
    } else if bytes_eq(name, &host_call_bytes()) {
        Some(HostFunction::HostCall)
    } else if bytes_eq(name, &guest_request_bytes()) {
        Some(HostFunction::GuestRequest)
    } else if bytes_eq(name, &host_response_bytes()) {
        Some(HostFunction::HostResponse)
    } else if bytes_eq(name, &host_response_len_bytes()) {
        Some(HostFunction::HostResponseLen)
    } else if bytes_eq(name, &guest_response_bytes()) {
        Some(HostFunction::GuestResponse)
    } else if bytes_eq(name, &guest_error_bytes()) {
        Some(HostFunction::GuestError)
    } else if bytes_eq(name, &host_error_bytes()) {
        Some(HostFunction::HostError)
    } else if bytes_eq(name, &host_error_len_bytes()) {
        Some(HostFunction::HostErrorLen)
    } else {
        None
    }
}

} // verus!
