use crate::dispatch::{envelope_of, payload_bytes, final_method,  Method, OutboundCall};
use crate::management::{create_plan, install_plan, target_plan, Request};
use crate::payload::{attached_cycles, InstallMode, ResultShape};
use crate::principal::Principal;
use vstd::prelude::*;

verus! {

/// The direct and the forwarded request to stop or delete one canister carry
/// the same payload to the same method of the same target, and once encoded
/// the same bytes reach it.
pub proof fn lemma_target_requests_agree(
    direct: Request,
    forwarded: Request,
    manager: Seq<u8>,
    method: Method,
    canister_id: Principal,
    wallet: Seq<u8>,
    arg: Vec<u8>,
)
    requires
        target_plan(direct, manager, method, canister_id, None),
        target_plan(forwarded, manager, method, canister_id, Some(wallet)),
    ensures
        direct.payload == forwarded.payload,
        direct.method == forwarded.method,
        direct.call_target@ == forwarded.call_target@,
        payload_bytes(envelope_of(OutboundCall { target: direct.call_target, method: direct.method, arg }, direct.delivery))
            == payload_bytes(envelope_of(OutboundCall { target: forwarded.call_target, method: forwarded.method, arg }, forwarded.delivery)),
        final_method(envelope_of(OutboundCall { target: direct.call_target, method: direct.method, arg }, direct.delivery))
            == final_method(envelope_of(OutboundCall { target: forwarded.call_target, method: forwarded.method, arg }, forwarded.delivery)),
{
}

/// The direct and the forwarded request to install the same module into the
/// same canister by the same mode carry the same payload, and once encoded
/// the same bytes reach the same method.
pub proof fn lemma_install_requests_agree(
    direct: Request,
    forwarded: Request,
    manager: Seq<u8>,
    mode: InstallMode,
    canister_id: Principal,
    wasm_module: Vec<u8>,
    init_arg: Vec<u8>,
    wallet: Seq<u8>,
    arg: Vec<u8>,
)
    requires
        install_plan(direct, manager, Method::InstallCode, mode, canister_id, wasm_module, init_arg, None, ResultShape::Unit),
        install_plan(forwarded, manager, Method::InstallCode, mode, canister_id, wasm_module, init_arg, Some(wallet), ResultShape::Unit),
    ensures
        direct.payload == forwarded.payload,
        direct.method == forwarded.method,
        direct.call_target@ == forwarded.call_target@,
        payload_bytes(envelope_of(OutboundCall { target: direct.call_target, method: direct.method, arg }, direct.delivery))
            == payload_bytes(envelope_of(OutboundCall { target: forwarded.call_target, method: forwarded.method, arg }, forwarded.delivery)),
        final_method(envelope_of(OutboundCall { target: direct.call_target, method: direct.method, arg }, direct.delivery))
            == final_method(envelope_of(OutboundCall { target: forwarded.call_target, method: forwarded.method, arg }, forwarded.delivery)),
{
}

/// A metered creation that names no controllers attaches no budget: neither
/// its payload nor its delivery carries cycles, whatever budget was offered.
pub proof fn lemma_metered_create_attaches_no_cycles(r: Request, manager: Seq<u8>, cycles: Option<u64>)
    requires
        create_plan(r, manager, cycles, None, false),
    ensures
        attached_cycles(r.payload) is None,
        r.delivery is Direct,
{
}

} // verus!
