//! Lifecycle control of canisters on the Internet Computer: typed request
//! payloads, direct and wallet-forwarded dispatch, and the completion waiter.

mod dispatch;
mod laws;
mod management;
mod payload;
mod principal;
mod waiter;

pub use dispatch::{
    dispatch, envelope_of, final_method, final_target, forward_method_name,
    lemma_forwarding_keeps_payload, method_name, payload_bytes, Delivery, Envelope, ForwardedCall,
    Method, OutboundCall,
};
pub use laws::{
    lemma_install_requests_agree, lemma_metered_create_attaches_no_cycles,
    lemma_target_requests_agree,
};
pub use management::{
    create_plan, delivered_by, install_plan, reports, settle, settled, target_plan,
    unwrap_forwarded, Canister, ErrorKind, LifecycleError, Management, Outcome, Request, Wallet,
};
pub use payload::{
    attached_cycles, default_settings, shape_of, CanisterIdArg, CanisterInstall, CanisterSettings,
    DecodeError, InstallMode, Payload, ProvisionalCreate, Reply, ResultShape,
};
pub use principal::{principal_text, Principal, PrincipalError, MAX_PRINCIPAL_BYTES};
pub use waiter::{
    fresh, lemma_terminal_is_final, lemma_two_pending_then_completed, observe_spec, CallStatus,
    WaitStep, Waiter,
};
