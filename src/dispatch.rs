use crate::principal::Principal;
use vstd::prelude::*;

verus! {

/// A method of the management service.
#[derive(Debug, Clone, Copy, PartialEq, Eq, Structural)]
pub enum Method {
    CreateCanister,
    ProvisionalCreateCanisterWithCycles,
    InstallCode,
    UpgradeCode,
    StopCanister,
    DeleteCanister,
}

/// The name under which the management service exposes a method.
pub open spec fn method_name(m: Method) -> Seq<char> {
    match m {
        Method::CreateCanister => "create_canister"@,
        Method::ProvisionalCreateCanisterWithCycles => "provisional_create_canister_with_cycles"@,
        Method::InstallCode => "install_code"@,
        Method::UpgradeCode => "upgrade_code"@,
        Method::StopCanister => "stop_canister"@,
        Method::DeleteCanister => "delete_canister"@,
    }
}

/// The name of the wallet's method that performs a call on the caller's behalf.
pub open spec fn forward_method_name() -> Seq<char> {
    "wallet_call"@
}

impl Method {
    /// The name of this method on the wire.
    pub fn name(&self) -> (r: &'static str)
        ensures
            r@ == method_name(*self),
    {
        match self {
            Method::CreateCanister => "create_canister",
            Method::ProvisionalCreateCanisterWithCycles => "provisional_create_canister_with_cycles",
            Method::InstallCode => "install_code",
            Method::UpgradeCode => "upgrade_code",
            Method::StopCanister => "stop_canister",
            Method::DeleteCanister => "delete_canister",
        }
    }
}

/// An update call: a method of a target and its encoded argument.
#[derive(Debug, Clone, PartialEq, Eq)]
pub struct OutboundCall {
    pub target: Principal,
    pub method: Method,
    pub arg: Vec<u8>,
}

/// Who submits a call.
#[derive(Debug, Clone, PartialEq, Eq)]
pub enum Delivery {
    /// The caller submits it to the target.
    Direct,
    /// A wallet submits it, and pays the given budget of cycles.
    Forwarded { wallet: Principal, cycles: u64 },
}

/// What a wallet is handed to perform a call on the caller's behalf.
#[derive(Debug, Clone, PartialEq, Eq)]
pub struct ForwardedCall {
    pub canister: Principal,
    pub method_name: Method,
    pub cycles: u64,
    pub args: Vec<u8>,
}

/// What is finally submitted.
#[derive(Debug, Clone, PartialEq, Eq)]
pub enum Envelope {
    /// The call itself.
    Direct(OutboundCall),
    /// A call of the wallet's forwarding method that carries the call.
    Forwarded { wallet: Principal, call: ForwardedCall },
}

/// The envelope in which a call goes out by a delivery.
pub open spec fn envelope_of(call: OutboundCall, delivery: Delivery) -> Envelope {
    match delivery {
        Delivery::Direct => Envelope::Direct(call),
        Delivery::Forwarded { wallet, cycles } => Envelope::Forwarded {
            wallet,
            call: ForwardedCall {
                canister: call.target,
                method_name: call.method,
                cycles,
                args: call.arg,
            },
        },
    }
}

/// The encoded argument that an envelope carries to the target.
pub open spec fn payload_bytes(e: Envelope) -> Seq<u8> {
    match e {
        Envelope::Direct(c) => c.arg@,
        Envelope::Forwarded { call, .. } => call.args@,
    }
}

/// The target that an envelope's call finally reaches.
pub open spec fn final_target(e: Envelope) -> Principal {
    match e {
        Envelope::Direct(c) => c.target,
        Envelope::Forwarded { call, .. } => call.canister,
    }
}

/// The method that an envelope's call finally runs.
pub open spec fn final_method(e: Envelope) -> Method {
    match e {
        Envelope::Direct(c) => c.method,
        Envelope::Forwarded { call, .. } => call.method_name,
    }
}

/// Puts a call in the envelope that its delivery asks for.
pub fn dispatch(call: OutboundCall, delivery: Delivery) -> (r: Envelope)
    ensures
        r == envelope_of(call, delivery),
{
    match delivery {
        Delivery::Direct => Envelope::Direct(call),
        Delivery::Forwarded { wallet, cycles } => Envelope::Forwarded {
            wallet,
            call: ForwardedCall {
                canister: call.target,
                method_name: call.method,
                cycles,
                args: call.arg,
            },
        },
    }
}

impl Envelope {
    /// The principal to which the envelope is submitted.
    pub fn submit_to(&self) -> (r: &Principal)
        ensures
            *r == match *self {
                Envelope::Direct(c) => c.target,
                Envelope::Forwarded { wallet, .. } => wallet,
            },
    {
        match self {
            Envelope::Direct(c) => &c.target,
            Envelope::Forwarded { wallet, .. } => wallet,
        }
    }

    /// The name of the method that the envelope is submitted to.
    pub fn submit_method(&self) -> (r: &'static str)
        ensures
            r@ == match *self {
                Envelope::Direct(c) => method_name(c.method),
                Envelope::Forwarded { .. } => forward_method_name(),
            },
    {
        match self {
            Envelope::Direct(c) => c.method.name(),
            Envelope::Forwarded { .. } => "wallet_call",
        }
    }
}

/// Forwarding changes who submits a call, never what reaches the target: the
/// same call delivered directly and through any wallet with any budget carries
/// the same bytes to the same method of the same target.
pub proof fn lemma_forwarding_keeps_payload(call: OutboundCall, wallet: Principal, cycles: u64)
    ensures
        payload_bytes(envelope_of(call, Delivery::Direct)) == payload_bytes(
            envelope_of(call, Delivery::Forwarded { wallet, cycles }),
        ),
        payload_bytes(envelope_of(call, Delivery::Direct)) == call.arg@,
        final_target(envelope_of(call, Delivery::Direct)) == final_target(
            envelope_of(call, Delivery::Forwarded { wallet, cycles }),
        ),
        final_method(envelope_of(call, Delivery::Direct)) == final_method(
            envelope_of(call, Delivery::Forwarded { wallet, cycles }),
        ),
{
}

} // verus!
