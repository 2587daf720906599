use crate::dispatch::{envelope_of, Delivery, Envelope, Method, OutboundCall, dispatch};
use crate::payload::{
    CanisterIdArg, CanisterInstall, CanisterSettings, DecodeError, InstallMode, Payload,
    ProvisionalCreate, Reply, ResultShape, default_settings, shape_of,
};
use crate::principal::{principal_text, Principal};
use crate::waiter::WaitStep;
use vstd::prelude::*;

verus! {

/// Marks a handle on the management service.
#[derive(Debug, Clone, Copy, PartialEq, Eq, Structural)]
pub struct Management;

/// Marks a handle on a wallet.
#[derive(Debug, Clone, Copy, PartialEq, Eq, Structural)]
pub struct Wallet;

/// A handle on a canister; its marker says which operations it offers.
#[derive(Debug, Clone)]
pub struct Canister<T> {
    principal: Principal,
    capability: T,
}

impl<T> Canister<T> {
    /// The bytes of the canister's principal.
    pub closed spec fn id(&self) -> Seq<u8> {
        self.principal@
    }

    /// The canister's principal.
    pub fn principal(&self) -> (r: &Principal)
        ensures
            r@ == self.id(),
    {
        &self.principal
    }
}

impl Canister<Wallet> {
    /// A handle on the wallet of the given principal.
    pub fn new_wallet(principal: Principal) -> (r: Self)
        ensures
            r.id() == principal@,
    {
        Canister { principal, capability: Wallet }
    }
}

/// Why a lifecycle operation failed.
#[derive(Debug, Clone, Copy, PartialEq, Eq, Structural)]
pub enum ErrorKind {
    /// A value could not be encoded.
    Encoding,
    /// The reply did not decode to the expected shape.
    Decode(DecodeError),
    /// Submission or connectivity failed, or waiting was abandoned.
    Transport,
    /// The wallet was unreachable or refused to forward.
    Forwarding,
    /// The platform ran the call and rejected it.
    RemoteRejection,
}

/// A failed operation: its kind, the method, the canister it was about (as
/// text) and the reason as it came.
#[derive(Debug, Clone, PartialEq, Eq)]
pub struct LifecycleError {
    pub kind: ErrorKind,
    pub method: Method,
    pub target: String,
    pub reason: String,
}

/// How one submitted operation ended, as the transport and the decoder saw it.
#[derive(Debug, Clone, PartialEq, Eq)]
pub enum Outcome {
    /// The reply, decoded in the shape that the request expects.
    Replied(Reply),
    /// The platform rejected the call.
    Rejected(String),
    /// The transport failed.
    TransportFailed(String),
    /// The wallet failed to forward.
    ForwardingFailed(String),
    /// The argument did not encode.
    EncodeFailed(String),
    /// The reply did not decode.
    DecodeFailed(DecodeError),
}

/// One lifecycle operation, ready to be encoded and submitted: the call of
/// `method` on `call_target` with `payload`, about canister `subject`, delivered
/// by `delivery`; its reply decodes as `expects`.
#[derive(Debug, Clone, PartialEq, Eq)]
pub struct Request {
    pub call_target: Principal,
    pub method: Method,
    pub subject: Principal,
    pub payload: Payload,
    pub delivery: Delivery,
    pub expects: ResultShape,
}

/// The delivery is direct where no wallet is given, and through the wallet of
/// those bytes with a budget of zero where one is.
pub open spec fn delivered_by(d: Delivery, wallet: Option<Seq<u8>>) -> bool {
    match wallet {
        None => d is Direct,
        Some(w) => match d {
            Delivery::Forwarded { wallet, cycles } => wallet@ == w && cycles == 0,
            Delivery::Direct => false,
        },
    }
}

/// A request that stops or deletes `canister_id`.
pub open spec fn target_plan(
    r: Request,
    manager: Seq<u8>,
    method: Method,
    canister_id: Principal,
    wallet: Option<Seq<u8>>,
) -> bool {
    &&& r.call_target@ == manager
    &&& r.method == method
    &&& r.subject@ == canister_id@
    &&& r.payload == Payload::Target(CanisterIdArg { canister_id })
    &&& delivered_by(r.delivery, wallet)
    &&& r.expects == ResultShape::Unit
}

/// A request that puts `wasm_module` into `canister_id` by `mode`.
pub open spec fn install_plan(
    r: Request,
    manager: Seq<u8>,
    method: Method,
    mode: InstallMode,
    canister_id: Principal,
    wasm_module: Vec<u8>,
    arg: Vec<u8>,
    wallet: Option<Seq<u8>>,
    expects: ResultShape,
) -> bool {
    &&& r.call_target@ == manager
    &&& r.method == method
    &&& r.subject@ == canister_id@
    &&& r.payload == Payload::Install(CanisterInstall { mode, canister_id, wasm_module, arg })
    &&& delivered_by(r.delivery, wallet)
    &&& r.expects == expects
}

/// A request that creates a canister: provisional creation passes the budget
/// on; metered creation carries the settings alone. Both are direct.
pub open spec fn create_plan(
    r: Request,
    manager: Seq<u8>,
    cycles: Option<u64>,
    controllers: Option<Vec<Principal>>,
    is_provisional: bool,
) -> bool {
    &&& r.call_target@ == manager
    &&& r.subject@ == manager
    &&& r.delivery is Direct
    &&& r.expects == ResultShape::CreateResult
    &&& if is_provisional {
        &&& r.method == Method::ProvisionalCreateCanisterWithCycles
        &&& r.payload is ProvisionalCreate
        &&& r.payload->ProvisionalCreate_0.cycles == cycles
        &&& default_settings(r.payload->ProvisionalCreate_0.settings, controllers)
    } else {
        &&& r.method == Method::CreateCanister
        &&& r.payload is Create
        &&& default_settings(r.payload->Create_0, controllers)
    }
}

/// The error reports this kind, the request's method and canister, and the
/// reason unchanged.
pub open spec fn reports(e: LifecycleError, kind: ErrorKind, req: Request, reason: Seq<char>) -> bool {
    &&& e.kind == kind
    &&& e.method == req.method
    &&& e.target@ == principal_text(req.subject@)
    &&& e.reason@ == reason
}

impl Canister<Management> {
    /// A handle on the management service.
    pub fn new_management() -> (r: Self)
        ensures
            r.id() == Seq::<u8>::empty(),
    {
        Canister { principal: Principal::management_canister(), capability: Management }
    }

    fn through_wallet(wallet: &Canister<Wallet>) -> (r: Delivery)
        ensures
            delivered_by(r, Some(wallet.id())),
    {
        Delivery::Forwarded { wallet: wallet.principal.clone(), cycles: 0 }
    }

    fn install_request(
        &self,
        method: Method,
        mode: InstallMode,
        canister_id: Principal,
        wasm_module: Vec<u8>,
        arg: Vec<u8>,
        delivery: Delivery,
        expects: ResultShape,
    ) -> (r: Request)
        ensures
            r.call_target@ == self.id(),
            r.method == method,
            r.subject@ == canister_id@,
            r.payload == Payload::Install(CanisterInstall { mode, canister_id, wasm_module, arg }),
            r.delivery == delivery,
            r.expects == expects,
    {
        let subject = canister_id.clone();
        Request {
            call_target: self.principal.clone(),
            method,
            subject,
            payload: Payload::Install(CanisterInstall { mode, canister_id, wasm_module, arg }),
            delivery,
            expects,
        }
    }

    fn target_request(&self, method: Method, canister_id: Principal, delivery: Delivery) -> (r: Request)
        ensures
            r.call_target@ == self.id(),
            r.method == method,
            r.subject@ == canister_id@,
            r.payload == Payload::Target(CanisterIdArg { canister_id }),
            r.delivery == delivery,
            r.expects == ResultShape::Unit,
    {
        let subject = canister_id.clone();
        Request {
            call_target: self.principal.clone(),
            method,
            subject,
            payload: Payload::Target(CanisterIdArg { canister_id }),
            delivery,
            expects: ResultShape::Unit,
        }
    }

    /// Installs `bytecode` into an existing, empty canister through the wallet;
    /// `arg` is the encoded argument of the module's initializer.
    pub fn install_code(
        &self,
        wallet: &Canister<Wallet>,
        canister_id: Principal,
        bytecode: Vec<u8>,
        arg: Vec<u8>,
    ) -> (r: Request)
        ensures
            install_plan(
                r,
                self.id(),
                Method::InstallCode,
                InstallMode::Install,
                canister_id,
                bytecode,
                arg,
                Some(wallet.id()),
                ResultShape::Unit,
            ),
    {
        let delivery = Self::through_wallet(wallet);
        self.install_request(
            Method::InstallCode,
            InstallMode::Install,
            canister_id,
            bytecode,
            arg,
            delivery,
            ResultShape::Unit,
        )
    }

    /// Installs `bytecode` into an existing, empty canister directly, with
    /// the initializer's argument as raw bytes.
    pub fn install_code_directly_raw_args(
        &self,
        canister_id: Principal,
        bytecode: Vec<u8>,
        arg_raw: Vec<u8>,
    ) -> (r: Request)
        ensures
            install_plan(
                r,
                self.id(),
                Method::InstallCode,
                InstallMode::Install,
                canister_id,
                bytecode,
                arg_raw,
                None,
                ResultShape::Unit,
            ),
    {
        self.install_request(
            Method::InstallCode,
            InstallMode::Install,
            canister_id,
            bytecode,
            arg_raw,
            Delivery::Direct,
            ResultShape::Unit,
        )
    }

    /// Installs code by any mode, directly or through a wallet.
    pub fn install_with_mode(
        &self,
        wallet: Option<&Canister<Wallet>>,
        mode: InstallMode,
        canister_id: Principal,
        bytecode: Vec<u8>,
        arg: Vec<u8>,
    ) -> (r: Request)
        ensures
            install_plan(
                r,
                self.id(),
                Method::InstallCode,
                mode,
                canister_id,
                bytecode,
                arg,
                match wallet {
                    Some(w) => Some(w.id()),
                    None => None,
                },
                ResultShape::Unit,
            ),
    {
        let delivery = match wallet {
            Some(w) => Self::through_wallet(w),
            None => Delivery::Direct,
        };
        self.install_request(Method::InstallCode, mode, canister_id, bytecode, arg, delivery, ResultShape::Unit)
    }

    /// Creates an empty canister, directly. Provisional creation (test
    /// deployments only) attaches the given budget; metered creation ignores it.
    pub fn create_canister(
        &self,
        cycles: Option<u64>,
        controllers: Option<Vec<Principal>>,
        is_provisional: bool,
    ) -> (r: Request)
        ensures
            create_plan(r, self.id(), cycles, controllers, is_provisional),
    {
        let settings = CanisterSettings::with_controllers(controllers);
        let (method, payload) = if is_provisional {
            (
                Method::ProvisionalCreateCanisterWithCycles,
                Payload::ProvisionalCreate(ProvisionalCreate { cycles, settings }),
            )
        } else {
            (Method::CreateCanister, Payload::Create(settings))
        };
        Request {
            call_target: self.principal.clone(),
            method,
            subject: self.principal.clone(),
            payload,
            delivery: Delivery::Direct,
            expects: ResultShape::CreateResult,
        }
    }

    /// Upgrades the code of a canister through the wallet; the reply echoes
    /// the canister's principal.
    pub fn upgrade_code(
        &self,
        wallet: &Canister<Wallet>,
        canister_id: Principal,
        bytecode: Vec<u8>,
        arg: Vec<u8>,
    ) -> (r: Request)
        ensures
            install_plan(
                r,
                self.id(),
                Method::UpgradeCode,
                InstallMode::Upgrade,
                canister_id,
                bytecode,
                arg,
                Some(wallet.id()),
                ResultShape::Principal,
            ),
    {
        let delivery = Self::through_wallet(wallet);
        self.install_request(
            Method::UpgradeCode,
            InstallMode::Upgrade,
            canister_id,
            bytecode,
            arg,
            delivery,
            ResultShape::Principal,
        )
    }

    /// Stops a running canister through the wallet.
    pub fn stop_canister(&self, wallet: &Canister<Wallet>, canister_id: Principal) -> (r: Request)
        ensures
            target_plan(r, self.id(), Method::StopCanister, canister_id, Some(wallet.id())),
    {
        let delivery = Self::through_wallet(wallet);
        self.target_request(Method::StopCanister, canister_id, delivery)
    }

    /// Stops a running canister directly.
    pub fn stop_canister_directly(&self, canister_id: Principal) -> (r: Request)
        ensures
            target_plan(r, self.id(), Method::StopCanister, canister_id, None),
    {
        self.target_request(Method::StopCanister, canister_id, Delivery::Direct)
    }

    /// Deletes a stopped canister through the wallet.
    pub fn delete_canister(&self, wallet: &Canister<Wallet>, canister_id: Principal) -> (r: Request)
        ensures
            target_plan(r, self.id(), Method::DeleteCanister, canister_id, Some(wallet.id())),
    {
        let delivery = Self::through_wallet(wallet);
        self.target_request(Method::DeleteCanister, canister_id, delivery)
    }

    /// Deletes a stopped canister directly.
    pub fn delete_canister_directly(&self, canister_id: Principal) -> (r: Request)
        ensures
            target_plan(r, self.id(), Method::DeleteCanister, canister_id, None),
    {
        self.target_request(Method::DeleteCanister, canister_id, Delivery::Direct)
    }
}

/// What a finished wait leaves to decode, or the outcome it already is.
pub open spec fn settled(step: WaitStep, r: Result<Vec<u8>, Outcome>) -> bool {
    match step {
        WaitStep::Completed(bytes) => r == Ok::<Vec<u8>, Outcome>(bytes),
        WaitStep::Rejected(reason) => r == Err::<Vec<u8>, Outcome>(Outcome::Rejected(reason)),
        WaitStep::Abandoned => r is Err && r->Err_0 is TransportFailed,
        WaitStep::PollAfter(_) => false,
    }
}

/// Turns the last step of a wait into the bytes to decode, or into the
/// outcome of a rejection or of an abandoned wait.
pub fn settle(step: WaitStep) -> (r: Result<Vec<u8>, Outcome>)
    requires
        !(step is PollAfter),
    ensures
        settled(step, r),
{
    match step {
        WaitStep::Completed(bytes) => Ok(bytes),
        WaitStep::Rejected(reason) => Err(Outcome::Rejected(reason)),
        WaitStep::Abandoned => Err(Outcome::TransportFailed(String::from_str("gave up waiting for the reply"))),
        WaitStep::PollAfter(_) => Err(Outcome::TransportFailed(String::from_str("still waiting for the reply"))),
    }
}

/// Unwraps a wallet's answer to a forwarded call: the inner reply's bytes, or
/// the wallet's own refusal, passed on as a forwarding failure.
pub fn unwrap_forwarded(answer: Result<Vec<u8>, String>) -> (r: Result<Vec<u8>, Outcome>)
    ensures
        match answer {
            Ok(bytes) => r == Ok::<Vec<u8>, Outcome>(bytes),
            Err(reason) => r == Err::<Vec<u8>, Outcome>(Outcome::ForwardingFailed(reason)),
        },
{
    match answer {
        Ok(bytes) => Ok(bytes),
        Err(reason) => Err(Outcome::ForwardingFailed(reason)),
    }
}

impl Request {
    /// The envelope that carries this request with its encoded argument.
    pub fn into_envelope(self, arg: Vec<u8>) -> (r: Envelope)
        ensures
            r == envelope_of(
                OutboundCall { target: self.call_target, method: self.method, arg },
                self.delivery,
            ),
    {
        dispatch(OutboundCall { target: self.call_target, method: self.method, arg }, self.delivery)
    }

    fn error(&self, kind: ErrorKind, reason: String) -> (r: LifecycleError)
        ensures
            reports(r, kind, *self, reason@),
    {
        LifecycleError { kind, method: self.method, target: self.subject.to_text(), reason }
    }

    /// The result of the operation: the reply where it has the expected
    /// shape, else the error of its kind, with the reason passed on unchanged.
    pub fn finish(&self, outcome: Outcome) -> (r: Result<Reply, LifecycleError>)
        ensures
            match outcome {
                Outcome::Replied(reply) => if shape_of(reply) == self.expects {
                    r == Ok::<Reply, LifecycleError>(reply)
                } else {
                    r is Err && r->Err_0.kind == ErrorKind::Decode(DecodeError::SchemaMismatch)
                        && r->Err_0.method == self.method
                        && r->Err_0.target@ == principal_text(self.subject@)
                },
                Outcome::Rejected(s) => r is Err && reports(r->Err_0, ErrorKind::RemoteRejection, *self, s@),
                Outcome::TransportFailed(s) => r is Err && reports(r->Err_0, ErrorKind::Transport, *self, s@),
                Outcome::ForwardingFailed(s) => r is Err && reports(r->Err_0, ErrorKind::Forwarding, *self, s@),
                Outcome::EncodeFailed(s) => r is Err && reports(r->Err_0, ErrorKind::Encoding, *self, s@),
                Outcome::DecodeFailed(d) => r is Err && r->Err_0.kind == ErrorKind::Decode(d)
                    && r->Err_0.method == self.method
                    && r->Err_0.target@ == principal_text(self.subject@),
            },
    {
        match outcome {
            Outcome::Replied(reply) => {
                if reply.shape() == self.expects {
                    Ok(reply)
                } else {
                    Err(self.error(
                        ErrorKind::Decode(DecodeError::SchemaMismatch),
                        String::from_str("the reply has another shape"),
                    ))
                }
            },
            Outcome::Rejected(s) => Err(self.error(ErrorKind::RemoteRejection, s)),
            Outcome::TransportFailed(s) => Err(self.error(ErrorKind::Transport, s)),
            Outcome::ForwardingFailed(s) => Err(self.error(ErrorKind::Forwarding, s)),
            Outcome::EncodeFailed(s) => Err(self.error(ErrorKind::Encoding, s)),
            Outcome::DecodeFailed(d) => Err(self.error(
                ErrorKind::Decode(d),
                String::from_str("the reply did not decode"),
            )),
        }
    }
}

} // verus!
