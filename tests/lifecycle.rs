use std::collections::HashMap;

use ic_test_utils::{
    dispatch, settle, unwrap_forwarded, CallStatus, Canister, CanisterIdArg, CanisterInstall,
    Delivery, DecodeError, Envelope, ErrorKind, InstallMode, LifecycleError, Management, Method,
    OutboundCall, Outcome, Payload, Principal, PrincipalError, Reply, Request, ResultShape,
    WaitStep, Waiter, Wallet,
};

fn principal(bytes: &[u8]) -> Principal {
    Principal::from_bytes(bytes.to_vec()).unwrap()
}

fn wallet() -> Canister<Wallet> {
    Canister::new_wallet(principal(&[7, 7, 7]))
}

#[derive(Clone, Copy, PartialEq, Eq, Debug)]
enum State {
    Empty,
    Running,
    Stopped,
}

/// A stand-in for the platform: it keeps the state of each canister and
/// answers each request as the management service would.
struct Platform {
    canisters: HashMap<Vec<u8>, (State, bool)>,
    next: u8,
    wallet_funds: bool,
}

impl Platform {
    fn new() -> Platform {
        Platform { canisters: HashMap::new(), next: 1, wallet_funds: true }
    }

    fn execute(&mut self, req: &Request) -> Result<Reply, String> {
        match (&req.method, &req.payload) {
            (Method::ProvisionalCreateCanisterWithCycles, Payload::ProvisionalCreate(_))
            | (Method::CreateCanister, Payload::Create(_)) => {
                let id = vec![0, 0, 0, self.next];
                self.next += 1;
                self.canisters.insert(id.clone(), (State::Empty, false));
                Ok(Reply::Created(principal(&id)))
            }
            (Method::InstallCode, Payload::Install(install)) => {
                let key = install.canister_id.as_slice().to_vec();
                let entry = self.canisters.get_mut(&key).ok_or("no such canister")?;
                if install.mode == InstallMode::Install && entry.1 {
                    return Err("canister already has code".to_string());
                }
                *entry = (State::Running, true);
                Ok(Reply::Unit)
            }
            (Method::StopCanister, Payload::Target(t)) => {
                let key = t.canister_id.as_slice().to_vec();
                let entry = self.canisters.get_mut(&key).ok_or("no such canister")?;
                if entry.0 != State::Running {
                    return Err("canister is not running".to_string());
                }
                entry.0 = State::Stopped;
                Ok(Reply::Unit)
            }
            (Method::DeleteCanister, Payload::Target(t)) => {
                let key = t.canister_id.as_slice().to_vec();
                let state = self.canisters.get(&key).ok_or("no such canister")?.0;
                if state == State::Running {
                    return Err("canister is running".to_string());
                }
                self.canisters.remove(&key);
                Ok(Reply::Unit)
            }
            _ => Err("unexpected call".to_string()),
        }
    }

    /// Submits the request's envelope, polls it once while pending and once
    /// when done, and hands the outcome to the request.
    fn run(&mut self, req: &Request) -> Result<Reply, LifecycleError> {
        let envelope = dispatch(
            OutboundCall { target: req.call_target.clone(), method: req.method, arg: vec![1, 2, 3] },
            req.delivery.clone(),
        );
        if let Envelope::Forwarded { .. } = envelope {
            if !self.wallet_funds {
                let answer: Result<Vec<u8>, String> = Err("insufficient funds".to_string());
                let Err(outcome) = unwrap_forwarded(answer) else { unreachable!() };
                return req.finish(outcome);
            }
        }
        let result = self.execute(req);
        let mut waiter = Waiter::standard();
        assert_eq!(waiter.observe(CallStatus::Pending), WaitStep::PollAfter(500));
        let last = match &result {
            Ok(_) => CallStatus::Completed(vec![]),
            Err(reason) => CallStatus::Rejected(reason.clone()),
        };
        let step = waiter.observe(last);
        assert!(waiter.is_finished());
        match settle(step) {
            Ok(_) => req.finish(Outcome::Replied(result.unwrap())),
            Err(outcome) => req.finish(outcome),
        }
    }
}

fn created(r: Result<Reply, LifecycleError>) -> Principal {
    match r.unwrap() {
        Reply::Created(p) => p,
        other => panic!("unexpected reply {:?}", other),
    }
}

#[test]
fn create_install_reinstall_scenario() {
    let mut platform = Platform::new();
    let mgmt = Canister::<Management>::new_management();
    let p = created(platform.run(&mgmt.create_canister(None, None, true)));
    let q = created(platform.run(&mgmt.create_canister(None, None, true)));
    assert_ne!(p, q);

    let module = vec![0, 97, 115, 109];
    let first = mgmt.install_code_directly_raw_args(p.clone(), module.clone(), vec![]);
    assert_eq!(platform.run(&first), Ok(Reply::Unit));

    let again = mgmt.install_code_directly_raw_args(p.clone(), module.clone(), vec![]);
    let err = platform.run(&again).unwrap_err();
    assert_eq!(err.kind, ErrorKind::RemoteRejection);
    assert_eq!(err.reason, "canister already has code");
    assert_eq!(err.method, Method::InstallCode);
    assert_eq!(err.target, p.to_text());

    let reinstall = mgmt.install_with_mode(None, InstallMode::Reinstall, p.clone(), module, vec![]);
    assert_eq!(platform.run(&reinstall), Ok(Reply::Unit));
}

#[test]
fn stop_and_delete_scenario() {
    let mut platform = Platform::new();
    let mgmt = Canister::<Management>::new_management();
    let p = created(platform.run(&mgmt.create_canister(None, None, true)));

    let err = platform.run(&mgmt.stop_canister_directly(p.clone())).unwrap_err();
    assert_eq!(err.kind, ErrorKind::RemoteRejection);

    let install = mgmt.install_code_directly_raw_args(p.clone(), vec![0, 97, 115, 109], vec![]);
    assert_eq!(platform.run(&install), Ok(Reply::Unit));

    let err = platform.run(&mgmt.delete_canister_directly(p.clone())).unwrap_err();
    assert_eq!(err.kind, ErrorKind::RemoteRejection);
    assert_eq!(err.method, Method::DeleteCanister);

    assert_eq!(platform.run(&mgmt.stop_canister_directly(p.clone())), Ok(Reply::Unit));
    assert_eq!(platform.run(&mgmt.delete_canister_directly(p.clone())), Ok(Reply::Unit));
}

#[test]
fn forwarded_install_without_funds_surfaces_unchanged() {
    let mut platform = Platform::new();
    let mgmt = Canister::<Management>::new_management();
    let p = created(platform.run(&mgmt.create_canister(None, None, true)));
    platform.wallet_funds = false;
    let req = mgmt.install_code(&wallet(), p.clone(), vec![0, 97, 115, 109], vec![]);
    let err = platform.run(&req).unwrap_err();
    assert_eq!(err.kind, ErrorKind::Forwarding);
    assert_eq!(err.reason, "insufficient funds");
    assert_eq!(err.target, p.to_text());
    // nothing was installed: a later funded install goes through
    platform.wallet_funds = true;
    let req = mgmt.install_code(&wallet(), p, vec![0, 97, 115, 109], vec![]);
    assert_eq!(platform.run(&req), Ok(Reply::Unit));
}

#[test]
fn direct_and_forwarded_payloads_are_identical() {
    let mgmt = Canister::<Management>::new_management();
    let id = principal(&[1, 2, 3, 4]);
    let direct = mgmt.stop_canister_directly(id.clone());
    let forwarded = mgmt.stop_canister(&wallet(), id.clone());
    assert_eq!(direct.payload, forwarded.payload);
    assert_eq!(direct.delivery, Delivery::Direct);
    assert_eq!(forwarded.delivery, Delivery::Forwarded { wallet: principal(&[7, 7, 7]), cycles: 0 });

    let bytes = vec![68, 73, 68, 76, 0, 1];
    let d = direct.into_envelope(bytes.clone());
    let f = forwarded.into_envelope(bytes.clone());
    assert_eq!(d.submit_method(), "stop_canister");
    assert_eq!(f.submit_method(), "wallet_call");
    assert_eq!(d.submit_to(), &Principal::management_canister());
    assert_eq!(f.submit_to(), &principal(&[7, 7, 7]));
    match (d, f) {
        (Envelope::Direct(c), Envelope::Forwarded { call, .. }) => {
            assert_eq!(c.arg, bytes);
            assert_eq!(call.args, bytes);
            assert_eq!(call.canister, c.target);
            assert_eq!(call.method_name, Method::StopCanister);
            assert_eq!(call.cycles, 0);
        }
        _ => panic!("wrong envelopes"),
    }

    let a = mgmt.install_code(&wallet(), id.clone(), vec![9], vec![8]);
    let b = mgmt.install_code_directly_raw_args(id.clone(), vec![9], vec![8]);
    assert_eq!(a.payload, b.payload);
    assert_eq!(a.method, b.method);
}

#[test]
fn install_requests_carry_the_mode() {
    let mgmt = Canister::<Management>::new_management();
    let id = principal(&[5]);
    for mode in [InstallMode::Install, InstallMode::Reinstall, InstallMode::Upgrade] {
        let r = mgmt.install_with_mode(None, mode, id.clone(), vec![1], vec![2]);
        assert_eq!(
            r.payload,
            Payload::Install(CanisterInstall { mode, canister_id: id.clone(), wasm_module: vec![1], arg: vec![2] })
        );
    }
    let up = mgmt.upgrade_code(&wallet(), id.clone(), vec![1], vec![2]);
    assert_eq!(up.method, Method::UpgradeCode);
    assert_eq!(up.expects, ResultShape::Principal);
    match up.payload {
        Payload::Install(i) => assert_eq!(i.mode, InstallMode::Upgrade),
        _ => panic!("not an install payload"),
    }
}

#[test]
fn metered_create_attaches_no_cycles() {
    let mgmt = Canister::<Management>::new_management();
    let r = mgmt.create_canister(Some(1_000_000), None, false);
    assert_eq!(r.method, Method::CreateCanister);
    assert_eq!(r.delivery, Delivery::Direct);
    match r.payload {
        Payload::Create(s) => {
            assert_eq!(s.controllers, None);
            assert_eq!(s.compute_allocation, None);
            assert_eq!(s.memory_allocation, None);
            assert_eq!(s.freezing_threshold, None);
        }
        _ => panic!("not a create payload"),
    }
}

#[test]
fn provisional_create_passes_budget_and_controllers() {
    let mgmt = Canister::<Management>::new_management();
    let r = mgmt.create_canister(Some(42), Some(vec![principal(&[3])]), true);
    assert_eq!(r.method, Method::ProvisionalCreateCanisterWithCycles);
    assert_eq!(r.method.name(), "provisional_create_canister_with_cycles");
    assert_eq!(r.expects, ResultShape::CreateResult);
    match r.payload {
        Payload::ProvisionalCreate(c) => {
            assert_eq!(c.cycles, Some(42));
            assert_eq!(c.settings.controllers, Some(vec![principal(&[3])]));
        }
        _ => panic!("not a provisional payload"),
    }
}

#[test]
fn waiter_two_pending_then_completed() {
    let mut w = Waiter::new(10, 100);
    assert_eq!(w.observe(CallStatus::Pending), WaitStep::PollAfter(10));
    assert_eq!(w.observe(CallStatus::Pending), WaitStep::PollAfter(10));
    assert_eq!(w.observe(CallStatus::Completed(vec![4, 5, 6])), WaitStep::Completed(vec![4, 5, 6]));
    assert_eq!(w.polls, 3);
    assert!(w.is_finished());
}

#[test]
fn waiter_abandons_at_deadline() {
    let mut w = Waiter::new(40, 100);
    assert_eq!(w.observe(CallStatus::Pending), WaitStep::PollAfter(40));
    assert_eq!(w.observe(CallStatus::Pending), WaitStep::PollAfter(40));
    assert_eq!(w.observe(CallStatus::Pending), WaitStep::Abandoned);
    assert!(w.is_finished());
    assert_eq!(w.elapsed_ms, 80);
    match settle(WaitStep::Abandoned) {
        Err(Outcome::TransportFailed(_)) => {}
        other => panic!("unexpected {:?}", other),
    }
}

#[test]
fn waiter_passes_rejection_on() {
    let mut w = Waiter::standard();
    let step = w.observe(CallStatus::Rejected("out of cycles".to_string()));
    assert_eq!(step, WaitStep::Rejected("out of cycles".to_string()));
    assert_eq!(settle(step), Err(Outcome::Rejected("out of cycles".to_string())));
    assert_eq!(settle(WaitStep::Completed(vec![1])), Ok(vec![1]));
}

#[test]
fn finish_maps_each_outcome() {
    let mgmt = Canister::<Management>::new_management();
    let id = principal(&[1, 2]);
    let req = mgmt.delete_canister_directly(id.clone());
    let cases = [
        (Outcome::Rejected("r".to_string()), ErrorKind::RemoteRejection),
        (Outcome::TransportFailed("t".to_string()), ErrorKind::Transport),
        (Outcome::ForwardingFailed("f".to_string()), ErrorKind::Forwarding),
        (Outcome::EncodeFailed("e".to_string()), ErrorKind::Encoding),
    ];
    for (outcome, kind) in cases {
        let expected_reason = match &outcome {
            Outcome::Rejected(s)
            | Outcome::TransportFailed(s)
            | Outcome::ForwardingFailed(s)
            | Outcome::EncodeFailed(s) => s.clone(),
            _ => unreachable!(),
        };
        let err = req.finish(outcome).unwrap_err();
        assert_eq!(err.kind, kind);
        assert_eq!(err.reason, expected_reason);
        assert_eq!(err.method, Method::DeleteCanister);
        assert_eq!(err.target, id.to_text());
    }
    let err = req.finish(Outcome::DecodeFailed(DecodeError::Truncated)).unwrap_err();
    assert_eq!(err.kind, ErrorKind::Decode(DecodeError::Truncated));
    let err = req.finish(Outcome::Replied(Reply::Created(id.clone()))).unwrap_err();
    assert_eq!(err.kind, ErrorKind::Decode(DecodeError::SchemaMismatch));
    assert_eq!(req.finish(Outcome::Replied(Reply::Unit)), Ok(Reply::Unit));
    let up = mgmt.upgrade_code(&wallet(), id.clone(), vec![], vec![]);
    assert_eq!(up.finish(Outcome::Replied(Reply::Echoed(id.clone()))), Ok(Reply::Echoed(id)));
}

#[test]
fn forwarded_answer_unwraps() {
    assert_eq!(unwrap_forwarded(Ok(vec![1, 2])), Ok(vec![1, 2]));
    assert_eq!(
        unwrap_forwarded(Err("wallet refused".to_string())),
        Err(Outcome::ForwardingFailed("wallet refused".to_string()))
    );
}

#[test]
fn principal_bounds_and_text() {
    assert_eq!(Principal::from_bytes(vec![0; 30]), Err(PrincipalError::BytesTooLong));
    let p = Principal::from_bytes(vec![1; 29]).unwrap();
    assert_eq!(p.as_slice(), &[1; 29][..]);
    let m = Principal::management_canister();
    assert!(m.as_slice().is_empty());
    assert_eq!(m.to_text(), "aaaaa-aa");
    assert_ne!(principal(&[1]).to_text(), principal(&[2]).to_text());
    let mgmt = Canister::<Management>::new_management();
    assert_eq!(mgmt.principal(), &m);
    let arg = CanisterIdArg { canister_id: p.clone() };
    assert_eq!(arg.canister_id.clone(), p);
}
