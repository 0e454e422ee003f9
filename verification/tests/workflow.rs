use canister_factory::error::{CallError, Error, RejectionCode};
use canister_factory::management::{
    Call, CanisterSettings, CreateCanisterArgument, InstallCodeArgument, InstallMode, Outcome,
    Reply, WithCanisterId,
};
use canister_factory::principal::Principal;
use canister_factory::workflow::{
    finish_upgrade, install, Deployment, Progress, Request, AUTHORIZE, CREATE_CANISTER_CYCLES,
    CREATE_CANISTER_FEE, NEW_CANISTER_CYCLES,
};

const WASM: &[u8] = &[0x1f, 0x8b, 8, 0, 1, 2, 3];

fn alice() -> Principal {
    Principal::from_slice(&[0xa1; 29]).unwrap()
}

fn factory() -> Principal {
    Principal::from_slice(&[0, 0, 0, 0, 0, 0, 0, 1, 1, 1]).unwrap()
}

fn fresh() -> Principal {
    Principal::from_slice(&[0, 0, 0, 0, 0, 0, 0, 9, 1, 1]).unwrap()
}

fn created() -> Outcome {
    Ok(Reply::CanisterId(WithCanisterId { canister_id: fresh() }))
}

fn rejected(reason: &str) -> CallError {
    CallError::Rejected(RejectionCode::CanisterReject, String::from(reason))
}

fn reserve_call() -> Request {
    Request::CreateCanister(Call {
        canister: Principal::management_canister(),
        method: "create_canister",
        arg: CreateCanisterArgument {
            settings: Some(CanisterSettings {
                controllers: Some(vec![alice(), factory()]),
                compute_allocation: None,
                memory_allocation: None,
                freezing_threshold: None,
            }),
        },
        payment: 4_000_000_000_000,
    })
}

fn install_call(mode: InstallMode) -> Call<InstallCodeArgument> {
    Call {
        canister: Principal::management_canister(),
        method: "install_code",
        arg: InstallCodeArgument {
            mode,
            canister_id: fresh(),
            wasm_module: WASM.to_vec(),
            arg: Vec::new(),
        },
        payment: 0,
    }
}

fn authorize_call() -> Request {
    Request::Authorize(Call { canister: fresh(), method: "authorize", arg: alice(), payment: 0 })
}

fn payment_of(request: &Request) -> u64 {
    match request {
        Request::CreateCanister(call) => call.payment,
        Request::InstallCode(call) => call.payment,
        Request::Authorize(call) => call.payment,
    }
}

/// Sends what the deployment asks for and answers with `outcomes`, in turn.
fn run_deployment(
    mut progress: Progress,
    outcomes: Vec<Outcome>,
) -> (Vec<Request>, Option<Result<Principal, Error>>) {
    let mut sent = Vec::new();
    let mut outcomes = outcomes.into_iter();
    loop {
        match progress {
            Progress::Done(result) => return (sent, Some(result)),
            Progress::Pending(state, request) => {
                sent.push(request);
                match outcomes.next() {
                    Some(outcome) => progress = state.step(outcome),
                    None => return (sent, None),
                }
            }
        }
    }
}

#[test]
fn policy_constants() {
    assert_eq!(CREATE_CANISTER_CYCLES, 4_000_000_000_000);
    assert_eq!(CREATE_CANISTER_FEE, 1_000_000_000_000);
    assert_eq!(NEW_CANISTER_CYCLES, 3_000_000_000_000);
    assert_eq!(AUTHORIZE, "authorize");
}

#[test]
fn a_deployment_begins_with_the_reservation() {
    let progress = Deployment::start(alice(), factory(), WASM);
    assert_eq!(
        progress,
        Progress::Pending(
            Deployment::Reserving { caller: alice(), wasm: WASM.to_vec() },
            reserve_call()
        )
    );
}

#[test]
fn after_the_reservation_comes_the_installation() {
    let state = Deployment::Reserving { caller: alice(), wasm: WASM.to_vec() };
    assert_eq!(
        state.step(created()),
        Progress::Pending(
            Deployment::Installing { caller: alice(), canister: fresh() },
            Request::InstallCode(install_call(InstallMode::Install))
        )
    );
}

#[test]
fn after_the_installation_comes_the_authorization() {
    let state = Deployment::Installing { caller: alice(), canister: fresh() };
    assert_eq!(
        state.step(Ok(Reply::Empty)),
        Progress::Pending(Deployment::Authorizing { canister: fresh() }, authorize_call())
    );
}

#[test]
fn after_the_authorization_the_deployment_is_done() {
    let state = Deployment::Authorizing { canister: fresh() };
    assert_eq!(state.step(Ok(Reply::Empty)), Progress::Done(Ok(fresh())));
}

#[test]
fn a_deployment_that_succeeds_sends_three_calls() {
    let (sent, result) = run_deployment(
        Deployment::start(alice(), factory(), WASM),
        vec![created(), Ok(Reply::Empty), Ok(Reply::Empty)],
    );
    assert_eq!(
        sent,
        vec![reserve_call(), Request::InstallCode(install_call(InstallMode::Install)), authorize_call()]
    );
    assert_eq!(result, Some(Ok(fresh())));
}

#[test]
fn a_failed_reservation_ends_the_deployment() {
    for error in [
        CallError::CouldNotSend,
        rejected("out of cycles"),
        CallError::ResponseDeserializationError(vec![1, 2]),
    ] {
        let (sent, result) = run_deployment(
            Deployment::start(alice(), factory(), WASM),
            vec![Err(error.clone()), Ok(Reply::Empty), Ok(Reply::Empty)],
        );
        assert_eq!(sent, vec![reserve_call()]);
        assert_eq!(result, Some(Err(Error::ReservationFailed(error))));
    }
}

#[test]
fn a_reservation_answered_without_an_id_has_failed() {
    for reply in [Reply::Empty, Reply::Blob(vec![1, 2, 3])] {
        let (sent, result) =
            run_deployment(Deployment::start(alice(), factory(), WASM), vec![Ok(reply)]);
        assert_eq!(sent, vec![reserve_call()]);
        assert_eq!(
            result,
            Some(Err(Error::ReservationFailed(CallError::ResponseDeserializationError(
                Vec::new()
            ))))
        );
    }
}

#[test]
fn a_failed_installation_ends_the_deployment() {
    let (sent, result) = run_deployment(
        Deployment::start(alice(), factory(), WASM),
        vec![created(), Err(rejected("bad module")), Ok(Reply::Empty)],
    );
    assert_eq!(
        sent,
        vec![reserve_call(), Request::InstallCode(install_call(InstallMode::Install))]
    );
    assert_eq!(result, Some(Err(Error::InstallFailed(rejected("bad module")))));
}

#[test]
fn a_failed_authorization_ends_the_deployment() {
    let (sent, result) = run_deployment(
        Deployment::start(alice(), factory(), WASM),
        vec![created(), Ok(Reply::Empty), Err(CallError::CouldNotSend)],
    );
    assert_eq!(sent.len(), 3);
    assert_eq!(sent[2], authorize_call());
    assert_eq!(
        result,
        Some(Err(Error::PostInstallAuthorizationFailed(CallError::CouldNotSend)))
    );
}

#[test]
fn an_installation_or_authorization_answered_with_a_value_has_failed() {
    let undecodable = CallError::ResponseDeserializationError(Vec::new());
    let installing = Deployment::Installing { caller: alice(), canister: fresh() };
    assert_eq!(
        installing.step(created()),
        Progress::Done(Err(Error::InstallFailed(undecodable.clone())))
    );
    let authorizing = Deployment::Authorizing { canister: fresh() };
    assert_eq!(
        authorizing.step(Ok(Reply::Blob(vec![0]))),
        Progress::Done(Err(Error::PostInstallAuthorizationFailed(undecodable)))
    );
}

#[test]
fn a_deployment_waits_while_no_outcome_has_come() {
    let (sent, result) = run_deployment(Deployment::start(alice(), factory(), WASM), vec![]);
    assert_eq!(sent, vec![reserve_call()]);
    assert_eq!(result, None);
    let (sent, result) =
        run_deployment(Deployment::start(alice(), factory(), WASM), vec![created()]);
    assert_eq!(sent.len(), 2);
    assert_eq!(result, None);
}

#[test]
fn the_cycles_go_with_the_reservation_whatever_follows() {
    let endings: Vec<Vec<Outcome>> = vec![
        vec![],
        vec![Err(CallError::CouldNotSend)],
        vec![created()],
        vec![created(), Err(rejected("no"))],
        vec![created(), Ok(Reply::Empty)],
        vec![created(), Ok(Reply::Empty), Err(rejected("no"))],
        vec![created(), Ok(Reply::Empty), Ok(Reply::Empty)],
    ];
    for outcomes in endings {
        let (sent, _) = run_deployment(Deployment::start(alice(), factory(), WASM), outcomes);
        let total: u64 = sent.iter().map(payment_of).sum();
        assert_eq!(total, 4_000_000_000_000);
        assert_eq!(payment_of(&sent[0]), 4_000_000_000_000);
        assert!(sent[1..].iter().all(|request| payment_of(request) == 0));
    }
}

#[test]
fn a_deployment_makes_the_caller_and_the_factory_controllers() {
    match Deployment::start(alice(), factory(), WASM) {
        Progress::Pending(_, Request::CreateCanister(call)) => {
            let settings = call.arg.settings.expect("settings are given");
            assert_eq!(settings.controllers, Some(vec![alice(), factory()]));
        }
        other => panic!("no reservation: {:?}", other),
    }
    match Deployment::start(alice(), alice(), &[]) {
        Progress::Pending(Deployment::Reserving { wasm, .. }, Request::CreateCanister(call)) => {
            assert_eq!(wasm, Vec::<u8>::new());
            assert_eq!(call.arg.settings.unwrap().controllers, Some(vec![alice(), alice()]));
        }
        other => panic!("no reservation: {:?}", other),
    }
}

#[test]
fn install_builds_the_call_for_each_mode() {
    for mode in [InstallMode::Install, InstallMode::Reinstall, InstallMode::Upgrade] {
        assert_eq!(install(fresh(), mode, WASM.to_vec()), install_call(mode));
    }
}

#[test]
fn an_upgrade_ends_with_its_one_call() {
    assert_eq!(finish_upgrade(Ok(Reply::Empty)), Ok(()));
    assert_eq!(
        finish_upgrade(Err(rejected("not a controller"))),
        Err(Error::InstallFailed(rejected("not a controller")))
    );
    assert_eq!(
        finish_upgrade(created()),
        Err(Error::InstallFailed(CallError::ResponseDeserializationError(Vec::new())))
    );
}
