//! The workflows of the factory, one remote call at a time. A deployment
//! reserves a canister, installs the code on it and authorizes the caller on
//! what was installed; an upgrade installs the code anew. Each call is handed
//! out to be sent, and what comes back decides how to go on.

use crate::error::{finished, CallErrorView, Error, ErrorView};
use crate::management::{
    decoded_canister_id, decoded_empty, expect_empty, undecodable, Call, CallView,
    CanisterSettings, CanisterSettingsView, CreateCanister, CreateCanisterArgument, InstallCode,
    InstallCodeArgument, InstallCodeArgumentView, InstallMode, ManagementMethod, Outcome,
};
use crate::principal::{ids, Principal};
use vstd::prelude::*;
use vstd::slice::slice_to_vec;

verus! {

/// The cycles that go with the call that creates a canister.
pub const CREATE_CANISTER_CYCLES: u64 = 4_000_000_000_000;

/// The part of them that the system keeps for creating the canister.
pub const CREATE_CANISTER_FEE: u64 = 1_000_000_000_000;

/// What the new canister starts with.
pub const NEW_CANISTER_CYCLES: u64 = CREATE_CANISTER_CYCLES - CREATE_CANISTER_FEE;

/// The method of an installed canister that gives a principal the right to
/// administer its content.
pub const AUTHORIZE: &'static str = "authorize";

/// A call that a workflow wants sent.
#[derive(Clone, Debug, PartialEq)]
pub enum Request {
    CreateCanister(Call<CreateCanisterArgument>),
    InstallCode(Call<InstallCodeArgument>),
    Authorize(Call<Principal>),
}

pub enum RequestView {
    CreateCanister(CallView<Option<CanisterSettingsView>>),
    InstallCode(CallView<InstallCodeArgumentView>),
    Authorize(CallView<Seq<u8>>),
}

impl View for Request {
    type V = RequestView;

    open spec fn view(&self) -> RequestView {
        match self {
            Request::CreateCanister(call) => RequestView::CreateCanister(call@),
            Request::InstallCode(call) => RequestView::InstallCode(call@),
            Request::Authorize(call) => RequestView::Authorize(call@),
        }
    }
}

impl RequestView {
    /// The cycles that go with the call.
    pub open spec fn payment(self) -> nat {
        match self {
            RequestView::CreateCanister(call) => call.payment as nat,
            RequestView::InstallCode(call) => call.payment as nat,
            RequestView::Authorize(call) => call.payment as nat,
        }
    }
}

/// The call that reserves a canister: `create_canister` on the management
/// canister, with the caller and the factory itself as controllers and
/// `CREATE_CANISTER_CYCLES` attached.
pub open spec fn reserve_request(caller: Seq<u8>, controller: Seq<u8>) -> RequestView {
    RequestView::CreateCanister(
        CallView {
            canister: Seq::empty(),
            method: CreateCanister::name(),
            arg: Some(
                CanisterSettingsView {
                    controllers: Some(seq![caller, controller]),
                    compute_allocation: None,
                    memory_allocation: None,
                    freezing_threshold: None,
                },
            ),
            payment: CREATE_CANISTER_CYCLES,
        },
    )
}

/// The call that installs `wasm` on `canister` in the given mode:
/// `install_code` on the management canister, with an empty argument for the
/// code and no cycles.
pub open spec fn install_call(canister: Seq<u8>, mode: InstallMode, wasm: Seq<u8>) -> CallView<
    InstallCodeArgumentView,
> {
    CallView {
        canister: Seq::empty(),
        method: InstallCode::name(),
        arg: InstallCodeArgumentView {
            mode,
            canister_id: canister,
            wasm_module: wasm,
            arg: Seq::empty(),
        },
        payment: 0,
    }
}

/// The call that authorizes `caller` on the new canister: `authorize` on
/// that canister, with no cycles.
pub open spec fn authorize_request(canister: Seq<u8>, caller: Seq<u8>) -> RequestView {
    RequestView::Authorize(
        CallView { canister, method: AUTHORIZE@, arg: caller, payment: 0 },
    )
}

/// What a call that should answer with a canister id ended with: the id, or
/// why there is none.
pub open spec fn reserved(outcome: Outcome) -> Result<Seq<u8>, CallErrorView> {
    match outcome {
        Err(e) => Err(e@),
        Ok(reply) => match decoded_canister_id(reply) {
            Some(id) => Ok(id@),
            None => Err(undecodable()),
        },
    }
}

/// What a call that should answer with nothing ended with.
pub open spec fn completed(outcome: Outcome) -> Result<(), CallErrorView> {
    match outcome {
        Err(e) => Err(e@),
        Ok(reply) => match decoded_empty(reply) {
            Some(_) => Ok(()),
            None => Err(undecodable()),
        },
    }
}

/// A deployment that waits for the outcome of the call it has handed out.
#[derive(Clone, Debug, PartialEq)]
pub enum Deployment {
    /// `create_canister` is out. `wasm` is the code to install.
    Reserving { caller: Principal, wasm: Vec<u8> },
    /// `install_code` on `canister` is out.
    Installing { caller: Principal, canister: Principal },
    /// `authorize` on `canister` is out.
    Authorizing { canister: Principal },
}

pub enum DeploymentView {
    Reserving { caller: Seq<u8>, wasm: Seq<u8> },
    Installing { caller: Seq<u8>, canister: Seq<u8> },
    Authorizing { canister: Seq<u8> },
}

impl View for Deployment {
    type V = DeploymentView;

    open spec fn view(&self) -> DeploymentView {
        match self {
            Deployment::Reserving { caller, wasm } => DeploymentView::Reserving {
                caller: caller@,
                wasm: wasm@,
            },
            Deployment::Installing { caller, canister } => DeploymentView::Installing {
                caller: caller@,
                canister: canister@,
            },
            Deployment::Authorizing { canister } => DeploymentView::Authorizing {
                canister: canister@,
            },
        }
    }
}

/// Where a deployment stands after an outcome: it waits for the next call, or
/// it is over with the id of the new canister or a failure.
#[derive(Debug, PartialEq)]
pub enum Progress {
    /// Send the request, and hand its outcome to `step` of the deployment.
    Pending(Deployment, Request),
    /// Nothing is left to send.
    Done(Result<Principal, Error>),
}

pub enum ProgressView {
    Pending(DeploymentView, RequestView),
    Done(Result<Seq<u8>, ErrorView>),
}

impl View for Progress {
    type V = ProgressView;

    open spec fn view(&self) -> ProgressView {
        match self {
            Progress::Pending(state, request) => ProgressView::Pending(state@, request@),
            Progress::Done(Ok(canister)) => ProgressView::Done(Ok(canister@)),
            Progress::Done(Err(e)) => ProgressView::Done(Err(e@)),
        }
    }
}

/// A deployment that has just begun: it waits for the canister to be
/// reserved.
pub open spec fn started(caller: Seq<u8>, controller: Seq<u8>, wasm: Seq<u8>) -> ProgressView {
    ProgressView::Pending(
        DeploymentView::Reserving { caller, wasm },
        reserve_request(caller, controller),
    )
}

impl DeploymentView {
    /// Where the deployment stands once the call it waits for has ended with
    /// `outcome`. A call that failed ends the deployment with the failure of
    /// its stage; nothing is sent again and nothing is undone.
    pub open spec fn step(self, outcome: Outcome) -> ProgressView {
        match self {
            DeploymentView::Reserving { caller, wasm } => match reserved(outcome) {
                Ok(canister) => ProgressView::Pending(
                    DeploymentView::Installing { caller, canister },
                    RequestView::InstallCode(install_call(canister, InstallMode::Install, wasm)),
                ),
                Err(e) => ProgressView::Done(Err(ErrorView::ReservationFailed(e))),
            },
            DeploymentView::Installing { caller, canister } => match completed(outcome) {
                Ok(_) => ProgressView::Pending(
                    DeploymentView::Authorizing { canister },
                    authorize_request(canister, caller),
                ),
                Err(e) => ProgressView::Done(Err(ErrorView::InstallFailed(e))),
            },
            DeploymentView::Authorizing { canister } => match completed(outcome) {
                Ok(_) => ProgressView::Done(Ok(canister)),
                Err(e) => ProgressView::Done(
                    Err(ErrorView::PostInstallAuthorizationFailed(e)),
                ),
            },
        }
    }
}

/// The call that installs `wasm` on `canister` in the given mode.
pub fn install(canister: Principal, mode: InstallMode, wasm: Vec<u8>) -> (call: Call<
    InstallCodeArgument,
>)
    ensures
        call@ == install_call(canister@, mode, wasm@),
{
    InstallCode::call(
        InstallCodeArgument { mode, canister_id: canister, wasm_module: wasm, arg: Vec::new() },
    )
}

impl Deployment {
    /// Begins a deployment for `caller`, run by the factory `controller`, of
    /// the code `wasm`.
    pub fn start(caller: Principal, controller: Principal, wasm: &[u8]) -> (progress: Progress)
        ensures
            progress@ == started(caller@, controller@, wasm@),
    {
        let mut controllers: Vec<Principal> = Vec::new();
        controllers.push(caller);
        controllers.push(controller);
        let settings = CanisterSettings {
            controllers: Some(controllers),
            compute_allocation: None,
            memory_allocation: None,
            freezing_threshold: None,
        };
        proof {
            assert(ids(controllers@) =~= seq![caller@, controller@]);
        }
        let call = CreateCanister::call_with_payment(
            CreateCanisterArgument { settings: Some(settings) },
            CREATE_CANISTER_CYCLES,
        );
        Progress::Pending(
            Deployment::Reserving { caller, wasm: slice_to_vec(wasm) },
            Request::CreateCanister(call),
        )
    }

    /// Goes on with the deployment, now that the call it waited for has ended
    /// with `outcome`.
    pub fn step(self, outcome: Outcome) -> (progress: Progress)
        ensures
            progress@ == self@.step(outcome),
    {
        match self {
            Deployment::Reserving { caller, wasm } => match CreateCanister::response(outcome) {
                Ok(reply) => {
                    let canister = reply.canister_id;
                    Progress::Pending(
                        Deployment::Installing { caller, canister },
                        Request::InstallCode(install(canister, InstallMode::Install, wasm)),
                    )
                },
                Err(e) => Progress::Done(Err(Error::ReservationFailed(e))),
            },
            Deployment::Installing { caller, canister } => match InstallCode::response(outcome) {
                Ok(_) => Progress::Pending(
                    Deployment::Authorizing { canister },
                    Request::Authorize(
                        Call { canister, method: AUTHORIZE, arg: caller, payment: 0 },
                    ),
                ),
                Err(e) => Progress::Done(Err(Error::InstallFailed(e))),
            },
            Deployment::Authorizing { canister } => match expect_empty(outcome) {
                Ok(_) => Progress::Done(Ok(canister)),
                Err(e) => Progress::Done(Err(Error::PostInstallAuthorizationFailed(e))),
            },
        }
    }
}

/// What an upgrade ends with, once `install_code` has ended with `outcome`.
pub open spec fn upgraded(outcome: Outcome) -> Result<(), ErrorView> {
    match completed(outcome) {
        Ok(_) => Ok(()),
        Err(e) => Err(ErrorView::InstallFailed(e)),
    }
}

/// Ends an upgrade, now that the call that `install` made for it in mode
/// `Upgrade` has ended with `outcome`.
pub fn finish_upgrade(outcome: Outcome) -> (result: Result<(), Error>)
    ensures
        finished(result) == upgraded(outcome),
{
    match InstallCode::response(outcome) {
        Ok(_) => Ok(()),
        Err(e) => Err(Error::InstallFailed(e)),
    }
}

/// What a run shows from outside: the calls that were sent, in order, and the
/// result, if the run has come to one.
pub struct Trace {
    pub calls: Seq<RequestView>,
    pub result: Option<Result<Seq<u8>, ErrorView>>,
}

/// The run that goes on from `progress` while the calls end, in turn, with
/// `outcomes`. Outcomes that are left when the deployment is over count for
/// nothing.
pub open spec fn run(progress: ProgressView, outcomes: Seq<Outcome>) -> Trace
    decreases outcomes.len(),
{
    match progress {
        ProgressView::Done(result) => Trace { calls: Seq::empty(), result: Some(result) },
        ProgressView::Pending(state, request) => if outcomes.len() == 0 {
            Trace { calls: seq![request], result: None }
        } else {
            let rest = run(state.step(outcomes[0]), outcomes.drop_first());
            Trace { calls: seq![request] + rest.calls, result: rest.result }
        },
    }
}

/// The cycles that went with the calls, all together.
pub open spec fn paid(calls: Seq<RequestView>) -> nat
    decreases calls.len(),
{
    if calls.len() == 0 {
        0
    } else {
        paid(calls.drop_first()) + calls[0].payment()
    }
}

/// A deployment whose reservation fails ends there: the one call sent is the
/// reservation, and the result is the failure, with no canister id.
pub proof fn lemma_reservation_failure(
    caller: Seq<u8>,
    controller: Seq<u8>,
    wasm: Seq<u8>,
    outcomes: Seq<Outcome>,
)
    requires
        outcomes.len() >= 1,
        reserved(outcomes[0]) is Err,
    ensures
        run(started(caller, controller, wasm), outcomes) == (Trace {
            calls: seq![reserve_request(caller, controller)],
            result: Some(Err(ErrorView::ReservationFailed(reserved(outcomes[0])->Err_0))),
        }),
{
    reveal_with_fuel(run, 2);
    let first = seq![reserve_request(caller, controller)];
    assert(first + Seq::<RequestView>::empty() =~= first);
}

/// A deployment whose installation fails ends there: one canister was
/// reserved, the installation on it was sent, no authorization was, and the
/// result is the failure.
pub proof fn lemma_install_failure(
    caller: Seq<u8>,
    controller: Seq<u8>,
    wasm: Seq<u8>,
    outcomes: Seq<Outcome>,
)
    requires
        outcomes.len() >= 2,
        reserved(outcomes[0]) is Ok,
        completed(outcomes[1]) is Err,
    ensures
        run(started(caller, controller, wasm), outcomes) == (Trace {
            calls: seq![
                reserve_request(caller, controller),
                RequestView::InstallCode(
                    install_call(reserved(outcomes[0])->Ok_0, InstallMode::Install, wasm),
                ),
            ],
            result: Some(Err(ErrorView::InstallFailed(completed(outcomes[1])->Err_0))),
        }),
{
    reveal_with_fuel(run, 3);
    let canister = reserved(outcomes[0])->Ok_0;
    let first = reserve_request(caller, controller);
    let second = RequestView::InstallCode(install_call(canister, InstallMode::Install, wasm));
    assert(outcomes.drop_first()[0] == outcomes[1]);
    assert(seq![first] + (seq![second] + Seq::<RequestView>::empty()) =~= seq![first, second]);
}

/// A deployment whose last stage fails has sent all three calls, and the
/// result is the failure: the canister is there and runs the code, but the
/// caller was not authorized on it.
pub proof fn lemma_authorization_failure(
    caller: Seq<u8>,
    controller: Seq<u8>,
    wasm: Seq<u8>,
    outcomes: Seq<Outcome>,
)
    requires
        outcomes.len() >= 3,
        reserved(outcomes[0]) is Ok,
        completed(outcomes[1]) is Ok,
        completed(outcomes[2]) is Err,
    ensures
        run(started(caller, controller, wasm), outcomes) == (Trace {
            calls: seq![
                reserve_request(caller, controller),
                RequestView::InstallCode(
                    install_call(reserved(outcomes[0])->Ok_0, InstallMode::Install, wasm),
                ),
                authorize_request(reserved(outcomes[0])->Ok_0, caller),
            ],
            result: Some(
                Err(ErrorView::PostInstallAuthorizationFailed(completed(outcomes[2])->Err_0)),
            ),
        }),
{
    reveal_with_fuel(run, 4);
    let canister = reserved(outcomes[0])->Ok_0;
    let first = reserve_request(caller, controller);
    let second = RequestView::InstallCode(install_call(canister, InstallMode::Install, wasm));
    let third = authorize_request(canister, caller);
    assert(outcomes.drop_first()[0] == outcomes[1]);
    assert(outcomes.drop_first().drop_first()[0] == outcomes[2]);
    assert(seq![first] + (seq![second] + (seq![third] + Seq::<RequestView>::empty())) =~= seq![
        first,
        second,
        third,
    ]);
}

/// A deployment whose three calls succeed returns the id that the
/// reservation gave.
pub proof fn lemma_success(
    caller: Seq<u8>,
    controller: Seq<u8>,
    wasm: Seq<u8>,
    outcomes: Seq<Outcome>,
)
    requires
        outcomes.len() >= 3,
        reserved(outcomes[0]) is Ok,
        completed(outcomes[1]) is Ok,
        completed(outcomes[2]) is Ok,
    ensures
        run(started(caller, controller, wasm), outcomes) == (Trace {
            calls: seq![
                reserve_request(caller, controller),
                RequestView::InstallCode(
                    install_call(reserved(outcomes[0])->Ok_0, InstallMode::Install, wasm),
                ),
                authorize_request(reserved(outcomes[0])->Ok_0, caller),
            ],
            result: Some(Ok(reserved(outcomes[0])->Ok_0)),
        }),
{
    reveal_with_fuel(run, 4);
    let canister = reserved(outcomes[0])->Ok_0;
    let first = reserve_request(caller, controller);
    let second = RequestView::InstallCode(install_call(canister, InstallMode::Install, wasm));
    let third = authorize_request(canister, caller);
    assert(outcomes.drop_first()[0] == outcomes[1]);
    assert(outcomes.drop_first().drop_first()[0] == outcomes[2]);
    assert(seq![first] + (seq![second] + (seq![third] + Seq::<RequestView>::empty())) =~= seq![
        first,
        second,
        third,
    ]);
}

/// No stage of a deployment is sent twice: whatever the outcomes, a run sends
/// at most the reservation, then the installation, then the authorization.
pub proof fn lemma_no_retry(
    caller: Seq<u8>,
    controller: Seq<u8>,
    wasm: Seq<u8>,
    outcomes: Seq<Outcome>,
)
    ensures
        ({
            let calls = run(started(caller, controller, wasm), outcomes).calls;
            &&& 1 <= calls.len() <= 3
            &&& calls[0] is CreateCanister
            &&& calls.len() >= 2 ==> calls[1] is InstallCode
            &&& calls.len() >= 3 ==> calls[2] is Authorize
        }),
{
    reveal_with_fuel(run, 5);
    let tail = outcomes.drop_first();
    if outcomes.len() >= 2 {
        assert(tail[0] == outcomes[1]);
    }
    if outcomes.len() >= 3 {
        assert(tail.drop_first()[0] == outcomes[2]);
    }
}

/// Whether nothing that is still to be sent from `progress` on carries
/// cycles.
pub open spec fn unfunded(progress: ProgressView) -> bool {
    match progress {
        ProgressView::Done(_) => true,
        ProgressView::Pending(state, request) => request.payment() == 0 && !(state is Reserving),
    }
}

/// Once the canister is reserved, no call of the deployment carries cycles,
/// however the calls end.
pub proof fn lemma_unfunded_run(progress: ProgressView, outcomes: Seq<Outcome>)
    requires
        unfunded(progress),
    ensures
        paid(run(progress, outcomes).calls) == 0,
    decreases outcomes.len(),
{
    match progress {
        ProgressView::Done(_) => {},
        ProgressView::Pending(state, request) => {
            if outcomes.len() == 0 {
                reveal_with_fuel(paid, 2);
                assert(seq![request].drop_first() =~= Seq::<RequestView>::empty());
            } else {
                let next = state.step(outcomes[0]);
                let rest = run(next, outcomes.drop_first());
                lemma_unfunded_run(next, outcomes.drop_first());
                assert((seq![request] + rest.calls).drop_first() =~= rest.calls);
            }
        },
    }
}

/// The cycles of a deployment are spent once and for good: whatever the
/// outcomes of its calls, and however many of them have come in, the first
/// call sent is the reservation, and the cycles that went with all the calls
/// are those of the reservation.
pub proof fn lemma_funded_once(
    caller: Seq<u8>,
    controller: Seq<u8>,
    wasm: Seq<u8>,
    outcomes: Seq<Outcome>,
)
    ensures
        run(started(caller, controller, wasm), outcomes).calls.len() >= 1,
        run(started(caller, controller, wasm), outcomes).calls[0] == reserve_request(
            caller,
            controller,
        ),
        paid(run(started(caller, controller, wasm), outcomes).calls) == CREATE_CANISTER_CYCLES,
{
    let first = reserve_request(caller, controller);
    if outcomes.len() == 0 {
        reveal_with_fuel(paid, 2);
        assert(seq![first].drop_first() =~= Seq::<RequestView>::empty());
    } else {
        let state = DeploymentView::Reserving { caller, wasm };
        let next = state.step(outcomes[0]);
        let rest = run(next, outcomes.drop_first());
        lemma_unfunded_run(next, outcomes.drop_first());
        assert((seq![first] + rest.calls).drop_first() =~= rest.calls);
    }
}

} // verus!
