//! The methods of the management canister: for each its name, the argument it
//! takes and the response it gives.

use crate::error::{CallError, CallErrorView};
use crate::principal::{ids, Principal};
use vstd::prelude::*;

verus! {

/// A natural number of any size, as `candid` carries it. The library hands
/// such numbers on and never looks inside.
#[verifier::external_type_specification]
#[verifier::external_body]
pub struct ExNat(candid::Nat);

/// `candid::Nat` derives `Clone`: the copy is the same number.
pub assume_specification[ <candid::Nat as Clone>::clone ](n: &candid::Nat) -> (copy: candid::Nat)
    ensures
        copy == *n,
;

/// A call that is ready to be sent: to which canister, which method, with
/// which argument, and how many cycles go with it.
#[derive(Clone, Debug, PartialEq)]
pub struct Call<A> {
    pub canister: Principal,
    pub method: &'static str,
    pub arg: A,
    pub payment: u64,
}

pub struct CallView<A> {
    pub canister: Seq<u8>,
    pub method: Seq<char>,
    pub arg: A,
    pub payment: u64,
}

impl<A: View> View for Call<A> {
    type V = CallView<A::V>;

    open spec fn view(&self) -> CallView<A::V> {
        CallView {
            canister: self.canister@,
            method: self.method@,
            arg: self.arg@,
            payment: self.payment,
        }
    }
}

/// A canister, named by its id. Its view is the id's bytes.
#[derive(Clone, Copy, Debug, PartialEq, Eq)]
pub struct WithCanisterId {
    pub canister_id: Principal,
}

impl View for WithCanisterId {
    type V = Seq<u8>;

    open spec fn view(&self) -> Seq<u8> {
        self.canister_id@
    }
}

/// Settings of a canister. A field that is `None` leaves the setting as it is.
#[derive(Clone, Debug, PartialEq)]
pub struct CanisterSettings {
    pub controllers: Option<Vec<Principal>>,
    pub compute_allocation: Option<candid::Nat>,
    pub memory_allocation: Option<candid::Nat>,
    pub freezing_threshold: Option<candid::Nat>,
}

pub struct CanisterSettingsView {
    pub controllers: Option<Seq<Seq<u8>>>,
    pub compute_allocation: Option<candid::Nat>,
    pub memory_allocation: Option<candid::Nat>,
    pub freezing_threshold: Option<candid::Nat>,
}

impl View for CanisterSettings {
    type V = CanisterSettingsView;

    open spec fn view(&self) -> CanisterSettingsView {
        CanisterSettingsView {
            controllers: match self.controllers {
                Some(list) => Some(ids(list@)),
                None => None,
            },
            compute_allocation: self.compute_allocation,
            memory_allocation: self.memory_allocation,
            freezing_threshold: self.freezing_threshold,
        }
    }
}

impl Default for CanisterSettings {
    /// Settings that leave everything as it is.
    fn default() -> (settings: CanisterSettings)
        ensures
            settings@ == (CanisterSettingsView {
                controllers: None,
                compute_allocation: None,
                memory_allocation: None,
                freezing_threshold: None,
            }),
    {
        CanisterSettings {
            controllers: None,
            compute_allocation: None,
            memory_allocation: None,
            freezing_threshold: None,
        }
    }
}

/// The settings that a canister runs with.
#[derive(Clone, Debug, PartialEq)]
pub struct DefiniteCanisterSettings {
    pub controllers: Vec<Principal>,
    pub compute_allocation: candid::Nat,
    pub memory_allocation: candid::Nat,
    pub freezing_threshold: candid::Nat,
}

/// The argument of `create_canister`. Its view is that of the settings.
#[derive(Clone, Debug, PartialEq)]
pub struct CreateCanisterArgument {
    pub settings: Option<CanisterSettings>,
}

impl View for CreateCanisterArgument {
    type V = Option<CanisterSettingsView>;

    open spec fn view(&self) -> Option<CanisterSettingsView> {
        match self.settings {
            Some(settings) => Some(settings@),
            None => None,
        }
    }
}

/// The argument of `update_settings`.
#[derive(Clone, Debug, PartialEq)]
pub struct UpdateSettingsArgument {
    pub canister_id: Principal,
    pub settings: CanisterSettings,
}

pub struct UpdateSettingsArgumentView {
    pub canister_id: Seq<u8>,
    pub settings: CanisterSettingsView,
}

impl View for UpdateSettingsArgument {
    type V = UpdateSettingsArgumentView;

    open spec fn view(&self) -> UpdateSettingsArgumentView {
        UpdateSettingsArgumentView { canister_id: self.canister_id@, settings: self.settings@ }
    }
}

/// How code is installed: on an empty canister, over the old code with the
/// state wiped, or over the old code with the state kept.
#[derive(Clone, Copy, Debug, PartialEq, Eq, Structural)]
pub enum InstallMode {
    Install,
    Reinstall,
    Upgrade,
}

/// The argument of `install_code`.
#[derive(Clone, Debug, PartialEq)]
pub struct InstallCodeArgument {
    pub mode: InstallMode,
    pub canister_id: Principal,
    pub wasm_module: Vec<u8>,
    pub arg: Vec<u8>,
}

pub struct InstallCodeArgumentView {
    pub mode: InstallMode,
    pub canister_id: Seq<u8>,
    pub wasm_module: Seq<u8>,
    pub arg: Seq<u8>,
}

impl View for InstallCodeArgument {
    type V = InstallCodeArgumentView;

    open spec fn view(&self) -> InstallCodeArgumentView {
        InstallCodeArgumentView {
            mode: self.mode,
            canister_id: self.canister_id@,
            wasm_module: self.wasm_module@,
            arg: self.arg@,
        }
    }
}

/// Whether a canister runs.
#[derive(Clone, Copy, Debug, PartialEq, Eq, Structural)]
pub enum Status {
    Running,
    Stopping,
    Stopped,
}

/// The response of `canister_status`.
#[derive(Clone, Debug, PartialEq)]
pub struct CanisterStatusResponse {
    pub status: Status,
    pub settings: DefiniteCanisterSettings,
    pub module_hash: Option<Vec<u8>>,
    pub memory_size: candid::Nat,
    pub cycles: candid::Nat,
}

/// What a call was answered with, decoded: one variant for each shape of
/// response that a method of the catalog declares.
#[derive(Clone, Debug, PartialEq)]
pub enum Reply {
    /// Nothing.
    Empty,
    /// The id of a canister.
    CanisterId(WithCanisterId),
    /// The status of a canister.
    Status(CanisterStatusResponse),
    /// Raw bytes.
    Blob(Vec<u8>),
}

/// How a call ended: with a reply, or with the reason why there is none.
pub type Outcome = Result<Reply, CallError>;

/// The error of a reply that has not the declared shape: a response that does
/// not decode, of which no bytes are kept.
pub open spec fn undecodable() -> CallErrorView {
    CallErrorView::ResponseDeserializationError(Seq::empty())
}

/// What `response` returns for `outcome`, where `decoded` picks the response
/// out of a reply of the declared shape: the error of a call that failed, the
/// response of a reply that has the shape, `undecodable` for any other reply.
pub open spec fn responded<R>(outcome: Outcome, decoded: spec_fn(Reply) -> Option<R>, r: Result<
    R,
    CallError,
>) -> bool {
    match outcome {
        Err(e) => r == Err::<R, CallError>(e),
        Ok(reply) => match decoded(reply) {
            Some(response) => r == Ok::<R, CallError>(response),
            None => r matches Err(e) && e@ == undecodable(),
        },
    }
}

/// The response in an empty reply.
pub open spec fn decoded_empty(reply: Reply) -> Option<()> {
    match reply {
        Reply::Empty => Some(()),
        _ => None,
    }
}

/// The response in a reply that holds a canister id.
pub open spec fn decoded_canister_id(reply: Reply) -> Option<WithCanisterId> {
    match reply {
        Reply::CanisterId(id) => Some(id),
        _ => None,
    }
}

/// The response in a reply that holds a canister's status.
pub open spec fn decoded_status(reply: Reply) -> Option<CanisterStatusResponse> {
    match reply {
        Reply::Status(status) => Some(status),
        _ => None,
    }
}

/// The response in a reply that holds raw bytes.
pub open spec fn decoded_blob(reply: Reply) -> Option<Vec<u8>> {
    match reply {
        Reply::Blob(bytes) => Some(bytes),
        _ => None,
    }
}

/// The response of a method that answers with nothing.
pub fn expect_empty(outcome: Outcome) -> (r: Result<(), CallError>)
    ensures
        responded(outcome, |reply: Reply| decoded_empty(reply), r),
{
    match outcome {
        Ok(Reply::Empty) => Ok(()),
        Ok(_) => Err(CallError::ResponseDeserializationError(Vec::new())),
        Err(e) => Err(e),
    }
}

/// A method of the management canister: a name, bound for good to the type of
/// its argument and the type of its response.
pub trait ManagementMethod {
    type Argument;

    type Response;

    /// The name of the method on the wire.
    const NAME: &'static str;

    /// The characters of `NAME`.
    spec fn name() -> Seq<char>;

    /// `NAME` holds the characters of `name()`.
    proof fn lemma_name()
        ensures
            Self::NAME@ == Self::name(),
    ;

    /// The response in a reply of the declared shape, `None` for a reply of
    /// another shape.
    spec fn decoded(reply: Reply) -> Option<Self::Response>;

    /// The response of a call of this method that ended with `outcome`.
    fn response(outcome: Outcome) -> (r: Result<Self::Response, CallError>)
        ensures
            responded(outcome, |reply: Reply| Self::decoded(reply), r),
    ;

    /// A call of this method with no cycles attached.
    fn call(arg: Self::Argument) -> (call: Call<Self::Argument>)
        ensures
            call.canister@ == Seq::<u8>::empty(),
            call.method@ == Self::name(),
            call.arg == arg,
            call.payment == 0,
    {
        proof {
            Self::lemma_name();
        }
        Call { canister: Principal::management_canister(), method: Self::NAME, arg, payment: 0 }
    }

    /// A call of this method with `cycles` attached. The cycles leave the
    /// caller's balance when the call is sent, whatever the outcome.
    fn call_with_payment(arg: Self::Argument, cycles: u64) -> (call: Call<Self::Argument>)
        ensures
            call.canister@ == Seq::<u8>::empty(),
            call.method@ == Self::name(),
            call.arg == arg,
            call.payment == cycles,
    {
        proof {
            Self::lemma_name();
        }
        Call {
            canister: Principal::management_canister(),
            method: Self::NAME,
            arg,
            payment: cycles,
        }
    }
}

/// Create a canister on the current subnet.
pub struct CreateCanister;

impl ManagementMethod for CreateCanister {
    type Argument = CreateCanisterArgument;

    type Response = WithCanisterId;

    const NAME: &'static str = "create_canister";

    open spec fn name() -> Seq<char> {
        "create_canister"@
    }

    proof fn lemma_name() {
        assert(CreateCanister::NAME@ == CreateCanister::name());
    }

    open spec fn decoded(reply: Reply) -> Option<WithCanisterId> {
        decoded_canister_id(reply)
    }

    fn response(outcome: Outcome) -> (r: Result<WithCanisterId, CallError>) {
        match outcome {
            Ok(Reply::CanisterId(id)) => Ok(id),
            Ok(_) => Err(CallError::ResponseDeserializationError(Vec::new())),
            Err(e) => Err(e),
        }
    }
}

/// Update the settings of a canister.
pub struct UpdateSettings;

impl ManagementMethod for UpdateSettings {
    type Argument = UpdateSettingsArgument;

    type Response = ();

    const NAME: &'static str = "update_settings";

    open spec fn name() -> Seq<char> {
        "update_settings"@
    }

    proof fn lemma_name() {
        assert(UpdateSettings::NAME@ == UpdateSettings::name());
    }

    open spec fn decoded(reply: Reply) -> Option<()> {
        decoded_empty(reply)
    }

    fn response(outcome: Outcome) -> (r: Result<(), CallError>) {
        expect_empty(outcome)
    }
}

/// Install a WASM module on a canister.
pub struct InstallCode;

impl ManagementMethod for InstallCode {
    type Argument = InstallCodeArgument;

    type Response = ();

    const NAME: &'static str = "install_code";

    open spec fn name() -> Seq<char> {
        "install_code"@
    }

    proof fn lemma_name() {
        assert(InstallCode::NAME@ == InstallCode::name());
    }

    open spec fn decoded(reply: Reply) -> Option<()> {
        decoded_empty(reply)
    }

    fn response(outcome: Outcome) -> (r: Result<(), CallError>) {
        expect_empty(outcome)
    }
}

/// Remove the code of a canister and keep the canister.
pub struct UninstallCode;

impl ManagementMethod for UninstallCode {
    type Argument = WithCanisterId;

    type Response = ();

    const NAME: &'static str = "uninstall_code";

    open spec fn name() -> Seq<char> {
        "uninstall_code"@
    }

    proof fn lemma_name() {
        assert(UninstallCode::NAME@ == UninstallCode::name());
    }

    open spec fn decoded(reply: Reply) -> Option<()> {
        decoded_empty(reply)
    }

    fn response(outcome: Outcome) -> (r: Result<(), CallError>) {
        expect_empty(outcome)
    }
}

/// Start a canister.
pub struct StartCanister;

impl ManagementMethod for StartCanister {
    type Argument = WithCanisterId;

    type Response = ();

    const NAME: &'static str = "start_canister";

    open spec fn name() -> Seq<char> {
        "start_canister"@
    }

    proof fn lemma_name() {
        assert(StartCanister::NAME@ == StartCanister::name());
    }

    open spec fn decoded(reply: Reply) -> Option<()> {
        decoded_empty(reply)
    }

    fn response(outcome: Outcome) -> (r: Result<(), CallError>) {
        expect_empty(outcome)
    }
}

/// Stop a canister.
pub struct StopCanister;

impl ManagementMethod for StopCanister {
    type Argument = WithCanisterId;

    type Response = ();

    const NAME: &'static str = "stop_canister";

    open spec fn name() -> Seq<char> {
        "stop_canister"@
    }

    proof fn lemma_name() {
        assert(StopCanister::NAME@ == StopCanister::name());
    }

    open spec fn decoded(reply: Reply) -> Option<()> {
        decoded_empty(reply)
    }

    fn response(outcome: Outcome) -> (r: Result<(), CallError>) {
        expect_empty(outcome)
    }
}

/// Query the status of a canister.
pub struct CanisterStatus;

impl ManagementMethod for CanisterStatus {
    type Argument = WithCanisterId;

    type Response = CanisterStatusResponse;

    const NAME: &'static str = "canister_status";

    open spec fn name() -> Seq<char> {
        "canister_status"@
    }

    proof fn lemma_name() {
        assert(CanisterStatus::NAME@ == CanisterStatus::name());
    }

    open spec fn decoded(reply: Reply) -> Option<CanisterStatusResponse> {
        decoded_status(reply)
    }

    fn response(outcome: Outcome) -> (r: Result<CanisterStatusResponse, CallError>) {
        match outcome {
            Ok(Reply::Status(status)) => Ok(status),
            Ok(_) => Err(CallError::ResponseDeserializationError(Vec::new())),
            Err(e) => Err(e),
        }
    }
}

/// Delete a canister.
pub struct DeleteCanister;

impl ManagementMethod for DeleteCanister {
    type Argument = WithCanisterId;

    type Response = ();

    const NAME: &'static str = "delete_canister";

    open spec fn name() -> Seq<char> {
        "delete_canister"@
    }

    proof fn lemma_name() {
        assert(DeleteCanister::NAME@ == DeleteCanister::name());
    }

    open spec fn decoded(reply: Reply) -> Option<()> {
        decoded_empty(reply)
    }

    fn response(outcome: Outcome) -> (r: Result<(), CallError>) {
        expect_empty(outcome)
    }
}

/// Add the cycles that come with the call to a canister's balance.
pub struct DepositCycles;

impl ManagementMethod for DepositCycles {
    type Argument = WithCanisterId;

    type Response = ();

    const NAME: &'static str = "deposit_cycles";

    open spec fn name() -> Seq<char> {
        "deposit_cycles"@
    }

    proof fn lemma_name() {
        assert(DepositCycles::NAME@ == DepositCycles::name());
    }

    open spec fn decoded(reply: Reply) -> Option<()> {
        decoded_empty(reply)
    }

    fn response(outcome: Outcome) -> (r: Result<(), CallError>) {
        expect_empty(outcome)
    }
}

/// Return 32 bytes of random data.
pub struct RawRand;

impl ManagementMethod for RawRand {
    type Argument = ();

    type Response = Vec<u8>;

    const NAME: &'static str = "raw_rand";

    open spec fn name() -> Seq<char> {
        "raw_rand"@
    }

    proof fn lemma_name() {
        assert(RawRand::NAME@ == RawRand::name());
    }

    open spec fn decoded(reply: Reply) -> Option<Vec<u8>> {
        decoded_blob(reply)
    }

    fn response(outcome: Outcome) -> (r: Result<Vec<u8>, CallError>) {
        match outcome {
            Ok(Reply::Blob(bytes)) => Ok(bytes),
            Ok(_) => Err(CallError::ResponseDeserializationError(Vec::new())),
            Err(e) => Err(e),
        }
    }
}

} // verus!
