//! The logic of a canister factory: a canister that creates other canisters,
//! installs a packaged WASM module on them, and later installs it anew.
//!
//! Only authorized principals may use the factory. What the factory decides
//! is here; what it needs from the system (who calls, its own id, sending a
//! call and waiting for the answer, stable memory) is handed in as plain
//! values by the code around it.

pub mod error;
pub mod management;
pub mod principal;
pub mod users;
pub mod workflow;

use crate::error::{finished, Error, ErrorView};
use crate::management::{
    Call, CallView, InstallCodeArgument, InstallCodeArgumentView, InstallMode, Outcome,
};
use crate::principal::{ids, Principal};
use crate::users::{
    authorized, lemma_authorize_idempotent, lemma_revoke_absent, restored, revoked, snapshot_of,
    Users,
};
use crate::workflow::{
    install, install_call, run, started, Deployment, Progress, ProgressView, Trace,
};
use vstd::prelude::*;
use vstd::slice::slice_to_vec;

verus! {

/// What the guard of an entry point says of `caller`: it may go on if it is
/// in `users`, and else it is refused by name.
pub open spec fn guard(users: Seq<Seq<u8>>, caller: Seq<u8>) -> Result<(), ErrorView> {
    if users.contains(caller) {
        Ok(())
    } else {
        Err(ErrorView::NotAuthorized(caller))
    }
}

/// The authorized set after `caller` asked to authorize `user`.
pub open spec fn after_add_user(
    users: Seq<Seq<u8>>,
    caller: Seq<u8>,
    user: Seq<u8>,
) -> Seq<Seq<u8>> {
    if guard(users, caller) is Ok {
        authorized(users, user)
    } else {
        users
    }
}

/// The authorized set after `caller` asked to revoke `user`.
pub open spec fn after_del_user(
    users: Seq<Seq<u8>>,
    caller: Seq<u8>,
    user: Seq<u8>,
) -> Seq<Seq<u8>> {
    if guard(users, caller) is Ok {
        revoked(users, user)
    } else {
        users
    }
}

/// Where a deployment stands when it begins: with the reservation to send for
/// a caller that the guard passes, at its end for any other.
pub open spec fn deployed(
    users: Seq<Seq<u8>>,
    caller: Seq<u8>,
    id: Seq<u8>,
    wasm: Seq<u8>,
) -> ProgressView {
    match guard(users, caller) {
        Ok(_) => started(caller, id, wasm),
        Err(e) => ProgressView::Done(Err(e)),
    }
}

/// The call of an upgrade of the canister `id`, or the refusal of a caller
/// that the guard does not pass.
pub open spec fn upgrading(
    users: Seq<Seq<u8>>,
    caller: Seq<u8>,
    id: Seq<u8>,
    wasm: Seq<u8>,
) -> Result<CallView<InstallCodeArgumentView>, ErrorView> {
    match guard(users, caller) {
        Ok(_) => Ok(install_call(id, InstallMode::Upgrade, wasm)),
        Err(e) => Err(e),
    }
}

/// The view of what `upgrade` returns.
pub open spec fn call_or_refusal(result: Result<Call<InstallCodeArgument>, Error>) -> Result<
    CallView<InstallCodeArgumentView>,
    ErrorView,
> {
    match result {
        Ok(call) => Ok(call@),
        Err(e) => Err(e@),
    }
}

/// A caller that is not authorized is refused by every guarded entry point,
/// and none of them does anything for it: the authorized set stays as it is,
/// a deployment sends no call whatever outcomes are offered to it, and an
/// upgrade has no call to send.
pub proof fn lemma_guard_sound(
    users: Seq<Seq<u8>>,
    caller: Seq<u8>,
    user: Seq<u8>,
    id: Seq<u8>,
    wasm: Seq<u8>,
    outcomes: Seq<Outcome>,
)
    requires
        !users.contains(caller),
    ensures
        guard(users, caller) == Err::<(), ErrorView>(ErrorView::NotAuthorized(caller)),
        after_add_user(users, caller, user) == users,
        after_del_user(users, caller, user) == users,
        run(deployed(users, caller, id, wasm), outcomes) == (Trace {
            calls: Seq::empty(),
            result: Some(Err(ErrorView::NotAuthorized(caller))),
        }),
        upgrading(users, caller, id, wasm) == Err::<CallView<InstallCodeArgumentView>, ErrorView>(
            ErrorView::NotAuthorized(caller),
        ),
{
}

/// Adding a user twice leaves the authorized set as adding it once does, and
/// a caller that was let in the first time is let in the second time.
pub proof fn lemma_add_user_idempotent(users: Seq<Seq<u8>>, caller: Seq<u8>, user: Seq<u8>)
    ensures
        after_add_user(after_add_user(users, caller, user), caller, user) == after_add_user(
            users,
            caller,
            user,
        ),
        guard(after_add_user(users, caller, user), caller) == guard(users, caller),
{
    lemma_authorize_idempotent(users, user);
    if users.contains(caller) && !users.contains(user) {
        let i = choose|i: int| 0 <= i < users.len() && users[i] == caller;
        assert(users.push(user)[i] == caller);
    }
    if !users.contains(caller) {
        assert(after_add_user(users, caller, user) == users);
    }
}

/// Removing a user that is not in the authorized set changes nothing, and is
/// no failure: an authorized caller gets `Ok`.
pub proof fn lemma_del_user_absent(users: Seq<Seq<u8>>, caller: Seq<u8>, user: Seq<u8>)
    requires
        !users.contains(user),
    ensures
        after_del_user(users, caller, user) == users,
        users.contains(caller) ==> guard(users, caller) is Ok,
{
    lemma_revoke_absent(users, user);
}

/// The factory. All it keeps between calls is the authorized set, which is
/// its view.
#[derive(Clone, Debug, PartialEq, Eq)]
pub struct FactoryCanister {
    users: Users,
}

impl View for FactoryCanister {
    type V = Seq<Seq<u8>>;

    closed spec fn view(&self) -> Seq<Seq<u8>> {
        self.users@
    }
}

impl Default for FactoryCanister {
    /// The factory before it is installed: nobody is authorized.
    fn default() -> (factory: FactoryCanister)
        ensures
            factory@ == Seq::<Seq<u8>>::empty(),
    {
        FactoryCanister { users: Users::default() }
    }
}

impl FactoryCanister {
    /// The factory as `caller` installs it: `caller` alone is authorized.
    pub fn init(caller: Principal) -> (factory: FactoryCanister)
        ensures
            factory@ == seq![caller@],
    {
        FactoryCanister { users: Users::new(caller) }
    }

    /// The guard of the entry points below: passes `caller` if it is
    /// authorized.
    pub fn is_user(&self, caller: Principal) -> (result: Result<(), Error>)
        ensures
            finished(result) == guard(self@, caller@),
    {
        if self.users.is_authorized(&caller) {
            Ok(())
        } else {
            Err(Error::NotAuthorized(caller))
        }
    }

    /// Authorizes `user`, on behalf of `caller`. A caller that is not
    /// authorized changes nothing.
    pub fn add_user(&mut self, caller: Principal, user: Principal) -> (result: Result<(), Error>)
        ensures
            finished(result) == guard(old(self)@, caller@),
            final(self)@ == after_add_user(old(self)@, caller@, user@),
    {
        match self.is_user(caller) {
            Ok(_) => {
                self.users.authorize(user);
                Ok(())
            },
            Err(e) => Err(e),
        }
    }

    /// Revokes `user`, on behalf of `caller`. A caller that is not authorized
    /// changes nothing. Nothing keeps a caller from revoking itself, or the
    /// last principal that is left.
    pub fn del_user(&mut self, caller: Principal, user: Principal) -> (result: Result<(), Error>)
        ensures
            finished(result) == guard(old(self)@, caller@),
            final(self)@ == after_del_user(old(self)@, caller@, user@),
    {
        match self.is_user(caller) {
            Ok(_) => {
                self.users.revoke(&user);
                Ok(())
            },
            Err(e) => Err(e),
        }
    }

    /// Begins the deployment of `wasm` on a new canister for `caller`, by the
    /// factory whose own id is `id`. For a caller that is not authorized the
    /// deployment is over at once, with no call to send.
    pub fn deploy(&self, caller: Principal, id: Principal, wasm: &[u8]) -> (progress: Progress)
        ensures
            progress@ == deployed(self@, caller@, id@, wasm@),
    {
        match self.is_user(caller) {
            Ok(_) => Deployment::start(caller, id, wasm),
            Err(e) => Progress::Done(Err(e)),
        }
    }

    /// The call that installs `wasm` anew on the canister `id`, keeping its
    /// state. For a caller that is not authorized there is no call.
    pub fn upgrade(&self, caller: Principal, id: Principal, wasm: &[u8]) -> (result: Result<
        Call<InstallCodeArgument>,
        Error,
    >)
        ensures
            call_or_refusal(result) == upgrading(self@, caller@, id@, wasm@),
    {
        match self.is_user(caller) {
            Ok(_) => Ok(install(id, InstallMode::Upgrade, slice_to_vec(wasm))),
            Err(e) => Err(e),
        }
    }

    /// The authorized set as it is to be written to stable memory before the
    /// factory's own code is upgraded.
    pub fn pre_upgrade(&self) -> (snapshot: Vec<Principal>)
        ensures
            ids(snapshot@) == snapshot_of(self@),
    {
        self.users.snapshot()
    }

    /// The factory after its own code was upgraded, with the authorized set
    /// that was read back from stable memory.
    pub fn post_upgrade(snapshot: Vec<Principal>) -> (factory: FactoryCanister)
        ensures
            factory@ == restored(ids(snapshot@)),
    {
        FactoryCanister { users: Users::restore(snapshot) }
    }
}

} // verus!
