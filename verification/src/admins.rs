//! The registry of administrators: the identities that may perform
//! privileged operations, and the number of them.

use vstd::prelude::*;

use crate::caller::{caller_of, get_caller, CallStackElement};
use crate::dictionary::Dictionary;
use crate::error::{took_step, ContractError};
use crate::identity::Identity;

verus! {

/// The registry of administrators as a mathematical value.
#[verifier::ext_equal]
pub struct AdminsView {
    /// For each identity that was ever added, whether it is active.  An entry
    /// is never removed: a disabled administrator stays, marked inactive.
    pub entries: Map<Identity, bool>,
    /// The number of active administrators that the registry keeps beside
    /// the entries.
    pub count: nat,
}

impl AdminsView {
    /// Whether `account` is an active administrator.  An identity without an
    /// entry is none.
    pub open spec fn is_admin(self, account: Identity) -> bool {
        self.entries.contains_key(account) && self.entries[account]
    }

    /// The active administrators.
    pub open spec fn active(self) -> Set<Identity> {
        Set::new(|account: Identity| self.is_admin(account))
    }

    /// What holds of every state that the registry can reach: the count kept
    /// beside the entries is the number of active administrators, and there is
    /// at least one.
    pub open spec fn inv(self) -> bool {
        &&& self.entries.dom().finite()
        &&& self.count == self.active().len()
        &&& self.count >= 1
    }

    /// The registry at installation: the deployer is the only administrator.
    pub open spec fn init(deployer: Identity) -> AdminsView {
        AdminsView { entries: Map::empty().insert(deployer, true), count: 1 }
    }

    /// Adding `account`: aborts with `AdminExists` if it is active; otherwise
    /// marks it active and counts it.
    pub open spec fn add(self, account: Identity) -> Result<AdminsView, ContractError> {
        match count_after_add(self.is_admin(account), self.count) {
            Ok(count) => Ok(AdminsView { entries: self.entries.insert(account, true), count }),
            Err(reason) => Err(reason),
        }
    }

    /// Disabling `account`: aborts with `AdminCountTooLow` if no second
    /// administrator is active, whoever `account` is; otherwise aborts with
    /// `AdminDoesntExist` if `account` is not active; otherwise marks it
    /// inactive and counts one less.
    pub open spec fn disable(self, account: Identity) -> Result<AdminsView, ContractError> {
        match count_after_disable(self.is_admin(account), self.count) {
            Ok(count) => Ok(AdminsView { entries: self.entries.insert(account, false), count }),
            Err(reason) => Err(reason),
        }
    }

    /// Whether the caller may perform a privileged operation: aborts with
    /// `CallerIsNotAccount` if the caller is no account, and with
    /// `PermissionDenied` if it is no active administrator.
    pub open spec fn authorize(self, call_stack: Seq<CallStackElement>) -> Result<
        Identity,
        ContractError,
    > {
        match caller_of(call_stack) {
            None => Err(ContractError::CallerIsNotAccount),
            Some(caller) => if self.is_admin(caller) {
                Ok(caller)
            } else {
                Err(ContractError::PermissionDenied)
            },
        }
    }

    /// The active administrators are finitely many.
    pub proof fn lemma_active_finite(self)
        requires
            self.entries.dom().finite(),
        ensures
            self.active().finite(),
    {
        assert(self.active().subset_of(self.entries.dom()));
        vstd::set_lib::lemma_set_subset_finite(self.entries.dom(), self.active());
    }

    /// At installation the count is the number of active administrators,
    /// which is one.
    pub proof fn lemma_init_inv(deployer: Identity)
        ensures
            AdminsView::init(deployer).inv(),
            AdminsView::init(deployer).active() == set![deployer],
    {
        let state = AdminsView::init(deployer);
        assert(state.active() =~= Set::empty().insert(deployer));
    }

    /// Adding an administrator keeps the count equal to the number of active
    /// administrators: it adds exactly `account` to them.
    pub proof fn lemma_add_inv(self, account: Identity)
        requires
            self.inv(),
        ensures
            self.add(account) matches Ok(next) ==> next.inv() && next.active()
                == self.active().insert(account) && next.count == self.count + 1,
    {
        if let Ok(next) = self.add(account) {
            self.lemma_active_finite();
            assert(next.active() =~= self.active().insert(account));
        }
    }

    /// Disabling an administrator keeps the count equal to the number of
    /// active administrators, and at least one: it removes exactly `account`
    /// from them.
    pub proof fn lemma_disable_inv(self, account: Identity)
        requires
            self.inv(),
        ensures
            self.disable(account) matches Ok(next) ==> next.inv() && next.active()
                == self.active().remove(account) && next.count == self.count - 1,
    {
        if let Ok(next) = self.disable(account) {
            self.lemma_active_finite();
            assert(next.active() =~= self.active().remove(account));
        }
    }
}

/// The count after adding an identity that is active or not: adding an
/// active administrator aborts with `AdminExists`.
pub open spec fn count_after_add(active: bool, count: nat) -> Result<nat, ContractError> {
    if active {
        Err(ContractError::AdminExists)
    } else {
        Ok(count + 1)
    }
}

/// The count after disabling an identity that is active or not.  Where no
/// second administrator is active it aborts with `AdminCountTooLow`, active
/// or not; a count of 0 is met in no state that the registry can reach.
/// Otherwise disabling an identity that is not active aborts with
/// `AdminDoesntExist`.
pub open spec fn count_after_disable(active: bool, count: nat) -> Result<nat, ContractError> {
    if count <= 1 {
        Err(ContractError::AdminCountTooLow)
    } else if !active {
        Err(ContractError::AdminDoesntExist)
    } else {
        Ok((count - 1) as nat)
    }
}

/// Whether a stored entry marks an active administrator.  No entry marks
/// none.
pub fn is_active(entry: Option<&bool>) -> (active: bool)
    ensures
        active == (entry == Some(&true)),
{
    match entry {
        Some(value) => *value,
        None => false,
    }
}

/// The count to store when an identity is added, given whether it is active
/// and the count that is stored.
pub fn next_count_after_add(active: bool, count: u32) -> (next: Result<u32, ContractError>)
    requires
        count < u32::MAX,
    ensures
        match count_after_add(active, count as nat) {
            Ok(n) => next == Ok::<u32, ContractError>(n as u32) && n <= u32::MAX,
            Err(reason) => next == Err::<u32, ContractError>(reason),
        },
{
    if active {
        Err(ContractError::AdminExists)
    } else {
        Ok(count + 1)
    }
}

/// The count to store when an identity is disabled, given whether it is
/// active and the count that is stored.
pub fn next_count_after_disable(active: bool, count: u32) -> (next: Result<u32, ContractError>)
    ensures
        match count_after_disable(active, count as nat) {
            Ok(n) => next == Ok::<u32, ContractError>(n as u32) && n <= u32::MAX,
            Err(reason) => next == Err::<u32, ContractError>(reason),
        },
{
    if count <= 1 {
        Err(ContractError::AdminCountTooLow)
    } else if !active {
        Err(ContractError::AdminDoesntExist)
    } else {
        Ok(count - 1)
    }
}

/// Lets an active administrator pass, and aborts with `PermissionDenied`
/// for anybody else.
pub fn require_admin(active: bool) -> (result: Result<(), ContractError>)
    ensures
        result == (if active {
            Ok::<(), ContractError>(())
        } else {
            Err(ContractError::PermissionDenied)
        }),
{
    if active {
        Ok(())
    } else {
        Err(ContractError::PermissionDenied)
    }
}

/// The registry of administrators.
pub struct Admins {
    entries: Dictionary<Identity, bool>,
    count: u32,
}

impl View for Admins {
    type V = AdminsView;

    closed spec fn view(&self) -> AdminsView {
        AdminsView { entries: self.entries@, count: self.count as nat }
    }
}

impl Admins {
    /// The registry is well formed: it is a state that the registry can
    /// reach, so the count is the number of active administrators.
    pub closed spec fn wf(&self) -> bool {
        self.entries.wf() && self@.inv()
    }

    /// In a well-formed registry the count is the number of active
    /// administrators, and at least one.
    pub proof fn lemma_wf_inv(&self)
        requires
            self.wf(),
        ensures
            self@.inv(),
    {
    }

    /// The registry at installation, with the deployer as the only
    /// administrator.
    pub fn new(deployer: &Identity) -> (admins: Admins)
        ensures
            admins.wf(),
            admins@ == AdminsView::init(*deployer),
    {
        let mut entries: Dictionary<Identity, bool> = Dictionary::new();
        entries.put(*deployer, true);
        proof {
            AdminsView::lemma_init_inv(*deployer);
        }
        Admins { entries, count: 1 }
    }

    /// The number of active administrators.
    pub fn admins_count(&self) -> (count: u32)
        requires
            self.wf(),
        ensures
            count == self@.count,
            count == self@.active().len(),
            count >= 1,
    {
        self.count
    }

    /// Whether `account` is an active administrator.
    pub fn is_admin(&self, account: &Identity) -> (active: bool)
        requires
            self.wf(),
        ensures
            active == self@.is_admin(*account),
    {
        is_active(self.entries.get(account))
    }

    /// Makes `account` an active administrator.
    pub fn add(&mut self, account: &Identity) -> (result: Result<(), ContractError>)
        requires
            old(self).wf(),
            old(self)@.count < u32::MAX,
        ensures
            final(self).wf(),
            took_step(old(self)@.add(*account), old(self)@, final(self)@, result),
    {
        let active = self.is_admin(account);
        match next_count_after_add(active, self.count) {
            Ok(count) => {
                proof {
                    self@.lemma_add_inv(*account);
                }
                self.entries.put(*account, true);
                self.count = count;
                Ok(())
            },
            Err(reason) => Err(reason),
        }
    }

    /// Makes `account` inactive.
    pub fn disable(&mut self, account: &Identity) -> (result: Result<(), ContractError>)
        requires
            old(self).wf(),
        ensures
            final(self).wf(),
            took_step(old(self)@.disable(*account), old(self)@, final(self)@, result),
    {
        let active = self.is_admin(account);
        match next_count_after_disable(active, self.count) {
            Ok(count) => {
                proof {
                    self@.lemma_disable_inv(*account);
                }
                self.entries.put(*account, false);
                self.count = count;
                Ok(())
            },
            Err(reason) => Err(reason),
        }
    }

    /// Lets the call go on only if its caller is an active administrator.
    pub fn assert_caller_is_admin(&self, call_stack: &[CallStackElement]) -> (result: Result<
        (),
        ContractError,
    >)
        requires
            self.wf(),
        ensures
            result == match self@.authorize(call_stack@) {
                Ok(_) => Ok::<(), ContractError>(()),
                Err(reason) => Err(reason),
            },
    {
        match get_caller(call_stack) {
            Ok(caller) => require_admin(self.is_admin(&caller)),
            Err(reason) => Err(reason),
        }
    }
}

} // verus!
