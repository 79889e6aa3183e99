//! The registry as a whole, and the operations that callers reach it by.
//!
//! Each operation resolves its caller, checks the caller's right to call it,
//! checks its arguments, and only then writes.  An operation that aborts has
//! written nothing.

use vstd::prelude::*;

use crate::admins::{Admins, AdminsView};
use crate::amount::Amount;
use crate::caller::{caller_of, deployer_of, get_caller, self_addr, CallStackElement};
use crate::deposits::{charge_due, deposit_due, Deposits, DepositsView};
use crate::error::{aborts_with, took_step, took_step_with, ContractError};
use crate::identity::Identity;
use crate::urls::{
    is_published, is_valid_url, lemma_valid_url_not_empty, published, published_url, valid_url,
    Urls, UrlsView,
};
use crate::views::{option_view, viewed};

verus! {

/// The number of units that a first registration burns, as long as no
/// administrator has set another.
pub const INITIAL_CSPR_TO_BURN: u32 = 10;

/// What the host is to do for a registration that was accepted.
#[derive(Debug, Clone, Copy, PartialEq, Eq)]
pub struct Registration {
    /// How many units of the native token to burn.
    pub burn: u32,
    /// What to move from the funding source into the collection purse, if
    /// anything.
    pub deposit: Option<Amount>,
}

/// A `Registration` as a mathematical value.
pub struct RegistrationView {
    pub burn: nat,
    pub deposit: Option<nat>,
}

impl View for Registration {
    type V = RegistrationView;

    open spec fn view(&self) -> RegistrationView {
        RegistrationView { burn: self.burn as nat, deposit: option_view(self.deposit) }
    }
}

/// What the host is to pay back for a deregistration that was accepted.
#[derive(Debug, Clone, Copy, PartialEq, Eq)]
pub struct Refund {
    /// The account to pay.
    pub account: Identity,
    /// What to move from the collection purse to the account.
    pub amount: Amount,
}

/// A `Refund` as a mathematical value.
pub struct RefundView {
    pub account: Identity,
    pub amount: nat,
}

impl View for Refund {
    type V = RefundView;

    open spec fn view(&self) -> RefundView {
        RefundView { account: self.account, amount: self.amount@ }
    }
}

/// What a registration costs, given the URL to publish, what is stored as
/// the caller's URL, what the caller has on deposit, what its funding source
/// holds (if one was supplied), what a registration must deposit, and how
/// many units a first registration burns.  Aborts with `BadUrlFormat` unless
/// the URL is accepted, then with the escrow's reasons.  The units are burnt
/// where the caller has no URL.
pub open spec fn registration_due(
    url: Seq<char>,
    stored: Option<Seq<char>>,
    recorded: nat,
    funding: Option<nat>,
    required: nat,
    cspr_to_burn: nat,
) -> Result<RegistrationView, ContractError> {
    if !valid_url(url) {
        Err(ContractError::BadUrlFormat)
    } else {
        match charge_due(recorded, funding, required) {
            Err(reason) => Err(reason),
            Ok(deposit) => Ok(
                RegistrationView {
                    burn: if published_url(stored) is Ok {
                        0
                    } else {
                        cspr_to_burn
                    },
                    deposit,
                },
            ),
        }
    }
}

/// The registry as a mathematical value.
#[verifier::ext_equal]
pub struct ContractView {
    pub admins: AdminsView,
    pub urls: UrlsView,
    pub deposits: DepositsView,
    /// How many units a first registration burns.
    pub cspr_to_burn: nat,
}

impl ContractView {
    /// What holds of every state that the registry can reach: the count of
    /// administrators is the number of active ones and at least one; what is
    /// stored as a URL is empty or accepted; and a deposit is held only for
    /// an identity that has a URL.
    pub open spec fn inv(self) -> bool {
        &&& self.admins.inv()
        &&& self.urls.inv()
        &&& self.deposits.inv()
        &&& forall|account: Identity| #[trigger]
            self.deposits.deposit_of(account) != 0 ==> self.urls.has_url(account)
    }

    /// The registry at installation: the deployer is the only administrator,
    /// nothing is registered or deposited, a registration must deposit
    /// `required`, and a first registration burns `INITIAL_CSPR_TO_BURN`
    /// units.
    pub open spec fn init(deployer: Identity, required: nat) -> ContractView {
        ContractView {
            admins: AdminsView::init(deployer),
            urls: UrlsView::init(),
            deposits: DepositsView::init(required),
            cspr_to_burn: INITIAL_CSPR_TO_BURN as nat,
        }
    }

    /// Installing the registry, or keeping the one that is installed.
    pub open spec fn install_or_upgrade(
        installed: Option<ContractView>,
        call_stack: Seq<CallStackElement>,
        required: nat,
    ) -> Result<ContractView, ContractError> {
        match installed {
            Some(state) => Ok(state),
            None => match deployer_of(call_stack) {
                Some(deployer) => Ok(ContractView::init(deployer, required)),
                None => Err(ContractError::CallerIsNotAccount),
            },
        }
    }

    /// How many units `set_url` burns for `caller`: the configured number
    /// where the caller has no URL, and none where it has one.
    pub open spec fn burn_due(self, caller: Identity) -> nat {
        if self.urls.has_url(caller) {
            0
        } else {
            self.cspr_to_burn
        }
    }

    /// The caller publishes `url` for itself.  `funding` is what the funding
    /// source holds, if one was supplied.  Aborts with `CallerIsNotAccount`,
    /// then `BadUrlFormat`, then with the escrow's reasons; otherwise stores
    /// the URL, records the deposit that was charged, if any, and says what
    /// to burn and what to collect.
    pub open spec fn set_url(
        self,
        call_stack: Seq<CallStackElement>,
        url: Seq<char>,
        funding: Option<nat>,
    ) -> Result<(ContractView, RegistrationView), ContractError> {
        match caller_of(call_stack) {
            None => Err(ContractError::CallerIsNotAccount),
            Some(caller) => match self.urls.set(caller, url) {
                Err(reason) => Err(reason),
                Ok(urls) => match self.deposits.deposit_if_needed(caller, funding) {
                    Err(reason) => Err(reason),
                    Ok((deposits, charge)) => Ok(
                        (
                            ContractView { urls, deposits, ..self },
                            RegistrationView { burn: self.burn_due(caller), deposit: charge },
                        ),
                    ),
                },
            },
        }
    }

    /// The URL of `account`, or the abort reason `NotFound` where it has
    /// none: where none was ever written, and where it was deleted.
    pub open spec fn get_url(self, account: Identity) -> Result<Seq<char>, ContractError> {
        published_url(self.urls.get(account))
    }

    /// Deregistering `account`: aborts with `NoDeposit` where nothing is held
    /// for it; otherwise deletes its URL, records that nothing is held, and
    /// says what to pay back.
    pub open spec fn deregister(self, account: Identity) -> Result<
        (ContractView, RefundView),
        ContractError,
    > {
        match self.deposits.withdraw(account) {
            Err(reason) => Err(reason),
            Ok((deposits, amount)) => Ok(
                (
                    ContractView { urls: self.urls.delete(account), deposits, ..self },
                    RefundView { account, amount },
                ),
            ),
        }
    }

    /// The caller deregisters itself.  Aborts with `CallerIsNotAccount`,
    /// then as `deregister` does.
    pub open spec fn delete_url(self, call_stack: Seq<CallStackElement>) -> Result<
        (ContractView, RefundView),
        ContractError,
    > {
        match caller_of(call_stack) {
            None => Err(ContractError::CallerIsNotAccount),
            Some(caller) => self.deregister(caller),
        }
    }

    /// An administrator publishes `url` for `account`.  Aborts as
    /// `authorize` does, then with `BadUrlFormat`.  Nothing is charged or
    /// burnt.
    pub open spec fn set_url_for_account(
        self,
        call_stack: Seq<CallStackElement>,
        account: Identity,
        url: Seq<char>,
    ) -> Result<ContractView, ContractError> {
        match self.admins.authorize(call_stack) {
            Err(reason) => Err(reason),
            Ok(_) => match self.urls.set(account, url) {
                Err(reason) => Err(reason),
                Ok(urls) => Ok(ContractView { urls, ..self }),
            },
        }
    }

    /// An administrator deregisters `account`.  Aborts as `authorize` does,
    /// then as `deregister` does.
    pub open spec fn delete_url_for_account(
        self,
        call_stack: Seq<CallStackElement>,
        account: Identity,
    ) -> Result<(ContractView, RefundView), ContractError> {
        match self.admins.authorize(call_stack) {
            Err(reason) => Err(reason),
            Ok(_) => self.deregister(account),
        }
    }

    /// An administrator makes `account` an administrator.  Aborts as
    /// `authorize` does, then as adding does.
    pub open spec fn add_admin(self, call_stack: Seq<CallStackElement>, account: Identity) -> Result<
        ContractView,
        ContractError,
    > {
        match self.admins.authorize(call_stack) {
            Err(reason) => Err(reason),
            Ok(_) => match self.admins.add(account) {
                Err(reason) => Err(reason),
                Ok(admins) => Ok(ContractView { admins, ..self }),
            },
        }
    }

    /// An administrator disables the administrator `account`.  Aborts as
    /// `authorize` does, then as disabling does.
    pub open spec fn disable_admin(
        self,
        call_stack: Seq<CallStackElement>,
        account: Identity,
    ) -> Result<ContractView, ContractError> {
        match self.admins.authorize(call_stack) {
            Err(reason) => Err(reason),
            Ok(_) => match self.admins.disable(account) {
                Err(reason) => Err(reason),
                Ok(admins) => Ok(ContractView { admins, ..self }),
            },
        }
    }

    /// An administrator changes what a new registration must deposit.
    /// Aborts as `authorize` does.
    pub open spec fn set_deposit_amount(self, call_stack: Seq<CallStackElement>, amount: nat) -> Result<
        ContractView,
        ContractError,
    > {
        match self.admins.authorize(call_stack) {
            Err(reason) => Err(reason),
            Ok(_) => Ok(
                ContractView { deposits: self.deposits.set_deposit_amount(amount), ..self },
            ),
        }
    }

    /// An administrator changes how many units a first registration burns.
    /// Aborts as `authorize` does.
    pub open spec fn set_cspr_to_burn(
        self,
        call_stack: Seq<CallStackElement>,
        cspr_to_burn: nat,
    ) -> Result<ContractView, ContractError> {
        match self.admins.authorize(call_stack) {
            Err(reason) => Err(reason),
            Ok(_) => Ok(ContractView { cspr_to_burn, ..self }),
        }
    }

    /// `set_url` accepts a call exactly when the caller is an account and
    /// `registration_due` accepts what is stored for it, and then tells the
    /// host to burn and to collect what `registration_due` says.
    pub proof fn lemma_set_url_is_registration(
        self,
        call_stack: Seq<CallStackElement>,
        url: Seq<char>,
        funding: Option<nat>,
    )
        ensures
            match caller_of(call_stack) {
                None => aborts_with(
                    self.set_url(call_stack, url, funding),
                    ContractError::CallerIsNotAccount,
                ),
                Some(caller) => match registration_due(
                    url,
                    self.urls.get(caller),
                    self.deposits.deposit_of(caller),
                    funding,
                    self.deposits.required,
                    self.cspr_to_burn,
                ) {
                    Ok(registration) => self.set_url(call_stack, url, funding) matches Ok(
                        (_, told),
                    ) && told == registration,
                    Err(reason) => aborts_with(self.set_url(call_stack, url, funding), reason),
                },
            },
    {
    }

    /// A registry that was just installed is in a state that the registry
    /// can reach.
    pub proof fn lemma_install_inv(
        installed: Option<ContractView>,
        call_stack: Seq<CallStackElement>,
        required: nat,
    )
        requires
            installed matches Some(state) ==> state.inv(),
        ensures
            ContractView::install_or_upgrade(installed, call_stack, required) matches Ok(next)
                ==> next.inv(),
    {
        if installed is None && deployer_of(call_stack) is Some {
            AdminsView::lemma_init_inv(deployer_of(call_stack)->Some_0);
        }
    }

    /// `set_url` leads from a state that the registry can reach to another.
    pub proof fn lemma_set_url_inv(
        self,
        call_stack: Seq<CallStackElement>,
        url: Seq<char>,
        funding: Option<nat>,
    )
        requires
            self.inv(),
        ensures
            self.set_url(call_stack, url, funding) matches Ok((next, _)) ==> next.inv(),
    {
        if let Ok((next, _)) = self.set_url(call_stack, url, funding) {
            let caller = caller_of(call_stack)->Some_0;
            self.urls.lemma_set_inv(caller, url);
            assert forall|account: Identity| #[trigger]
                next.deposits.deposit_of(account) != 0 implies next.urls.has_url(account) by {
                if account != caller {
                    assert(self.deposits.deposit_of(account) != 0);
                } else {
                    lemma_valid_url_not_empty(url);
                }
            }
        }
    }

    /// Deregistering leads from a state that the registry can reach to
    /// another.
    pub proof fn lemma_deregister_inv(self, account: Identity)
        requires
            self.inv(),
        ensures
            self.deregister(account) matches Ok((next, _)) ==> next.inv(),
    {
        if let Ok((next, _)) = self.deregister(account) {
            self.urls.lemma_delete_inv(account);
            assert forall|other: Identity| #[trigger]
                next.deposits.deposit_of(other) != 0 implies next.urls.has_url(other) by {
                if other != account {
                    assert(self.deposits.deposit_of(other) != 0);
                }
            }
        }
    }

    /// `set_url_for_account` leads from a state that the registry can reach
    /// to another.
    pub proof fn lemma_set_url_for_account_inv(
        self,
        call_stack: Seq<CallStackElement>,
        account: Identity,
        url: Seq<char>,
    )
        requires
            self.inv(),
        ensures
            self.set_url_for_account(call_stack, account, url) matches Ok(next) ==> next.inv(),
    {
        if let Ok(next) = self.set_url_for_account(call_stack, account, url) {
            self.urls.lemma_set_inv(account, url);
            assert forall|other: Identity| #[trigger]
                next.deposits.deposit_of(other) != 0 implies next.urls.has_url(other) by {
                if other != account {
                    assert(self.deposits.deposit_of(other) != 0);
                } else {
                    lemma_valid_url_not_empty(url);
                }
            }
        }
    }

    /// The operations on the administrators, on the required deposit and on
    /// the number of units to burn lead from a state that the registry can
    /// reach to another.
    pub proof fn lemma_admin_operations_inv(
        self,
        call_stack: Seq<CallStackElement>,
        account: Identity,
        amount: nat,
    )
        requires
            self.inv(),
        ensures
            self.add_admin(call_stack, account) matches Ok(next) ==> next.inv(),
            self.disable_admin(call_stack, account) matches Ok(next) ==> next.inv(),
            self.set_deposit_amount(call_stack, amount) matches Ok(next) ==> next.inv(),
            self.set_cspr_to_burn(call_stack, amount) matches Ok(next) ==> next.inv(),
    {
        self.admins.lemma_add_inv(account);
        self.admins.lemma_disable_inv(account);
        if let Ok(next) = self.add_admin(call_stack, account) {
            assert forall|other: Identity| #[trigger]
                next.deposits.deposit_of(other) != 0 implies next.urls.has_url(other) by {
                assert(self.deposits.deposit_of(other) != 0);
            }
        }
        if let Ok(next) = self.disable_admin(call_stack, account) {
            assert forall|other: Identity| #[trigger]
                next.deposits.deposit_of(other) != 0 implies next.urls.has_url(other) by {
                assert(self.deposits.deposit_of(other) != 0);
            }
        }
        if let Ok(next) = self.set_deposit_amount(call_stack, amount) {
            assert forall|other: Identity| #[trigger]
                next.deposits.deposit_of(other) != 0 implies next.urls.has_url(other) by {
                assert(self.deposits.deposit_of(other) != 0);
            }
        }
        if let Ok(next) = self.set_cspr_to_burn(call_stack, amount) {
            assert forall|other: Identity| #[trigger]
                next.deposits.deposit_of(other) != 0 implies next.urls.has_url(other) by {
                assert(self.deposits.deposit_of(other) != 0);
            }
        }
    }
}

/// The registry.
pub struct Contract {
    admins: Admins,
    urls: Urls,
    deposits: Deposits,
    cspr_to_burn: u32,
}

impl View for Contract {
    type V = ContractView;

    closed spec fn view(&self) -> ContractView {
        ContractView {
            admins: self.admins@,
            urls: self.urls@,
            deposits: self.deposits@,
            cspr_to_burn: self.cspr_to_burn as nat,
        }
    }
}

impl Contract {
    /// The registry is well formed: it is a state that the registry can
    /// reach.
    pub closed spec fn wf(&self) -> bool {
        &&& self.admins.wf()
        &&& self.urls.wf()
        &&& self.deposits.wf()
        &&& self@.inv()
    }

    /// What holds of every state that the registry can reach holds of a
    /// well-formed registry.
    pub proof fn lemma_wf_inv(&self)
        requires
            self.wf(),
        ensures
            self@.inv(),
    {
    }

    /// The registry of administrators.
    pub fn admins(&self) -> (admins: &Admins)
        requires
            self.wf(),
        ensures
            admins.wf(),
            admins@ == self@.admins,
    {
        &self.admins
    }

    /// The registry of URLs.
    pub fn urls(&self) -> (urls: &Urls)
        requires
            self.wf(),
        ensures
            urls.wf(),
            urls@ == self@.urls,
    {
        &self.urls
    }

    /// The escrow.
    pub fn deposits(&self) -> (deposits: &Deposits)
        requires
            self.wf(),
        ensures
            deposits.wf(),
            deposits@ == self@.deposits,
    {
        &self.deposits
    }

    /// How many units a first registration burns.
    pub fn cspr_to_burn(&self) -> (units: u32)
        ensures
            units == self@.cspr_to_burn,
    {
        self.cspr_to_burn
    }
}

/// What a registration costs: what the host is to burn and to collect for
/// it.  `stored` is what is stored as the caller's URL, `recorded` what the
/// caller has on deposit, `funding` what its funding source holds, if one
/// was supplied, `required` what a registration must deposit, and
/// `cspr_to_burn` how many units a first registration burns.
pub fn registration(
    url: &str,
    stored: &Option<String>,
    recorded: &Amount,
    funding: Option<Amount>,
    required: &Amount,
    cspr_to_burn: u32,
) -> (result: Result<Registration, ContractError>)
    ensures
        viewed(result) == registration_due(
            url@,
            option_view(*stored),
            recorded@,
            option_view(funding),
            required@,
            cspr_to_burn as nat,
        ),
{
    if !is_valid_url(url) {
        return Err(ContractError::BadUrlFormat);
    }
    match deposit_due(recorded, funding, required) {
        Err(reason) => Err(reason),
        Ok(deposit) => {
            let burn: u32 = if is_published(stored) {
                0
            } else {
                cspr_to_burn
            };
            Ok(Registration { burn, deposit })
        },
    }
}

/// The view of a registry that may be missing.
pub open spec fn contract_view(contract: Option<Contract>) -> Option<ContractView> {
    match contract {
        Some(c) => Some(c@),
        None => None,
    }
}

/// Installs the registry, unless one is installed: that one is kept as it
/// is.  The deployer, who runs the code at the top of the call stack, becomes
/// the only administrator, and a registration must deposit `deposit_amount`.
pub fn install_or_upgrade_contract(
    installed: Option<Contract>,
    call_stack: &[CallStackElement],
    deposit_amount: Amount,
) -> (contract: Result<Contract, ContractError>)
    requires
        installed matches Some(c) ==> c.wf(),
    ensures
        contract matches Ok(c) ==> c.wf(),
        viewed(contract) == ContractView::install_or_upgrade(
            contract_view(installed),
            call_stack@,
            deposit_amount@,
        ),
{
    match installed {
        Some(contract) => Ok(contract),
        None => match self_addr(call_stack) {
            Ok(deployer) => {
                proof {
                    ContractView::lemma_install_inv(None, call_stack@, deposit_amount@);
                }
                Ok(
                    Contract {
                        admins: Admins::new(&deployer),
                        urls: Urls::new(),
                        deposits: Deposits::new(deposit_amount),
                        cspr_to_burn: INITIAL_CSPR_TO_BURN,
                    },
                )
            },
            Err(reason) => Err(reason),
        },
    }
}

/// The caller publishes `url` for itself.  `purse` is what the funding
/// source holds, if one was supplied.  The result says what the host is to
/// burn and to collect.
pub fn set_url(
    contract: &mut Contract,
    call_stack: &[CallStackElement],
    url: &str,
    purse: Option<Amount>,
) -> (result: Result<Registration, ContractError>)
    requires
        old(contract).wf(),
    ensures
        final(contract).wf(),
        took_step_with(
            old(contract)@.set_url(call_stack@, url@, option_view(purse)),
            old(contract)@,
            final(contract)@,
            viewed(result),
        ),
{
    proof {
        contract@.lemma_set_url_inv(call_stack@, url@, option_view(purse));
        contract@.lemma_set_url_is_registration(call_stack@, url@, option_view(purse));
    }
    let caller = match get_caller(call_stack) {
        Ok(caller) => caller,
        Err(reason) => {
            return Err(reason);
        },
    };
    let stored = contract.urls.get(&caller);
    let recorded = contract.deposits.get_deposit(&caller);
    let required = contract.deposits.required_deposit_amount();
    match registration(url, &stored, &recorded, purse, &required, contract.cspr_to_burn) {
        Err(reason) => Err(reason),
        Ok(told) => {
            if let Some(due) = told.deposit {
                contract.deposits.set_deposit(&caller, due);
            }
            contract.urls.write(&caller, url);
            Ok(told)
        },
    }
}

/// The URL of `account`.
pub fn get_url(contract: &Contract, account: &Identity) -> (url: Result<String, ContractError>)
    requires
        contract.wf(),
    ensures
        viewed(url) == contract@.get_url(*account),
{
    published(contract.urls.get(account))
}

/// Deletes the URL of `account` and takes its deposit out of the escrow.
fn deregister(contract: &mut Contract, account: &Identity) -> (result: Result<
    Refund,
    ContractError,
>)
    requires
        old(contract).wf(),
    ensures
        final(contract).wf(),
        took_step_with(
            old(contract)@.deregister(*account),
            old(contract)@,
            final(contract)@,
            viewed(result),
        ),
{
    proof {
        contract@.lemma_deregister_inv(*account);
    }
    match contract.deposits.withdraw(account) {
        Ok(amount) => {
            contract.urls.delete(account);
            Ok(Refund { account: *account, amount })
        },
        Err(reason) => Err(reason),
    }
}

/// The caller deregisters itself.  The result says what the host is to pay
/// back, and to whom.
pub fn delete_url(contract: &mut Contract, call_stack: &[CallStackElement]) -> (result: Result<
    Refund,
    ContractError,
>)
    requires
        old(contract).wf(),
    ensures
        final(contract).wf(),
        took_step_with(
            old(contract)@.delete_url(call_stack@),
            old(contract)@,
            final(contract)@,
            viewed(result),
        ),
{
    match get_caller(call_stack) {
        Ok(caller) => deregister(contract, &caller),
        Err(reason) => Err(reason),
    }
}

/// An administrator publishes `url` for `account`.
pub fn set_url_for_account(
    contract: &mut Contract,
    call_stack: &[CallStackElement],
    account: &Identity,
    url: &str,
) -> (result: Result<(), ContractError>)
    requires
        old(contract).wf(),
    ensures
        final(contract).wf(),
        took_step(
            old(contract)@.set_url_for_account(call_stack@, *account, url@),
            old(contract)@,
            final(contract)@,
            result,
        ),
{
    proof {
        contract@.lemma_set_url_for_account_inv(call_stack@, *account, url@);
    }
    match contract.admins.assert_caller_is_admin(call_stack) {
        Ok(()) => contract.urls.set(account, url),
        Err(reason) => Err(reason),
    }
}

/// An administrator deregisters `account`.  The result says what the host
/// is to pay back, and to whom.
pub fn delete_url_for_account(
    contract: &mut Contract,
    call_stack: &[CallStackElement],
    account: &Identity,
) -> (result: Result<Refund, ContractError>)
    requires
        old(contract).wf(),
    ensures
        final(contract).wf(),
        took_step_with(
            old(contract)@.delete_url_for_account(call_stack@, *account),
            old(contract)@,
            final(contract)@,
            viewed(result),
        ),
{
    match contract.admins.assert_caller_is_admin(call_stack) {
        Ok(()) => deregister(contract, account),
        Err(reason) => Err(reason),
    }
}

/// An administrator makes `account` an administrator.
pub fn add_admin(contract: &mut Contract, call_stack: &[CallStackElement], account: &Identity) -> (result:
    Result<(), ContractError>)
    requires
        old(contract).wf(),
        old(contract)@.admins.count < u32::MAX,
    ensures
        final(contract).wf(),
        took_step(
            old(contract)@.add_admin(call_stack@, *account),
            old(contract)@,
            final(contract)@,
            result,
        ),
{
    proof {
        contract@.lemma_admin_operations_inv(call_stack@, *account, 0);
    }
    match contract.admins.assert_caller_is_admin(call_stack) {
        Ok(()) => contract.admins.add(account),
        Err(reason) => Err(reason),
    }
}

/// An administrator disables the administrator `account`.
pub fn disable_admin(
    contract: &mut Contract,
    call_stack: &[CallStackElement],
    account: &Identity,
) -> (result: Result<(), ContractError>)
    requires
        old(contract).wf(),
    ensures
        final(contract).wf(),
        took_step(
            old(contract)@.disable_admin(call_stack@, *account),
            old(contract)@,
            final(contract)@,
            result,
        ),
{
    proof {
        contract@.lemma_admin_operations_inv(call_stack@, *account, 0);
    }
    match contract.admins.assert_caller_is_admin(call_stack) {
        Ok(()) => contract.admins.disable(account),
        Err(reason) => Err(reason),
    }
}

/// An administrator changes what a new registration must deposit.
pub fn set_deposit_amount(
    contract: &mut Contract,
    call_stack: &[CallStackElement],
    amount: Amount,
) -> (result: Result<(), ContractError>)
    requires
        old(contract).wf(),
    ensures
        final(contract).wf(),
        took_step(
            old(contract)@.set_deposit_amount(call_stack@, amount@),
            old(contract)@,
            final(contract)@,
            result,
        ),
{
    proof {
        contract@.lemma_admin_operations_inv(call_stack@, arbitrary(), amount@);
    }
    match contract.admins.assert_caller_is_admin(call_stack) {
        Ok(()) => {
            contract.deposits.set_deposit_amount(amount);
            Ok(())
        },
        Err(reason) => Err(reason),
    }
}

/// An administrator changes how many units a first registration burns.
pub fn set_cspr_to_burn(
    contract: &mut Contract,
    call_stack: &[CallStackElement],
    cspr_to_burn: u32,
) -> (result: Result<(), ContractError>)
    requires
        old(contract).wf(),
    ensures
        final(contract).wf(),
        took_step(
            old(contract)@.set_cspr_to_burn(call_stack@, cspr_to_burn as nat),
            old(contract)@,
            final(contract)@,
            result,
        ),
{
    proof {
        contract@.lemma_admin_operations_inv(call_stack@, arbitrary(), cspr_to_burn as nat);
    }
    match contract.admins.assert_caller_is_admin(call_stack) {
        Ok(()) => {
            contract.cspr_to_burn = cspr_to_burn;
            Ok(())
        },
        Err(reason) => Err(reason),
    }
}

/// Number of bytes that burning one unit hands back to the host.
pub const BURN_BYTES: usize = 1575;

/// Burns one unit of the native token: the bytes that the host is made to
/// take back, which costs the caller one unit.
pub fn burn_one_cspr() -> (bytes: Vec<u8>)
    ensures
        bytes@ == Seq::new(BURN_BYTES as nat, |i: int| 255u8),
{
    let mut bytes: Vec<u8> = Vec::new();
    let mut i: usize = 0;
    while i < BURN_BYTES
        invariant
            i <= BURN_BYTES,
            bytes@ == Seq::new(i as nat, |j: int| 255u8),
        decreases BURN_BYTES - i,
    {
        bytes.push(255u8);
        i += 1;
        assert(bytes@ =~= Seq::new(i as nat, |j: int| 255u8));
    }
    bytes
}

} // verus!
