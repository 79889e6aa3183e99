//! The escrow: what each identity has deposited, and what a new
//! registration must deposit.

use vstd::prelude::*;

use crate::amount::Amount;
use crate::dictionary::Dictionary;
use crate::error::{took_step_with, ContractError};
use crate::identity::Identity;
use crate::views::{option_view, viewed};

verus! {

/// What is to be charged for a registration, given what the identity has on
/// deposit, what its funding source holds (if one was supplied) and what a
/// registration must deposit.  Nothing is charged while a deposit is
/// recorded.  Otherwise the call aborts with `PurseIsNone` if no funding
/// source was supplied and with `IncorrectDepositAmount` unless the source
/// holds exactly the required amount, which is then charged in full.
pub open spec fn charge_due(recorded: nat, funding: Option<nat>, required: nat) -> Result<
    Option<nat>,
    ContractError,
> {
    if recorded != 0 {
        Ok(None)
    } else {
        match funding {
            None => Err(ContractError::PurseIsNone),
            Some(balance) => if balance != required {
                Err(ContractError::IncorrectDepositAmount)
            } else {
                Ok(Some(required))
            },
        }
    }
}

/// What is to be paid back on deregistration, given what the identity has on
/// deposit: all of it, or the abort reason `NoDeposit` where that is nothing.
pub open spec fn refund_due(recorded: nat) -> Result<nat, ContractError> {
    if recorded == 0 {
        Err(ContractError::NoDeposit)
    } else {
        Ok(recorded)
    }
}

/// The sum of what is recorded for all identities.
pub open spec fn total(entries: Map<Identity, nat>) -> nat
    decreases entries.dom().len(),
    when entries.dom().finite()
{
    if entries.dom().len() == 0 {
        0
    } else {
        let account = entries.dom().choose();
        entries[account] + total(entries.remove(account))
    }
}

/// The sum of what is recorded is what is recorded for any one identity and
/// the sum of what is recorded for the others.
pub proof fn lemma_total_remove(entries: Map<Identity, nat>, account: Identity)
    requires
        entries.dom().finite(),
        entries.contains_key(account),
    ensures
        total(entries) == entries[account] + total(entries.remove(account)),
    decreases entries.dom().len(),
{
    let chosen = entries.dom().choose();
    if chosen != account {
        lemma_total_remove(entries.remove(chosen), account);
        lemma_total_remove(entries.remove(account), chosen);
        assert(entries.remove(chosen).remove(account) =~= entries.remove(account).remove(chosen));
    }
}

/// Recording a value for an identity changes the sum by the difference to
/// what was recorded for it, which is nothing where nothing was.
pub proof fn lemma_total_insert(entries: Map<Identity, nat>, account: Identity, value: nat)
    requires
        entries.dom().finite(),
    ensures
        total(entries.insert(account, value)) + (if entries.contains_key(account) {
            entries[account]
        } else {
            0
        }) == total(entries) + value,
{
    let written = entries.insert(account, value);
    lemma_total_remove(written, account);
    assert(written.remove(account) =~= entries.remove(account));
    if entries.contains_key(account) {
        lemma_total_remove(entries, account);
    } else {
        assert(entries.remove(account) =~= entries);
    }
}

/// The escrow as a mathematical value.
#[verifier::ext_equal]
pub struct DepositsView {
    /// What is recorded for each identity that ever deposited.  Zero marks a
    /// deposit that was paid back.
    pub entries: Map<Identity, nat>,
    /// What a new registration must deposit.
    pub required: nat,
}

impl DepositsView {
    /// What `account` has on deposit: nothing where nothing is recorded.
    pub open spec fn deposit_of(self, account: Identity) -> nat {
        if self.entries.contains_key(account) {
            self.entries[account]
        } else {
            0
        }
    }

    /// What the collection purse holds for the identities: the sum of what
    /// is recorded.
    pub open spec fn held(self) -> nat {
        total(self.entries)
    }

    /// What holds of every state that the escrow can reach: deposits are
    /// recorded for finitely many identities.
    pub open spec fn inv(self) -> bool {
        self.entries.dom().finite()
    }

    /// The escrow at installation: nothing is deposited, and a registration
    /// must deposit `required`.
    pub open spec fn init(required: nat) -> DepositsView {
        DepositsView { entries: Map::empty(), required }
    }

    /// Charging `account` for a registration, if it has nothing on deposit:
    /// the new state, and what is to be moved from the funding source into
    /// the collection purse.
    pub open spec fn deposit_if_needed(self, account: Identity, funding: Option<nat>) -> Result<
        (DepositsView, Option<nat>),
        ContractError,
    > {
        match charge_due(self.deposit_of(account), funding, self.required) {
            Ok(None) => Ok((self, None)),
            Ok(Some(charge)) => Ok(
                (
                    DepositsView {
                        entries: self.entries.insert(account, charge),
                        required: self.required,
                    },
                    Some(charge),
                ),
            ),
            Err(reason) => Err(reason),
        }
    }

    /// Paying back the deposit of `account`: the new state, in which nothing
    /// is recorded for it, and what is to be moved from the collection purse
    /// to the account.
    pub open spec fn withdraw(self, account: Identity) -> Result<
        (DepositsView, nat),
        ContractError,
    > {
        match refund_due(self.deposit_of(account)) {
            Ok(refund) => Ok(
                (
                    DepositsView {
                        entries: self.entries.insert(account, 0),
                        required: self.required,
                    },
                    refund,
                ),
            ),
            Err(reason) => Err(reason),
        }
    }

    /// Changing what a new registration must deposit.  What is recorded stays
    /// as it is.
    pub open spec fn set_deposit_amount(self, amount: nat) -> DepositsView {
        DepositsView { entries: self.entries, required: amount }
    }

    /// What the collection purse holds for the identities grows by exactly
    /// what a registration is charged, and by nothing where nothing is
    /// charged.
    pub proof fn lemma_deposit_held(self, account: Identity, funding: Option<nat>)
        requires
            self.inv(),
        ensures
            match self.deposit_if_needed(account, funding) {
                Ok((next, Some(charge))) => next.inv() && next.held() == self.held() + charge,
                Ok((next, None)) => next.inv() && next.held() == self.held(),
                Err(_) => true,
            },
    {
        if let Ok((next, Some(charge))) = self.deposit_if_needed(account, funding) {
            lemma_total_insert(self.entries, account, charge);
        }
    }

    /// What the collection purse holds for the identities shrinks by exactly
    /// what a deregistration pays back.
    pub proof fn lemma_withdraw_held(self, account: Identity)
        requires
            self.inv(),
        ensures
            self.withdraw(account) matches Ok((next, refund)) ==> next.inv() && next.held()
                + refund == self.held(),
    {
        if self.withdraw(account) is Ok {
            lemma_total_insert(self.entries, account, 0);
        }
    }
}

/// What is to be moved from the funding source into the collection purse for
/// a registration, given what the identity has on deposit, what its funding
/// source holds and what a registration must deposit.
pub fn deposit_due(recorded: &Amount, funding: Option<Amount>, required: &Amount) -> (charge:
    Result<Option<Amount>, ContractError>)
    ensures
        match charge_due(recorded@, option_view(funding), required@) {
            Ok(due) => charge matches Ok(told) && option_view(told) == due,
            Err(reason) => charge == Err::<Option<Amount>, ContractError>(reason),
        },
{
    if !recorded.is_zero() {
        return Ok(None);
    }
    match funding {
        None => Err(ContractError::PurseIsNone),
        Some(balance) => {
            proof {
                Amount::lemma_view_injective(balance, *required);
            }
            if balance != *required {
                Err(ContractError::IncorrectDepositAmount)
            } else {
                Ok(Some(*required))
            }
        },
    }
}

/// What is to be moved from the collection purse back to an identity on
/// deregistration, given what it has on deposit.
pub fn refund(recorded: &Amount) -> (refund: Result<Amount, ContractError>)
    ensures
        viewed(refund) == refund_due(recorded@),
{
    if recorded.is_zero() {
        Err(ContractError::NoDeposit)
    } else {
        Ok(*recorded)
    }
}

/// The escrow.
pub struct Deposits {
    entries: Dictionary<Identity, Amount>,
    required: Amount,
}

impl View for Deposits {
    type V = DepositsView;

    closed spec fn view(&self) -> DepositsView {
        DepositsView {
            entries: Map::new(
                |account: Identity| self.entries@.contains_key(account),
                |account: Identity| self.entries@[account]@,
            ),
            required: self.required@,
        }
    }
}

impl Deposits {
    /// The escrow is well formed: it is a state that the escrow can reach.
    pub closed spec fn wf(&self) -> bool {
        self.entries.wf()
    }

    /// In a well-formed escrow deposits are recorded for finitely many
    /// identities.
    pub proof fn lemma_wf_inv(&self)
        requires
            self.wf(),
        ensures
            self@.inv(),
    {
        self.entries.lemma_finite();
        assert(self@.entries.dom() =~= self.entries@.dom());
    }

    /// The escrow at installation: nothing is deposited, and a registration
    /// must deposit `required`.
    pub fn new(required: Amount) -> (deposits: Deposits)
        ensures
            deposits.wf(),
            deposits@ == DepositsView::init(required@),
    {
        let deposits = Deposits { entries: Dictionary::new(), required };
        proof {
            assert(deposits@.entries =~= Map::<Identity, nat>::empty());
        }
        deposits
    }

    /// What a new registration must deposit.
    pub fn required_deposit_amount(&self) -> (amount: Amount)
        ensures
            amount@ == self@.required,
    {
        self.required
    }

    /// What `account` has on deposit.
    pub fn get_deposit(&self, account: &Identity) -> (amount: Amount)
        requires
            self.wf(),
        ensures
            amount@ == self@.deposit_of(*account),
    {
        match self.entries.get(account) {
            Some(recorded) => *recorded,
            None => Amount::zero(),
        }
    }

    /// Records `amount` as the deposit of `account`.
    pub(crate) fn set_deposit(&mut self, account: &Identity, amount: Amount)
        requires
            old(self).wf(),
        ensures
            final(self).wf(),
            final(self)@ == (DepositsView {
                entries: old(self)@.entries.insert(*account, amount@),
                required: old(self)@.required,
            }),
    {
        let ghost before = self@;
        self.entries.put(*account, amount);
        proof {
            assert(self@.entries =~= before.entries.insert(*account, amount@));
        }
    }

    /// Charges `account` for a registration if it has nothing on deposit.
    /// `purse` is what the funding source holds, if one was supplied.  The
    /// result is what is to be moved from that source into the collection
    /// purse, if anything.
    pub fn deposit_if_needed(&mut self, account: &Identity, purse: Option<Amount>) -> (charge:
        Result<Option<Amount>, ContractError>)
        requires
            old(self).wf(),
        ensures
            final(self).wf(),
            took_step_with(
                old(self)@.deposit_if_needed(*account, option_view(purse)),
                old(self)@,
                final(self)@,
                match charge {
                    Ok(due) => Ok(option_view(due)),
                    Err(reason) => Err(reason),
                },
            ),
    {
        let recorded = self.get_deposit(account);
        match deposit_due(&recorded, purse, &self.required) {
            Ok(Some(due)) => {
                self.set_deposit(account, due);
                Ok(Some(due))
            },
            Ok(None) => Ok(None),
            Err(reason) => Err(reason),
        }
    }

    /// Pays back the deposit of `account`.  The result is what is to be
    /// moved from the collection purse to the account.
    pub fn withdraw(&mut self, account: &Identity) -> (refund: Result<Amount, ContractError>)
        requires
            old(self).wf(),
        ensures
            final(self).wf(),
            took_step_with(
                old(self)@.withdraw(*account),
                old(self)@,
                final(self)@,
                viewed(refund),
            ),
    {
        let recorded = self.get_deposit(account);
        match self::refund(&recorded) {
            Ok(due) => {
                self.set_deposit(account, Amount::zero());
                Ok(due)
            },
            Err(reason) => Err(reason),
        }
    }

    /// Changes what a new registration must deposit.
    pub fn set_deposit_amount(&mut self, amount: Amount)
        requires
            old(self).wf(),
        ensures
            final(self).wf(),
            final(self)@ == old(self)@.set_deposit_amount(amount@),
    {
        self.required = amount;
    }
}

} // verus!
