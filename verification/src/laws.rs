//! What holds of the registry whatever it is asked to do.

use vstd::prelude::*;

use crate::admins::AdminsView;
use crate::caller::{caller_of, CallStackElement};
use crate::contract::ContractView;
use crate::deposits::DepositsView;
use crate::error::{aborts_with, ContractError};
use crate::identity::Identity;
use crate::urls::{lemma_valid_url_not_empty, valid_url, UrlsView};

verus! {

/// Deleting a URL cannot fail, and deleting twice is deleting once.  Where
/// the identity has no URL, no identity's URL, as a reader sees it, is another
/// after the deletion.
pub proof fn lemma_delete_is_idempotent(urls: UrlsView, address: Identity)
    ensures
        urls.delete(address).delete(address) == urls.delete(address),
        !urls.delete(address).has_url(address),
        !urls.has_url(address) ==> forall|other: Identity|
            urls.delete(address).url_of(other) == urls.url_of(other),
        forall|other: Identity| other != address ==> urls.delete(address).get(other) == urls.get(other),
{
    assert(urls.delete(address).delete(address).entries =~= urls.delete(address).entries);
    if !urls.has_url(address) {
        assert forall|other: Identity| urls.delete(address).url_of(other) == urls.url_of(
            other,
        ) by {
            if other == address {
                assert(urls.url_of(address) =~= Seq::empty());
            }
        }
    }
}

/// In a state that the registry can reach, an identity without a URL has
/// nothing on deposit, so that its own `delete_url` aborts with `NoDeposit`
/// and leaves every registry as it was.
pub proof fn lemma_delete_url_without_url(
    state: ContractView,
    call_stack: Seq<CallStackElement>,
    caller: Identity,
)
    requires
        state.inv(),
        caller_of(call_stack) == Some(caller),
        !state.urls.has_url(caller),
    ensures
        state.deposits.deposit_of(caller) == 0,
        aborts_with(state.delete_url(call_stack), ContractError::NoDeposit),
{
}

/// `delete_url` can abort for two reasons only: the caller is no account, or
/// nothing is held in escrow for it.  Otherwise the caller has no URL
/// afterwards, nothing is held for it, and what was held is paid back to it.
pub proof fn lemma_delete_url_outcomes(state: ContractView, call_stack: Seq<CallStackElement>)
    ensures
        match state.delete_url(call_stack) {
            Ok((next, refund)) => {
                &&& caller_of(call_stack) == Some(refund.account)
                &&& refund.amount == state.deposits.deposit_of(refund.account)
                &&& refund.amount != 0
                &&& next.deposits.deposit_of(refund.account) == 0
                &&& !next.urls.has_url(refund.account)
                &&& aborts_with(next.get_url(refund.account), ContractError::NotFound)
            },
            Err(reason) => {
                &&& reason == ContractError::CallerIsNotAccount <==> caller_of(call_stack) is None
                &&& reason == ContractError::NoDeposit <==> (caller_of(call_stack) matches Some(
                    caller,
                ) && state.deposits.deposit_of(caller) == 0)
                &&& reason == ContractError::CallerIsNotAccount || reason
                    == ContractError::NoDeposit
            },
        },
{
}

/// What was written for an identity is what is read for it: a second
/// writing replaces the first, and what is stored for the other identities
/// stays.
pub proof fn lemma_set_then_get(
    urls: UrlsView,
    address: Identity,
    first: Seq<char>,
    second: Seq<char>,
)
    requires
        valid_url(first),
        valid_url(second),
    ensures
        urls.set(address, first) matches Ok(once) && once.get(address) == Some(first) && (
        once.set(address, second) matches Ok(twice) && twice.get(address) == Some(second)
            && forall|other: Identity|
            other != address ==> twice.get(other) == urls.get(other)),
{
}

/// After `set_url` the caller's URL is the one that it published, and
/// `get_url` returns it.
pub proof fn lemma_set_url_then_get_url(
    state: ContractView,
    call_stack: Seq<CallStackElement>,
    url: Seq<char>,
    funding: Option<nat>,
)
    ensures
        state.set_url(call_stack, url, funding) matches Ok((next, _)) ==> caller_of(call_stack)
            matches Some(caller) && next.get_url(caller) == Ok::<_, ContractError>(url),
{
    if state.set_url(call_stack, url, funding) is Ok {
        lemma_valid_url_not_empty(url);
    }
}

/// An administrator's `set_url_for_account` is read back by `get_url` too.
pub proof fn lemma_set_url_for_account_then_get_url(
    state: ContractView,
    call_stack: Seq<CallStackElement>,
    account: Identity,
    url: Seq<char>,
)
    ensures
        state.set_url_for_account(call_stack, account, url) matches Ok(next) ==> next.get_url(
            account,
        ) == Ok::<_, ContractError>(url),
{
    if state.set_url_for_account(call_stack, account, url) is Ok {
        lemma_valid_url_not_empty(url);
    }
}

/// Every operation leads from a state that the registry can reach to
/// another: the count of administrators stays the number of active ones and
/// at least one, what is stored as a URL stays empty or accepted, and a
/// deposit stays held only for an identity with a URL.
pub proof fn lemma_operations_keep_invariant(
    state: ContractView,
    call_stack: Seq<CallStackElement>,
    account: Identity,
    url: Seq<char>,
    funding: Option<nat>,
    amount: nat,
)
    requires
        state.inv(),
    ensures
        state.set_url(call_stack, url, funding) matches Ok((next, _)) ==> next.inv(),
        state.delete_url(call_stack) matches Ok((next, _)) ==> next.inv(),
        state.set_url_for_account(call_stack, account, url) matches Ok(next) ==> next.inv(),
        state.delete_url_for_account(call_stack, account) matches Ok((next, _)) ==> next.inv(),
        state.add_admin(call_stack, account) matches Ok(next) ==> next.inv(),
        state.disable_admin(call_stack, account) matches Ok(next) ==> next.inv(),
        state.set_deposit_amount(call_stack, amount) matches Ok(next) ==> next.inv(),
        state.set_cspr_to_burn(call_stack, amount) matches Ok(next) ==> next.inv(),
{
    state.lemma_set_url_inv(call_stack, url, funding);
    if let Some(caller) = caller_of(call_stack) {
        state.lemma_deregister_inv(caller);
    }
    state.lemma_deregister_inv(account);
    state.lemma_set_url_for_account_inv(call_stack, account, url);
    state.lemma_admin_operations_inv(call_stack, account, amount);
}

/// The count of administrators changes only as the active administrators
/// do: adding counts one more and makes exactly `account` active, disabling
/// counts one less and makes exactly `account` inactive, and an operation
/// that aborts changes neither.
pub proof fn lemma_count_follows_active(admins: AdminsView, account: Identity)
    requires
        admins.inv(),
    ensures
        admins.count == admins.active().len(),
        admins.add(account) matches Ok(next) ==> next.count == next.active().len()
            && next.active() == admins.active().insert(account) && !admins.active().contains(
            account,
        ),
        admins.disable(account) matches Ok(next) ==> next.count == next.active().len()
            && next.active() == admins.active().remove(account) && admins.active().contains(
            account,
        ),
{
    admins.lemma_add_inv(account);
    admins.lemma_disable_inv(account);
}

/// The last administrator cannot be disabled: with one administrator left,
/// disabling any identity aborts with `AdminCountTooLow`, an administrator or
/// not.  So the count never falls to 0.
pub proof fn lemma_last_admin_stays(admins: AdminsView, account: Identity)
    requires
        admins.inv(),
    ensures
        admins.count == 1 ==> aborts_with(admins.disable(account), ContractError::AdminCountTooLow),
        admins.disable(account) matches Ok(next) ==> next.count >= 1,
        admins.add(account) matches Ok(next) ==> next.count >= 1,
{
}

/// Through `disable_admin` too the last administrator stays: where the
/// caller is the only administrator, the call aborts with
/// `AdminCountTooLow`, whoever is to be disabled.
pub proof fn lemma_disable_admin_keeps_one(
    state: ContractView,
    call_stack: Seq<CallStackElement>,
    account: Identity,
)
    requires
        state.inv(),
        state.admins.authorize(call_stack) is Ok,
    ensures
        state.admins.count == 1 ==> aborts_with(
            state.disable_admin(call_stack, account),
            ContractError::AdminCountTooLow,
        ),
        state.disable_admin(call_stack, account) matches Ok(next) ==> next.admins.count >= 1,
{
}

/// Through `set_url` too a funding source that holds anything but the
/// required deposit is refused: for a caller with nothing on deposit and an
/// accepted URL the call aborts with `IncorrectDepositAmount`.
pub proof fn lemma_set_url_inexact_deposit_refused(
    state: ContractView,
    call_stack: Seq<CallStackElement>,
    url: Seq<char>,
    balance: nat,
)
    requires
        valid_url(url),
        caller_of(call_stack) matches Some(caller) && state.deposits.deposit_of(caller) == 0,
        balance != state.deposits.required,
    ensures
        aborts_with(
            state.set_url(call_stack, url, Some(balance)),
            ContractError::IncorrectDepositAmount,
        ),
{
}

/// A funding source that holds anything but the required deposit is
/// refused: for an identity with nothing on deposit the call aborts with
/// `IncorrectDepositAmount`, and nothing is charged.
pub proof fn lemma_inexact_deposit_refused(
    deposits: DepositsView,
    account: Identity,
    balance: nat,
)
    requires
        deposits.deposit_of(account) == 0,
        balance != deposits.required,
    ensures
        aborts_with(
            deposits.deposit_if_needed(account, Some(balance)),
            ContractError::IncorrectDepositAmount,
        ),
{
}

/// A deposit is charged once: after a charge of more than nothing, a second
/// call charges nothing and changes nothing, whatever funding source it is
/// given.
pub proof fn lemma_deposit_charged_once(
    deposits: DepositsView,
    account: Identity,
    first: Option<nat>,
    second: Option<nat>,
)
    ensures
        deposits.deposit_if_needed(account, first) matches Ok((next, Some(charge))) ==> charge
            == deposits.required && first == Some(charge) && next.deposit_of(account) == charge
            && (charge != 0 ==> next.deposit_if_needed(account, second) == Ok::<_, ContractError>(
            (next, None::<nat>),
        )),
{
}

/// Through `set_url` too a deposit is charged once: after a registration
/// that charged more than nothing, the caller's next `set_url` with an
/// accepted URL charges nothing, with or without a funding source, and burns
/// nothing.
pub proof fn lemma_set_url_charges_once(
    state: ContractView,
    call_stack: Seq<CallStackElement>,
    first_url: Seq<char>,
    first_funding: Option<nat>,
    second_url: Seq<char>,
    second_funding: Option<nat>,
)
    requires
        valid_url(second_url),
    ensures
        match state.set_url(call_stack, first_url, first_funding) {
            Ok((next, registration)) => registration.deposit is Some && registration.deposit
                != Some(0nat) ==> (next.set_url(call_stack, second_url, second_funding) matches Ok(
                (_, again),
            ) && again.deposit is None && again.burn == 0),
            Err(_) => true,
        },
{
    if state.set_url(call_stack, first_url, first_funding) is Ok {
        lemma_valid_url_not_empty(first_url);
    }
}

/// What the collection purse holds for the identities changes only by what
/// the operations tell the host to move: `set_url` adds what it charges, the
/// two operations that deregister take off what they pay back, and the other
/// operations leave it as it is.
pub proof fn lemma_escrow_is_conserved(
    state: ContractView,
    call_stack: Seq<CallStackElement>,
    account: Identity,
    url: Seq<char>,
    funding: Option<nat>,
    amount: nat,
)
    requires
        state.inv(),
    ensures
        state.set_url(call_stack, url, funding) matches Ok((next, registration))
            ==> next.deposits.held() == state.deposits.held() + (match registration.deposit {
            Some(charge) => charge,
            None => 0,
        }),
        state.delete_url(call_stack) matches Ok((next, refund)) ==> next.deposits.held()
            + refund.amount == state.deposits.held(),
        state.delete_url_for_account(call_stack, account) matches Ok((next, refund))
            ==> next.deposits.held() + refund.amount == state.deposits.held(),
        state.set_url_for_account(call_stack, account, url) matches Ok(next)
            ==> next.deposits.held() == state.deposits.held(),
        state.add_admin(call_stack, account) matches Ok(next) ==> next.deposits.held()
            == state.deposits.held(),
        state.disable_admin(call_stack, account) matches Ok(next) ==> next.deposits.held()
            == state.deposits.held(),
        state.set_deposit_amount(call_stack, amount) matches Ok(next) ==> next.deposits.held()
            == state.deposits.held(),
        state.set_cspr_to_burn(call_stack, amount) matches Ok(next) ==> next.deposits.held()
            == state.deposits.held(),
{
    if let Some(caller) = caller_of(call_stack) {
        state.deposits.lemma_deposit_held(caller, funding);
        state.deposits.lemma_withdraw_held(caller);
    }
    state.deposits.lemma_withdraw_held(account);
}

/// Being an administrator and being registered have nothing to do with
/// each other: the operations on URLs leave the administrators as they are,
/// and the operations on administrators, on the required deposit and on the
/// units to burn leave every URL and every deposit as it is.
pub proof fn lemma_admins_and_registrations_are_independent(
    state: ContractView,
    call_stack: Seq<CallStackElement>,
    account: Identity,
    url: Seq<char>,
    funding: Option<nat>,
    amount: nat,
)
    ensures
        state.set_url(call_stack, url, funding) matches Ok((next, _)) ==> next.admins
            == state.admins,
        state.delete_url(call_stack) matches Ok((next, _)) ==> next.admins == state.admins,
        state.set_url_for_account(call_stack, account, url) matches Ok(next) ==> next.admins
            == state.admins,
        state.delete_url_for_account(call_stack, account) matches Ok((next, _)) ==> next.admins
            == state.admins,
        state.add_admin(call_stack, account) matches Ok(next) ==> next.urls == state.urls
            && next.deposits == state.deposits,
        state.disable_admin(call_stack, account) matches Ok(next) ==> next.urls == state.urls
            && next.deposits == state.deposits,
        state.set_deposit_amount(call_stack, amount) matches Ok(next) ==> next.urls == state.urls
            && next.deposits.entries == state.deposits.entries && next.admins == state.admins,
        state.set_cspr_to_burn(call_stack, amount) matches Ok(next) ==> next.urls == state.urls
            && next.deposits == state.deposits && next.admins == state.admins,
{
}

/// An operation touches the URL and the deposit of one identity only: the
/// caller's for `set_url` and `delete_url`, and the named account's for the
/// two operations of administrators.
pub proof fn lemma_other_identities_are_untouched(
    state: ContractView,
    call_stack: Seq<CallStackElement>,
    account: Identity,
    url: Seq<char>,
    funding: Option<nat>,
    other: Identity,
)
    ensures
        state.set_url(call_stack, url, funding) matches Ok((next, _)) ==> (caller_of(call_stack)
            != Some(other) ==> next.urls.get(other) == state.urls.get(other)
            && next.deposits.deposit_of(other) == state.deposits.deposit_of(other)),
        state.delete_url(call_stack) matches Ok((next, _)) ==> (caller_of(call_stack) != Some(
            other,
        ) ==> next.urls.get(other) == state.urls.get(other) && next.deposits.deposit_of(other)
            == state.deposits.deposit_of(other)),
        state.set_url_for_account(call_stack, account, url) matches Ok(next) ==> (account
            != other ==> next.urls.get(other) == state.urls.get(other))
            && next.deposits == state.deposits,
        state.delete_url_for_account(call_stack, account) matches Ok((next, _)) ==> (account
            != other ==> next.urls.get(other) == state.urls.get(other)
            && next.deposits.deposit_of(other) == state.deposits.deposit_of(other)),
{
}

/// An administrator that was disabled can be added again: in between it is
/// no administrator, adding it does not abort, and afterwards it is one, with
/// the count as it was before.
pub proof fn lemma_admin_reentry(admins: AdminsView, account: Identity)
    requires
        admins.inv(),
    ensures
        admins.disable(account) matches Ok(disabled) ==> !disabled.is_admin(account) && (
        disabled.add(account) matches Ok(added) && added.is_admin(account) && added.count
            == admins.count && added.inv()),
{
    if let Ok(disabled) = admins.disable(account) {
        admins.lemma_disable_inv(account);
        disabled.lemma_add_inv(account);
    }
}

} // verus!
