//! Who is calling: the caller of an operation is read off the host's call
//! stack.

use vstd::prelude::*;

use crate::error::ContractError;
use crate::identity::Identity;

verus! {

/// One frame of the host's call stack.  The last frame is the code that is
/// running; the frame before it is its caller.
#[derive(Debug, Clone, Copy, PartialEq, Eq)]
pub enum CallStackElement {
    /// Session code that an account runs.
    Session { account_hash: Identity },
    /// Stored session code that an account runs.
    StoredSession { account_hash: Identity },
    /// A stored contract: it runs on behalf of no account.
    StoredContract,
}

impl CallStackElement {
    /// The account behind a frame, if the frame has one.
    pub open spec fn account(self) -> Option<Identity> {
        match self {
            CallStackElement::Session { account_hash } => Some(account_hash),
            CallStackElement::StoredSession { account_hash } => Some(account_hash),
            CallStackElement::StoredContract => None,
        }
    }
}

/// The identity that calls the running code: the account of the frame before
/// the last, if there is such a frame and it belongs to an account.
pub open spec fn caller_of(call_stack: Seq<CallStackElement>) -> Option<Identity> {
    if call_stack.len() >= 2 {
        call_stack[call_stack.len() - 2].account()
    } else {
        None
    }
}

/// The identity that runs the code at the top of the stack: the account of
/// the last frame, if there is a frame and it belongs to an account.
pub open spec fn deployer_of(call_stack: Seq<CallStackElement>) -> Option<Identity> {
    if call_stack.len() >= 1 {
        call_stack.last().account()
    } else {
        None
    }
}

/// What resolving an identity yields: the identity, or the abort reason
/// `CallerIsNotAccount`.
pub open spec fn resolved(identity: Option<Identity>) -> Result<Identity, ContractError> {
    match identity {
        Some(id) => Ok(id),
        None => Err(ContractError::CallerIsNotAccount),
    }
}

/// The account behind a frame of the call stack.  A stored contract is no
/// account.
pub fn element_to_account_hash(element: &CallStackElement) -> (account: Result<
    Identity,
    ContractError,
>)
    ensures
        account == resolved(element.account()),
{
    match element {
        CallStackElement::Session { account_hash } => Ok(*account_hash),
        CallStackElement::StoredSession { account_hash } => Ok(*account_hash),
        CallStackElement::StoredContract => Err(ContractError::CallerIsNotAccount),
    }
}

/// The identity of the caller.
pub fn get_caller(call_stack: &[CallStackElement]) -> (caller: Result<Identity, ContractError>)
    ensures
        caller == resolved(caller_of(call_stack@)),
{
    let len: usize = call_stack.len();
    if len < 2 {
        return Err(ContractError::CallerIsNotAccount);
    }
    element_to_account_hash(&call_stack[len - 2])
}

/// The identity of the deployer, while the registry is being installed.
pub fn self_addr(call_stack: &[CallStackElement]) -> (deployer: Result<Identity, ContractError>)
    ensures
        deployer == resolved(deployer_of(call_stack@)),
{
    let len: usize = call_stack.len();
    if len < 1 {
        return Err(ContractError::CallerIsNotAccount);
    }
    element_to_account_hash(&call_stack[len - 1])
}

} // verus!
