//! A permissioned registry that maps account identities to self-published
//! URLs.  Privileged writes are gated behind a set of administrators, and a
//! new registration is backed by a refundable escrow deposit.
//!
//! The registry performs no transfer itself: an operation takes the state,
//! the host's call stack and its arguments, and yields the new state together
//! with what the host is to burn, to collect or to pay back, or else an abort
//! reason that leaves the state untouched.
//!
//! - [`admins`], [`urls`] and [`deposits`] are the three registries, each with
//!   its mathematical model and the decisions that it takes on plain values;
//! - [`contract`] holds the three together and offers the operations that
//!   callers reach them by;
//! - [`entry_points`] tells the host which operations there are;
//! - [`laws`] states what holds of the registry whatever it is asked to do;
//! - [`validator_info`] and [`cvic`] are two smaller registries of validators'
//!   URLs that are kept under named keys.

pub mod admins;
pub mod amount;
pub mod caller;
pub mod contract;
pub mod cvic;
pub mod deposits;
pub mod dictionary;
pub mod entry_points;
pub mod error;
pub mod identity;
pub mod laws;
pub mod named_keys;
pub mod urls;
pub mod validator_info;
pub mod views;

pub use admins::Admins;
pub use amount::Amount;
pub use caller::{element_to_account_hash, get_caller, self_addr, CallStackElement};
pub use contract::{
    add_admin, burn_one_cspr, delete_url, delete_url_for_account, disable_admin, get_url,
    install_or_upgrade_contract, set_cspr_to_burn, set_deposit_amount, set_url,
    set_url_for_account, Contract, Refund, Registration,
};
pub use deposits::Deposits;
pub use entry_points::get_entry_points;
pub use error::ContractError;
pub use identity::Identity;
pub use urls::{is_valid_url, Urls};
