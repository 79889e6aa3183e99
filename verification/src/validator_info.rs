//! URLs of validators, each kept under the validator's name.  Who may write
//! for another validator is left to the host: it lets only the members of its
//! group of administrators call the two operations that do.

use vstd::prelude::*;

use casper_types::EntryPoints;

use crate::entry_points::{
    binary, entry_points_held, entry_points_of, lemma_table_holds_all,
    lemma_validator_operations_named_apart, nullary, operations, table_of, unary,
    validator_operations, Access, Operation, ValueType,
};
use crate::error::{took_step, ContractError};
use crate::named_keys::{del_key, get_key, named, set_key, NamedKeys};
use crate::urls::{is_valid_url, valid_url};

verus! {

/// Whether a URL is accepted: whether it begins with `https://` or with
/// `http://`.
pub fn check_url(url: &str) -> (valid: bool)
    ensures
        valid == valid_url(url@),
{
    is_valid_url(url)
}

/// Publishing `url` under `name`: aborts with `BadUrlFormat` unless the URL
/// is accepted; otherwise keeps it under the name, over what was kept there.
pub open spec fn publish(keys: Map<Seq<char>, Seq<char>>, name: Seq<char>, url: Seq<char>) -> Result<
    Map<Seq<char>, Seq<char>>,
    ContractError,
> {
    if valid_url(url) {
        Ok(keys.insert(name, url))
    } else {
        Err(ContractError::BadUrlFormat)
    }
}

/// The URL that is read under `name`: the empty string where none is kept.
pub open spec fn published_under(keys: Map<Seq<char>, Seq<char>>, name: Seq<char>) -> Seq<char> {
    match named(keys, name) {
        Some(url) => url,
        None => Seq::empty(),
    }
}

/// The validator `caller` publishes `url` for itself.
pub fn set_url(keys: &mut NamedKeys, caller: &str, url: &str) -> (result: Result<
    (),
    ContractError,
>)
    requires
        old(keys).wf(),
    ensures
        final(keys).wf(),
        took_step(publish(old(keys)@, caller@, url@), old(keys)@, final(keys)@, result),
{
    if !check_url(url) {
        return Err(ContractError::BadUrlFormat);
    }
    set_key(keys, caller, url);
    Ok(())
}

/// The URL of the validator `public_key`: the empty string where it has
/// none.
pub fn get_url(keys: &NamedKeys, public_key: &str) -> (url: String)
    requires
        keys.wf(),
    ensures
        url@ == published_under(keys@, public_key@),
{
    match get_key(keys, public_key) {
        Some(url) => url,
        None => String::new(),
    }
}

/// The validator `caller` removes its URL.
pub fn delete_url(keys: &mut NamedKeys, caller: &str)
    requires
        old(keys).wf(),
    ensures
        final(keys).wf(),
        final(keys)@ == old(keys)@.remove(caller@),
{
    del_key(keys, caller);
}

/// An administrator publishes `url` for the validator `public_key`.
pub fn set_url_for_validator(keys: &mut NamedKeys, public_key: &str, url: &str) -> (result:
    Result<(), ContractError>)
    requires
        old(keys).wf(),
    ensures
        final(keys).wf(),
        took_step(publish(old(keys)@, public_key@, url@), old(keys)@, final(keys)@, result),
{
    if !check_url(url) {
        return Err(ContractError::BadUrlFormat);
    }
    set_key(keys, public_key, url);
    Ok(())
}

/// An administrator removes the URL of the validator `public_key`.
pub fn delete_url_for_validator(keys: &mut NamedKeys, public_key: &str)
    requires
        old(keys).wf(),
    ensures
        final(keys).wf(),
        final(keys)@ == old(keys)@.remove(public_key@),
{
    del_key(keys, public_key);
}

/// The operations of the registry of validators, in plain values.
pub fn describe_entry_points() -> (entry_points: Vec<Operation>)
    ensures
        operations(entry_points@) == validator_operations(),
{
    let mut entry_points: Vec<Operation> = Vec::new();
    entry_points.push(unary("set_url", "url", ValueType::String, ValueType::Unit, Access::Public));
    entry_points.push(
        unary("get_url", "public_key", ValueType::PublicKey, ValueType::String, Access::Public),
    );
    entry_points.push(nullary("delete_url", ValueType::Unit, Access::Public));
    entry_points.push(
        binary(
            "set_url_for_validator",
            "public_key",
            ValueType::PublicKey,
            "url",
            ValueType::String,
            ValueType::Unit,
            Access::AdminGroup,
        ),
    );
    entry_points.push(
        unary(
            "delete_url_for_validator",
            "public_key",
            ValueType::PublicKey,
            ValueType::Unit,
            Access::AdminGroup,
        ),
    );
    proof {
        assert(operations(entry_points@) =~= validator_operations());
    }
    entry_points
}

/// The operations of the registry of validators, as the host is told
/// about them at installation.
pub fn get_entry_points() -> (table: EntryPoints)
    ensures
        entry_points_held(table) == table_of(validator_operations()),
        forall|i: int|
            0 <= i < validator_operations().len() ==> entry_points_held(table).contains_key(
                #[trigger] validator_operations()[i].name,
            ) && entry_points_held(table)[validator_operations()[i].name]
                == validator_operations()[i],
{
    proof {
        lemma_validator_operations_named_apart();
        lemma_table_holds_all(validator_operations());
    }
    entry_points_of(&describe_entry_points())
}

} // verus!
