//! The operations that the host is told about at installation: their
//! names, what they take and what they give.
//!
//! The host takes them as a table of entry points.  An operation is first
//! described in plain values and then entered into the host's table.

use casper_types::account::AccountHash;
use casper_types::{CLType, CLTyped, EntryPointAccess, EntryPointType, EntryPoints};
use vstd::prelude::*;

verus! {

/// The host's table of entry points, `casper_types::EntryPoints`.
#[verifier::external_type_specification]
#[verifier::external_body]
pub struct ExEntryPoints(EntryPoints);

/// The host's type of a value, `casper_types::CLType`.
#[verifier::external_type_specification]
#[verifier::external_body]
pub struct ExCLType(CLType);

/// The host's access control of an entry point,
/// `casper_types::EntryPointAccess`.
#[verifier::external_type_specification]
#[verifier::external_body]
pub struct ExEntryPointAccess(EntryPointAccess);

/// The host's context of an entry point, `casper_types::EntryPointType`.
#[verifier::external_type_specification]
#[verifier::external_body]
pub struct ExEntryPointType(EntryPointType);

/// The type of a value that is handed to an operation or back from it.
#[derive(Debug, Clone, Copy, PartialEq, Eq, Structural)]
pub enum ValueType {
    /// No value.
    Unit,
    /// A text.
    String,
    /// An unsigned number of 32 bits.
    U32,
    /// An amount of the native token.
    U512,
    /// An identity.
    AccountHash,
    /// A public key.
    PublicKey,
    /// A purse, or none.
    OptionalPurse,
}

/// Who may call an operation, as far as the host sees to it.
#[derive(Debug, Clone, Copy, PartialEq, Eq, Structural)]
pub enum Access {
    /// Anybody.  What the operation asks of its caller it checks itself.
    Public,
    /// The members of the host's group `admin`.
    AdminGroup,
}

/// In which context the host runs an operation.
#[derive(Debug, Clone, Copy, PartialEq, Eq, Structural)]
pub enum Context {
    /// As session code of the caller.
    Session,
    /// Within the context of the contract.
    Contract,
}

/// A named argument of an operation.
#[derive(Debug, Clone, Copy, PartialEq, Eq)]
pub struct Parameter {
    pub name: &'static str,
    pub value_type: ValueType,
}

/// A `Parameter` as a mathematical value.
pub struct ParameterView {
    pub name: Seq<char>,
    pub value_type: ValueType,
}

impl View for Parameter {
    type V = ParameterView;

    open spec fn view(&self) -> ParameterView {
        ParameterView { name: self.name@, value_type: self.value_type }
    }
}

/// An operation as the host is told about it.
#[derive(Debug, PartialEq, Eq)]
pub struct Operation {
    pub name: &'static str,
    pub parameters: Vec<Parameter>,
    pub result_type: ValueType,
    pub access: Access,
    pub context: Context,
}

/// An `Operation` as a mathematical value.
pub struct OperationView {
    pub name: Seq<char>,
    pub parameters: Seq<ParameterView>,
    pub result_type: ValueType,
    pub access: Access,
    pub context: Context,
}

impl View for Operation {
    type V = OperationView;

    open spec fn view(&self) -> OperationView {
        OperationView {
            name: self.name@,
            parameters: Seq::new(self.parameters@.len(), |i: int| self.parameters@[i]@),
            result_type: self.result_type,
            access: self.access,
            context: self.context,
        }
    }
}

/// What a table of entry points holds: under each name the entry point of
/// that name, as the operation that it was made of.
pub uninterp spec fn entry_points_held(table: EntryPoints) -> Map<Seq<char>, OperationView>;

/// The host's type for a type of values.  An identity is an array of 32
/// bytes to the host, as `AccountHash::cl_type` tells, and a purse that may
/// be missing is an optional reference.
#[verifier::external_body]
fn cl_type(value_type: ValueType) -> CLType {
    match value_type {
        ValueType::Unit => CLType::Unit,
        ValueType::String => CLType::String,
        ValueType::U32 => CLType::U32,
        ValueType::U512 => CLType::U512,
        ValueType::AccountHash => AccountHash::cl_type(),
        ValueType::PublicKey => CLType::PublicKey,
        ValueType::OptionalPurse => CLType::Option(Box::new(CLType::URef)),
    }
}

/// The host's access control for who may call an operation, made with
/// `EntryPointAccess::groups` where it names the group `admin`.
#[verifier::external_body]
fn entry_point_access(access: Access) -> EntryPointAccess {
    match access {
        Access::Public => EntryPointAccess::Public,
        Access::AdminGroup => EntryPointAccess::groups(&["admin"]),
    }
}

/// The host's context for the context of an operation.
#[verifier::external_body]
fn entry_point_type(context: Context) -> EntryPointType {
    match context {
        Context::Session => EntryPointType::Session,
        Context::Contract => EntryPointType::Contract,
    }
}

/// `casper_types::EntryPoints::new`: a table that holds nothing.
#[verifier::external_body]
fn new_entry_points() -> (table: EntryPoints)
    ensures
        entry_points_held(table) == table_of(Seq::empty()),
{
    EntryPoints::new()
}

/// `casper_types::EntryPoints::add_entry_point`, with the entry point that
/// `casper_types::EntryPoint::new` and `casper_types::Parameter::new` make of
/// the operation: the table then holds the operation under its name, in place
/// of what it held under that name, and holds the rest as before.
#[verifier::external_body]
fn add_entry_point(table: &mut EntryPoints, operation: &Operation)
    ensures
        entry_points_held(*final(table)) == entry_points_held(*old(table)).insert(
            operation.name@,
            operation@,
        ),
{
    let parameters = operation
        .parameters
        .iter()
        .map(|p| casper_types::Parameter::new(p.name, cl_type(p.value_type)))
        .collect();
    table.add_entry_point(casper_types::EntryPoint::new(
        operation.name,
        parameters,
        cl_type(operation.result_type),
        entry_point_access(operation.access),
        entry_point_type(operation.context),
    ));
}

/// The operation `name` that takes `parameters` and gives a value of the
/// type `result_type`, and that runs within the context of the contract.
pub open spec fn operation(
    name: Seq<char>,
    parameters: Seq<(Seq<char>, ValueType)>,
    result_type: ValueType,
    access: Access,
) -> OperationView {
    OperationView {
        name,
        parameters: Seq::new(
            parameters.len(),
            |i: int| ParameterView { name: parameters[i].0, value_type: parameters[i].1 },
        ),
        result_type,
        access,
        context: Context::Contract,
    }
}

/// The views of a list of operations.
pub open spec fn operations(list: Seq<Operation>) -> Seq<OperationView> {
    Seq::new(list.len(), |i: int| list[i]@)
}

/// The table that holds each of the operations under its name.  Of two
/// operations of one name it holds the later.
pub open spec fn table_of(operations: Seq<OperationView>) -> Map<Seq<char>, OperationView>
    decreases operations.len(),
{
    if operations.len() == 0 {
        Map::empty()
    } else {
        table_of(operations.drop_last()).insert(operations.last().name, operations.last())
    }
}

/// The operations of the registry of accounts.  Each is open to anybody: an
/// operation for administrators checks its caller itself.
pub open spec fn account_operations() -> Seq<OperationView> {
    seq![
        operation(
            "set_url"@,
            seq![("url"@, ValueType::String), ("purse"@, ValueType::OptionalPurse)],
            ValueType::Unit,
            Access::Public,
        ),
        operation(
            "get_url"@,
            seq![("account"@, ValueType::AccountHash)],
            ValueType::String,
            Access::Public,
        ),
        operation("delete_url"@, seq![], ValueType::Unit, Access::Public),
        operation(
            "set_url_for_account"@,
            seq![("account"@, ValueType::AccountHash), ("url"@, ValueType::String)],
            ValueType::Unit,
            Access::Public,
        ),
        operation(
            "delete_url_for_account"@,
            seq![("account"@, ValueType::AccountHash)],
            ValueType::Unit,
            Access::Public,
        ),
        operation(
            "add_admin"@,
            seq![("account"@, ValueType::AccountHash)],
            ValueType::Unit,
            Access::Public,
        ),
        operation(
            "disable_admin"@,
            seq![("account"@, ValueType::AccountHash)],
            ValueType::Unit,
            Access::Public,
        ),
        operation("burn_one_cspr"@, seq![], ValueType::Unit, Access::Public),
        operation(
            "set_cspr_to_burn"@,
            seq![("cspr_to_burn"@, ValueType::U32)],
            ValueType::Unit,
            Access::Public,
        ),
        operation(
            "set_deposit_amount"@,
            seq![("amount"@, ValueType::U512)],
            ValueType::Unit,
            Access::Public,
        ),
    ]
}

/// The operations of the registry of validators.  The host lets only its
/// group `admin` write for another validator.
pub open spec fn validator_operations() -> Seq<OperationView> {
    seq![
        operation("set_url"@, seq![("url"@, ValueType::String)], ValueType::Unit, Access::Public),
        operation(
            "get_url"@,
            seq![("public_key"@, ValueType::PublicKey)],
            ValueType::String,
            Access::Public,
        ),
        operation("delete_url"@, seq![], ValueType::Unit, Access::Public),
        operation(
            "set_url_for_validator"@,
            seq![("public_key"@, ValueType::PublicKey), ("url"@, ValueType::String)],
            ValueType::Unit,
            Access::AdminGroup,
        ),
        operation(
            "delete_url_for_validator"@,
            seq![("public_key"@, ValueType::PublicKey)],
            ValueType::Unit,
            Access::AdminGroup,
        ),
    ]
}

/// No two of the operations have the same name.
pub open spec fn named_apart(operations: Seq<OperationView>) -> bool {
    forall|i: int, j: int|
        0 <= i < operations.len() && 0 <= j < operations.len() && i != j ==> operations[i].name
            != operations[j].name
}

/// Where no two operations have the same name, the table holds every one of
/// them under its name, and nothing under any other name.
pub proof fn lemma_table_holds_all(operations: Seq<OperationView>)
    requires
        named_apart(operations),
    ensures
        forall|i: int|
            0 <= i < operations.len() ==> table_of(operations).contains_key(
                #[trigger] operations[i].name,
            ) && table_of(operations)[operations[i].name] == operations[i],
        forall|name: Seq<char>|
            table_of(operations).contains_key(name) ==> exists|i: int|
                0 <= i < operations.len() && #[trigger] operations[i].name == name,
    decreases operations.len(),
{
    if operations.len() > 0 {
        let front = operations.drop_last();
        assert(named_apart(front)) by {
            assert forall|i: int, j: int|
                0 <= i < front.len() && 0 <= j < front.len() && i != j implies front[i].name
                != front[j].name by {
                assert(front[i] == operations[i] && front[j] == operations[j]);
            }
        }
        lemma_table_holds_all(front);
        assert forall|i: int| 0 <= i < operations.len() implies table_of(
            operations,
        ).contains_key(#[trigger] operations[i].name) && table_of(operations)[operations[i].name]
            == operations[i] by {
            if i < front.len() {
                assert(front[i] == operations[i]);
                assert(operations[i].name != operations[operations.len() - 1].name);
            }
        }
        assert forall|name: Seq<char>| table_of(operations).contains_key(name) implies exists|
            i: int,
        |
            0 <= i < operations.len() && #[trigger] operations[i].name == name by {
            if name == operations.last().name {
                assert(operations[operations.len() - 1].name == name);
            } else {
                assert(table_of(front).contains_key(name));
                let i = choose|i: int| 0 <= i < front.len() && #[trigger] front[i].name == name;
                assert(front[i] == operations[i]);
            }
        }
    }
}

/// No two operations of the registry of accounts have the same name, so that
/// the host's table holds all ten.
pub proof fn lemma_account_operations_named_apart()
    ensures
        named_apart(account_operations()),
{
    reveal_strlit("set_url");
    reveal_strlit("get_url");
    reveal_strlit("delete_url");
    reveal_strlit("set_url_for_account");
    reveal_strlit("delete_url_for_account");
    reveal_strlit("add_admin");
    reveal_strlit("disable_admin");
    reveal_strlit("burn_one_cspr");
    reveal_strlit("set_cspr_to_burn");
    reveal_strlit("set_deposit_amount");
    let names = account_operations().map_values(|o: OperationView| o.name);
    assert(names[0].len() == 7 && names[0][0] == 's');
    assert(names[1].len() == 7 && names[1][0] == 'g');
    assert(names[2].len() == 10);
    assert(names[3].len() == 19);
    assert(names[4].len() == 22);
    assert(names[5].len() == 9);
    assert(names[6].len() == 13 && names[6][0] == 'd');
    assert(names[7].len() == 13 && names[7][0] == 'b');
    assert(names[8].len() == 16);
    assert(names[9].len() == 18);
}

/// No two operations of the registry of validators have the same name.
pub proof fn lemma_validator_operations_named_apart()
    ensures
        named_apart(validator_operations()),
{
    reveal_strlit("set_url");
    reveal_strlit("get_url");
    reveal_strlit("delete_url");
    reveal_strlit("set_url_for_validator");
    reveal_strlit("delete_url_for_validator");
    let names = validator_operations().map_values(|o: OperationView| o.name);
    assert(names[0].len() == 7 && names[0][0] == 's');
    assert(names[1].len() == 7 && names[1][0] == 'g');
    assert(names[2].len() == 10);
    assert(names[3].len() == 21);
    assert(names[4].len() == 24);
}

/// An operation without arguments.
pub(crate) fn nullary(name: &'static str, result_type: ValueType, access: Access) -> (entry: Operation)
    ensures
        entry@ == operation(name@, seq![], result_type, access),
{
    let entry = Operation {
        name,
        parameters: Vec::new(),
        result_type,
        access,
        context: Context::Contract,
    };
    proof {
        assert(entry@.parameters =~= operation(name@, seq![], result_type, access).parameters);
    }
    entry
}

/// An operation with one argument.
pub(crate) fn unary(
    name: &'static str,
    argument: &'static str,
    value_type: ValueType,
    result_type: ValueType,
    access: Access,
) -> (entry: Operation)
    ensures
        entry@ == operation(name@, seq![(argument@, value_type)], result_type, access),
{
    let mut parameters: Vec<Parameter> = Vec::new();
    parameters.push(Parameter { name: argument, value_type });
    let entry = Operation { name, parameters, result_type, access, context: Context::Contract };
    proof {
        assert(entry@.parameters =~= operation(
            name@,
            seq![(argument@, value_type)],
            result_type,
            access,
        ).parameters);
    }
    entry
}

/// An operation with two arguments.
pub(crate) fn binary(
    name: &'static str,
    first: &'static str,
    first_type: ValueType,
    second: &'static str,
    second_type: ValueType,
    result_type: ValueType,
    access: Access,
) -> (entry: Operation)
    ensures
        entry@ == operation(
            name@,
            seq![(first@, first_type), (second@, second_type)],
            result_type,
            access,
        ),
{
    let mut parameters: Vec<Parameter> = Vec::new();
    parameters.push(Parameter { name: first, value_type: first_type });
    parameters.push(Parameter { name: second, value_type: second_type });
    let entry = Operation { name, parameters, result_type, access, context: Context::Contract };
    proof {
        assert(entry@.parameters =~= operation(
            name@,
            seq![(first@, first_type), (second@, second_type)],
            result_type,
            access,
        ).parameters);
    }
    entry
}

/// The host's table of the given operations.
pub fn entry_points_of(described: &Vec<Operation>) -> (table: EntryPoints)
    ensures
        entry_points_held(table) == table_of(operations(described@)),
{
    let mut table = new_entry_points();
    let mut i: usize = 0;
    while i < described.len()
        invariant
            i <= described@.len(),
            entry_points_held(table) == table_of(operations(described@).take(i as int)),
        decreases described@.len() - i,
    {
        add_entry_point(&mut table, &described[i]);
        proof {
            let all = operations(described@);
            assert(all.take(i + 1).drop_last() =~= all.take(i as int));
        }
        i += 1;
    }
    proof {
        assert(operations(described@).take(i as int) =~= operations(described@));
    }
    table
}

/// The operations of the registry of accounts, in plain values.
pub fn describe_entry_points() -> (entry_points: Vec<Operation>)
    ensures
        operations(entry_points@) == account_operations(),
{
    let mut entry_points: Vec<Operation> = Vec::new();
    entry_points.push(
        binary(
            "set_url",
            "url",
            ValueType::String,
            "purse",
            ValueType::OptionalPurse,
            ValueType::Unit,
            Access::Public,
        ),
    );
    entry_points.push(
        unary("get_url", "account", ValueType::AccountHash, ValueType::String, Access::Public),
    );
    entry_points.push(nullary("delete_url", ValueType::Unit, Access::Public));
    entry_points.push(
        binary(
            "set_url_for_account",
            "account",
            ValueType::AccountHash,
            "url",
            ValueType::String,
            ValueType::Unit,
            Access::Public,
        ),
    );
    entry_points.push(
        unary(
            "delete_url_for_account",
            "account",
            ValueType::AccountHash,
            ValueType::Unit,
            Access::Public,
        ),
    );
    entry_points.push(
        unary("add_admin", "account", ValueType::AccountHash, ValueType::Unit, Access::Public),
    );
    entry_points.push(
        unary("disable_admin", "account", ValueType::AccountHash, ValueType::Unit, Access::Public),
    );
    entry_points.push(nullary("burn_one_cspr", ValueType::Unit, Access::Public));
    entry_points.push(
        unary("set_cspr_to_burn", "cspr_to_burn", ValueType::U32, ValueType::Unit, Access::Public),
    );
    entry_points.push(
        unary("set_deposit_amount", "amount", ValueType::U512, ValueType::Unit, Access::Public),
    );
    proof {
        assert(operations(entry_points@) =~= account_operations());
    }
    entry_points
}

/// The operations of the registry of accounts, as the host is told about
/// them at installation.
pub fn get_entry_points() -> (table: EntryPoints)
    ensures
        entry_points_held(table) == table_of(account_operations()),
        forall|i: int|
            0 <= i < account_operations().len() ==> entry_points_held(table).contains_key(
                #[trigger] account_operations()[i].name,
            ) && entry_points_held(table)[account_operations()[i].name] == account_operations()[i],
{
    proof {
        lemma_account_operations_named_apart();
        lemma_table_holds_all(account_operations());
    }
    entry_points_of(&describe_entry_points())
}

} // verus!
