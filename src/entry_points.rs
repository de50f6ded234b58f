use vstd::prelude::*;

verus! {

/// The type of a parameter or of a result.
#[derive(Clone, Copy, Debug, PartialEq, Eq, Structural)]
pub enum CLType {
    Unit,
    Bool,
    U64,
    String,
}

/// Who may call an entry point.
#[derive(Clone, Copy, Debug, PartialEq, Eq, Structural)]
pub enum EntryPointAccess {
    Public,
}

/// In which context an entry point runs.
#[derive(Clone, Copy, Debug, PartialEq, Eq, Structural)]
pub enum EntryPointType {
    Session,
    Contract,
}

/// One declared parameter of an entry point.
#[derive(Debug)]
pub struct Parameter {
    pub name: String,
    pub cl_type: CLType,
}

/// The fixed declaration of one callable operation.
#[derive(Debug)]
pub struct EntryPoint {
    pub name: String,
    pub args: Vec<Parameter>,
    pub ret: CLType,
    pub access: EntryPointAccess,
    pub entry_point_type: EntryPointType,
}

/// The name of the store operation.
pub open spec fn store_entry_point_name() -> Seq<char> {
    "store_string"@
}

/// The name of the store operation's argument.
pub open spec fn message_arg_name() -> Seq<char> {
    "message"@
}

/// `ep` declares the store operation: one string parameter named `message`,
/// no result, public, run in the contract's context.
pub open spec fn is_store_entry_point(ep: EntryPoint) -> bool {
    &&& ep.name@ == store_entry_point_name()
    &&& ep.args@.len() == 1
    &&& ep.args@[0].name@ == message_arg_name()
    &&& ep.args@[0].cl_type == CLType::String
    &&& ep.ret == CLType::Unit
    &&& ep.access == EntryPointAccess::Public
    &&& ep.entry_point_type == EntryPointType::Contract
}

/// `eps` is the bundle the installer deploys: the store operation alone.
pub open spec fn is_store_bundle(eps: Seq<EntryPoint>) -> bool {
    eps.len() == 1 && is_store_entry_point(eps[0])
}

/// The name of the store operation's argument, as a string.
pub fn message_arg() -> (r: String)
    ensures
        r@ == message_arg_name(),
{
    "message".to_owned()
}

/// Builds the declaration of the store operation.
pub fn store_entry_point() -> (r: EntryPoint)
    ensures
        is_store_entry_point(r),
{
    let param = Parameter { name: message_arg(), cl_type: CLType::String };
    let mut args: Vec<Parameter> = Vec::new();
    args.push(param);
    EntryPoint {
        name: "store_string".to_owned(),
        args,
        ret: CLType::Unit,
        access: EntryPointAccess::Public,
        entry_point_type: EntryPointType::Contract,
    }
}

/// Builds the bundle of entry points that the installer deploys.
pub fn store_entry_points() -> (r: Vec<EntryPoint>)
    ensures
        is_store_bundle(r@),
{
    let mut eps: Vec<EntryPoint> = Vec::new();
    eps.push(store_entry_point());
    eps
}

} // verus!
