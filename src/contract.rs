use vstd::prelude::*;
use crate::args::{get_named_arg, string_arg, NamedArg};
use crate::context::{Context, ContextView};
use crate::entry_points::{is_store_bundle, message_arg, message_arg_name, store_entry_points, EntryPoint};
use crate::error::{Abort, Error};
use crate::keys::{ContractHash, Key, URef};

verus! {

/// The registry name under which the stored text is kept.
pub open spec fn key_name() -> Seq<char> {
    "my-key-name"@
}

/// The registry name under which the installer publishes the contract.
pub open spec fn contract_name() -> Seq<char> {
    "my_contract"@
}

/// The registry name of the stored text, as a string.
pub fn key_name_string() -> (r: String)
    ensures
        r@ == key_name(),
{
    "my-key-name".to_owned()
}

/// The registry name of the published contract, as a string.
pub fn contract_name_string() -> (r: String)
    ensures
        r@ == contract_name(),
{
    "my_contract".to_owned()
}

/// What one store does to a context, given what reading its argument gave:
/// the new context and the outcome. A store against a context whose storage
/// key is bound aborts with `KeyAlreadyExists`; one whose argument cannot be
/// read aborts with the host's reason; any other binds the storage key to a
/// fresh cell holding the argument. An aborted store leaves the context as it
/// was.
pub open spec fn store_step(v: ContextView, arg: Result<Seq<char>, Abort>) -> (ContextView, Result<(), Abort>) {
    if v.named_keys.contains_key(key_name()) {
        (v, Err(Abort::User(Error::KeyAlreadyExists.spec_code())))
    } else {
        match arg {
            Err(e) => (v, Err(e)),
            Ok(s) => (
                ContextView {
                    named_keys: v.named_keys.insert(key_name(), Key::URef(URef { addr: v.cells.len() as u64 })),
                    cells: v.cells.push(s),
                    contracts: v.contracts,
                },
                Ok(()),
            ),
        }
    }
}

/// What one install does to a context that deploys `bundle`: the bundle is
/// added as a new contract and the contract name is bound to it, whatever it
/// was bound to before.
pub open spec fn install_step(v: ContextView, bundle: Seq<EntryPoint>) -> ContextView {
    ContextView {
        named_keys: v.named_keys.insert(contract_name(), Key::Hash(ContractHash { id: v.contracts.len() as u64 })),
        cells: v.cells,
        contracts: v.contracts.push(bundle),
    }
}

/// The first check of a store: it may go on only where the storage key is
/// not yet bound.
pub fn check_unset(present: bool) -> (r: Result<(), Abort>)
    ensures
        r == (if present { Err(Abort::User(Error::KeyAlreadyExists.spec_code())) } else { Ok::<(), Abort>(()) }),
{
    if present {
        Err(Abort::from(Error::KeyAlreadyExists))
    } else {
        Ok(())
    }
}

/// The last check of a store, given what reading the storage key back gave:
/// nothing (`None`), or whether it was the key just written. A key that is
/// gone aborts as an unexpected absence, another key with `KeyMismatch`.
pub fn check_written(found: Option<bool>) -> (r: Result<(), Abort>)
    ensures
        r == (match found {
            None => Err(Abort::UnexpectedNone),
            Some(false) => Err(Abort::User(Error::KeyMismatch.spec_code())),
            Some(true) => Ok::<(), Abort>(()),
        }),
{
    match found {
        None => Err(Abort::UnexpectedNone),
        Some(false) => Err(Abort::from(Error::KeyMismatch)),
        Some(true) => Ok(()),
    }
}

/// Stores the text of the `message` argument under the storage key, once.
/// On success the key is bound to a fresh cell holding the text; on an abort
/// the context is left as it was.
pub fn store_string(ctx: &mut Context, args: &Vec<NamedArg>) -> (r: Result<(), Abort>)
    requires
        old(ctx)@.cells.len() < u64::MAX,
    ensures
        (final(ctx)@, r) == store_step(old(ctx)@, string_arg(args@, message_arg_name())),
{
    let name = key_name_string();
    let present = ctx.get_key(&name).is_some();
    check_unset(present)?;
    let value = get_named_arg(args, &message_arg())?;
    let uref = ctx.new_uref(value);
    let key = Key::URef(uref);
    ctx.put_key(key_name_string(), key);
    let found = match ctx.get_key(&name) {
        Some(k) => Some(k == key),
        None => None,
    };
    check_written(found)
}

/// Deploys the bundle holding the store operation as a new contract and
/// binds the contract name to it. A contract published earlier under that
/// name is replaced.
pub fn call(ctx: &mut Context)
    requires
        old(ctx)@.contracts.len() < u64::MAX,
    ensures
        is_store_bundle(final(ctx)@.contracts.last()),
        final(ctx)@ == install_step(old(ctx)@, final(ctx)@.contracts.last()),
{
    let eps = store_entry_points();
    let hash = ctx.new_contract(eps);
    ctx.put_key(contract_name_string(), Key::Hash(hash));
}

} // verus!
