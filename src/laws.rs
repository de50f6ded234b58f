use vstd::prelude::*;
use crate::args::{arg_value, string_arg, NamedArg};
use crate::context::{deref, lookup, ContextView};
use crate::contract::{contract_name, install_step, key_name, store_step};
use crate::entry_points::{message_arg_name, EntryPoint};
use crate::error::{Abort, Error};
use crate::keys::{ContractHash, Key};

verus! {

/// A store succeeds once: against a context where the storage key is unbound,
/// storing `s1` succeeds and the key then dereferences to `s1`; storing `s2`
/// after it aborts with `KeyAlreadyExists`, and the key still dereferences to
/// `s1`.
pub proof fn write_once(v: ContextView, s1: Seq<char>, s2: Seq<char>)
    requires
        !v.named_keys.contains_key(key_name()),
        v.cells.len() < u64::MAX,
    ensures
        ({
            let (v1, r1) = store_step(v, Ok(s1));
            let (v2, r2) = store_step(v1, Ok(s2));
            &&& r1 == Ok::<(), Abort>(())
            &&& deref(v1, key_name()) == Some(s1)
            &&& r2 == Err::<(), Abort>(Abort::User(Error::KeyAlreadyExists.spec_code()))
            &&& v2 == v1
            &&& deref(v2, key_name()) == Some(s1)
        }),
{
}

/// A successful store of `s` is read back as exactly `s`.
pub proof fn round_trip(v: ContextView, s: Seq<char>)
    requires
        v.cells.len() < u64::MAX,
        store_step(v, Ok(s)).1 is Ok,
    ensures
        deref(store_step(v, Ok(s)).0, key_name()) == Some(s),
{
}

/// A store whose invocation carries no `message` argument aborts with
/// `MissingArgument` and changes nothing: the storage key stays unbound.
pub proof fn no_write_without_argument(v: ContextView, args: Seq<NamedArg>)
    requires
        !v.named_keys.contains_key(key_name()),
        arg_value(args, message_arg_name()) is None,
    ensures
        store_step(v, string_arg(args, message_arg_name())) == (v, Err::<(), Abort>(Abort::MissingArgument)),
        !store_step(v, string_arg(args, message_arg_name())).0.named_keys.contains_key(key_name()),
{
}

/// Installing twice is not guarded: both installs deploy a contract, and the
/// contract name ends bound to the second one.
pub proof fn install_twice(v: ContextView, b1: Seq<EntryPoint>, b2: Seq<EntryPoint>)
    requires
        v.contracts.len() + 1 < u64::MAX,
    ensures
        lookup(install_step(v, b1), contract_name())
            == Some(Key::Hash(ContractHash { id: v.contracts.len() as u64 })),
        lookup(install_step(install_step(v, b1), b2), contract_name())
            == Some(Key::Hash(ContractHash { id: (v.contracts.len() + 1) as u64 })),
        install_step(install_step(v, b1), b2).contracts == v.contracts.push(b1).push(b2),
{
}

} // verus!
