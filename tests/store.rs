use string_store::args::{get_named_arg, CLValue, NamedArg};
use string_store::context::Context;
use string_store::contract::{
    call, check_unset, check_written, contract_name_string, key_name_string, store_string,
};
use string_store::entry_points::{store_entry_point, store_entry_points, CLType, EntryPointAccess, EntryPointType};
use string_store::error::{Abort, Error};
use string_store::keys::{ContractHash, Key, URef};

fn message(s: &str) -> Vec<NamedArg> {
    vec![NamedArg { name: "message".to_string(), value: CLValue::String(s.to_string()) }]
}

fn stored(ctx: &Context) -> Option<String> {
    ctx.dereference(&key_name_string())
}

#[test]
fn scenario_install_then_store() {
    let mut ctx = Context::new();
    call(&mut ctx);
    assert_eq!(store_string(&mut ctx, &message("hello")), Ok(()));
    assert_eq!(stored(&ctx), Some("hello".to_string()));
}

#[test]
fn scenario_second_store_aborts_with_code_zero() {
    let mut ctx = Context::new();
    call(&mut ctx);
    assert_eq!(store_string(&mut ctx, &message("hello")), Ok(()));
    let r = store_string(&mut ctx, &message("world"));
    assert_eq!(r, Err(Abort::User(0)));
    assert_eq!(r, Err(Abort::from(Error::KeyAlreadyExists)));
    assert_eq!(stored(&ctx), Some("hello".to_string()));
}

#[test]
fn write_once_keeps_first_value() {
    let mut ctx = Context::new();
    assert_eq!(store_string(&mut ctx, &message("first")), Ok(()));
    assert_eq!(stored(&ctx), Some("first".to_string()));
    assert_eq!(store_string(&mut ctx, &message("second")), Err(Abort::User(0)));
    assert_eq!(stored(&ctx), Some("first".to_string()));
    assert_eq!(ctx.cell_count(), 1);
}

#[test]
fn round_trip_empty_and_unicode() {
    for s in ["", "a", "héllo wörld ✓", "my-key-name"] {
        let mut ctx = Context::new();
        assert_eq!(store_string(&mut ctx, &message(s)), Ok(()));
        assert_eq!(stored(&ctx), Some(s.to_string()));
    }
}

#[test]
fn missing_argument_writes_nothing() {
    let mut ctx = Context::new();
    let r = store_string(&mut ctx, &Vec::new());
    assert_eq!(r, Err(Abort::MissingArgument));
    assert_eq!(ctx.get_key(&key_name_string()), None);
    assert_eq!(ctx.cell_count(), 0);
}

#[test]
fn argument_under_another_name_is_missing() {
    let mut ctx = Context::new();
    let args = vec![NamedArg { name: "msg".to_string(), value: CLValue::String("x".to_string()) }];
    assert_eq!(store_string(&mut ctx, &args), Err(Abort::MissingArgument));
    assert_eq!(stored(&ctx), None);
}

#[test]
fn mistyped_argument_is_invalid() {
    let mut ctx = Context::new();
    let args = vec![NamedArg { name: "message".to_string(), value: CLValue::U64(7) }];
    assert_eq!(store_string(&mut ctx, &args), Err(Abort::InvalidArgument));
    assert_eq!(ctx.get_key(&key_name_string()), None);
    assert_eq!(ctx.cell_count(), 0);
}

#[test]
fn first_matching_argument_is_read() {
    let args = vec![
        NamedArg { name: "other".to_string(), value: CLValue::Bool(true) },
        NamedArg { name: "message".to_string(), value: CLValue::String("one".to_string()) },
        NamedArg { name: "message".to_string(), value: CLValue::String("two".to_string()) },
    ];
    assert_eq!(get_named_arg(&args, &"message".to_string()), Ok("one".to_string()));
    assert_eq!(get_named_arg(&args, &"other".to_string()), Err(Abort::InvalidArgument));
    assert_eq!(get_named_arg(&args, &"none".to_string()), Err(Abort::MissingArgument));
}

#[test]
fn store_after_failed_attempt_succeeds() {
    let mut ctx = Context::new();
    assert_eq!(store_string(&mut ctx, &Vec::new()), Err(Abort::MissingArgument));
    assert_eq!(store_string(&mut ctx, &message("late")), Ok(()));
    assert_eq!(stored(&ctx), Some("late".to_string()));
}

#[test]
fn store_binds_a_fresh_handle() {
    let mut ctx = Context::new();
    let earlier = ctx.new_uref("unrelated".to_string());
    assert_eq!(earlier, URef { addr: 0 });
    assert_eq!(store_string(&mut ctx, &message("v")), Ok(()));
    assert_eq!(ctx.get_key(&key_name_string()), Some(Key::URef(URef { addr: 1 })));
    assert_eq!(ctx.read(earlier), Some("unrelated".to_string()));
}

#[test]
fn install_publishes_store_operation() {
    let mut ctx = Context::new();
    call(&mut ctx);
    assert_eq!(ctx.contract_count(), 1);
    assert_eq!(ctx.get_key(&contract_name_string()), Some(Key::Hash(ContractHash { id: 0 })));
    assert_eq!(stored(&ctx), None);
}

#[test]
fn install_twice_replaces_publication() {
    let mut ctx = Context::new();
    call(&mut ctx);
    call(&mut ctx);
    assert_eq!(ctx.contract_count(), 2);
    assert_eq!(ctx.get_key(&contract_name_string()), Some(Key::Hash(ContractHash { id: 1 })));
}

#[test]
fn entry_point_declaration() {
    let ep = store_entry_point();
    assert_eq!(ep.name, "store_string");
    assert_eq!(ep.args.len(), 1);
    assert_eq!(ep.args[0].name, "message");
    assert_eq!(ep.args[0].cl_type, CLType::String);
    assert_eq!(ep.ret, CLType::Unit);
    assert_eq!(ep.access, EntryPointAccess::Public);
    assert_eq!(ep.entry_point_type, EntryPointType::Contract);
    assert_eq!(store_entry_points().len(), 1);
}

#[test]
fn checks_decide_outcomes() {
    assert_eq!(check_unset(false), Ok(()));
    assert_eq!(check_unset(true), Err(Abort::User(0)));
    assert_eq!(check_written(Some(true)), Ok(()));
    assert_eq!(check_written(Some(false)), Err(Abort::User(1)));
    assert_eq!(check_written(None), Err(Abort::UnexpectedNone));
}

#[test]
fn error_codes() {
    assert_eq!(Error::KeyAlreadyExists.code(), 0);
    assert_eq!(Error::KeyMismatch.code(), 1);
    assert_eq!(Abort::from(Error::KeyMismatch), Abort::User(1));
}

#[test]
fn abort_values_as_host_reports_them() {
    assert_eq!(Abort::UnexpectedNone.value(), 1);
    assert_eq!(Abort::MissingArgument.value(), 2);
    assert_eq!(Abort::InvalidArgument.value(), 3);
    assert_eq!(Abort::from(Error::KeyAlreadyExists).value(), 65_536);
    assert_eq!(Abort::from(Error::KeyMismatch).value(), 65_537);
    assert_eq!(Abort::User(u16::MAX).value(), 131_071);
}

#[test]
fn registry_rebinding_and_lookup() {
    let mut ctx = Context::new();
    let name = "k".to_string();
    assert_eq!(ctx.get_key(&name), None);
    ctx.put_key(name.clone(), Key::Hash(ContractHash { id: 3 }));
    ctx.put_key("other".to_string(), Key::Hash(ContractHash { id: 4 }));
    ctx.put_key(name.clone(), Key::Hash(ContractHash { id: 5 }));
    assert_eq!(ctx.get_key(&name), Some(Key::Hash(ContractHash { id: 5 })));
    assert_eq!(ctx.get_key(&"other".to_string()), Some(Key::Hash(ContractHash { id: 4 })));
    assert_eq!(ctx.dereference(&name), None);
    assert_eq!(ctx.read(URef { addr: 0 }), None);
}
