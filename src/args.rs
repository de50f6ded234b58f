use vstd::prelude::*;
use crate::error::Abort;

verus! {

/// A typed value handed to an invocation.
#[derive(Debug)]
pub enum CLValue {
    Unit,
    Bool(bool),
    U64(u64),
    String(String),
}

/// One runtime argument of an invocation.
#[derive(Debug)]
pub struct NamedArg {
    pub name: String,
    pub value: CLValue,
}

/// The value of the first argument called `name`, if there is one.
pub open spec fn arg_value(args: Seq<NamedArg>, name: Seq<char>) -> Option<CLValue>
    decreases args.len(),
{
    if args.len() == 0 {
        None
    } else if args[0].name@ == name {
        Some(args[0].value)
    } else {
        arg_value(args.drop_first(), name)
    }
}

/// What reading the argument `name` as a string gives: its text, or the
/// reason the invocation aborts.
pub open spec fn string_arg(args: Seq<NamedArg>, name: Seq<char>) -> Result<Seq<char>, Abort> {
    match arg_value(args, name) {
        None => Err(Abort::MissingArgument),
        Some(CLValue::String(s)) => Ok(s@),
        Some(_) => Err(Abort::InvalidArgument),
    }
}

/// Reads the argument `name` as a string.
pub fn get_named_arg(args: &Vec<NamedArg>, name: &String) -> (r: Result<String, Abort>)
    ensures
        r matches Ok(s) ==> string_arg(args@, name@) == Ok::<Seq<char>, Abort>(s@),
        r matches Err(e) ==> string_arg(args@, name@) == Err::<Seq<char>, Abort>(e),
{
    let mut i: usize = 0;
    assert(args@.subrange(0, args@.len() as int) =~= args@);
    while i < args.len()
        invariant
            i <= args@.len(),
            arg_value(args@, name@) == arg_value(args@.subrange(i as int, args@.len() as int), name@),
        decreases args@.len() - i,
    {
        let rest = Ghost(args@.subrange(i as int, args@.len() as int));
        assert(rest@.drop_first() =~= args@.subrange(i + 1, args@.len() as int));
        if args[i].name == *name {
            return match &args[i].value {
                CLValue::String(s) => Ok(s.clone()),
                _ => Err(Abort::InvalidArgument),
            };
        }
        i = i + 1;
    }
    Err(Abort::MissingArgument)
}

} // verus!
