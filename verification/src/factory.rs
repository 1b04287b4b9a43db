//! Engine creation: name validation and the engine object path.
//!
//! The factory accepts exactly one engine name. A request for that name
//! yields the object path under which the engine is registered on the bus;
//! any other name is a protocol-level error reported to the caller.
use vstd::prelude::*;
use vstd::string::*;

verus! {

/// The single accepted engine name.
pub open spec fn spec_engine_name() -> Seq<char> {
    "pmim"@
}

/// The object path under which the engine is registered.
pub open spec fn spec_engine_path() -> Seq<char> {
    "/org/freedesktop/IBus/Engine/1"@
}

/// The error text for a rejected engine name.
pub open spec fn spec_unknown_name_err(name: Seq<char>) -> Seq<char> {
    "unknown name: "@ + name
}

/// Validates a requested engine name and returns the engine's object path.
///
/// Returns `Ok` with the object path exactly when `name` is the single
/// accepted engine name, and `Err` with an explanatory message otherwise.
pub fn create_engine_object_path(name: &str) -> (r: Result<String, String>)
    ensures
        r is Ok <==> name@ == spec_engine_name(),
        r matches Ok(p) ==> p@ == spec_engine_path(),
        r matches Err(e) ==> e@ == spec_unknown_name_err(name@),
{
    let requested = String::from_str(name);
    let accepted = String::from_str("pmim");
    if requested == accepted {
        Ok(String::from_str("/org/freedesktop/IBus/Engine/1"))
    } else {
        let mut e = String::from_str("unknown name: ");
        e.append(name);
        Err(e)
    }
}

} // verus!
