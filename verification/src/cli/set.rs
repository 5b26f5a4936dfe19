//! `mitos-settings set <key> <value>`: which setting is to change, and to
//! the value written how.

use vstd::prelude::*;
use crate::cli::grants::args_view;
use crate::settings::schema::Schema;
use crate::settings::value::{parse_value, Value};

verus! {

/// The error for `set` without both a key and a value.
pub const SET_USAGE: &'static str = "usage: mitos-settings set <key> <value>";

/// A change `set` asks for: the key, and the value read for it.
#[derive(Debug, PartialEq)]
pub struct SetRequest {
    pub key: String,
    pub value: Value,
}

/// Reads the arguments of `set` against `schema`: the key and the value
/// are the first two; with fewer it is a usage error. A key the schema does
/// not hold is refused, and so is a value that cannot be read as the kind
/// of the first setting registered under the key; nothing reaches the
/// settings store in either case.
pub fn execute(schema: &Schema, args: &[String]) -> (r: Result<SetRequest, String>)
    ensures
        args@.len() < 2 ==> r is Err && r->Err_0@ == SET_USAGE@,
        args@.len() >= 2 ==> {
            let key = args_view(args@)[0];
            let raw = args_view(args@)[1];
            if forall|j: int| 0 <= j < schema@.specs.len() ==> schema@.specs[j].key != key {
                r is Err && r->Err_0@ == "unknown setting '"@ + key + "'"@
            } else {
                exists|i: int|
                    0 <= i < schema@.specs.len() && schema@.specs[i].key == key && (forall|j: int|
                        0 <= j < i ==> schema@.specs[j].key != key) && match parse_value(schema@.specs[i].kind, raw) {
                        Ok(v) => r matches Ok(req) && req.key@ == key && req.value@ == v,
                        Err(reason) => r matches Err(e) && e@ == "invalid value for '"@ + key + "': "@ + reason,
                    }
            }
        },
{
    if args.len() < 2 {
        return Err(String::from_str(SET_USAGE));
    }
    assert(args_view(args@)[0] == args@[0]@ && args_view(args@)[1] == args@[1]@);
    let key = args[0].as_str();
    match schema.get(key) {
        Some(spec) => match Value::parse(spec.kind, args[1].as_str()) {
            Ok(value) => Ok(SetRequest { key: args[0].clone(), value }),
            Err(reason) => Err(invalid_value(key, reason.as_str())),
        },
        None => {
            let mut msg = String::from_str("unknown setting '");
            msg.append(key);
            msg.append("'");
            Err(msg)
        },
    }
}

/// The error for a value that could not be read as the setting's kind.
pub fn invalid_value(key: &str, reason: &str) -> (r: String)
    ensures
        r@ == "invalid value for '"@ + key@ + "': "@ + reason@,
{
    let mut out = String::from_str("invalid value for '");
    out.append(key);
    out.append("': ");
    out.append(reason);
    out
}

/// What `set` prints once the store has taken the value.
pub fn updated_output(key: &str) -> (r: String)
    ensures
        r@ == "Updated "@ + key@ + "."@,
{
    let mut out = String::from_str("Updated ");
    out.append(key);
    out.append(".");
    out
}

} // verus!
