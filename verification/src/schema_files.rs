//! Naming for the exported JSON-schema documents of the public types.
//! The export tool itself writes files and lives outside this crate;
//! the file name each document goes under is decided here.

use vstd::prelude::*;
use vstd::string::StringExecFns;

verus! {

/// The file name of the schema document for a model: the model's name
/// with the `.schema.json` suffix.
pub fn get_schema_path(model_name: &str) -> (r: String)
    ensures
        r@ == model_name@ + ".schema.json"@,
{
    let mut r = String::from_str(model_name);
    r.append(".schema.json");
    r
}

} // verus!
