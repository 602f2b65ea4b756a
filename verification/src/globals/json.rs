//! The `JSON` object.

use vstd::prelude::*;
use crate::globals::{simple_global, with_header, Global};

verus! {

/// The `JSON` object.
pub fn json_global() -> (global: Global)
    ensures
        global@ == simple_global("JSON"@, "runtime/global_json.hpp"@, "create_JSON_global()"@),
        global.additional_headers is Some,
        global.init is None,
{
    with_header("JSON", "runtime/global_json.hpp", "create_JSON_global()")
}

} // verus!
