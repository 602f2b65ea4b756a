//! The `Symbol` object, which holds the well-known symbols.

use vstd::prelude::*;
use crate::globals::{simple_global, with_header, Global};

verus! {

/// The `Symbol` object, which holds the well-known symbols.
pub fn symbol_global() -> (global: Global)
    ensures
        global@ == simple_global("Symbol"@, "runtime/global_symbol.hpp"@, "create_symbol_global()"@),
        global.additional_headers is Some,
        global.init is None,
{
    with_header("Symbol", "runtime/global_symbol.hpp", "create_symbol_global()")
}

} // verus!
