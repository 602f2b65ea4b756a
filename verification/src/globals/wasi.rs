//! The `WASI` object, for programs built for WebAssembly.

use vstd::prelude::*;
use crate::globals::{simple_global, with_header, Global};

verus! {

/// The `WASI` object, for programs built for WebAssembly.
#[allow(non_snake_case)]
pub fn WASIGlobal() -> (global: Global)
    ensures
        global@ == simple_global("WASI"@, "runtime/global_wasi.hpp"@, "create_WASI_global()"@),
        global.additional_headers is Some,
        global.init is None,
{
    with_header("WASI", "runtime/global_wasi.hpp", "create_WASI_global()")
}

} // verus!
