//! The `IO` object, through which scripts write to standard output.

use vstd::prelude::*;
use crate::globals::{simple_global, with_header, Global};

verus! {

/// The `IO` object, through which scripts write to standard output.
pub fn io_global() -> (global: Global)
    ensures
        global@ == simple_global("IO"@, "runtime/global_io.hpp"@, "create_IO_global()"@),
        global.additional_headers is Some,
        global.init is None,
{
    with_header("IO", "runtime/global_io.hpp", "create_IO_global()")
}

} // verus!
