//! Helpers for callers that debug their use of the function table.

use vstd::prelude::*;
use crate::lifecycle::TextHandle;

verus! {

/// Tells whether a handle is null: 1 if it is, 0 if it is not.
pub fn bls_is_null<T>(ptr: Option<&T>) -> (answer: i32)
    ensures
        answer == 1 <==> ptr is None,
        answer == 0 <==> ptr is Some,
{
    match ptr {
        None => 1,
        Some(_) => 0,
    }
}

/// The memory statistics of the library. A debug build answers with a
/// placeholder text, which the caller releases like any other text; any
/// other build has nothing to report and answers with no text. The text is
/// not meant to be parsed.
pub fn bls_get_memory_stats(debug_build: bool) -> (stats: TextHandle)
    ensures
        stats is Some <==> debug_build,
        stats is Some ==> stats->Some_0@ == "Memory stats not implemented yet"@,
{
    if debug_build {
        Some("Memory stats not implemented yet".to_owned())
    } else {
        None
    }
}

} // verus!
