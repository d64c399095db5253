use vstd::prelude::*;

use crate::error::ClipboardError;

verus! {

/// A capability to reach the platform clipboard.
///
/// It holds no state: every operation attaches to the runtime for its own
/// duration (see `protocol::Session`).
#[derive(Clone, Copy, Debug, PartialEq, Eq, Structural)]
pub struct AndroidClipboardContext;

impl AndroidClipboardContext {
    /// Makes the capability. No runtime call is made here, so this never
    /// fails: a runtime that cannot be reached shows at the first operation.
    pub fn new() -> (r: Result<AndroidClipboardContext, ClipboardError>)
        ensures
            r is Ok,
    {
        Ok(AndroidClipboardContext)
    }
}

} // verus!
