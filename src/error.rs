use vstd::prelude::*;

verus! {

/// Why a clipboard operation failed.
#[derive(Clone, Copy, Debug, PartialEq, Eq, Structural)]
pub enum ClipboardError {
    /// The calling thread could not be attached to the managed runtime.
    RuntimeAttachError,
    /// The clipboard service, or a class or method it needs, could not be resolved.
    ServiceUnavailable,
    /// Text could not be converted between the runtime's form and UTF-8.
    EncodingError,
    /// The runtime's clip object could not be built from the text.
    ClipConstructionError,
    /// The runtime refused or failed to install the new clip.
    InstallError,
}

} // verus!
