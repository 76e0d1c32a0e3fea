//! Why an extraction can fail.

use vstd::prelude::*;

verus! {

/// Why an alias chain (a shortcut or an opaque identity) did not lead to an
/// icon.
#[derive(Clone, Copy, Debug, PartialEq, Eq, Structural)]
pub enum ResolutionCause {
    /// The shortcut names no target, or no shortcut carries the identity.
    NoTarget,
    /// The target was found but the platform has no icon for it.
    TargetNotFound,
    /// The target's icon could not be stored.
    TargetIo,
    /// The target's bitmap had an unexpected format.
    TargetFormat,
    /// The target is itself an alias whose chain did not resolve.
    TargetUnresolved,
    /// The target's extraction succeeded but recorded no icon, as for a
    /// target without extension.
    TargetNotCached,
    /// The chain of aliases is longer than [`crate::request::MAX_ALIAS_DEPTH`].
    TooDeep,
}

#[derive(Clone, Copy, Debug, PartialEq, Eq, Structural)]
pub enum IconError {
    /// The icon store could not be read or written.
    Io,
    /// No strategy that applies to the source has an icon for it.
    NotFound,
    /// The retrieved bitmap is not 32 bits deep or its buffer does not fit its
    /// size.
    Format,
    /// An alias chain could not be followed to a source with an icon.
    Resolution(ResolutionCause),
}

/// The cause recorded when the extraction of an alias's target ended in `e`.
pub open spec fn cause_of(e: IconError) -> ResolutionCause {
    match e {
        IconError::Io => ResolutionCause::TargetIo,
        IconError::NotFound => ResolutionCause::TargetNotFound,
        IconError::Format => ResolutionCause::TargetFormat,
        IconError::Resolution(_) => ResolutionCause::TargetUnresolved,
    }
}

impl IconError {
    /// The error of an alias whose target's extraction ended in `self`.
    pub fn as_cause(self) -> (cause: ResolutionCause)
        ensures
            cause == cause_of(self),
    {
        match self {
            IconError::Io => ResolutionCause::TargetIo,
            IconError::NotFound => ResolutionCause::TargetNotFound,
            IconError::Format => ResolutionCause::TargetFormat,
            IconError::Resolution(_) => ResolutionCause::TargetUnresolved,
        }
    }
}

} // verus!
