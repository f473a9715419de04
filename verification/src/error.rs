//! How an attempt to bring up an instance can fail.

use vstd::prelude::*;

verus! {

/// Why an attempt to bring up an instance ended without one.
#[derive(Clone, Copy, Debug, PartialEq, Eq, Structural)]
pub enum BootstrapError {
    /// The driver loader could not be found, or did not answer.
    LoaderError,
    /// Diagnostics were asked for and the validation layer is not installed.
    MissingValidationLayer,
    /// The driver refused to create the instance, with this status code.
    InstanceCreationError(i32),
}

impl BootstrapError {
    /// What went wrong, in words.
    pub open spec fn spec_message(self) -> Seq<char> {
        match self {
            BootstrapError::LoaderError => "the graphics driver loader is not available"@,
            BootstrapError::MissingValidationLayer => "validation layers were enabled but the validation layer was not supported"@,
            BootstrapError::InstanceCreationError(_) => "the driver failed to create the instance"@,
        }
    }

    /// What went wrong, in words.
    pub fn message(&self) -> (text: &'static str)
        ensures
            text@ == self.spec_message(),
    {
        match self {
            BootstrapError::LoaderError => "the graphics driver loader is not available",
            BootstrapError::MissingValidationLayer => "validation layers were enabled but the validation layer was not supported",
            BootstrapError::InstanceCreationError(_) => "the driver failed to create the instance",
        }
    }
}

} // verus!
