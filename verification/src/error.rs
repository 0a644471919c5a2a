use vstd::prelude::*;

verus! {

/// Why a bitmap could not be built.
#[derive(Clone, Copy, Debug, PartialEq, Eq, Structural)]
pub enum NwgError {
    /// The builder had no source to load from.
    ConfigurationError,
    /// The platform produced no handle for the selected source.
    LoadError,
    /// The platform produced no handle when the transparency key was applied.
    TransformError,
}

impl NwgError {
    /// The text shown for each kind of failure.
    pub open spec fn spec_message(self) -> Seq<char> {
        match self {
            NwgError::ConfigurationError => "No source provided for Bitmap"@,
            NwgError::LoadError => "Failed to load the bitmap from its source"@,
            NwgError::TransformError => "Failed to apply the transparency key to the bitmap"@,
        }
    }

    /// A description of the failure for the user.
    pub fn message(&self) -> (text: &'static str)
        ensures
            text@ == self.spec_message(),
    {
        match self {
            NwgError::ConfigurationError => "No source provided for Bitmap",
            NwgError::LoadError => "Failed to load the bitmap from its source",
            NwgError::TransformError => "Failed to apply the transparency key to the bitmap",
        }
    }
}

} // verus!
