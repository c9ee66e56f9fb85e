//! The two ways in which preparing credentials can fail. Both depend on the
//! input alone, so trying again with the same input fails again.

use vstd::prelude::*;

verus! {

/// Why a certificate descriptor could not be built.
///
/// Every value of this type reports a mistake in how certificate data was
/// embedded at build time, never a condition that arises at run time.
#[derive(Debug, Clone, Copy, PartialEq, Eq, Structural)]
pub enum ConfigurationError {
    /// The buffer handed in as PEM text holds no NUL byte at all.
    MissingNulTerminator,
}

impl ConfigurationError {
    /// A sentence for the person who embedded the data.
    pub fn message(&self) -> (r: &'static str)
        ensures
            r@ == "PEM certificates should end with a NIL (`\\0`) ASCII character."@,
    {
        match self {
            ConfigurationError::MissingNulTerminator => {
                "PEM certificates should end with a NIL (`\\0`) ASCII character."
            },
        }
    }
}

/// Why a key descriptor could not be turned into its long-lived form.
#[derive(Debug, Clone, Copy, PartialEq, Eq, Structural)]
pub enum ConversionError {
    /// The text holds a NUL character, so no C string can stand for it: a
    /// reader of the copy would stop at that character.
    InteriorNul,
}

} // verus!
