use vstd::prelude::*;

verus! {

/// The recoverable errors of this library.
#[derive(Clone, Copy, PartialEq, Eq, Hash, Debug, Structural)]
pub enum BenfordError {
    /// A zero value was offered for leading-digit extraction. Zero has no
    /// leading digit under Benford's law and is rejected rather than mapped
    /// to any digit.
    InvalidInput,
}

} // verus!
