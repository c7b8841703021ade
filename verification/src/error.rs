use vstd::prelude::*;

verus! {

/// The ways in which a catalog operation is rejected.
#[derive(Clone, Copy, Debug, PartialEq, Eq, Structural)]
pub enum KernelError {
    /// No descriptor of the catalog has the name that was asked for.
    UnknownKernelName,
    /// Two descriptors handed to a catalog share a name.
    DuplicateKernelName,
    /// A declared dependency has no definition among the shared functions.
    UnresolvedDependency,
}

} // verus!
