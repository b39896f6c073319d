//! Standard-library types that the library carries through without looking
//! inside them.
use vstd::prelude::*;

verus! {

/// A file-system path: stored and handed back unchanged.
#[verifier::external_type_specification]
#[verifier::external_body]
pub struct ExPathBuf(std::path::PathBuf);

/// The error of a failed file-system operation: stored and handed back unchanged.
#[verifier::external_type_specification]
#[verifier::external_body]
pub struct ExIoError(std::io::Error);

/// A lock around shared state: stored and handed back unchanged.
#[verifier::external_type_specification]
#[verifier::external_body]
#[verifier::reject_recursive_types(T)]
pub struct ExMutex<T: ?Sized>(std::sync::Mutex<T>);

} // verus!
