//! The values that operations take and return.

use vstd::prelude::*;

verus! {

/// An object, addressed by its container and its name in the container.
#[derive(Clone, Debug, PartialEq, Eq)]
pub struct ObjectId {
    /// The container, by a logical or physical name.
    pub container: String,
    /// The name of the object.
    pub object: String,
}

/// What is known of a container.
#[derive(Clone, Copy, Debug, PartialEq, Eq)]
pub struct ContainerMetadata {
    /// When the container was created, in seconds since the epoch; 0 where
    /// the backend does not tell.
    pub created_at: u64,
}

/// What is known of an object.
#[derive(Clone, Copy, Debug, PartialEq, Eq)]
pub struct ObjectMetadata {
    /// When the object was created, in seconds since the epoch; 0 where the
    /// backend does not tell.
    pub created_at: u64,
    /// The size of the object in bytes.
    pub size: u64,
}

} // verus!
