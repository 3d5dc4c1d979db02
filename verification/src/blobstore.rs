//! Storage of named byte objects in named containers.

use crate::poll::Poll;
use vstd::prelude::*;
use vstd::string::*;

verus! {

/// Blob storage errors.
#[derive(Debug)]
pub enum Error {
    ContainerNotFound(String),
    ObjectNotFound(String),
    ContainerExists(String),
    Store(String),
}

impl Error {
    /// The text that describes this error.
    pub open spec fn text(&self) -> Seq<char> {
        match self {
            Error::ContainerNotFound(name) => "container not found: "@ + name@,
            Error::ObjectNotFound(name) => "object not found: "@ + name@,
            Error::ContainerExists(name) => "container already exists: "@ + name@,
            Error::Store(msg) => "store error: "@ + msg@,
        }
    }

    /// Describes the error in words.
    pub fn to_string(&self) -> (s: String)
        ensures
            s@ == self.text(),
    {
        match self {
            Error::ContainerNotFound(name) => "container not found: ".to_owned().concat(
                name.as_str(),
            ),
            Error::ObjectNotFound(name) => "object not found: ".to_owned().concat(name.as_str()),
            Error::ContainerExists(name) => "container already exists: ".to_owned().concat(
                name.as_str(),
            ),
            Error::Store(msg) => "store error: ".to_owned().concat(msg.as_str()),
        }
    }
}

/// Metadata for a stored object.
#[derive(Debug, Clone)]
pub struct ObjectMeta {
    /// Object name/key.
    pub name: String,
    /// Size in bytes.
    pub size: u64,
    /// When the object was created (Unix timestamp).
    pub created_at: Option<u64>,
}

/// A blob storage container.
pub trait Container {
    /// Get object data.
    fn get(&self, name: &str) -> Poll<Result<Vec<u8>, Error>>;

    /// Store object data.
    fn put(&self, name: &str, data: &[u8]) -> Poll<Result<(), Error>>;

    /// Delete an object.
    fn delete(&self, name: &str) -> Poll<Result<(), Error>>;

    /// Check if an object exists.
    fn object_exists(&self, name: &str) -> Poll<Result<bool, Error>>;

    /// List objects in the container.
    fn list(&self) -> Poll<Result<Vec<ObjectMeta>, Error>>;

    /// Get object metadata.
    fn metadata(&self, name: &str) -> Poll<Result<ObjectMeta, Error>>;

    /// Copy an object within this container.
    fn copy(&self, src: &str, dst: &str) -> Poll<Result<(), Error>>;
}

/// A blob store that manages containers.
pub trait BlobStore {
    /// The container type.
    type Container: Container;

    /// Create a new container.
    fn create_container(&self, name: &str) -> Poll<Result<(), Error>>;

    /// Delete a container.
    fn delete_container(&self, name: &str) -> Poll<Result<(), Error>>;

    /// Get a container by name.
    fn container(&self, name: &str) -> Poll<Result<Self::Container, Error>>;

    /// Check if a container exists.
    fn container_exists(&self, name: &str) -> Poll<Result<bool, Error>>;

    /// List all containers.
    fn list_containers(&self) -> Poll<Result<Vec<String>, Error>>;
}

} // verus!
