//! Settings of the object store.
use vstd::prelude::*;

verus! {

/// Where and how objects are stored.
#[derive(Debug, PartialEq)]
pub struct ObjectStorage {
    pub cdn_endpoint: String,
    pub local_endpoint: String,
    pub secure: String,
    pub access_key: String,
    pub secret_key: String,
    pub bucket: String,
}

} // verus!
