//! The envelopes Vault wraps a secret in, for the two versions of its
//! key/value engine.
use vstd::prelude::*;

verus! {

/// A KV version 1 answer: `data` holds the secret's fields directly.
pub struct VaultSchemaV1<T> {
    pub request_id: String,
    pub lease_id: String,
    pub renewable: bool,
    pub lease_duration: u32,
    pub data: T,
    pub wrap_info: Option<String>,
    pub warnings: Option<String>,
    pub auth: Option<String>,
}

/// A KV version 2 answer: the secret's fields sit one level deeper, in
/// `data.data`.
pub struct VaultSchemaV2<T> {
    pub request_id: String,
    pub lease_id: String,
    pub renewable: bool,
    pub lease_duration: u32,
    pub data: Data<T>,
    pub wrap_info: Option<String>,
    pub warnings: Option<String>,
    pub auth: Option<String>,
}

/// The inner wrapper of a KV version 2 answer.
pub struct Data<T> {
    pub data: T,
}

impl<T> VaultSchemaV1<T> {
    /// The secret this envelope carries.
    pub fn into_data(self) -> (r: T)
        ensures
            r == self.data,
    {
        self.data
    }
}

impl<T> VaultSchemaV2<T> {
    /// The secret this envelope carries, taken out of both levels.
    pub fn into_data(self) -> (r: T)
        ensures
            r == self.data.data,
    {
        self.data.data
    }
}

} // verus!
