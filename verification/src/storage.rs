//! Descriptions of the clients through which a subsystem reaches the
//! storage service. Storage is only ever reached through such a client.

use vstd::prelude::*;
use vstd::string::*;

verus! {

/// A client that reads from the storage service.
#[derive(Debug, PartialEq, Eq)]
pub struct StorageReadClient {
    /// Prefix of the names of the client's worker threads.
    pub env_name_prefix: String,
    /// Host of the storage service.
    pub address: String,
    /// Port of the storage service.
    pub port: u16,
}

impl Clone for StorageReadClient {
    fn clone(&self) -> (copy: Self)
        ensures
            copy == *self,
    {
        StorageReadClient {
            env_name_prefix: self.env_name_prefix.clone(),
            address: self.address.clone(),
            port: self.port,
        }
    }
}

/// A client that writes to the storage service.
#[derive(Clone, Debug, PartialEq, Eq)]
pub struct StorageWriteClient {
    /// Prefix of the names of the client's worker threads.
    pub env_name_prefix: String,
    /// Host of the storage service.
    pub address: String,
    /// Port of the storage service.
    pub port: u16,
    /// Largest message that the client accepts, if limited.
    pub grpc_max_receive_len: Option<i32>,
}

} // verus!
