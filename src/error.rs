use vstd::prelude::*;

verus! {

/// The ways in which resolving, fetching or storing an asset can fail.
#[derive(Debug)]
pub enum Error {
    /// The request path was empty once a leading `/` was removed.
    EmptyKey,
    /// The index blob could not be decoded.
    DeserializeAssets(bincode::Error),
    /// The index could not be encoded.
    SerializeAssets(bincode::Error),
    /// The store answered a read with a non-success status: the key, then the status.
    KVKeyNotFound(String, u16),
    /// The HTTP exchange itself failed (connection, timeout, unreadable response).
    KVHttp(String),
    /// An expiration TTL below the store's minimum of sixty seconds was given.
    TTLTooShort,
    /// The store rejected a write; the text holds the key and the store's lists.
    Message(String),
}

} // verus!
