use vstd::prelude::*;

verus! {

/// Bytes of a derived storage key, published with each initial write.
pub const BYTES_PER_DERIVED_KEY: usize = 32;

/// Bytes of an enumeration index, published with each repeated write.
pub const BYTES_PER_ENUMERATION_INDEX: usize = 8;

/// Bytes of one initial storage write in the legacy encoding: key and value.
pub const INITIAL_STORAGE_WRITE_SIZE: usize = 64;

/// Bytes of one repeated storage write in the legacy encoding: index and value.
pub const REPEATED_STORAGE_WRITE_SIZE: usize = 40;

/// Bytes of one serialized L2 to L1 log: shard id, service flag, transaction
/// number, sender address, key and value.
pub const L2_TO_L1_LOG_SIZE: usize = 88;

} // verus!
