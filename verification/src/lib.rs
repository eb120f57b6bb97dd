//! Hashers of many algorithms behind one contract: `update` takes bytes in, `finalize` gives the
//! digest of what was taken in, `reset` forgets it. The length of a digest is part of its type.
//!
//! `hasher` holds the contract and the model it is stated over, `laws` what follows from the
//! contract for every hasher. Each of the other modules holds the hashers of one family and
//! their digest type.
pub mod blake2b;
pub mod blake2s;
pub mod bytewise;
pub mod hasher;
pub mod identity;
pub mod laws;
pub mod sha1;
pub mod sha2;
pub mod sha3;
pub mod strobe;
pub mod unknown;
