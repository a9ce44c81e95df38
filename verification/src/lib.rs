//! Authentication core: issuance, verification, rotation and revocation of
//! signed bearer tokens, coordinated with a key-value revocation store.
//!
//! The library is split into:
//! - `codec`: issuing and verifying signed claims (the token codec),
//! - `hashing`: password hashing and checking,
//! - `store`: the revocation/cache store interface and an in-memory backend,
//! - `identity`: the identity store interface and an in-memory backend,
//! - `manager`: the register/login/refresh/logout/verify-email protocol,
//! - `gate`: the request-time access-control guards,
//! - `handlers`: the payloads built behind the gates,
//! - `laws`: proved statements relating the operations above.

pub mod codec;
pub mod hashing;
pub mod store;
pub mod identity;
pub mod manager;
pub mod gate;
pub mod handlers;
pub mod laws;
